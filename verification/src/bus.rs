//! The address bus: the one place where a 16-bit address is decoded. It
//! owns the work RAM, the cartridge and the video unit.
use vstd::prelude::*;
use vstd::slice::slice_to_vec;
use crate::cartridge::fills_program_window;
use crate::cartridge::Cartridge;
use crate::cartridge::CartridgeView;
use crate::fault::Fault;
use crate::ppu::lemma_registers_keep_wf;
use crate::ppu::PPUStatusFlags;
use crate::ppu::PpuState;
use crate::ppu::PPU;

verus! {

/// First address past the work RAM and its mirrors.
pub const RAM_END: u16 = 0x2000;

/// First address of the video unit's registers.
pub const PPU_REGISTERS: u16 = 0x2000;

/// First address past the video unit's registers and their mirrors.
pub const PPU_REGISTERS_END: u16 = 0x4000;

/// First address of the cartridge's program ROM.
pub const ROM_START: u16 = 0x8000;

/// The register of the video unit that an address in the register range
/// selects, as the address of its first image.
pub open spec fn register_address(addr: u16) -> u16 {
    (PPU_REGISTERS + addr % 8) as u16
}

/// The state of the bus and of what it owns.
#[verifier::ext_equal]
pub struct BusState {
    pub ram: Seq<u8>,
    pub cartridge: CartridgeView,
    pub ppu: PpuState,
    /// The address of the latest access that nothing answered, until it is
    /// taken away.
    pub unmapped: Option<u16>,
}

impl BusState {
    /// The work RAM has its size, the video unit is well-formed and the
    /// program ROM fills its window.
    pub open spec fn wf(self) -> bool {
        &&& self.ram.len() == 2048
        &&& self.ppu.wf()
        &&& fills_program_window(self.cartridge)
    }

    /// The bus at power-on, with a cartridge in place.
    pub open spec fn power_on(cartridge: CartridgeView) -> BusState {
        BusState {
            ram: Seq::new(2048, |i: int| 0u8),
            cartridge,
            ppu: PpuState::power_on(cartridge.chr_rom, cartridge.mirroring),
            unmapped: None,
        }
    }

    /// The program-ROM byte behind an address of the ROM window. A 16KB
    /// image answers in both halves of the window.
    pub open spec fn prg_byte(self, addr: u16) -> u8 {
        let offset = addr - ROM_START;
        if self.cartridge.prg_rom.len() == 0x4000 {
            self.cartridge.prg_rom[offset % 0x4000]
        } else {
            self.cartridge.prg_rom[offset]
        }
    }

    /// The bus after an access that nothing answered.
    pub open spec fn note_unmapped(self, addr: u16) -> BusState {
        BusState { unmapped: Some(addr), ..self }
    }

    /// A read of a register of the video unit.
    pub open spec fn read_register(self, addr: u16) -> (BusState, Result<u8, Fault>) {
        let register = addr % 8;
        if register == 2 {
            let (ppu, status) = self.ppu.read_status();
            (BusState { ppu, ..self }, Ok(status))
        } else if register == 4 {
            (self.note_unmapped(register_address(addr)), Ok(0u8))
        } else if register == 7 {
            let (ppu, r) = self.ppu.read_data();
            (BusState { ppu, ..self }, r)
        } else {
            (self, Err(Fault::WriteOnlyRead { addr: register_address(addr) }))
        }
    }

    /// A write to a register of the video unit.
    pub open spec fn write_register(self, addr: u16, data: u8) -> (BusState, Result<(), Fault>) {
        let register = addr % 8;
        if register == 0 {
            (BusState { ppu: self.ppu.write_control(data), ..self }, Ok(()))
        } else if register == 1 {
            (BusState { ppu: self.ppu.write_mask(data), ..self }, Ok(()))
        } else if register == 2 {
            (self, Err(Fault::ReadOnlyWrite { addr: register_address(addr) }))
        } else if register == 6 {
            (BusState { ppu: self.ppu.write_address(data), ..self }, Ok(()))
        } else if register == 7 {
            let (ppu, r) = self.ppu.write_data(data);
            (BusState { ppu, ..self }, r)
        } else {
            (self, Err(Fault::Unimplemented { addr: register_address(addr) }))
        }
    }

    /// A read: what it returns and what it leaves behind.
    #[verifier::opaque]
    pub open spec fn read(self, addr: u16) -> (BusState, Result<u8, Fault>) {
        if addr < RAM_END {
            (self, Ok(self.ram[addr as int % 0x0800]))
        } else if addr < PPU_REGISTERS_END {
            self.read_register(addr)
        } else if addr >= ROM_START {
            (self, Ok(self.prg_byte(addr)))
        } else {
            (self.note_unmapped(addr), Ok(0u8))
        }
    }

    /// A write: whether it is accepted and what it leaves behind.
    #[verifier::opaque]
    pub open spec fn write(self, addr: u16, data: u8) -> (BusState, Result<(), Fault>) {
        if addr < RAM_END {
            (BusState { ram: self.ram.update(addr as int % 0x0800, data), ..self }, Ok(()))
        } else if addr < PPU_REGISTERS_END {
            self.write_register(addr, data)
        } else if addr >= ROM_START {
            (self, Err(Fault::RomWrite { addr }))
        } else {
            (self.note_unmapped(addr), Ok(()))
        }
    }

    /// One pulse of the video unit.
    pub open spec fn tick_ppu(self) -> BusState {
        BusState { ppu: self.ppu.tick(), ..self }
    }

    /// The video unit's interrupt request taken away.
    pub open spec fn acknowledge_nmi(self) -> BusState {
        BusState { ppu: self.ppu.acknowledge_nmi(), ..self }
    }
}

/// The bus.
pub struct Bus {
    cpu_vram: [u8; 2048],
    cartridge: Cartridge,
    ppu: PPU,
    unmapped: Option<u16>,
}

impl View for Bus {
    type V = BusState;

    /// What the bus holds, as contracts speak of it.
    closed spec fn view(&self) -> BusState {
        BusState {
            ram: self.cpu_vram@,
            cartridge: self.cartridge@,
            ppu: self.ppu@,
            unmapped: self.unmapped,
        }
    }
}

impl Bus {
    /// Every value of the type is well-formed.
    #[verifier::type_invariant]
    spec fn inv(self) -> bool {
        self@.wf()
    }

    /// A bus at power-on, with the cartridge in place and the video unit
    /// over the cartridge's graphics ROM.
    pub fn new(cartridge: Cartridge) -> (bus: Bus)
        requires
            fills_program_window(cartridge@),
        ensures
            bus@ == BusState::power_on(cartridge@),
            bus@.wf(),
    {
        let chr_rom = slice_to_vec(cartridge.chr_rom().as_slice());
        let ppu = PPU::new(chr_rom, cartridge.mirroring());
        Bus { cpu_vram: [0; 2048], cartridge, ppu, unmapped: None }
    }

    /// Reads the byte at an address.
    pub fn mem_read(&mut self, addr: u16) -> (r: Result<u8, Fault>)
        ensures
            (final(self)@, r) == old(self)@.read(addr),
            final(self)@.wf(),
    {
        proof {
            use_type_invariant(&*self);
            reveal(BusState::read);
        }
        if addr < RAM_END {
            Ok(self.cpu_vram[(addr % 0x0800) as usize])
        } else if addr < PPU_REGISTERS_END {
            let register: u16 = addr % 8;
            if register == 2 {
                Ok(self.ppu.read_status_register())
            } else if register == 4 {
                self.unmapped = Some(PPU_REGISTERS + register);
                Ok(0)
            } else if register == 7 {
                self.ppu.read_data()
            } else {
                Err(Fault::WriteOnlyRead { addr: PPU_REGISTERS + register })
            }
        } else if addr >= ROM_START {
            Ok(self.read_prg_rom(addr))
        } else {
            self.unmapped = Some(addr);
            Ok(0)
        }
    }

    /// Writes a byte at an address.
    pub fn mem_write(&mut self, addr: u16, data: u8) -> (r: Result<(), Fault>)
        ensures
            (final(self)@, r) == old(self)@.write(addr, data),
            final(self)@.wf(),
    {
        proof {
            use_type_invariant(&*self);
            reveal(BusState::write);
        }
        if addr < RAM_END {
            self.cpu_vram[(addr % 0x0800) as usize] = data;
            Ok(())
        } else if addr < PPU_REGISTERS_END {
            let register: u16 = addr % 8;
            if register == 0 {
                self.ppu.write_to_control_register(data);
                Ok(())
            } else if register == 1 {
                self.ppu.write_to_mask_register(data);
                Ok(())
            } else if register == 2 {
                Err(Fault::ReadOnlyWrite { addr: PPU_REGISTERS + register })
            } else if register == 6 {
                self.ppu.write_to_address_register(data);
                Ok(())
            } else if register == 7 {
                self.ppu.write_data(data)
            } else {
                Err(Fault::Unimplemented { addr: PPU_REGISTERS + register })
            }
        } else if addr >= ROM_START {
            Err(Fault::RomWrite { addr })
        } else {
            self.unmapped = Some(addr);
            Ok(())
        }
    }

    /// Reads the program-ROM byte behind an address of the ROM window.
    pub fn read_prg_rom(&self, addr: u16) -> (byte: u8)
        requires
            addr >= ROM_START,
        ensures
            byte == self@.prg_byte(addr),
    {
        proof {
            use_type_invariant(self);
        }
        let mut offset: u16 = addr - ROM_START;
        let prg_rom = self.cartridge.prg_rom();
        if prg_rom.len() == 0x4000 && offset >= 0x4000 {
            offset = offset - 0x4000;
        }
        prg_rom[offset as usize]
    }

    /// Advances the video unit by one pulse.
    pub fn clock_ppu(&mut self)
        ensures
            final(self)@ == old(self)@.tick_ppu(),
            final(self)@.wf(),
    {
        proof {
            use_type_invariant(&*self);
        }
        self.ppu.clock();
    }

    /// Takes the video unit's pending interrupt request, if there is one.
    pub fn take_nmi(&mut self) -> (pending: bool)
        ensures
            pending == old(self)@.ppu.nmi,
            final(self)@ == old(self)@.acknowledge_nmi(),
            final(self)@.wf(),
    {
        proof {
            use_type_invariant(&*self);
        }
        self.ppu.take_nmi()
    }

    /// Takes the address of the latest access that nothing answered, if
    /// there was one since the last call.
    pub fn take_unmapped(&mut self) -> (addr: Option<u16>)
        ensures
            addr == old(self)@.unmapped,
            final(self)@ == (BusState { unmapped: None, ..old(self)@ }),
            final(self)@.wf(),
    {
        proof {
            use_type_invariant(&*self);
        }
        let addr = self.unmapped;
        self.unmapped = None;
        addr
    }

    /// The work RAM.
    pub fn ram(&self) -> (ram: &[u8; 2048])
        ensures
            ram@ == self@.ram,
    {
        &self.cpu_vram
    }

    /// The cartridge.
    pub fn cartridge(&self) -> (cartridge: &Cartridge)
        ensures
            cartridge@ == self@.cartridge,
            fills_program_window(cartridge@),
    {
        proof {
            use_type_invariant(self);
        }
        &self.cartridge
    }

    /// The video unit.
    pub fn ppu(&self) -> (ppu: &PPU)
        ensures
            ppu@ == self@.ppu,
            ppu@.wf(),
    {
        proof {
            use_type_invariant(self);
        }
        &self.ppu
    }
}

/// What the bus does in the work RAM and in the ROM window: RAM accesses
/// never fault and touch the one byte behind the address; ROM reads never
/// fault and change nothing.
pub proof fn lemma_ram_and_rom(s: BusState, addr: u16, data: u8)
    ensures
        addr < RAM_END ==> s.read(addr) == (s, Ok::<u8, Fault>(s.ram[addr as int % 0x0800])),
        addr < RAM_END ==> s.write(addr, data) == (
            BusState { ram: s.ram.update(addr as int % 0x0800, data), ..s },
            Ok::<(), Fault>(()),
        ),
        addr >= ROM_START ==> s.read(addr) == (s, Ok::<u8, Fault>(s.prg_byte(addr))),
        addr >= ROM_START ==> s.write(addr, data) == (
            s,
            Err::<(), Fault>(Fault::RomWrite { addr }),
        ),
{
    reveal(BusState::read);
    reveal(BusState::write);
}

/// A byte written to the work RAM is read back at the address and at each
/// of its mirrors, 0x0800 apart.
pub proof fn lemma_ram_mirroring(s: BusState, addr: u16, mirror: u16, data: u8)
    requires
        s.wf(),
        addr < RAM_END,
        mirror < RAM_END,
        mirror % 0x0800 == addr % 0x0800,
    ensures
        s.write(addr, data).1 == Ok::<(), Fault>(()),
        s.write(addr, data).0.read(mirror).1 == Ok::<u8, Fault>(data),
        s.write(addr, data).0.wf(),
{
    reveal(BusState::read);
    reveal(BusState::write);
}

/// An access to a register of the video unit does the same at each of the
/// register's images, 8 bytes apart through the register range.
pub proof fn lemma_register_mirroring(s: BusState, addr: u16, data: u8)
    requires
        PPU_REGISTERS <= addr < PPU_REGISTERS_END,
    ensures
        s.write(addr, data) == s.write(register_address(addr), data),
        s.read(addr) == s.read(register_address(addr)),
{
    reveal(BusState::read);
    reveal(BusState::write);
}

/// A 16KB program ROM answers alike in both halves of the ROM window.
pub proof fn lemma_program_rom_mirroring(s: BusState, addr: u16)
    requires
        s.cartridge.prg_rom.len() == 0x4000,
        ROM_START <= addr < 0xC000,
    ensures
        s.read(addr) == s.read((addr + 0x4000) as u16),
        s.read(addr) == (s, Ok::<u8, Fault>(s.cartridge.prg_rom[addr - ROM_START])),
{
    reveal(BusState::read);
}

/// No access takes the bus out of its well-formed states, and none
/// changes the cartridge or the graphics ROM: ROM is read-only.
pub proof fn lemma_access_keeps_rom(s: BusState, addr: u16, data: u8)
    ensures
        s.read(addr).0.cartridge == s.cartridge,
        s.write(addr, data).0.cartridge == s.cartridge,
        s.read(addr).0.ppu.chr_rom == s.ppu.chr_rom,
        s.write(addr, data).0.ppu.chr_rom == s.ppu.chr_rom,
        s.wf() ==> s.read(addr).0.wf() && s.write(addr, data).0.wf(),
{
    reveal(BusState::read);
    reveal(BusState::write);
    if s.wf() {
        lemma_registers_keep_wf(s.ppu, data, PPUStatusFlags::VerticalBlank, false);
    }
}

} // verus!
