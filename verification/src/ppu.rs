//! The video unit: its register bank, the memory behind its data register and
//! the scanline/cycle automaton that paces a frame.
use vstd::prelude::*;
use crate::cartridge::Mirroring;
use crate::fault::Fault;

verus! {

/// Bits of the status register.
#[derive(Clone, Copy, PartialEq, Eq, Structural, Debug)]
pub enum PPUStatusFlags {
    SpriteOverflow,
    SpriteZeroHit,
    VerticalBlank,
}

impl PPUStatusFlags {
    /// The bit of the status register that the flag occupies.
    pub open spec fn bit(self) -> u8 {
        match self {
            PPUStatusFlags::SpriteOverflow => 0x20,
            PPUStatusFlags::SpriteZeroHit => 0x40,
            PPUStatusFlags::VerticalBlank => 0x80,
        }
    }

    /// The flag's bit as a mask.
    pub fn mask(self) -> (m: u8)
        ensures
            m == self.bit(),
        no_unwind
    {
        match self {
            PPUStatusFlags::SpriteOverflow => 0x20,
            PPUStatusFlags::SpriteZeroHit => 0x40,
            PPUStatusFlags::VerticalBlank => 0x80,
        }
    }
}

/// Bits of the control register.
#[derive(Clone, Copy, PartialEq, Eq, Structural, Debug)]
pub enum PPUControlFlags {
    NametableX,
    NametableY,
    IncrementMode,
    PatternSprite,
    PatternBackground,
    SpriteSize,
    SlaveMode,
    EnableNMI,
}

impl PPUControlFlags {
    /// The bit of the control register that the flag occupies.
    pub open spec fn bit(self) -> u8 {
        match self {
            PPUControlFlags::NametableX => 0x01,
            PPUControlFlags::NametableY => 0x02,
            PPUControlFlags::IncrementMode => 0x04,
            PPUControlFlags::PatternSprite => 0x08,
            PPUControlFlags::PatternBackground => 0x10,
            PPUControlFlags::SpriteSize => 0x20,
            PPUControlFlags::SlaveMode => 0x40,
            PPUControlFlags::EnableNMI => 0x80,
        }
    }

    /// The flag's bit as a mask.
    pub fn mask(self) -> (m: u8)
        ensures
            m == self.bit(),
        no_unwind
    {
        match self {
            PPUControlFlags::NametableX => 0x01,
            PPUControlFlags::NametableY => 0x02,
            PPUControlFlags::IncrementMode => 0x04,
            PPUControlFlags::PatternSprite => 0x08,
            PPUControlFlags::PatternBackground => 0x10,
            PPUControlFlags::SpriteSize => 0x20,
            PPUControlFlags::SlaveMode => 0x40,
            PPUControlFlags::EnableNMI => 0x80,
        }
    }
}

/// What a renderer is due to do at a position of the frame grid.
#[derive(Clone, Copy, PartialEq, Eq, Structural, Debug)]
pub enum FrameEvent {
    /// Cycles 1 to 256 of a visible scanline: background work.
    Background,
    /// Cycle 257 of a visible scanline: sprite evaluation.
    SpriteEvaluation,
    /// Cycles 321 to 336 of a visible scanline: prefetch for the next line.
    Prefetch,
    /// Scanline 241, cycle 1: the vertical blank begins.
    VblankStart,
    /// Nothing is due.
    Idle,
}

/// Number of cycles in a scanline.
pub const CYCLES_PER_SCANLINE: u16 = 341;

/// Number of scanlines in a frame.
pub const SCANLINES_PER_FRAME: u16 = 262;

/// Number of pulses in a frame.
pub const PULSES_PER_FRAME: u32 = 89342;

/// The event due at a position of the frame grid.
pub open spec fn frame_event(scanline: nat, cycle: nat) -> FrameEvent {
    if scanline <= 239 {
        if 1 <= cycle <= 256 {
            FrameEvent::Background
        } else if cycle == 257 {
            FrameEvent::SpriteEvaluation
        } else if 321 <= cycle <= 336 {
            FrameEvent::Prefetch
        } else {
            FrameEvent::Idle
        }
    } else if scanline == 241 && cycle == 1 {
        FrameEvent::VblankStart
    } else {
        FrameEvent::Idle
    }
}

/// Index into the 2KB of video RAM of a nametable address. The address is
/// taken by its offset in the 4KB nametable window; the four 1KB tables of
/// the window fold onto two banks.
pub open spec fn nametable_index(mirroring: Mirroring, addr: u16) -> int {
    let offset = addr as int % 0x1000;
    let table = offset / 0x400;
    match mirroring {
        Mirroring::Vertical => if table >= 2 {
            offset - 0x800
        } else {
            offset
        },
        Mirroring::Horizontal => if table == 0 {
            offset
        } else if table == 3 {
            offset - 0x800
        } else {
            offset - 0x400
        },
    }
}

/// The state of the video unit.
#[verifier::ext_equal]
pub struct PpuState {
    pub chr_rom: Seq<u8>,
    pub vram: Seq<u8>,
    pub oam: Seq<u8>,
    pub palette: Seq<u8>,
    pub address: u16,
    /// True when the next write to the address register is the high byte.
    pub latch: bool,
    pub control: u8,
    pub nmi: bool,
    pub mask: u8,
    pub status: u8,
    pub data_buffer: u8,
    pub mirroring: Mirroring,
    pub scanline: nat,
    pub cycle: nat,
}

impl PpuState {
    /// The memories have their sizes, the address register is within the
    /// 14-bit video space and the position is on the frame grid.
    pub open spec fn wf(self) -> bool {
        &&& self.vram.len() == 2048
        &&& self.oam.len() == 256
        &&& self.palette.len() == 32
        &&& self.address <= 0x3FFF
        &&& self.scanline < SCANLINES_PER_FRAME
        &&& self.cycle < CYCLES_PER_SCANLINE
    }

    /// The state at power-on.
    pub open spec fn power_on(chr_rom: Seq<u8>, mirroring: Mirroring) -> PpuState {
        PpuState {
            chr_rom,
            vram: Seq::new(2048, |i: int| 0u8),
            oam: Seq::new(256, |i: int| 0u8),
            palette: Seq::new(32, |i: int| 0u8),
            address: 0,
            latch: true,
            control: 0,
            nmi: false,
            mask: 0,
            status: 0,
            data_buffer: 0,
            mirroring,
            scanline: 0,
            cycle: 0,
        }
    }

    /// The vertical-blank flag of the status register.
    pub open spec fn vblank(self) -> bool {
        self.status & 0x80 != 0
    }

    /// The control register asks for an interrupt at the vertical blank.
    pub open spec fn nmi_enabled(self) -> bool {
        self.control & 0x80 != 0
    }

    /// Number of pulses since the start of the frame.
    pub open spec fn position(self) -> nat {
        self.scanline * 341 + self.cycle
    }

    /// A write to the address register: the high byte while the latch is
    /// set, the low byte otherwise, the result kept within 14 bits.
    pub open spec fn write_address(self, data: u8) -> PpuState {
        let raw: int = if self.latch {
            data * 256 + self.address % 256
        } else {
            self.address / 256 * 256 + data
        };
        PpuState { address: (raw % 0x4000) as u16, latch: !self.latch, ..self }
    }

    /// The address register advanced, wrapping within 14 bits.
    pub open spec fn increment_address(self, increment: u8) -> PpuState {
        PpuState { address: ((self.address + increment) % 0x4000) as u16, ..self }
    }

    /// The step of the data register: 32 when the control register's increment
    /// bit is set, 1 otherwise.
    pub open spec fn vram_step(self) -> u8 {
        if self.control & 0x04 == 0 {
            1
        } else {
            32
        }
    }

    /// The address register after one access through the data register.
    pub open spec fn step_address(self) -> PpuState {
        self.increment_address(self.vram_step())
    }

    /// A write to the control register.
    pub open spec fn write_control(self, data: u8) -> PpuState {
        PpuState { control: data, ..self }
    }

    /// A write to the mask register.
    pub open spec fn write_mask(self, data: u8) -> PpuState {
        PpuState { mask: data, ..self }
    }

    /// One status flag set or cleared.
    pub open spec fn set_status_flag(self, flag: PPUStatusFlags, value: bool) -> PpuState {
        PpuState {
            status: if value {
                self.status | flag.bit()
            } else {
                self.status & !flag.bit()
            },
            ..self
        }
    }

    /// A read of the status register: the top three status bits over the
    /// low five bits of the data buffer. The read clears the vertical-blank
    /// flag and sets the address latch.
    pub open spec fn read_status(self) -> (PpuState, u8) {
        (
            PpuState {
                latch: true,
                ..self.set_status_flag(PPUStatusFlags::VerticalBlank, false)
            },
            (self.status & 0xE0) | (self.data_buffer & 0x1F),
        )
    }

    /// A read through the data register. The address register advances first.
    /// Pattern and nametable reads return the buffered byte and refill the
    /// buffer; palette reads return the palette byte at once.
    pub open spec fn read_data(self) -> (PpuState, Result<u8, Fault>) {
        let s = self.step_address();
        let a = s.address;
        if a < 0x2000 {
            if a < s.chr_rom.len() {
                (PpuState { data_buffer: s.chr_rom[a as int], ..s }, Ok(s.data_buffer))
            } else {
                (s, Err(Fault::VideoUnmapped { addr: a }))
            }
        } else if a < 0x3000 {
            (
                PpuState { data_buffer: s.vram[nametable_index(s.mirroring, a)], ..s },
                Ok(s.data_buffer),
            )
        } else if a < 0x3F00 {
            (s, Err(Fault::VideoUnmapped { addr: a }))
        } else {
            (s, Ok(s.palette[(a - 0x3F00) % 32]))
        }
    }

    /// A write through the data register: the byte is stored at the address
    /// register, which then advances.
    pub open spec fn write_data(self, data: u8) -> (PpuState, Result<(), Fault>) {
        let a = self.address;
        if a < 0x2000 {
            (self, Err(Fault::RomWrite { addr: a }))
        } else if a < 0x3000 {
            (
                PpuState {
                    vram: self.vram.update(nametable_index(self.mirroring, a), data),
                    ..self
                }.step_address(),
                Ok(()),
            )
        } else if a < 0x3F00 {
            (self, Err(Fault::VideoUnmapped { addr: a }))
        } else {
            (
                PpuState {
                    palette: self.palette.update((a - 0x3F00) % 32, data),
                    ..self
                }.step_address(),
                Ok(()),
            )
        }
    }

    /// The pending interrupt request taken away.
    pub open spec fn acknowledge_nmi(self) -> PpuState {
        PpuState { nmi: false, ..self }
    }

    /// One pulse. At scanline 241, cycle 1 the vertical-blank flag is set
    /// and, if the control register asks for it, the interrupt request is
    /// raised. Then the position advances; past the last scanline it returns
    /// to the origin and the vertical-blank flag is cleared.
    pub open spec fn tick(self) -> PpuState {
        let begins = frame_event(self.scanline, self.cycle) == FrameEvent::VblankStart;
        let s = if begins {
            PpuState {
                nmi: self.nmi || self.nmi_enabled(),
                ..self.set_status_flag(PPUStatusFlags::VerticalBlank, true)
            }
        } else {
            self
        };
        if s.cycle + 1 < CYCLES_PER_SCANLINE {
            PpuState { cycle: s.cycle + 1, ..s }
        } else if s.scanline + 1 < SCANLINES_PER_FRAME {
            PpuState { cycle: 0, scanline: s.scanline + 1, ..s }
        } else {
            PpuState {
                cycle: 0,
                scanline: 0,
                ..s.set_status_flag(PPUStatusFlags::VerticalBlank, false)
            }
        }
    }

    /// A number of pulses in a row.
    pub open spec fn ticks(self, n: nat) -> PpuState
        decreases n,
    {
        if n == 0 {
            self
        } else {
            self.tick().ticks((n - 1) as nat)
        }
    }
}

/// The video unit.
pub struct PPU {
    chr_rom: Vec<u8>,
    vram: [u8; 2048],
    oam: [u8; 256],
    palette: [u8; 32],
    address_register: u16,
    address_latch: bool,
    control_register: u8,
    nmi: bool,
    mask_register: u8,
    status_register: u8,
    data_buffer: u8,
    mirroring: Mirroring,
    scanline: u16,
    cycle: u16,
}

impl View for PPU {
    type V = PpuState;

    /// What the unit holds, as contracts speak of it.
    closed spec fn view(&self) -> PpuState {
        PpuState {
            chr_rom: self.chr_rom@,
            vram: self.vram@,
            oam: self.oam@,
            palette: self.palette@,
            address: self.address_register,
            latch: self.address_latch,
            control: self.control_register,
            nmi: self.nmi,
            mask: self.mask_register,
            status: self.status_register,
            data_buffer: self.data_buffer,
            mirroring: self.mirroring,
            scanline: self.scanline as nat,
            cycle: self.cycle as nat,
        }
    }
}

impl PPU {
    /// Every value of the type is well-formed.
    #[verifier::type_invariant]
    spec fn inv(self) -> bool {
        self@.wf()
    }

    /// A video unit at power-on, over the cartridge's graphics ROM.
    pub fn new(chr_rom: Vec<u8>, mirroring: Mirroring) -> (ppu: PPU)
        ensures
            ppu@ == PpuState::power_on(chr_rom@, mirroring),
            ppu@.wf(),
    {
        PPU {
            chr_rom,
            vram: [0; 2048],
            oam: [0; 256],
            palette: [0; 32],
            address_register: 0,
            address_latch: true,
            control_register: 0,
            nmi: false,
            mask_register: 0,
            status_register: 0,
            data_buffer: 0,
            mirroring,
            scanline: 0,
            cycle: 0,
        }
    }

    /// Folds a nametable address onto the 2KB of video RAM.
    pub fn mirror_vram_addr(&self, addr: u16) -> (index: u16)
        ensures
            index == nametable_index(self@.mirroring, addr),
            index < 2048,
        no_unwind
    {
        let offset: u16 = addr % 0x1000;
        let table: u16 = offset / 0x0400;
        match self.mirroring {
            Mirroring::Vertical => if table >= 2 {
                offset - 0x800
            } else {
                offset
            },
            Mirroring::Horizontal => if table == 0 {
                offset
            } else if table == 3 {
                offset - 0x800
            } else {
                offset - 0x400
            },
        }
    }

    /// Writes one byte of the two-byte video address.
    pub fn write_to_address_register(&mut self, data: u8)
        ensures
            final(self)@ == old(self)@.write_address(data),
            final(self)@.wf(),
        no_unwind
    {
        proof {
            use_type_invariant(&*self);
            lemma_compose_address(self.address_register, data);
            lemma_high_byte_within_14_bits(data as int, self.address_register as int % 256);
        }
        if self.address_latch {
            self.address_register = ((self.address_register & 0x00FFu16) | ((data as u16)
                << 8u16)) & 0x3FFFu16;
        } else {
            self.address_register = ((self.address_register & 0xFF00u16) | (data as u16))
                & 0x3FFFu16;
        }
        self.address_latch = !self.address_latch;
    }

    /// Advances the video address, wrapping within 14 bits.
    pub fn increment_address_register(&mut self, increment: u8)
        ensures
            final(self)@ == old(self)@.increment_address(increment),
            final(self)@.wf(),
        no_unwind
    {
        proof {
            use_type_invariant(&*self);
        }
        self.address_register = (self.address_register + increment as u16) % 0x4000;
    }

    /// Makes the next write to the address register the high byte.
    pub fn reset_address_latch(&mut self)
        ensures
            final(self)@ == (PpuState { latch: true, ..old(self)@ }),
            final(self)@.wf(),
        no_unwind
    {
        proof {
            use_type_invariant(&*self);
        }
        self.address_latch = true;
    }

    /// Writes the control register.
    pub fn write_to_control_register(&mut self, data: u8)
        ensures
            final(self)@ == old(self)@.write_control(data),
            final(self)@.wf(),
        no_unwind
    {
        proof {
            use_type_invariant(&*self);
        }
        self.control_register = data;
    }

    /// Tests one bit of the control register.
    pub fn get_control_flag(&self, flag: PPUControlFlags) -> (set: bool)
        ensures
            set == (self@.control & flag.bit() != 0),
        no_unwind
    {
        self.control_register & flag.mask() != 0
    }

    /// Advances the video address by the step that the control register selects.
    pub fn increment_vram_addr(&mut self)
        ensures
            final(self)@ == old(self)@.step_address(),
            final(self)@.wf(),
        no_unwind
    {
        let increment: u8 = if self.control_register & 0x04 == 0 {
            1
        } else {
            32
        };
        self.increment_address_register(increment);
    }

    /// Reads the status register, with the side effects of the read.
    pub fn read_status_register(&mut self) -> (status: u8)
        ensures
            (final(self)@, status) == old(self)@.read_status(),
            final(self)@.wf(),
        no_unwind
    {
        let status = (self.status_register & 0xE0) | (self.data_buffer & 0x1F);
        self.set_status_flag(PPUStatusFlags::VerticalBlank, false);
        self.reset_address_latch();
        status
    }

    /// Sets or clears one bit of the status register.
    pub fn set_status_flag(&mut self, flag: PPUStatusFlags, value: bool)
        ensures
            final(self)@ == old(self)@.set_status_flag(flag, value),
            final(self)@.wf(),
        no_unwind
    {
        proof {
            use_type_invariant(&*self);
        }
        if value {
            self.status_register = self.status_register | flag.mask();
        } else {
            self.status_register = self.status_register & !flag.mask();
        }
    }

    /// Writes the mask register.
    pub fn write_to_mask_register(&mut self, data: u8)
        ensures
            final(self)@ == old(self)@.write_mask(data),
            final(self)@.wf(),
        no_unwind
    {
        proof {
            use_type_invariant(&*self);
        }
        self.mask_register = data;
    }

    /// Reads through the data register.
    pub fn read_data(&mut self) -> (r: Result<u8, Fault>)
        ensures
            (final(self)@, r) == old(self)@.read_data(),
            final(self)@.wf(),
        no_unwind
    {
        self.increment_vram_addr();
        proof {
            use_type_invariant(&*self);
        }
        let addr = self.address_register;
        if addr < 0x2000 {
            if (addr as usize) < self.chr_rom.len() {
                let data = self.data_buffer;
                self.data_buffer = self.chr_rom[addr as usize];
                Ok(data)
            } else {
                Err(Fault::VideoUnmapped { addr })
            }
        } else if addr < 0x3000 {
            let data = self.data_buffer;
            let index = self.mirror_vram_addr(addr);
            self.data_buffer = self.vram[index as usize];
            Ok(data)
        } else if addr < 0x3F00 {
            Err(Fault::VideoUnmapped { addr })
        } else {
            Ok(self.palette[((addr - 0x3F00) % 32) as usize])
        }
    }

    /// Writes through the data register.
    pub fn write_data(&mut self, data: u8) -> (r: Result<(), Fault>)
        ensures
            (final(self)@, r) == old(self)@.write_data(data),
            final(self)@.wf(),
        no_unwind
    {
        proof {
            use_type_invariant(&*self);
        }
        let addr = self.address_register;
        if addr < 0x2000 {
            Err(Fault::RomWrite { addr })
        } else if addr < 0x3000 {
            let index = self.mirror_vram_addr(addr);
            self.vram[index as usize] = data;
            self.increment_vram_addr();
            Ok(())
        } else if addr < 0x3F00 {
            Err(Fault::VideoUnmapped { addr })
        } else {
            self.palette[((addr - 0x3F00) % 32) as usize] = data;
            self.increment_vram_addr();
            Ok(())
        }
    }

    /// The event due at the current position: where a renderer hooks in
    /// before a pulse.
    pub fn event(&self) -> (e: FrameEvent)
        ensures
            e == frame_event(self@.scanline, self@.cycle),
        no_unwind
    {
        if self.scanline <= 239 {
            if 1 <= self.cycle && self.cycle <= 256 {
                FrameEvent::Background
            } else if self.cycle == 257 {
                FrameEvent::SpriteEvaluation
            } else if 321 <= self.cycle && self.cycle <= 336 {
                FrameEvent::Prefetch
            } else {
                FrameEvent::Idle
            }
        } else if self.scanline == 241 && self.cycle == 1 {
            FrameEvent::VblankStart
        } else {
            FrameEvent::Idle
        }
    }

    /// Advances the unit by one pulse.
    pub fn clock(&mut self)
        ensures
            final(self)@ == old(self)@.tick(),
            final(self)@.wf(),
        no_unwind
    {
        match self.event() {
            FrameEvent::VblankStart => {
                self.set_status_flag(PPUStatusFlags::VerticalBlank, true);
                if self.get_control_flag(PPUControlFlags::EnableNMI) {
                    proof {
                        use_type_invariant(&*self);
                    }
                    self.nmi = true;
                }
            },
            FrameEvent::Background => {},
            FrameEvent::SpriteEvaluation => {},
            FrameEvent::Prefetch => {},
            FrameEvent::Idle => {},
        }
        proof {
            use_type_invariant(&*self);
        }
        if self.cycle + 1 < CYCLES_PER_SCANLINE {
            self.cycle = self.cycle + 1;
        } else if self.scanline + 1 < SCANLINES_PER_FRAME {
            self.cycle = 0;
            self.scanline = self.scanline + 1;
        } else {
            self.cycle = 0;
            self.scanline = 0;
            self.set_status_flag(PPUStatusFlags::VerticalBlank, false);
        }
    }

    /// Takes the pending interrupt request, if there is one.
    pub fn take_nmi(&mut self) -> (pending: bool)
        ensures
            pending == old(self)@.nmi,
            final(self)@ == old(self)@.acknowledge_nmi(),
            final(self)@.wf(),
        no_unwind
    {
        proof {
            use_type_invariant(&*self);
        }
        let pending = self.nmi;
        self.nmi = false;
        pending
    }

    /// The graphics ROM behind the pattern tables.
    pub fn chr_rom(&self) -> (rom: &Vec<u8>)
        ensures
            rom@ == self@.chr_rom,
        no_unwind
    {
        &self.chr_rom
    }

    /// The 2KB of video RAM.
    pub fn vram(&self) -> (ram: &[u8; 2048])
        ensures
            ram@ == self@.vram,
        no_unwind
    {
        &self.vram
    }

    /// The object-attribute memory.
    pub fn oam(&self) -> (oam: &[u8; 256])
        ensures
            oam@ == self@.oam,
        no_unwind
    {
        &self.oam
    }

    /// The palette RAM.
    pub fn palette(&self) -> (palette: &[u8; 32])
        ensures
            palette@ == self@.palette,
        no_unwind
    {
        &self.palette
    }

    /// The video address register.
    pub fn address_register(&self) -> (address: u16)
        ensures
            address == self@.address,
            address <= 0x3FFF,
        no_unwind
    {
        proof {
            use_type_invariant(self);
        }
        self.address_register
    }

    /// True when the next write to the address register is the high byte.
    pub fn address_latch(&self) -> (latch: bool)
        ensures
            latch == self@.latch,
        no_unwind
    {
        self.address_latch
    }

    /// The control register.
    pub fn control_register(&self) -> (control: u8)
        ensures
            control == self@.control,
        no_unwind
    {
        self.control_register
    }

    /// The mask register.
    pub fn mask_register(&self) -> (mask: u8)
        ensures
            mask == self@.mask,
        no_unwind
    {
        self.mask_register
    }

    /// The status register as it stands, without the side effects of a read.
    pub fn status_register(&self) -> (status: u8)
        ensures
            status == self@.status,
        no_unwind
    {
        self.status_register
    }

    /// The byte that the data register holds back.
    pub fn data_buffer(&self) -> (data: u8)
        ensures
            data == self@.data_buffer,
        no_unwind
    {
        self.data_buffer
    }

    /// True while an interrupt request is pending.
    pub fn nmi(&self) -> (pending: bool)
        ensures
            pending == self@.nmi,
        no_unwind
    {
        self.nmi
    }

    /// The nametable arrangement.
    pub fn mirroring(&self) -> (m: Mirroring)
        ensures
            m == self@.mirroring,
        no_unwind
    {
        self.mirroring
    }

    /// The scanline of the current position.
    pub fn scanline(&self) -> (scanline: u16)
        ensures
            scanline == self@.scanline,
            scanline < SCANLINES_PER_FRAME,
        no_unwind
    {
        proof {
            use_type_invariant(self);
        }
        self.scanline
    }

    /// The cycle of the current position.
    pub fn cycle(&self) -> (cycle: u16)
        ensures
            cycle == self@.cycle,
            cycle < CYCLES_PER_SCANLINE,
        no_unwind
    {
        proof {
            use_type_invariant(self);
        }
        self.cycle
    }
}

/// The two bytes of the video address as the register composes them.
proof fn lemma_compose_address(address: u16, data: u8)
    by (bit_vector)
    ensures
        ((address & 0x00FFu16) | ((data as u16) << 8u16)) & 0x3FFFu16 == ((data as u16) % 64u16)
            * 256u16 + address % 256u16 && ((address & 0xFF00u16) | (data as u16)) & 0x3FFFu16
            == ((address / 256u16) % 64u16) * 256u16 + (data as u16),
{
}

/// A high byte over a low byte, reduced to 14 bits, keeps the low six bits
/// of the high byte.
proof fn lemma_high_byte_within_14_bits(high: int, low: int)
    requires
        0 <= high < 256,
        0 <= low < 256,
    ensures
        (high * 256 + low) % 0x4000 == (high % 64) * 256 + low,
{
}

/// Setting and clearing the vertical-blank bit, read back.
proof fn lemma_vblank_bit(status: u8)
    by (bit_vector)
    ensures
        (status | 0x80u8) & 0x80u8 != 0u8 && (status & !0x80u8) & 0x80u8 == 0u8,
{
}

/// Number of pulses from the start of a frame after which the vertical
/// blank has begun: the pulse at scanline 241, cycle 1 has been processed.
pub open spec fn vblank_begun() -> nat {
    241 * 341 + 2
}

/// The bits of the registers, read as numbers.
proof fn lemma_register_bits(control: u8, status: u8, buffer: u8)
    by (bit_vector)
    ensures
        (control & 0x04u8 == 0u8) == ((control / 4u8) % 2u8 == 0u8) && (control & 0x80u8 != 0u8)
            == (control >= 0x80u8) && (status & 0x80u8 != 0u8) == (status >= 0x80u8) && ((status
            & 0xE0u8) | (buffer & 0x1Fu8)) == (status / 32u8) * 32u8 + buffer % 32u8,
{
}

/// What the register bits say, in numbers: the address steps by 32 when
/// bit 2 of the control register is set and by 1 otherwise; the interrupt
/// is enabled by bit 7 of the control register; the vertical blank is bit 7
/// of the status register; and a read of the status register returns the
/// top three bits of the status over the low five bits of the data buffer.
pub proof fn lemma_register_numbers(s: PpuState)
    ensures
        s.vram_step() == (if (s.control / 4) % 2 == 1 {
            32int
        } else {
            1int
        }),
        s.nmi_enabled() == (s.control >= 0x80),
        s.vblank() == (s.status >= 0x80),
        s.read_status().1 == (s.status / 32) * 32 + s.data_buffer % 32,
{
    lemma_register_bits(s.control, s.status, s.data_buffer);
}

/// A read of the status register clears the vertical-blank flag and sets the
/// address latch, so that the next write to the address register is taken as
/// the high byte. Nothing else changes but that flag and the latch.
pub proof fn lemma_status_read_side_effect(s: PpuState, data: u8)
    ensures
        !s.read_status().0.vblank(),
        s.read_status().0.latch,
        s.read_status().0.write_address(data).address == (data % 64) * 256 + s.address % 256,
        s.read_status().0 == (PpuState {
            status: s.status & !0x80u8,
            latch: true,
            ..s
        }),
{
    lemma_vblank_bit(s.status);
}

/// A pulse keeps a well-formed state well-formed and moves the position one
/// step round the frame grid.
pub proof fn lemma_tick_position(s: PpuState)
    requires
        s.wf(),
    ensures
        s.tick().wf(),
        s.tick().position() == (s.position() + 1) % (PULSES_PER_FRAME as nat),
{
}

/// A pulse touches the position, the vertical-blank flag and the interrupt
/// request, and nothing else. The flag is set by the pulse at scanline 241,
/// cycle 1, cleared by the last pulse of the frame and kept by every
/// other; the request is raised by the pulse at scanline 241, cycle 1 if and
/// only if the control register enables it.
pub proof fn lemma_tick_effect(s: PpuState)
    requires
        s.wf(),
    ensures
        s.tick().vblank() == (if s.scanline == 241 && s.cycle == 1 {
            true
        } else if s.scanline == 261 && s.cycle == 340 {
            false
        } else {
            s.vblank()
        }),
        s.tick().nmi == (s.nmi || (s.scanline == 241 && s.cycle == 1 && s.nmi_enabled())),
        s.tick() == (PpuState {
            scanline: s.tick().scanline,
            cycle: s.tick().cycle,
            status: s.tick().status,
            nmi: s.tick().nmi,
            ..s
        }),
{
    lemma_vblank_bit(s.status);
}

/// One more pulse after a run of pulses is the run that is one longer.
pub proof fn lemma_ticks_last(s: PpuState, n: nat)
    ensures
        s.ticks(n + 1) == s.ticks(n).tick(),
    decreases n,
{
    reveal_with_fuel(PpuState::ticks, 2);
    if n > 0 {
        lemma_ticks_last(s.tick(), (n - 1) as nat);
        assert(s.ticks(n) == s.tick().ticks((n - 1) as nat));
        assert(s.ticks(n + 1) == s.tick().ticks(n));
    }
}

/// A run of pulses moves the position by its length round the frame grid
/// and leaves the memories and the other registers as they were.
pub proof fn lemma_ticks_position(s: PpuState, n: nat)
    requires
        s.wf(),
    ensures
        s.ticks(n).wf(),
        s.ticks(n).position() == (s.position() + n) % (PULSES_PER_FRAME as nat),
        s.ticks(n) == (PpuState {
            scanline: s.ticks(n).scanline,
            cycle: s.ticks(n).cycle,
            status: s.ticks(n).status,
            nmi: s.ticks(n).nmi,
            ..s
        }),
    decreases n,
{
    if n > 0 {
        lemma_tick_position(s);
        lemma_tick_effect(s);
        lemma_ticks_position(s.tick(), (n - 1) as nat);
    }
}

/// After exactly one frame of pulses the position is where it was.
pub proof fn lemma_frame_period(s: PpuState)
    requires
        s.wf(),
    ensures
        s.ticks(PULSES_PER_FRAME as nat).scanline == s.scanline,
        s.ticks(PULSES_PER_FRAME as nat).cycle == s.cycle,
{
    lemma_ticks_position(s, PULSES_PER_FRAME as nat);
}

/// Through one frame from its origin, with no register access in between:
/// the vertical-blank flag keeps its value until the pulse at scanline 241,
/// cycle 1 has been processed, is set from then on, and is clear when the
/// frame is complete. The interrupt request is raised by that same pulse if
/// and only if the control register enables it.
pub proof fn lemma_frame_vblank(s: PpuState, k: nat)
    requires
        s.wf(),
        s.scanline == 0,
        s.cycle == 0,
        k <= PULSES_PER_FRAME,
    ensures
        s.ticks(k).vblank() == (if k < vblank_begun() {
            s.vblank()
        } else {
            k < PULSES_PER_FRAME
        }),
        s.ticks(k).nmi == (s.nmi || (k >= vblank_begun() && s.nmi_enabled())),
    decreases k,
{
    if k > 0 {
        let j = (k - 1) as nat;
        let t = s.ticks(j);
        lemma_frame_vblank(s, j);
        lemma_ticks_position(s, j);
        lemma_ticks_last(s, j);
        lemma_tick_effect(t);
        assert(t.position() == j);
        assert(t.control == s.control);
    }
}

/// No access to a register takes the unit out of its well-formed states:
/// the address register stays within 14 bits, the memories keep their
/// sizes and the position stays on the frame grid.
pub proof fn lemma_registers_keep_wf(s: PpuState, data: u8, flag: PPUStatusFlags, on: bool)
    requires
        s.wf(),
    ensures
        s.write_address(data).wf(),
        s.increment_address(data).wf(),
        s.step_address().wf(),
        s.write_control(data).wf(),
        s.write_mask(data).wf(),
        s.set_status_flag(flag, on).wf(),
        s.read_status().0.wf(),
        s.read_data().0.wf(),
        s.write_data(data).0.wf(),
        s.acknowledge_nmi().wf(),
        0 <= nametable_index(s.mirroring, s.address) < 2048,
{
}

/// Nothing that the unit does changes the graphics ROM.
pub proof fn lemma_graphics_rom_is_read_only(s: PpuState, data: u8)
    ensures
        s.write_address(data).chr_rom == s.chr_rom,
        s.write_control(data).chr_rom == s.chr_rom,
        s.write_mask(data).chr_rom == s.chr_rom,
        s.read_status().0.chr_rom == s.chr_rom,
        s.read_data().0.chr_rom == s.chr_rom,
        s.write_data(data).0.chr_rom == s.chr_rom,
        s.tick().chr_rom == s.chr_rom,
{
}

} // verus!
