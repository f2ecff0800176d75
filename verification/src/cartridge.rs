//! Cartridge images in the iNES container format.
use vstd::prelude::*;
use vstd::slice::slice_subrange;
use vstd::slice::slice_to_vec;

verus! {

/// How the four logical nametables fold onto the two physical banks.
#[derive(Clone, Copy, PartialEq, Eq, Structural, Debug)]
pub enum Mirroring {
    Horizontal,
    Vertical,
}

/// Why an image could not be loaded.
#[derive(Clone, Copy, PartialEq, Eq, Structural, Debug)]
pub enum CartridgeError {
    /// The first four bytes are not the container's magic sequence.
    Format,
    /// The image ends before the header, trainer or ROM data is complete.
    Truncated,
}

/// The sixteen header bytes of an image, field by field.
#[derive(Clone, Copy, Debug)]
pub struct INesHeader {
    pub name: [u8; 4],
    pub prg_rom_size: u8,
    pub chr_rom_size: u8,
    pub mapper_1: u8,
    pub mapper_2: u8,
    pub prg_ram_size: u8,
    pub tv_system_1: u8,
    pub tv_system_2: u8,
    pub unused: [u8; 5],
}

impl View for INesHeader {
    type V = Seq<u8>;

    /// The header as the sixteen bytes it was read from.
    open spec fn view(&self) -> Seq<u8> {
        self.name@ + seq![
            self.prg_rom_size,
            self.chr_rom_size,
            self.mapper_1,
            self.mapper_2,
            self.prg_ram_size,
            self.tv_system_1,
            self.tv_system_2,
        ] + self.unused@
    }
}

/// Length of the header.
pub const HEADER_LEN: usize = 16;

/// Length of the optional trainer block.
pub const TRAINER_LEN: usize = 512;

/// Size of one program-ROM unit.
pub const PRG_UNIT: usize = 16384;

/// Size of one graphics-ROM unit.
pub const CHR_UNIT: usize = 8192;

/// The image starts with the container's magic sequence.
pub open spec fn has_magic(data: Seq<u8>) -> bool {
    &&& data.len() >= 4
    &&& data[0] == 0x4E
    &&& data[1] == 0x45
    &&& data[2] == 0x53
    &&& data[3] == 0x1A
}

/// Bit 2 of the flags byte announces a trainer block before the ROM data.
pub open spec fn has_trainer(flags: u8) -> bool {
    flags & 0x04 == 0x04
}

/// Mapper id from the two flags bytes.
pub open spec fn mapper_id(flags: u8, flags2: u8) -> u8 {
    (flags2 & 0xF0) | (flags >> 4)
}

/// Bit 0 of the flags byte selects the nametable arrangement.
pub open spec fn mirroring_of(flags: u8) -> Mirroring {
    if flags & 0x01 == 0x01 {
        Mirroring::Vertical
    } else {
        Mirroring::Horizontal
    }
}

/// Offset of the first program-ROM byte in an image with a full header.
pub open spec fn prg_start(data: Seq<u8>) -> int {
    if has_trainer(data[6]) {
        HEADER_LEN + TRAINER_LEN
    } else {
        HEADER_LEN as int
    }
}

/// Offset of the first graphics-ROM byte.
pub open spec fn chr_start(data: Seq<u8>) -> int {
    prg_start(data) + PRG_UNIT * data[4]
}

/// Offset one past the last graphics-ROM byte: the length the header asks for.
pub open spec fn image_end(data: Seq<u8>) -> int {
    chr_start(data) + CHR_UNIT * data[5]
}

/// What a cartridge holds.
#[verifier::ext_equal]
pub struct CartridgeView {
    pub header: Seq<u8>,
    pub prg_rom: Seq<u8>,
    pub chr_rom: Seq<u8>,
    pub mapper: u8,
    pub mirroring: Mirroring,
}

/// The cartridge that an image describes, or the reason why it describes none.
pub open spec fn parse(data: Seq<u8>) -> Result<CartridgeView, CartridgeError> {
    if data.len() < HEADER_LEN {
        Err(CartridgeError::Truncated)
    } else if !has_magic(data) {
        Err(CartridgeError::Format)
    } else if data.len() < image_end(data) {
        Err(CartridgeError::Truncated)
    } else {
        Ok(
            CartridgeView {
                header: data.subrange(0, HEADER_LEN as int),
                prg_rom: data.subrange(prg_start(data), chr_start(data)),
                chr_rom: data.subrange(chr_start(data), image_end(data)),
                mapper: mapper_id(data[6], data[7]),
                mirroring: mirroring_of(data[6]),
            },
        )
    }
}

/// The fixed mapping can address the program ROM: one 16KB unit, which is
/// mirrored, or at least the 32KB that fill the window.
pub open spec fn fills_program_window(c: CartridgeView) -> bool {
    c.prg_rom.len() == 0x4000 || c.prg_rom.len() >= 0x8000
}

/// A loaded cartridge: header, program ROM and graphics ROM. Nothing changes
/// it after loading.
pub struct Cartridge {
    header: INesHeader,
    prg_rom: Vec<u8>,
    chr_rom: Vec<u8>,
    mapper: u8,
    mirror: Mirroring,
}

impl View for Cartridge {
    type V = CartridgeView;

    /// What the cartridge holds, as contracts speak of it.
    closed spec fn view(&self) -> CartridgeView {
        CartridgeView {
            header: self.header@,
            prg_rom: self.prg_rom@,
            chr_rom: self.chr_rom@,
            mapper: self.mapper,
            mirroring: self.mirror,
        }
    }
}

impl Cartridge {
    /// Loads a cartridge from the bytes of an image file.
    pub fn new(data: &[u8]) -> (r: Result<Cartridge, CartridgeError>)
        ensures
            match r {
                Ok(c) => parse(data@) == Ok::<CartridgeView, CartridgeError>(c@),
                Err(e) => parse(data@) == Err::<CartridgeView, CartridgeError>(e),
            },
    {
        if data.len() < HEADER_LEN {
            return Err(CartridgeError::Truncated);
        }
        let header = INesHeader {
            name: [data[0], data[1], data[2], data[3]],
            prg_rom_size: data[4],
            chr_rom_size: data[5],
            mapper_1: data[6],
            mapper_2: data[7],
            prg_ram_size: data[8],
            tv_system_1: data[9],
            tv_system_2: data[10],
            unused: [data[11], data[12], data[13], data[14], data[15]],
        };
        if header.name[0] != 0x4E || header.name[1] != 0x45 || header.name[2] != 0x53
            || header.name[3] != 0x1A {
            return Err(CartridgeError::Format);
        }
        let start: usize = if header.mapper_1 & 0x04 == 0x04 {
            HEADER_LEN + TRAINER_LEN
        } else {
            HEADER_LEN
        };
        let mapper: u8 = (header.mapper_2 & 0xF0) | (header.mapper_1 >> 4);
        let mirror = if header.mapper_1 & 0x01 == 0x01 {
            Mirroring::Vertical
        } else {
            Mirroring::Horizontal
        };
        let prg_end: usize = start + PRG_UNIT * (header.prg_rom_size as usize);
        let chr_end: usize = prg_end + CHR_UNIT * (header.chr_rom_size as usize);
        if data.len() < chr_end {
            return Err(CartridgeError::Truncated);
        }
        let prg_rom = slice_to_vec(slice_subrange(data, start, prg_end));
        let chr_rom = slice_to_vec(slice_subrange(data, prg_end, chr_end));
        assert(header@ =~= data@.subrange(0, HEADER_LEN as int));
        Ok(Cartridge { header, prg_rom, chr_rom, mapper, mirror })
    }

    /// Tells whether the fixed mapping can address the program ROM.
    pub fn fills_program_window(&self) -> (fills: bool)
        ensures
            fills == fills_program_window(self@),
    {
        self.prg_rom.len() == 0x4000 || self.prg_rom.len() >= 0x8000
    }

    /// The header as loaded.
    pub fn header(&self) -> (h: INesHeader)
        ensures
            h@ == self@.header,
    {
        self.header
    }

    /// The program ROM.
    pub fn prg_rom(&self) -> (rom: &Vec<u8>)
        ensures
            rom@ == self@.prg_rom,
    {
        &self.prg_rom
    }

    /// The graphics ROM.
    pub fn chr_rom(&self) -> (rom: &Vec<u8>)
        ensures
            rom@ == self@.chr_rom,
    {
        &self.chr_rom
    }

    /// The mapper id.
    pub fn mapper(&self) -> (id: u8)
        ensures
            id == self@.mapper,
    {
        self.mapper
    }

    /// The nametable arrangement.
    pub fn mirroring(&self) -> (m: Mirroring)
        ensures
            m == self@.mirroring,
    {
        self.mirror
    }
}

/// The bits of the two flags bytes, read as numbers.
proof fn lemma_flags_as_numbers(flags: u8, flags2: u8)
    by (bit_vector)
    ensures
        (flags & 0x04u8 == 0x04u8) == ((flags / 4u8) % 2u8 == 1u8) && (flags & 0x01u8 == 0x01u8)
            == (flags % 2u8 == 1u8) && ((flags2 & 0xF0u8) | (flags >> 4u8)) == (flags2 / 16u8)
            * 16u8 + flags / 16u8,
{
}

/// What the flags bytes of the header say, in numbers: the trainer is
/// announced by bit 2 and vertical mirroring by bit 0 of the first; the
/// mapper id has the high nibble of the second as its high nibble and the
/// high nibble of the first as its low nibble.
pub proof fn lemma_header_flags(flags: u8, flags2: u8)
    ensures
        has_trainer(flags) == ((flags / 4) % 2 == 1),
        (mirroring_of(flags) == Mirroring::Vertical) == (flags % 2 == 1),
        mapper_id(flags, flags2) == (flags2 / 16) * 16 + flags / 16,
{
    lemma_flags_as_numbers(flags, flags2);
}

/// An image that starts with the magic sequence and is as long as its
/// header asks for loads, and its two ROMs have exactly the sizes that the
/// header gives: 16KB for each program unit and 8KB for each graphics unit.
pub proof fn lemma_complete_image_loads(data: Seq<u8>)
    requires
        has_magic(data),
        data.len() >= HEADER_LEN,
        data.len() >= image_end(data),
    ensures
        parse(data) is Ok,
        parse(data)->Ok_0.prg_rom.len() == PRG_UNIT * data[4],
        parse(data)->Ok_0.chr_rom.len() == CHR_UNIT * data[5],
        parse(data)->Ok_0.prg_rom == data.subrange(prg_start(data), chr_start(data)),
        parse(data)->Ok_0.chr_rom == data.subrange(chr_start(data), image_end(data)),
{
}

/// An image with a full header that does not start with the magic sequence
/// is refused as not being in the format, whatever follows the header.
pub proof fn lemma_bad_magic_is_refused(data: Seq<u8>)
    requires
        data.len() >= HEADER_LEN,
        !has_magic(data),
    ensures
        parse(data) == Err::<CartridgeView, CartridgeError>(CartridgeError::Format),
{
}

} // verus!
