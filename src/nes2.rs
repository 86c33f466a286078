//! The NES 2.0 cartridge container: a 16-byte header, then the program ROM and
//! the character ROM, both cut from an assembled image.
use vstd::prelude::*;

verus! {

/// The size of one ROM bank: 8 KiB.
pub const BANK_SIZE: usize = 0x2000;

/// How many 16 KiB units of program ROM the cartridge holds.
pub const PRG_ROM_UNITS: usize = 1;

/// How many 8 KiB units of character ROM the cartridge holds.
pub const CHR_ROM_UNITS: usize = 1;

/// The flag of byte 7 that marks a NES 2.0 header.
pub const HEADER_NES2_IDENT: u8 = 0b0000_1000;

/// The console type of byte 7: a plain NES.
pub const HEADER_CONSOLE_TYPE: u8 = 0b0000_0000;

/// The CPU/PPU timing that the cartridge asks for.
#[derive(Debug, Copy, Clone, PartialEq, Eq, Structural)]
pub enum TimingMode {
    Ntsc,
    Pal,
    Multiple,
    Dendy,
}

impl TimingMode {
    /// The value of this mode in byte 12 of the header.
    pub fn code(self) -> (r: u8)
        ensures
            r == match self {
                TimingMode::Ntsc => 0u8,
                TimingMode::Pal => 1u8,
                TimingMode::Multiple => 2u8,
                TimingMode::Dendy => 3u8,
            },
    {
        match self {
            TimingMode::Ntsc => 0,
            TimingMode::Pal => 1,
            TimingMode::Multiple => 2,
            TimingMode::Dendy => 3,
        }
    }
}

/// The device that the cartridge expects in the expansion port.
#[derive(Debug, Copy, Clone, PartialEq, Eq, Structural)]
pub enum DefaultExpansionDevice {
    Unspecified,
    StandarNesController,
}

impl DefaultExpansionDevice {
    /// The value of this device in byte 15 of the header.
    pub fn code(self) -> (r: u8)
        ensures
            r == match self {
                DefaultExpansionDevice::Unspecified => 0u8,
                DefaultExpansionDevice::StandarNesController => 1u8,
            },
    {
        match self {
            DefaultExpansionDevice::Unspecified => 0x00,
            DefaultExpansionDevice::StandarNesController => 0x01,
        }
    }
}

/// The header of the cartridge: the magic number, one unit of each ROM, a
/// vertical mirroring flag, the NES 2.0 mark, NTSC timing and a standard
/// controller.
pub open spec fn header_bytes() -> Seq<u8> {
    seq![0x4E, 0x45, 0x53, 0x1A, 1, 1, 1, 8, 0, 0, 0, 0, 0, 0, 0, 1]
}

/// The bank of `BANK_SIZE` bytes of `code` that starts at `from`.
pub open spec fn bank(code: Seq<u8>, from: int) -> Seq<u8> {
    code.subrange(from, from + BANK_SIZE)
}

/// A cartridge image in the NES 2.0 format.
pub struct Cartridge {
    pub header: Vec<u8>,
    pub prg_rom: Vec<u8>,
    pub chr_rom: Vec<u8>,
}

/// Copies the bank of `code` at `from` into `area` at `at`.
fn copy_bank(area: &mut Vec<u8>, at: usize, code: &[u8], from: usize)
    requires
        at + BANK_SIZE <= old(area)@.len(),
        from + BANK_SIZE <= code@.len(),
    ensures
        final(area)@ == old(area)@.subrange(0, at as int) + bank(code@, from as int) + old(
            area,
        )@.subrange(at + BANK_SIZE, old(area)@.len() as int),
{
    let area_len = area.len();
    let code_len = code.len();
    let mut j: usize = 0;
    while j < BANK_SIZE
        invariant
            j <= BANK_SIZE,
            area_len == area@.len(),
            code_len == code@.len(),
            at + BANK_SIZE <= area@.len(),
            from + BANK_SIZE <= code@.len(),
            area@.len() == old(area)@.len(),
            forall|i: int| 0 <= i < at ==> area@[i] == old(area)@[i],
            forall|i: int| at + j <= i < area@.len() ==> area@[i] == old(area)@[i],
            forall|i: int| at <= i < at + j ==> #[trigger] area@[i] == code@[from + (i - at)],
        decreases BANK_SIZE - j,
    {
        area.set(at + j, code[from + j]);
        j = j + 1;
    }
    assert(area@ =~= old(area)@.subrange(0, at as int) + bank(code@, from as int) + old(
        area,
    )@.subrange(at + BANK_SIZE, old(area)@.len() as int));
}

impl Cartridge {
    /// A cartridge whose program ROM holds the banks of `code` that start at
    /// `banks[0]` and `banks[1]`, and whose character ROM holds the one that
    /// starts at `banks[2]`.
    pub fn new(code: &[u8], banks: Vec<usize>) -> (r: Cartridge)
        requires
            banks@.len() == 3,
            forall|i: int| 0 <= i < 3 ==> #[trigger] banks@[i] + BANK_SIZE <= code@.len(),
        ensures
            r.header@ == header_bytes(),
            r.prg_rom@ == bank(code@, banks@[0] as int) + bank(code@, banks@[1] as int),
            r.chr_rom@ == bank(code@, banks@[2] as int),
    {
        let header = vec![
            0x4E,
            0x45,
            0x53,
            0x1A,
            PRG_ROM_UNITS as u8,
            CHR_ROM_UNITS as u8,
            0b0000_0001,
            HEADER_NES2_IDENT | HEADER_CONSOLE_TYPE,
            0x00,
            0x00,
            0x00,
            0x00,
            TimingMode::Ntsc.code(),
            0x00,
            0x00,
            DefaultExpansionDevice::StandarNesController.code(),
        ];
        assert(HEADER_NES2_IDENT | HEADER_CONSOLE_TYPE == 8u8) by (bit_vector);
        assert(header@ =~= header_bytes());
        let mut prg_rom: Vec<u8> = vec![0; PRG_ROM_UNITS * 2 * BANK_SIZE];
        assert(banks@[0] + BANK_SIZE <= code@.len());
        assert(banks@[1] + BANK_SIZE <= code@.len());
        assert(banks@[2] + BANK_SIZE <= code@.len());
        copy_bank(&mut prg_rom, 0, code, banks[0]);
        copy_bank(&mut prg_rom, BANK_SIZE, code, banks[1]);
        assert(prg_rom@ =~= bank(code@, banks@[0] as int) + bank(code@, banks@[1] as int));
        let mut chr_rom: Vec<u8> = vec![0; CHR_ROM_UNITS * BANK_SIZE];
        copy_bank(&mut chr_rom, 0, code, banks[2]);
        assert(chr_rom@ =~= bank(code@, banks@[2] as int));
        Cartridge { header, prg_rom, chr_rom }
    }

    /// The cartridge as one file: the header, the program ROM, the character ROM.
    pub fn into_bytes(self) -> (r: Vec<u8>)
        ensures
            r@ == self.header@ + self.prg_rom@ + self.chr_rom@,
    {
        let mut bytes = self.header;
        let mut prg = self.prg_rom;
        let mut chr = self.chr_rom;
        bytes.append(&mut prg);
        bytes.append(&mut chr);
        bytes
    }
}

} // verus!
