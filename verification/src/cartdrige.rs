//! Cartridge memory: owns a validated ROM image and exposes byte-addressed
//! reads and writes. Loading decodes and checks the fixed-offset header
//! fields before any execution begins.

use vstd::prelude::*;
use vstd::wrapping::u8_specs;

verus! {

/// Offset of the cartridge-type byte in the header.
pub const CARTRIDGE_TYPE_ADDRESS: usize = 0x147;

/// Offset of the ROM-size code in the header.
pub const ROM_SIZE_ADDRESS: usize = 0x148;

/// Offset of the header checksum byte.
pub const HEADER_CHECKSUM_ADDRESS: usize = 0x14D;

/// First byte of the logo field.
pub const LOGO_START: usize = 0x104;

/// Number of bytes in the logo field.
pub const LOGO_LEN: usize = 48;

/// First byte of the title field and of the checksum input range.
pub const TITLE_START: usize = 0x134;

/// Number of bytes in the title field.
pub const TITLE_LEN: usize = 16;

/// Number of bytes fed into the header checksum (0x134 through 0x14C).
pub const CHECKSUM_LEN: usize = 25;

/// Smallest length an image may have: one full header.
pub const MIN_IMAGE_LEN: usize = 0x150;

/// A load-time rejection of an image.
#[derive(Copy, Clone, Debug, PartialEq, Eq, Structural)]
pub enum LoadError {
    /// The image is shorter than one full header.
    TooSmall,
    /// The ROM-size code at 0x148 is not a recognized code.
    UnrecognizedSizeCode,
    /// The image is longer than the size its ROM-size code declares.
    OversizedImage,
    /// The cartridge-type byte at 0x147 selects an unsupported mapping.
    UnsupportedCartridgeType,
}

/// A post-construction integrity failure of an image.
#[derive(Copy, Clone, Debug, PartialEq, Eq, Structural)]
pub enum IntegrityError {
    /// The logo field does not equal the fixed 48-byte constant.
    LogoMismatch,
    /// The header checksum does not match the byte at 0x14D.
    HeaderChecksumMismatch,
}

/// A failure while executing instructions.
#[derive(Copy, Clone, Debug, PartialEq, Eq, Structural)]
pub enum ExecutionError {
    /// The fetched opcode has no entry in the instruction table.
    UnknownOpcode(u8),
    /// A write was attempted against read-only memory.
    WriteToReadOnly,
}

/// Everything that can make `load` reject an image.
#[derive(Copy, Clone, Debug, PartialEq, Eq, Structural)]
pub enum CartridgeError {
    Load(LoadError),
    Integrity(IntegrityError),
}

/// The byte count a ROM-size code declares: codes 0x00 through 0x08 double
/// 32 KiB per increment; 0x52, 0x53 and 0x54 are the legacy odd sizes of
/// 72, 80 and 96 banks of 16 KiB.
pub open spec fn spec_rom_size(code: int) -> Option<int> {
    if code == 0x00 {
        Some(0x8000)
    } else if code == 0x01 {
        Some(0x10000)
    } else if code == 0x02 {
        Some(0x20000)
    } else if code == 0x03 {
        Some(0x40000)
    } else if code == 0x04 {
        Some(0x80000)
    } else if code == 0x05 {
        Some(0x100000)
    } else if code == 0x06 {
        Some(0x200000)
    } else if code == 0x07 {
        Some(0x400000)
    } else if code == 0x08 {
        Some(0x800000)
    } else if code == 0x52 {
        Some((72 * 16384) as int)
    } else if code == 0x53 {
        Some((80 * 16384) as int)
    } else if code == 0x54 {
        Some((96 * 16384) as int)
    } else {
        None
    }
}

/// Decodes a ROM-size code into the byte count it declares.
pub fn rom_size(code: usize) -> (size: Result<usize, LoadError>)
    ensures
        match spec_rom_size(code as int) {
            Some(n) => size == Ok::<usize, LoadError>(n as usize),
            None => size == Err::<usize, LoadError>(LoadError::UnrecognizedSizeCode),
        },
{
    match code {
        0x00 => Ok(0x8000),
        0x01 => Ok(0x10000),
        0x02 => Ok(0x20000),
        0x03 => Ok(0x40000),
        0x04 => Ok(0x80000),
        0x05 => Ok(0x100000),
        0x06 => Ok(0x200000),
        0x07 => Ok(0x400000),
        0x08 => Ok(0x800000),
        0x52 => Ok(72 * 16384),
        0x53 => Ok(80 * 16384),
        0x54 => Ok(96 * 16384),
        _ => Err(LoadError::UnrecognizedSizeCode),
    }
}

/// The fixed 48-byte constant the logo field must equal.
pub open spec fn nintendo_logo() -> Seq<u8> {
    seq![
        0xCE, 0xED, 0x66, 0x66, 0xCC, 0x0D, 0x00, 0x0B, 0x03, 0x73, 0x00, 0x83, 0x00, 0x0C,
        0x00, 0x0D, 0x00, 0x08, 0x11, 0x1F, 0x88, 0x89, 0x00, 0x0E, 0xDC, 0xCC, 0x6E, 0xE6,
        0xDD, 0xDD, 0xD9, 0x99, 0xBB, 0xBB, 0x67, 0x63, 0x6E, 0x0E, 0xEC, 0xCC, 0xDD, 0xDC,
        0x99, 0x9F, 0xBB, 0xB9, 0x33, 0x3E,
    ]
}

/// Builds the logo constant as an executable vector.
fn nintendo_logo_bytes() -> (logo: Vec<u8>)
    ensures
        logo@ == nintendo_logo(),
{
    let logo: Vec<u8> = vec![
        0xCE, 0xED, 0x66, 0x66, 0xCC, 0x0D, 0x00, 0x0B, 0x03, 0x73, 0x00, 0x83, 0x00, 0x0C,
        0x00, 0x0D, 0x00, 0x08, 0x11, 0x1F, 0x88, 0x89, 0x00, 0x0E, 0xDC, 0xCC, 0x6E, 0xE6,
        0xDD, 0xDD, 0xD9, 0x99, 0xBB, 0xBB, 0x67, 0x63, 0x6E, 0x0E, 0xEC, 0xCC, 0xDD, 0xDC,
        0x99, 0x9F, 0xBB, 0xB9, 0x33, 0x3E,
    ];
    proof {
        assert(logo@ =~= nintendo_logo());
    }
    logo
}

/// Holds when the logo field of an image equals the fixed constant.
pub open spec fn logo_matches(rom: Seq<u8>) -> bool {
    forall|i: int| 0 <= i < 48 ==> rom[0x104 + i] == nintendo_logo()[i]
}

/// The checksum accumulator after folding the first `n` bytes of the
/// checksum range: each step subtracts the byte and one more, with 8-bit
/// wraparound.
pub open spec fn checksum_upto(rom: Seq<u8>, n: int) -> u8
    decreases n,
{
    if n <= 0 {
        0u8
    } else {
        u8_specs::wrapping_sub(
            u8_specs::wrapping_sub(checksum_upto(rom, n - 1), rom[0x134 + n - 1]),
            1u8,
        )
    }
}

/// The header checksum of an image: the fold over 0x134 through 0x14C.
pub open spec fn header_checksum(rom: Seq<u8>) -> u8 {
    checksum_upto(rom, 25)
}

/// The title bytes starting at offset `0x134 + i`, stopping at the first
/// zero byte or at the end of the 16-byte field.
pub open spec fn title_from(rom: Seq<u8>, i: int) -> Seq<u8>
    decreases 16 - i,
{
    if i < 0 || i >= 16 {
        Seq::empty()
    } else if rom[0x134 + i] == 0 {
        Seq::empty()
    } else {
        seq![rom[0x134 + i]] + title_from(rom, i + 1)
    }
}

/// The title of an image: the bytes at 0x134 up to the first zero byte.
pub open spec fn spec_title(rom: Seq<u8>) -> Seq<u8> {
    title_from(rom, 0)
}

/// What loading an image yields: the first failed check, in load order, or
/// success. Length is checked first, then the ROM-size code, the declared
/// size bound, the cartridge type, the logo, and last the header checksum.
pub open spec fn spec_load(rom: Seq<u8>) -> Result<(), CartridgeError> {
    if rom.len() < 0x150 {
        Err(CartridgeError::Load(LoadError::TooSmall))
    } else {
        match spec_rom_size(rom[0x148] as int) {
            None => Err(CartridgeError::Load(LoadError::UnrecognizedSizeCode)),
            Some(expected) => {
                if rom.len() > expected {
                    Err(CartridgeError::Load(LoadError::OversizedImage))
                } else if rom[0x147] != 0 {
                    Err(CartridgeError::Load(LoadError::UnsupportedCartridgeType))
                } else if !logo_matches(rom) {
                    Err(CartridgeError::Integrity(IntegrityError::LogoMismatch))
                } else if header_checksum(rom) != rom[0x14D] {
                    Err(CartridgeError::Integrity(IntegrityError::HeaderChecksumMismatch))
                } else {
                    Ok(())
                }
            },
        }
    }
}

/// A cartridge whose whole address space is the ROM image itself: reads
/// index the bytes directly and every write is refused.
pub struct RomOnly(pub Vec<u8>);

impl View for RomOnly {
    type V = Seq<u8>;

    open spec fn view(&self) -> Seq<u8> {
        self.0@
    }
}

impl RomOnly {
    /// Reads the byte at the given address.
    pub fn read(&self, address: u16) -> (value: u8)
        requires
            address < self@.len(),
        ensures
            value == self@[address as int],
    {
        self.0[address as usize]
    }

    /// Refuses the write: this memory is read-only.
    pub fn set(&mut self, _address: u16, _value: u8) -> (result: Result<(), ExecutionError>)
        ensures
            *final(self) == *old(self),
            result == Err::<(), ExecutionError>(ExecutionError::WriteToReadOnly),
    {
        Err(ExecutionError::WriteToReadOnly)
    }
}

/// The closed set of cartridge mappings. Only the plain read-only mapping
/// exists today; a bank-switched mapping would become one more variant
/// without changing the engine's call sites.
pub enum Cartdrige {
    RomOnly(RomOnly),
}

impl View for Cartdrige {
    type V = Seq<u8>;

    open spec fn view(&self) -> Seq<u8> {
        match self {
            Cartdrige::RomOnly(rom) => rom@,
        }
    }
}

impl Cartdrige {
    /// The number of bytes in the image.
    pub fn len(&self) -> (n: usize)
        ensures
            n == self@.len(),
    {
        match self {
            Cartdrige::RomOnly(rom) => rom.0.len(),
        }
    }

    /// Reads the byte at the given address.
    pub fn read(&self, address: u16) -> (value: u8)
        requires
            address < self@.len(),
        ensures
            value == self@[address as int],
    {
        match self {
            Cartdrige::RomOnly(rom) => rom.read(address),
        }
    }

    /// Writes the byte at the given address; on the read-only mapping this
    /// always fails and leaves the image untouched.
    pub fn set(&mut self, address: u16, value: u8) -> (result: Result<(), ExecutionError>)
        ensures
            *final(self) == *old(self),
            result == Err::<(), ExecutionError>(ExecutionError::WriteToReadOnly),
    {
        match self {
            Cartdrige::RomOnly(rom) => rom.set(address, value),
        }
    }

    /// Checks the logo field against the fixed constant.
    pub fn ensure_nintendo_logo(&self) -> (result: Result<(), IntegrityError>)
        requires
            self@.len() >= 0x150,
        ensures
            result == (if logo_matches(self@) {
                Ok::<(), IntegrityError>(())
            } else {
                Err::<(), IntegrityError>(IntegrityError::LogoMismatch)
            }),
    {
        let logo = nintendo_logo_bytes();
        let mut i: usize = 0;
        while i < LOGO_LEN
            invariant
                0 <= i <= 48,
                self@.len() >= 0x150,
                logo@ == nintendo_logo(),
                forall|j: int| 0 <= j < i ==> self@[0x104 + j] == nintendo_logo()[j],
            decreases 48 - i,
        {
            if self.read((LOGO_START + i) as u16) != logo[i] {
                return Err(IntegrityError::LogoMismatch);
            }
            i = i + 1;
        }
        Ok(())
    }

    /// Recomputes the header checksum and compares it with the stored byte.
    pub fn ensure_header_checksum(&self) -> (result: Result<(), IntegrityError>)
        requires
            self@.len() >= 0x150,
        ensures
            result == (if header_checksum(self@) == self@[0x14D as int] {
                Ok::<(), IntegrityError>(())
            } else {
                Err::<(), IntegrityError>(IntegrityError::HeaderChecksumMismatch)
            }),
    {
        let mut checksum: u8 = 0;
        let mut i: usize = 0;
        while i < CHECKSUM_LEN
            invariant
                0 <= i <= 25,
                self@.len() >= 0x150,
                checksum == checksum_upto(self@, i as int),
            decreases 25 - i,
        {
            let byte = self.read((TITLE_START + i) as u16);
            checksum = checksum.wrapping_sub(byte).wrapping_sub(1);
            i = i + 1;
        }
        if checksum == self.read(HEADER_CHECKSUM_ADDRESS as u16) {
            Ok(())
        } else {
            Err(IntegrityError::HeaderChecksumMismatch)
        }
    }

    /// Extracts the title: the bytes at 0x134, stopping at the first zero
    /// byte or after 16 bytes.
    pub fn get_title(&self) -> (title: Vec<u8>)
        requires
            self@.len() >= 0x150,
        ensures
            title@ == spec_title(self@),
    {
        let mut title: Vec<u8> = Vec::new();
        let mut i: usize = 0;
        while i < TITLE_LEN
            invariant
                0 <= i <= 16,
                self@.len() >= 0x150,
                title@ + title_from(self@, i as int) == spec_title(self@),
            decreases 16 - i,
        {
            let byte = self.read((TITLE_START + i) as u16);
            if byte == 0 {
                proof {
                    assert(title_from(self@, i as int) =~= Seq::<u8>::empty());
                    assert(title@ + Seq::<u8>::empty() =~= title@);
                }
                return title;
            }
            proof {
                assert(title_from(self@, i as int) =~= seq![self@[0x134 + i as int]] + title_from(
                    self@,
                    i as int + 1,
                ));
                assert(title@ + title_from(self@, i as int) =~= title@.push(
                    self@[0x134 + i as int],
                ) + title_from(self@, i as int + 1));
            }
            title.push(byte);
            i = i + 1;
        }
        proof {
            assert(title_from(self@, 16) =~= Seq::<u8>::empty());
            assert(title@ + Seq::<u8>::empty() =~= title@);
        }
        title
    }
}

/// Validates an image and wraps it in the mapping its type byte selects.
/// Every header check of `spec_load` is applied, in that order; the image
/// itself is kept byte for byte.
pub fn load(bytes: Vec<u8>) -> (result: Result<Cartdrige, CartridgeError>)
    ensures
        match result {
            Ok(cart) => spec_load(bytes@) == Ok::<(), CartridgeError>(()) && cart@ == bytes@,
            Err(e) => spec_load(bytes@) == Err::<(), CartridgeError>(e),
        },
{
    if bytes.len() < MIN_IMAGE_LEN {
        return Err(CartridgeError::Load(LoadError::TooSmall));
    }
    let expected = match rom_size(bytes[ROM_SIZE_ADDRESS] as usize) {
        Ok(n) => n,
        Err(e) => {
            return Err(CartridgeError::Load(e));
        },
    };
    if bytes.len() > expected {
        return Err(CartridgeError::Load(LoadError::OversizedImage));
    }
    if bytes[CARTRIDGE_TYPE_ADDRESS] != 0x00 {
        return Err(CartridgeError::Load(LoadError::UnsupportedCartridgeType));
    }
    let cart = Cartdrige::RomOnly(RomOnly(bytes));
    if let Err(e) = cart.ensure_nintendo_logo() {
        return Err(CartridgeError::Integrity(e));
    }
    if let Err(e) = cart.ensure_header_checksum() {
        return Err(CartridgeError::Integrity(e));
    }
    Ok(cart)
}

/// The checksum fold reads only the checksum range: two images that agree
/// on the first `n` checksum bytes fold to the same accumulator.
pub proof fn lemma_checksum_reads_range_only(rom1: Seq<u8>, rom2: Seq<u8>, n: int)
    requires
        forall|j: int| 0x134 <= j < 0x134 + n ==> rom1[j] == rom2[j],
    ensures
        checksum_upto(rom1, n) == checksum_upto(rom2, n),
    decreases n,
{
    if n > 0 {
        lemma_checksum_reads_range_only(rom1, rom2, n - 1);
    }
}

/// An image at least one header long, no longer than its declared size,
/// with the plain read-only type, the right logo and a matching header
/// checksum loads without error — and nothing shorter than the declared
/// size is rejected for its length alone.
pub proof fn lemma_valid_image_loads(rom: Seq<u8>)
    requires
        rom.len() >= 0x150,
        spec_rom_size(rom[0x148] as int) is Some,
        rom.len() <= spec_rom_size(rom[0x148] as int)->Some_0,
        rom[0x147] == 0,
        logo_matches(rom),
        header_checksum(rom) == rom[0x14D],
    ensures
        spec_load(rom) == Ok::<(), CartridgeError>(()),
{
}

/// An image one byte longer than its declared size is rejected as
/// oversized, whatever the rest of its content.
pub proof fn lemma_oversized_image_fails(rom: Seq<u8>)
    requires
        rom.len() >= 0x150,
        spec_rom_size(rom[0x148] as int) is Some,
        rom.len() == spec_rom_size(rom[0x148] as int)->Some_0 + 1,
    ensures
        spec_load(rom) == Err::<(), CartridgeError>(CartridgeError::Load(LoadError::OversizedImage)),
{
}

/// Flipping any single logo byte of an image that loads makes the load
/// fail on the logo check.
pub proof fn lemma_logo_byte_flip_fails(rom: Seq<u8>, i: int, b: u8)
    requires
        spec_load(rom) == Ok::<(), CartridgeError>(()),
        0x104 <= i <= 0x133,
        b != rom[i],
    ensures
        spec_load(rom.update(i, b)) == Err::<(), CartridgeError>(
            CartridgeError::Integrity(IntegrityError::LogoMismatch),
        ),
{
    let flipped = rom.update(i, b);
    assert(rom[0x104 + (i - 0x104)] == nintendo_logo()[i - 0x104]);
    assert(flipped[0x104 + (i - 0x104)] != nintendo_logo()[i - 0x104]);
    assert(!logo_matches(flipped));
}

/// Flipping the stored checksum byte of an image that loads makes the load
/// fail on the checksum check.
pub proof fn lemma_checksum_byte_flip_fails(rom: Seq<u8>, b: u8)
    requires
        spec_load(rom) == Ok::<(), CartridgeError>(()),
        b != rom[0x14D],
    ensures
        spec_load(rom.update(0x14D, b)) == Err::<(), CartridgeError>(
            CartridgeError::Integrity(IntegrityError::HeaderChecksumMismatch),
        ),
{
    let flipped = rom.update(0x14D, b);
    assert forall|j: int| 0 <= j < 48 implies flipped[0x104 + j] == nintendo_logo()[j] by {
        assert(rom[0x104 + j] == nintendo_logo()[j]);
    }
    lemma_checksum_reads_range_only(rom, flipped, 25);
    assert(flipped[0x14D as int] == b);
}

} // verus!
