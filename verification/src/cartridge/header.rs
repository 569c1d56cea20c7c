//! The 192-byte GBA cartridge header (GBATEK "GBA Cartridge Header").
use vstd::prelude::*;

verus! {

/// Size in bytes of the GBA cartridge header (0x000..0x0C0).
pub const HEADER_SIZE: usize = 0xC0;

pub const GAME_TITLE_START: usize = 0xA0;

pub const GAME_CODE_START: usize = 0xAC;

pub const MAKER_CODE_START: usize = 0xB0;

pub const FIXED_VALUE: usize = 0xB2;

pub const MAIN_UNIT_CODE: usize = 0xB3;

pub const DEVICE_TYPE: usize = 0xB4;

pub const SOFTWARE_VERSION: usize = 0xBC;

pub const HEADER_CHECKSUM: usize = 0xBD;

/// The value the BIOS expects at [`FIXED_VALUE`] before it boots a
/// cartridge.
pub const EXPECTED_FIXED_VALUE: u8 = 0x96;

#[derive(Debug, Clone, Copy, PartialEq, Eq, Structural)]
pub enum HeaderError {
    RomTooSmall { actual: usize, required: usize },
}

/// What `String::from_utf8_lossy` makes of a byte string: its UTF-8
/// decoding, with U+FFFD for each invalid sequence.
pub uninterp spec fn utf8_lossy(bytes: Seq<u8>) -> Seq<char>;

/// Every byte is 7-bit ASCII.
pub open spec fn is_ascii_bytes(bytes: Seq<u8>) -> bool {
    forall|i: int| 0 <= i < bytes.len() ==> #[trigger] bytes[i] < 0x80
}

/// Decodes `bytes` with `String::from_utf8_lossy` and takes ownership of
/// the result. The contract claims that the result is the name
/// [`utf8_lossy`] of the bytes and, as the documentation says of valid
/// UTF-8, that ASCII bytes decode to the characters with the same codes.
#[verifier::external_body]
fn lossy_string(bytes: &[u8]) -> (s: String)
    ensures
        s@ == utf8_lossy(bytes@),
        is_ascii_bytes(bytes@) ==> s@ == bytes@.map_values(|b: u8| b as char),
{
    String::from_utf8_lossy(bytes).into_owned()
}

/// The bytes before the first NUL (all of them when there is none).
pub open spec fn until_nul(bytes: Seq<u8>) -> Seq<u8>
    decreases bytes.len(),
{
    if bytes.len() == 0 {
        bytes
    } else if bytes[0] == 0 {
        Seq::empty()
    } else {
        seq![bytes[0]].add(until_nul(bytes.drop_first()))
    }
}

/// The decoded text of a NUL-padded field.
pub open spec fn spec_padded_ascii(bytes: Seq<u8>) -> Seq<char> {
    utf8_lossy(until_nul(bytes))
}

proof fn lemma_until_nul_prefix(bytes: Seq<u8>, end: int)
    requires
        0 <= end <= bytes.len(),
        forall|k: int| 0 <= k < end ==> bytes[k] != 0,
        end == bytes.len() || bytes[end] == 0,
    ensures
        until_nul(bytes) == bytes.subrange(0, end),
    decreases bytes.len(),
{
    if bytes.len() == 0 {
        assert(bytes.subrange(0, end) =~= bytes);
    } else if end == 0 {
        assert(bytes.subrange(0, 0) =~= Seq::<u8>::empty());
    } else {
        let rest = bytes.drop_first();
        assert forall|k: int| 0 <= k < end - 1 implies rest[k] != 0 by {
            assert(rest[k] == bytes[k + 1]);
        }
        lemma_until_nul_prefix(rest, end - 1);
        assert(seq![bytes[0]].add(rest.subrange(0, end - 1)) =~= bytes.subrange(0, end));
    }
}

/// Decodes a fixed-width NUL-padded ASCII field, dropping the padding.
pub fn decode_padded_ascii(bytes: &[u8]) -> (s: String)
    ensures
        s@ == spec_padded_ascii(bytes@),
{
    let mut end: usize = 0;
    while end < bytes.len() && bytes[end] != 0
        invariant
            end <= bytes@.len(),
            forall|k: int| 0 <= k < end ==> bytes@[k] != 0,
        decreases bytes@.len() - end,
    {
        end = end + 1;
    }
    proof {
        lemma_until_nul_prefix(bytes@, end as int);
    }
    let prefix = copy_range(bytes, 0, end);
    lossy_string(prefix.as_slice())
}

/// The bytes `start..end` of `bytes`.
pub fn copy_range(bytes: &[u8], start: usize, end: usize) -> (v: Vec<u8>)
    requires
        start <= end <= bytes@.len(),
    ensures
        v@ == bytes@.subrange(start as int, end as int),
{
    let mut v: Vec<u8> = Vec::new();
    let mut i: usize = start;
    while i < end
        invariant
            start <= i <= end <= bytes@.len(),
            v@ == bytes@.subrange(start as int, i as int),
        decreases end - i,
    {
        v.push(bytes[i]);
        i = i + 1;
        assert(v@ =~= bytes@.subrange(start as int, i as int));
    }
    v
}

/// The BIOS header checksum's running subtraction over bytes 0xA0 up to
/// (not including) `end`, wrapped to a byte.
pub open spec fn spec_checksum_fold(rom: Seq<u8>, end: int) -> u8
    decreases end - 0xA0,
{
    if end <= 0xA0 {
        0
    } else {
        spec_checksum_fold(rom, end - 1).wrapping_sub(rom[end - 1])
    }
}

/// The header checksum the BIOS verifies: a running subtraction over bytes
/// 0xA0..=0xBC, minus 0x19, wrapped to a byte.
pub open spec fn spec_header_checksum(rom: Seq<u8>) -> u8 {
    spec_checksum_fold(rom, 0xBD).wrapping_sub(0x19)
}

pub fn compute_header_checksum(rom: &[u8]) -> (c: u8)
    requires
        rom@.len() >= HEADER_SIZE,
    ensures
        c == spec_header_checksum(rom@),
{
    let mut acc: u8 = 0;
    let mut i: usize = 0xA0;
    while i <= 0xBC
        invariant
            0xA0 <= i <= 0xBD,
            rom@.len() >= HEADER_SIZE,
            acc == spec_checksum_fold(rom@, i as int),
        decreases 0xBD - i,
    {
        acc = acc.wrapping_sub(rom[i]);
        i = i + 1;
    }
    acc.wrapping_sub(0x19)
}

/// The parsed header fields.
#[derive(Debug, Clone, PartialEq, Eq)]
pub struct GbaHeader {
    pub entry_point: [u8; 4],
    pub game_title: String,
    pub game_code: String,
    pub maker_code: String,
    pub fixed_value: u8,
    pub main_unit_code: u8,
    pub device_type: u8,
    pub software_version: u8,
    pub header_checksum: u8,
    /// The checksum recomputed over the ROM's header bytes at parse time.
    pub computed_checksum: u8,
}

impl GbaHeader {
    /// Everything `parse` reads out of a ROM image with a full header.
    pub open spec fn parsed_from(&self, rom: Seq<u8>) -> bool {
        &&& self.entry_point@ == rom.subrange(0, 4)
        &&& self.game_title@ == spec_padded_ascii(rom.subrange(0xA0, 0xAC))
        &&& self.game_code@ == spec_padded_ascii(rom.subrange(0xAC, 0xB0))
        &&& self.maker_code@ == spec_padded_ascii(rom.subrange(0xB0, 0xB2))
        &&& self.fixed_value == rom[0xB2]
        &&& self.main_unit_code == rom[0xB3]
        &&& self.device_type == rom[0xB4]
        &&& self.software_version == rom[0xBC]
        &&& self.header_checksum == rom[0xBD]
        &&& self.computed_checksum == spec_header_checksum(rom)
    }

    /// Parses the header from the start of a ROM image. Only the first
    /// [`HEADER_SIZE`] bytes need be present; malformed but loadable dumps
    /// are not rejected (see [`Self::fixed_value_valid`] and
    /// [`Self::checksum_valid`]).
    pub fn parse(rom: &[u8]) -> (r: Result<Self, HeaderError>)
        ensures
            r is Err <==> rom@.len() < HEADER_SIZE,
            r matches Err(e) ==> e == (HeaderError::RomTooSmall {
                actual: rom@.len() as usize,
                required: HEADER_SIZE,
            }),
            r matches Ok(h) ==> h.parsed_from(rom@),
    {
        if rom.len() < HEADER_SIZE {
            return Err(HeaderError::RomTooSmall { actual: rom.len(), required: HEADER_SIZE });
        }
        let entry_point: [u8; 4] = [rom[0], rom[1], rom[2], rom[3]];
        assert(entry_point@ =~= rom@.subrange(0, 4));
        let title = copy_range(rom, 0xA0, 0xAC);
        let code = copy_range(rom, 0xAC, 0xB0);
        let maker = copy_range(rom, 0xB0, 0xB2);
        Ok(
            GbaHeader {
                entry_point,
                game_title: decode_padded_ascii(title.as_slice()),
                game_code: decode_padded_ascii(code.as_slice()),
                maker_code: decode_padded_ascii(maker.as_slice()),
                fixed_value: rom[FIXED_VALUE],
                main_unit_code: rom[MAIN_UNIT_CODE],
                device_type: rom[DEVICE_TYPE],
                software_version: rom[SOFTWARE_VERSION],
                header_checksum: rom[HEADER_CHECKSUM],
                computed_checksum: compute_header_checksum(rom),
            },
        )
    }

    /// Whether the fixed byte at 0xB2 is what the BIOS boot check expects.
    pub fn fixed_value_valid(&self) -> (b: bool)
        ensures
            b == (self.fixed_value == EXPECTED_FIXED_VALUE),
    {
        self.fixed_value == EXPECTED_FIXED_VALUE
    }

    /// Whether the stored checksum at 0xBD matches the one recomputed over
    /// bytes 0xA0..=0xBC.
    pub fn checksum_valid(&self) -> (b: bool)
        ensures
            b == (self.header_checksum == self.computed_checksum),
    {
        self.header_checksum == self.computed_checksum
    }
}

/// Changing the stored checksum byte of a header whose checksum was valid
/// is detected, and leaves every other field as it was.
pub proof fn lemma_checksum_detects_corruption(rom: Seq<u8>, v: u8, h: GbaHeader, h2: GbaHeader)
    requires
        rom.len() >= HEADER_SIZE,
        rom[0xBD] == spec_header_checksum(rom),
        v != rom[0xBD],
        h.parsed_from(rom),
        h2.parsed_from(rom.update(0xBD, v)),
    ensures
        h.header_checksum == h.computed_checksum,
        h2.header_checksum != h2.computed_checksum,
        h2.game_title@ == h.game_title@,
        h2.game_code@ == h.game_code@,
        h2.maker_code@ == h.maker_code@,
        h2.fixed_value == h.fixed_value,
{
    lemma_checksum_ignores_checksum_byte(rom, v);
    let r2 = rom.update(0xBD, v);
    assert(r2.subrange(0xA0, 0xAC) =~= rom.subrange(0xA0, 0xAC));
    assert(r2.subrange(0xAC, 0xB0) =~= rom.subrange(0xAC, 0xB0));
    assert(r2.subrange(0xB0, 0xB2) =~= rom.subrange(0xB0, 0xB2));
}

/// The checksum covers bytes 0xA0..=0xBC only, so it does not depend on the
/// checksum byte itself.
pub proof fn lemma_checksum_ignores_checksum_byte(rom: Seq<u8>, v: u8)
    requires
        rom.len() >= HEADER_SIZE,
    ensures
        spec_header_checksum(rom.update(0xBD, v)) == spec_header_checksum(rom),
{
    assert forall|end: int| end <= 0xBD implies spec_checksum_fold(rom.update(0xBD, v), end)
        == spec_checksum_fold(rom, end) by {
        lemma_fold_ignores_update(rom, v, end);
    }
}

proof fn lemma_fold_ignores_update(rom: Seq<u8>, v: u8, end: int)
    requires
        rom.len() >= HEADER_SIZE,
        end <= 0xBD,
    ensures
        spec_checksum_fold(rom.update(0xBD, v), end) == spec_checksum_fold(rom, end),
    decreases end - 0xA0,
{
    if end > 0xA0 {
        lemma_fold_ignores_update(rom, v, end - 1);
    }
}

} // verus!
