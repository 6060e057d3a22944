//! Validation and classification of 4-byte chunk-type tags, as used to label
//! sections of a structured binary container.
//!
//! The `ChunkType` value type wraps exactly 4 bytes; the ASCII letter case of
//! each byte encodes one boolean property, and the fallible constructors
//! enforce a validity check on the reserved byte at construction time.

use vstd::prelude::*;
use vstd::string::StringSliceAdditionalSpecFns;

verus! {

/// True when `b` is an uppercase ASCII letter (`A`..=`Z`).
///
/// The case of a tag byte encodes one property bit; a byte that is not an
/// ASCII letter is never counted as uppercase.
pub open spec fn is_upper_byte(b: u8) -> bool {
    65 <= b && b <= 90
}

/// The 4 bytes rendered as characters, one character per byte.
pub open spec fn chars_of(bytes: Seq<u8>) -> Seq<char> {
    bytes.map_values(|b: u8| b as char)
}

/// Why a chunk type could not be built.
#[derive(Debug, Clone, Copy, PartialEq, Eq)]
pub enum ChunkTypeError {
    /// Text input whose byte length is not exactly 4.
    InvalidLength,
    /// The reserved byte (index 2) of the given 4 bytes is not an uppercase
    /// ASCII letter; the rejected bytes are carried for inspection.
    InvalidChunkType([u8; 4]),
}

/// A 4-byte chunk-type tag. Immutable after construction; the fallible
/// constructors reject any tag whose reserved byte is not valid.
#[derive(Debug, Clone, Copy)]
pub struct ChunkType {
    data: [u8; 4],
}

impl View for ChunkType {
    type V = Seq<u8>;

    closed spec fn view(&self) -> Seq<u8> {
        self.data@
    }
}

/// A tag is critical when byte 0 is uppercase: the section it labels must be
/// understood by every processor.
pub open spec fn spec_is_critical(bytes: Seq<u8>) -> bool {
    is_upper_byte(bytes[0])
}

/// A tag is public when byte 1 is uppercase: it belongs to the standard
/// namespace of the format.
pub open spec fn spec_is_public(bytes: Seq<u8>) -> bool {
    is_upper_byte(bytes[1])
}

/// The reserved bit is valid when byte 2 is uppercase: the tag conforms to
/// the format's current specification.
pub open spec fn spec_is_reserved_bit_valid(bytes: Seq<u8>) -> bool {
    is_upper_byte(bytes[2])
}

/// A section is safe to copy when byte 3 is not uppercase (lowercase letters
/// and non-letter bytes both count as "not uppercase").
pub open spec fn spec_is_safe_to_copy(bytes: Seq<u8>) -> bool {
    !is_upper_byte(bytes[3])
}

/// A tag is valid exactly when its reserved bit is valid; this is the sole
/// criterion the fallible constructors enforce.
pub open spec fn spec_is_valid(bytes: Seq<u8>) -> bool {
    spec_is_reserved_bit_valid(bytes)
}

/// What building a chunk type from 4 raw bytes yields: the bytes themselves
/// when the reserved byte is valid, otherwise an error carrying them.
pub open spec fn spec_from_bytes(bytes: [u8; 4]) -> Result<Seq<u8>, ChunkTypeError> {
    if spec_is_valid(bytes@) {
        Ok(bytes@)
    } else {
        Err(ChunkTypeError::InvalidChunkType(bytes))
    }
}

/// What building a chunk type from text yields, given the text's UTF-8
/// bytes: a length check first, then the raw-byte construction.
pub open spec fn spec_from_text(bytes: Seq<u8>) -> Result<Seq<u8>, ChunkTypeError> {
    if bytes.len() != 4 {
        Err(ChunkTypeError::InvalidLength)
    } else {
        spec_from_bytes([bytes[0], bytes[1], bytes[2], bytes[3]])
    }
}

/// A construction result with the chunk type abstracted to its byte view,
/// so that contracts can state exactly which result a constructor returns.
pub open spec fn result_bytes(r: Result<ChunkType, ChunkTypeError>) -> Result<
    Seq<u8>,
    ChunkTypeError,
> {
    match r {
        Ok(c) => Ok(c@),
        Err(e) => Err(e),
    }
}

impl ChunkType {
    /// Wraps 4 bytes verbatim, with no validity check; `from_bytes` is the
    /// checking entry point.
    pub fn new(value: [u8; 4]) -> (r: ChunkType)
        ensures
            r@ == value@,
    {
        ChunkType { data: value }
    }

    /// The underlying 4 bytes, verbatim.
    pub fn bytes(&self) -> (r: [u8; 4])
        ensures
            r@ == self@,
    {
        self.data
    }

    /// Reads the property bit of the byte at `idx`: true exactly when that
    /// byte is an uppercase ASCII letter. Indices past 3 are a caller error.
    pub fn get_significant_bit(&self, idx: usize) -> (r: bool)
        requires
            idx < 4,
        ensures
            r == is_upper_byte(self@[idx as int]),
    {
        let b = self.data[idx];
        65 <= b && b <= 90
    }

    /// True exactly when the reserved bit is valid: the sole validity
    /// criterion of a tag.
    pub fn is_valid(&self) -> (r: bool)
        ensures
            r == spec_is_valid(self@),
    {
        self.is_reserved_bit_valid()
    }

    /// True when the labeled section is critical (byte 0 uppercase).
    pub fn is_critical(&self) -> (r: bool)
        ensures
            r == spec_is_critical(self@),
    {
        self.get_significant_bit(0)
    }

    /// True when the tag is in the public namespace (byte 1 uppercase).
    pub fn is_public(&self) -> (r: bool)
        ensures
            r == spec_is_public(self@),
    {
        self.get_significant_bit(1)
    }

    /// True when the reserved byte conforms to the current format
    /// specification (byte 2 uppercase).
    pub fn is_reserved_bit_valid(&self) -> (r: bool)
        ensures
            r == spec_is_reserved_bit_valid(self@),
    {
        self.get_significant_bit(2)
    }

    /// True when the labeled section may be copied by processors that do not
    /// understand it (byte 3 not uppercase).
    pub fn is_safe_to_copy(&self) -> (r: bool)
        ensures
            r == spec_is_safe_to_copy(self@),
    {
        !self.get_significant_bit(3)
    }

    /// Builds a chunk type from 4 raw bytes. Succeeds exactly when the
    /// reserved byte (index 2) is an uppercase ASCII letter; otherwise the
    /// rejected bytes come back in an `InvalidChunkType` error.
    pub fn from_bytes(bytes: [u8; 4]) -> (r: Result<ChunkType, ChunkTypeError>)
        ensures
            result_bytes(r) == spec_from_bytes(bytes),
            r is Ok <==> spec_is_valid(bytes@),
    {
        let c = ChunkType::new(bytes);
        if c.is_valid() {
            Ok(c)
        } else {
            Err(ChunkTypeError::InvalidChunkType(bytes))
        }
    }

    /// Builds a chunk type from text. Fails with `InvalidLength` whenever the
    /// text is not exactly 4 bytes long, regardless of content; otherwise
    /// behaves as `from_bytes` on those 4 bytes.
    pub fn from_text(s: &str) -> (r: Result<ChunkType, ChunkTypeError>)
        ensures
            result_bytes(r) == spec_from_text(s.spec_bytes()),
            r is Ok <==> (s.spec_bytes().len() == 4 && spec_is_valid(s.spec_bytes())),
    {
        let b: &[u8] = s.as_bytes();
        if b.len() != 4 {
            return Err(ChunkTypeError::InvalidLength);
        }
        let arr: [u8; 4] = [b[0], b[1], b[2], b[3]];
        proof {
            assert(arr@ =~= s.spec_bytes());
        }
        ChunkType::from_bytes(arr)
    }

    /// Renders the 4 bytes back as their 4-character text form; on tags built
    /// from ASCII text this inverts `from_text`.
    pub fn to_text(&self) -> (r: String)
        ensures
            r@ == chars_of(self@),
    {
        let mut out = String::new();
        push_char(&mut out, self.data[0] as char);
        push_char(&mut out, self.data[1] as char);
        push_char(&mut out, self.data[2] as char);
        push_char(&mut out, self.data[3] as char);
        proof {
            assert(out@ =~= chars_of(self@));
        }
        out
    }
}

/// True when `c` is an uppercase ASCII letter.
pub open spec fn is_upper_char(c: char) -> bool {
    'A' <= c && c <= 'Z'
}

/// True when `c` is an ASCII letter of either case.
pub open spec fn is_letter_char(c: char) -> bool {
    is_upper_char(c) || ('a' <= c && c <= 'z')
}

/// Law (agreement): 4 raw bytes and any text whose UTF-8 bytes are those
/// same 4 bytes build the very same result — equal chunk types on success,
/// the same error on failure.
pub proof fn lemma_bytes_text_agree(b: [u8; 4])
    ensures
        spec_from_text(b@) == spec_from_bytes(b),
{
    let rebuilt = [b@[0], b@[1], b@[2], b@[3]];
    assert(rebuilt =~= b);
}

/// Law (round trip): parsing a 4-character ASCII-letter text whose third
/// character is uppercase succeeds, and rendering the parsed tag yields the
/// text back exactly. (Texts whose third character is lowercase are rejected
/// by the reserved-bit check, so no round trip exists for them.)
pub proof fn lemma_text_round_trip(s: &str)
    requires
        s@.len() == 4,
        forall|i: int| 0 <= i < 4 ==> is_letter_char(#[trigger] s@[i]),
        is_upper_char(s@[2]),
    ensures
        spec_from_text(s.spec_bytes()) is Ok,
        chars_of(spec_from_text(s.spec_bytes())->Ok_0) == s@,
{
    let t = s@;
    assert(vstd::utf8::is_ascii_chars(t));
    vstd::utf8::is_ascii_chars_encode_utf8(t);
    let bytes = s.spec_bytes();
    assert(bytes.len() == 4);
    assert(bytes[2] == t[2] as u8);
    let rebuilt = [bytes[0], bytes[1], bytes[2], bytes[3]];
    assert(rebuilt@ =~= bytes);
    assert(spec_from_text(bytes) == Ok::<Seq<u8>, ChunkTypeError>(rebuilt@));
    assert(chars_of(rebuilt@) =~= t) by {
        assert forall|i: int| 0 <= i < 4 implies chars_of(rebuilt@)[i] == t[i] by {
            assert(rebuilt@[i] == t[i] as u8);
            assert((t[i] as u8) as char == t[i]);
        }
    }
}

/// Relies on `String::push`: appends the given character to the end of the
/// string.
#[verifier::external_body]
fn push_char(s: &mut String, c: char)
    ensures
        final(s)@ == old(s)@.push(c),
{
    s.push(c);
}

impl PartialEq for ChunkType {
    /// Two chunk types are equal exactly when their 4 bytes are equal.
    fn eq(&self, other: &ChunkType) -> (r: bool) {
        let r = self.data[0] == other.data[0] && self.data[1] == other.data[1] && self.data[2]
            == other.data[2] && self.data[3] == other.data[3];
        proof {
            if r {
                assert(self@ =~= other@);
            }
        }
        r
    }
}

impl vstd::std_specs::cmp::PartialEqSpecImpl for ChunkType {
    open spec fn obeys_eq_spec() -> bool {
        true
    }

    open spec fn eq_spec(&self, other: &ChunkType) -> bool {
        self@ == other@
    }
}

impl Eq for ChunkType {

}

} // verus!
