use vstd::prelude::*;
use vstd::utf8::{valid_utf8, decode_utf8, encode_utf8, encode_scalar};

verus! {

/// The character the host's bytes decode to where they are not UTF-8.
pub const REPLACEMENT_CHARACTER: char = '\u{FFFD}';

/// The bytes of a narrow, NUL-terminated string: all bytes before the first
/// NUL, or all of them when there is none.
pub open spec fn until_nul(raw: Seq<u8>) -> Seq<u8>
    decreases raw.len(),
{
    if raw.len() == 0 {
        raw
    } else if raw[0] == 0 {
        Seq::empty()
    } else {
        seq![raw[0]].add(until_nul(raw.drop_first()))
    }
}

/// What a lossy decode of invalid UTF-8 gives.
pub uninterp spec fn lossy_of(b: Seq<u8>) -> Seq<char>;

/// The text a lossy UTF-8 decode gives: the exact characters for valid input,
/// the lossy result otherwise.
pub open spec fn lossy_decode(b: Seq<u8>) -> Seq<char> {
    if valid_utf8(b) {
        decode_utf8(b)
    } else {
        lossy_of(b)
    }
}

/// The value of a string option whose stored form the host hands out as `raw`.
pub open spec fn string_value_spec(raw: Seq<u8>) -> Seq<char> {
    lossy_decode(until_nul(raw))
}

/// How the host stores a string: its UTF-8 bytes followed by a NUL.
pub open spec fn stored_form(s: Seq<char>) -> Seq<u8> {
    encode_utf8(s).push(0)
}

/// Relies on String::from_utf8_lossy: valid UTF-8 is decoded as it stands,
/// and each invalid sequence is replaced by U+FFFD.
#[verifier::external_body]
fn decode_lossy(b: &[u8]) -> (r: String)
    ensures
        valid_utf8(b@) ==> r@ == decode_utf8(b@),
        !valid_utf8(b@) ==> r@ == lossy_of(b@),
        !valid_utf8(b@) ==> r@.contains(REPLACEMENT_CHARACTER),
{
    String::from_utf8_lossy(b).into_owned()
}

/// Copies the bytes of a NUL-terminated string out of `raw`.
pub fn c_str_bytes(raw: &[u8]) -> (r: Vec<u8>)
    ensures
        r@ == until_nul(raw@),
{
    let mut r: Vec<u8> = Vec::new();
    let mut i: usize = 0;
    while i < raw.len() && raw[i] != 0
        invariant
            i <= raw@.len(),
            forall|j: int| 0 <= j < i ==> raw@[j] != 0,
            r@ == raw@.subrange(0, i as int),
        decreases raw.len() - i,
    {
        r.push(raw[i]);
        i = i + 1;
    }
    proof {
        lemma_until_nul_prefix(raw@, i as int);
    }
    r
}

/// `until_nul` keeps a NUL-free prefix and stops at the NUL that follows it.
proof fn lemma_until_nul_prefix(raw: Seq<u8>, i: int)
    requires
        0 <= i <= raw.len(),
        forall|j: int| 0 <= j < i ==> raw[j] != 0,
        i < raw.len() ==> raw[i] == 0,
    ensures
        until_nul(raw) == raw.subrange(0, i),
    decreases i,
{
    if i == 0 {
        if raw.len() > 0 {
            assert(until_nul(raw) == Seq::<u8>::empty());
        }
        assert(raw.subrange(0, 0) =~= Seq::<u8>::empty());
        if raw.len() == 0 {
            assert(raw =~= Seq::<u8>::empty());
        }
    } else {
        let rest = raw.drop_first();
        assert forall|j: int| 0 <= j < i - 1 implies rest[j] != 0 by {
            assert(rest[j] == raw[j + 1]);
        }
        lemma_until_nul_prefix(rest, i - 1);
        assert(raw.subrange(0, i) =~= seq![raw[0]].add(rest.subrange(0, i - 1)));
    }
}

/// Decodes the stored form of a string option, as the host hands it out:
/// the bytes up to the first NUL, read as UTF-8, with each invalid sequence
/// replaced by U+FFFD. Reading never fails.
pub fn string_value(raw: &[u8]) -> (r: String)
    ensures
        r@ == string_value_spec(raw@),
        valid_utf8(until_nul(raw@)) ==> r@ == decode_utf8(until_nul(raw@)),
        !valid_utf8(until_nul(raw@)) ==> r@.contains(REPLACEMENT_CHARACTER),
{
    let bytes = c_str_bytes(raw);
    decode_lossy(bytes.as_slice())
}

/// Round trip: a string without NUL characters that the host stored reads
/// back unchanged.
pub proof fn lemma_round_trip(s: Seq<char>)
    requires
        !s.contains('\0'),
    ensures
        string_value_spec(stored_form(s)) == s,
{
    broadcast use vstd::utf8::group_utf8_lib;
    let b = encode_utf8(s);
    lemma_encode_no_nul(s);
    lemma_until_nul_prefix(b.push(0), b.len() as int);
    assert(b.push(0).subrange(0, b.len() as int) =~= b);
}

/// The UTF-8 encoding of a non-zero scalar holds no zero byte.
proof fn lemma_scalar_no_nul(v: u32)
    requires
        v != 0,
    ensures
        forall|j: int| 0 <= j < encode_scalar(v).len() ==> encode_scalar(v)[j] != 0,
{
    assert(v != 0 && v <= 0x7F ==> (v & 0x7F) as u8 != 0) by (bit_vector);
    let x2 = ((v >> 6) & 0x1F) as u8;
    let x3 = ((v >> 12) & 0x0F) as u8;
    let x4 = ((v >> 18) & 0x7) as u8;
    let c1 = (v & 0x3F) as u8;
    let c2 = ((v >> 6) & 0x3F) as u8;
    let c3 = ((v >> 12) & 0x3F) as u8;
    assert(0xC0u8 | x2 != 0) by (bit_vector);
    assert(0xE0u8 | x3 != 0) by (bit_vector);
    assert(0xF0u8 | x4 != 0) by (bit_vector);
    assert(0x80u8 | c1 != 0) by (bit_vector);
    assert(0x80u8 | c2 != 0) by (bit_vector);
    assert(0x80u8 | c3 != 0) by (bit_vector);
}

/// The UTF-8 encoding of a NUL-free string holds no zero byte.
proof fn lemma_encode_no_nul(s: Seq<char>)
    requires
        !s.contains('\0'),
    ensures
        forall|j: int| 0 <= j < encode_utf8(s).len() ==> encode_utf8(s)[j] != 0,
    decreases s.len(),
{
    if s.len() > 0 {
        let rest = s.drop_first();
        assert(!rest.contains('\0')) by {
            if rest.contains('\0') {
                let k = choose|k: int| 0 <= k < rest.len() && rest[k] == '\0';
                assert(s[k + 1] == '\0');
            }
        }
        lemma_encode_no_nul(rest);
        assert(s[0] != '\0');
        let v = s[0] as u32;
        assert(v != 0) by {
            if v == 0 {
                assert(('\0' as u32) == 0);
                vstd::utf8::char_u32_cast(s[0], v);
                vstd::utf8::char_u32_cast('\0', 0);
            }
        }
        lemma_scalar_no_nul(v);
        let head = encode_scalar(v);
        let tail = encode_utf8(rest);
        assert(encode_utf8(s) == head + tail);
        assert forall|j: int| 0 <= j < encode_utf8(s).len() implies encode_utf8(s)[j] != 0 by {
            if j < head.len() {
                assert(encode_utf8(s)[j] == head[j]);
            } else {
                assert(encode_utf8(s)[j] == tail[j - head.len()]);
            }
        }
    }
}

} // verus!
