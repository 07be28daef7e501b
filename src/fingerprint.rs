//! Content fingerprints (lowercase hex of an MD5 digest) and change detection.
use vstd::prelude::*;
use vstd::utf8::encode_utf8;

verus! {

/// The sixteen-byte MD5 digest of a byte sequence.
pub uninterp spec fn md5_of(bytes: Seq<u8>) -> Seq<u8>;

/// Relies on md5::compute, whose `Digest` holds the sixteen digest bytes of its input.
#[verifier::external_body]
fn md5_digest(bytes: &[u8]) -> (r: Vec<u8>)
    ensures
        r@ == md5_of(bytes@),
        r@.len() == 16,
{
    md5::compute(bytes).0.to_vec()
}

/// The sixteen lowercase hexadecimal digits, in order of value.
pub open spec fn hex_alphabet() -> Seq<char> {
    "0123456789abcdef"@
}

pub open spec fn is_lower_hex_digit(c: char) -> bool {
    ('0' <= c && c <= '9') || ('a' <= c && c <= 'f')
}

/// Two lowercase hex digits per byte, high nibble first.
pub open spec fn hex_of(bytes: Seq<u8>) -> Seq<char> {
    Seq::new(
        2 * bytes.len(),
        |i: int|
            if i % 2 == 0 {
                hex_alphabet()[bytes[i / 2] as int / 16]
            } else {
                hex_alphabet()[bytes[i / 2] as int % 16]
            },
    )
}

/// The fingerprint of a text: the hex form of the MD5 digest of its UTF-8 bytes.
pub open spec fn fingerprint_of(text: Seq<char>) -> Seq<char> {
    hex_of(md5_of(encode_utf8(text)))
}

/// A fingerprint counts as a change unless it equals the last one reported.
pub open spec fn is_change(fp: Seq<char>, last: Option<Seq<char>>) -> bool {
    last != Some(fp)
}

/// What the change detector answers for `text` after `last`.
pub open spec fn detect_spec(text: Seq<char>, last: Option<Seq<char>>) -> (Seq<char>, bool) {
    (fingerprint_of(text), is_change(fingerprint_of(text), last))
}

pub open spec fn opt_view(o: Option<String>) -> Option<Seq<char>> {
    match o {
        Some(s) => Some(s@),
        None => None,
    }
}

/// Renders bytes as lowercase hexadecimal, two digits per byte.
pub fn to_hex(bytes: &[u8]) -> (r: String)
    ensures
        r@ == hex_of(bytes@),
{
    let digits = "0123456789abcdef";
    proof {
        reveal_strlit("0123456789abcdef");
    }
    let mut out = String::new();
    let mut i: usize = 0;
    while i < bytes.len()
        invariant
            i <= bytes@.len(),
            digits@ == hex_alphabet(),
            digits@.len() == 16,
            out@.len() == 2 * i,
            forall|j: int| 0 <= j < 2 * i ==> out@[j] == hex_of(bytes@)[j],
        decreases bytes@.len() - i,
    {
        let b = bytes[i];
        let hi = (b / 16) as usize;
        let lo = (b % 16) as usize;
        let hs = digits.substring_char(hi, hi + 1);
        let ls = digits.substring_char(lo, lo + 1);
        let ghost prev = out@;
        out.append(hs);
        out.append(ls);
        assert(out@ == prev + hs@ + ls@);
        i += 1;
    }
    assert(out@ =~= hex_of(bytes@));
    out
}

/// The hex form of any bytes is two lowercase hex digits per byte; so every
/// fingerprint of a sixteen-byte digest is thirty-two of them.
pub proof fn lemma_hex_digits(bytes: Seq<u8>)
    ensures
        hex_of(bytes).len() == 2 * bytes.len(),
        forall|i: int| 0 <= i < hex_of(bytes).len() ==> is_lower_hex_digit(#[trigger] hex_of(bytes)[i]),
{
    reveal_strlit("0123456789abcdef");
    assert forall|d: int| 0 <= d < 16 implies is_lower_hex_digit(#[trigger] hex_alphabet()[d]) by {
        assert(hex_alphabet() =~= seq!['0', '1', '2', '3', '4', '5', '6', '7', '8', '9', 'a', 'b', 'c', 'd', 'e', 'f']);
    }
    assert forall|i: int| 0 <= i < hex_of(bytes).len() implies is_lower_hex_digit(#[trigger] hex_of(bytes)[i]) by {
        let b = bytes[i / 2] as int;
        assert(0 <= b / 16 < 16);
        assert(0 <= b % 16 < 16);
    }
}

/// The fingerprint of `content`: thirty-two lowercase hex digits.
pub fn fingerprint(content: &str) -> (r: String)
    ensures
        r@ == fingerprint_of(content@),
        r@.len() == 32,
        forall|i: int| 0 <= i < 32 ==> is_lower_hex_digit(#[trigger] r@[i]),
{
    let digest = md5_digest(content.as_bytes());
    let r = to_hex(digest.as_slice());
    proof {
        lemma_hex_digits(digest@);
    }
    r
}

/// Whether `fp` differs from the last reported fingerprint (none yet counts as a change).
pub fn is_changed(fp: &String, last: &Option<String>) -> (r: bool)
    ensures
        r == is_change(fp@, opt_view(*last)),
{
    match last {
        Some(l) => !l.eq(fp),
        None => true,
    }
}

/// The change detector: the fingerprint of `content` and whether it differs from `last`.
pub fn detect(content: &str, last: &Option<String>) -> (r: (String, bool))
    ensures
        (r.0@, r.1) == detect_spec(content@, opt_view(*last)),
{
    let fp = fingerprint(content);
    let changed = is_changed(&fp, last);
    (fp, changed)
}

/// Detecting the same content twice in a row yields the same fingerprint
/// both times and reports no change the second time.
pub proof fn lemma_detect_idempotent(text: Seq<char>, last: Option<Seq<char>>)
    ensures
        detect_spec(text, Some(detect_spec(text, last).0)) == (detect_spec(text, last).0, false),
{
}

} // verus!
