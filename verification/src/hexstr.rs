use vstd::prelude::*;
use vstd::string::StrSliceExecFns;

verus! {

/// Why hex decoding of a private key failed.
///
/// `InvalidHexCharacter` reports the offending character and its position
/// (counted in characters); `OddLength` reports an input that cannot be
/// split into two-digit bytes.
#[derive(Clone, Copy, PartialEq, Eq, Structural, Debug)]
pub enum HexDecodeError {
    OddLength,
    InvalidHexCharacter { c: char, index: usize },
}

/// The value of one hexadecimal digit, upper or lower case.
pub open spec fn hex_digit_value(c: char) -> Option<u8> {
    let v = c as int;
    if 48 <= v <= 57 {
        Some((v - 48) as u8)
    } else if 65 <= v <= 70 {
        Some((v - 55) as u8)
    } else if 97 <= v <= 102 {
        Some((v - 87) as u8)
    } else {
        None
    }
}

/// A string is well-formed hex when its length is even and every character
/// is a hexadecimal digit.
pub open spec fn hex_ok(s: Seq<char>) -> bool {
    &&& s.len() % 2 == 0
    &&& forall|i: int| 0 <= i < s.len() ==> hex_digit_value(s[i]) is Some
}

/// The byte encoded by two hexadecimal digits.
pub open spec fn hex_pair(hi: char, lo: char) -> u8
    recommends
        hex_digit_value(hi) is Some,
        hex_digit_value(lo) is Some,
{
    ((hex_digit_value(hi).unwrap() as int) * 16 + hex_digit_value(lo).unwrap() as int) as u8
}

/// The bytes encoded by a well-formed hex string, two digits per byte.
pub open spec fn hex_bytes(s: Seq<char>) -> Seq<u8>
    recommends
        hex_ok(s),
    decreases s.len(),
{
    if s.len() < 2 {
        Seq::empty()
    } else {
        hex_bytes(s.take(s.len() - 2)) + seq![hex_pair(s[s.len() - 2], s[s.len() - 1])]
    }
}

/// A decoded hex string yields exactly one byte for each pair of digits.
pub proof fn lemma_hex_bytes_len(s: Seq<char>)
    ensures
        hex_bytes(s).len() == s.len() / 2,
    decreases s.len(),
{
    if s.len() >= 2 {
        lemma_hex_bytes_len(s.take(s.len() - 2));
    }
}

/// When decoding fails, the reported error describes the input: an odd
/// length, or the first character that is not a hexadecimal digit.
pub open spec fn hex_error_for(s: Seq<char>, e: HexDecodeError) -> bool {
    match e {
        HexDecodeError::OddLength => s.len() % 2 != 0,
        HexDecodeError::InvalidHexCharacter { c, index } => {
            &&& s.len() % 2 == 0
            &&& index < s.len()
            &&& s[index as int] == c
            &&& hex_digit_value(c) is None
            &&& forall|j: int| 0 <= j < index ==> hex_digit_value(s[j]) is Some
        },
    }
}

/// The value of one hexadecimal digit, or `None` for any other character.
fn hex_val(c: char) -> (r: Option<u8>)
    ensures
        r == hex_digit_value(c),
{
    let v = c as u32;
    if 48 <= v && v <= 57 {
        Some((v - 48) as u8)
    } else if 65 <= v && v <= 70 {
        Some((v - 55) as u8)
    } else if 97 <= v && v <= 102 {
        Some((v - 87) as u8)
    } else {
        None
    }
}

/// Decodes a hexadecimal string into the byte sequence it spells, or
/// reports exactly why the string is not well-formed hex.
pub fn decode_hex(s: &str) -> (r: Result<Vec<u8>, HexDecodeError>)
    ensures
        match r {
            Ok(v) => hex_ok(s@) && v@ == hex_bytes(s@),
            Err(e) => !hex_ok(s@) && hex_error_for(s@, e),
        },
{
    let n = s.unicode_len();
    if n % 2 != 0 {
        return Err(HexDecodeError::OddLength);
    }
    let mut out: Vec<u8> = Vec::new();
    let mut i: usize = 0;
    while i < n
        invariant
            n == s@.len(),
            i % 2 == 0,
            i <= n,
            n % 2 == 0,
            forall|j: int| 0 <= j < i ==> hex_digit_value(s@[j]) is Some,
            out@ == hex_bytes(s@.take(i as int)),
        decreases n - i,
    {
        let hi = s.get_char(i);
        let lo = s.get_char(i + 1);
        let h = match hex_val(hi) {
            Some(h) => h,
            None => {
                return Err(HexDecodeError::InvalidHexCharacter { c: hi, index: i });
            },
        };
        let l = match hex_val(lo) {
            Some(l) => l,
            None => {
                return Err(HexDecodeError::InvalidHexCharacter { c: lo, index: i + 1 });
            },
        };
        out.push(h * 16 + l);
        proof {
            let t = s@.take(i + 2);
            assert(t.take(t.len() - 2) =~= s@.take(i as int));
            assert(out@ =~= hex_bytes(s@.take(i + 2)));
        }
        i += 2;
    }
    proof {
        assert(s@.take(n as int) =~= s@);
    }
    Ok(out)
}

} // verus!
