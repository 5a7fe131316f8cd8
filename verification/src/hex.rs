use crate::ascii::lower_char;
use crate::error::Error;
use vstd::prelude::*;

verus! {

broadcast use vstd::utf8::char_u32_cast;

/// A character is a hexadecimal digit: `0-9`, `a-f` or `A-F`.
pub open spec fn is_hex_digit(c: char) -> bool {
    (48 <= c as u32 && c as u32 <= 57) || (97 <= c as u32 && c as u32 <= 102) || (65 <= c as u32
        && c as u32 <= 70)
}

/// The numeric value of a hexadecimal digit.
pub open spec fn hex_digit_value(c: char) -> nat {
    if 48 <= c as u32 && c as u32 <= 57 {
        (c as u32 - 48) as nat
    } else if 97 <= c as u32 && c as u32 <= 102 {
        (c as u32 - 87) as nat
    } else {
        (c as u32 - 55) as nat
    }
}

/// The canonical (lowercase) hexadecimal digit for a value below 16.
pub open spec fn hex_char(v: nat) -> char {
    if v < 10 {
        ((v + 48) as u8) as char
    } else {
        ((v + 87) as u8) as char
    }
}

/// A well-formed key string: exactly 64 characters, all hexadecimal digits.
pub open spec fn valid_hex_key(s: Seq<char>) -> bool {
    s.len() == 64 && (forall|i: int| 0 <= i < s.len() ==> is_hex_digit(#[trigger] s[i]))
}

/// The 32 bytes a well-formed key string decodes to.
pub open spec fn key_bytes(s: Seq<char>) -> Seq<u8> {
    Seq::new(32, |i: int| (hex_digit_value(s[2 * i]) * 16 + hex_digit_value(s[2 * i + 1])) as u8)
}

/// The canonical lowercase hexadecimal encoding of a byte sequence.
pub open spec fn hex_encode(bytes: Seq<u8>) -> Seq<char> {
    Seq::new(
        bytes.len() * 2,
        |i: int|
            if i % 2 == 0 {
                hex_char((bytes[i / 2] / 16) as nat)
            } else {
                hex_char((bytes[i / 2] % 16) as nat)
            },
    )
}

/// The numeric value of one hexadecimal digit, or `None` for any other
/// character.
fn hex_value(c: char) -> (r: Option<u8>)
    ensures
        r is Some <==> is_hex_digit(c),
        r is Some ==> r.unwrap() < 16 && r.unwrap() as nat == hex_digit_value(c),
{
    let u = c as u32;
    if 48 <= u && u <= 57 {
        Some((u - 48) as u8)
    } else if 97 <= u && u <= 102 {
        Some((u - 87) as u8)
    } else if 65 <= u && u <= 70 {
        Some((u - 55) as u8)
    } else {
        None
    }
}

/// Relies on `String::push`: appends the given character to the end of
/// the string.
#[verifier::external_body]
fn push_char(s: &mut String, c: char)
    ensures
        final(s)@ == old(s)@.push(c),
{
    s.push(c);
}

/// A decoded, fixed-size (32-byte) public key.
#[derive(Clone, Debug)]
pub struct Pubkey {
    bytes: Vec<u8>,
}

impl View for Pubkey {
    type V = Seq<u8>;

    closed spec fn view(&self) -> Seq<u8> {
        self.bytes@
    }
}

impl DeepView for Pubkey {
    type V = Seq<u8>;

    open spec fn deep_view(&self) -> Seq<u8> {
        self.view()
    }
}

impl Pubkey {
    /// A well-formed key holds exactly 32 bytes.
    pub open spec fn wf(&self) -> bool {
        self@.len() == 32
    }

    /// Decodes a 64-character hexadecimal string into a key. Any string
    /// of the wrong length, or holding a non-hexadecimal character, is
    /// rejected with `Error::InvalidPublicKey`.
    pub fn read_hex(hex: &str) -> (r: Result<Pubkey, Error>)
        ensures
            r is Ok <==> valid_hex_key(hex@),
            r is Ok ==> r.unwrap().wf() && r.unwrap()@ == key_bytes(hex@),
            r is Err ==> r.unwrap_err() == Error::InvalidPublicKey,
    {
        let n = hex.unicode_len();
        if n != 64 {
            return Err(Error::InvalidPublicKey);
        }
        let mut bytes: Vec<u8> = Vec::new();
        let mut i: usize = 0;
        while i < 32
            invariant
                0 <= i <= 32,
                hex@.len() == 64,
                bytes@.len() == i,
                forall|j: int| 0 <= j < 2 * i ==> is_hex_digit(#[trigger] hex@[j]),
                forall|j: int|
                    0 <= j < i ==> bytes@[j] == (hex_digit_value(hex@[2 * j]) * 16
                        + hex_digit_value(hex@[2 * j + 1])) as u8,
            decreases 32 - i,
        {
            let hi = match hex_value(hex.get_char(2 * i)) {
                Some(v) => v,
                None => {
                    return Err(Error::InvalidPublicKey);
                },
            };
            let lo = match hex_value(hex.get_char(2 * i + 1)) {
                Some(v) => v,
                None => {
                    return Err(Error::InvalidPublicKey);
                },
            };
            bytes.push(hi * 16 + lo);
            i += 1;
        }
        proof {
            assert(bytes@ =~= key_bytes(hex@));
        }
        Ok(Pubkey { bytes })
    }

    /// The canonical lowercase hexadecimal encoding of this key.
    pub fn write_hex(&self) -> (r: String)
        ensures
            r@ == hex_encode(self@),
    {
        let mut out = String::new();
        let n = self.bytes.len();
        let mut i: usize = 0;
        while i < n
            invariant
                0 <= i <= n,
                n == self@.len(),
                out@ =~= hex_encode(self@.take(i as int)),
            decreases n - i,
        {
            let b = self.bytes[i];
            let hi = hex_digit_char(b / 16);
            let lo = hex_digit_char(b % 16);
            push_char(&mut out, hi);
            push_char(&mut out, lo);
            proof {
                assert(out@ =~= hex_encode(self@.take(i + 1)));
            }
            i += 1;
        }
        proof {
            assert(self@.take(n as int) =~= self@);
        }
        out
    }

    /// The key's bytes.
    pub fn as_bytes(&self) -> (r: &[u8])
        ensures
            r@ == self@,
    {
        self.bytes.as_slice()
    }
}

/// The canonical hexadecimal digit for a value below 16, as a character.
fn hex_digit_char(v: u8) -> (c: char)
    requires
        v < 16,
    ensures
        c == hex_char(v as nat),
{
    if v < 10 {
        (v + 48) as char
    } else {
        (v + 87) as char
    }
}

/// Decoding a hexadecimal digit and re-encoding it canonically
/// lower-cases it.
proof fn lemma_hex_char_lower(c: char)
    requires
        is_hex_digit(c),
    ensures
        hex_char(hex_digit_value(c)) == lower_char(c),
{
}

/// Key round-trip: decoding a well-formed hexadecimal key string and
/// re-encoding the bytes reproduces the original string, lower-cased —
/// the canonical encoding is lowercase.
pub proof fn lemma_hex_round_trip(s: Seq<char>)
    requires
        valid_hex_key(s),
    ensures
        hex_encode(key_bytes(s)) =~= s.map_values(|c: char| lower_char(c)),
{
    let enc = hex_encode(key_bytes(s));
    assert forall|i: int| 0 <= i < 64 implies enc[i] == lower_char(s[i]) by {
        lemma_hex_char_lower(s[i]);
        if i % 2 == 0 {
            assert(key_bytes(s)[i / 2] == (hex_digit_value(s[i]) * 16 + hex_digit_value(
                s[i + 1],
            )) as u8);
        } else {
            assert(key_bytes(s)[i / 2] == (hex_digit_value(s[i - 1]) * 16 + hex_digit_value(
                s[i],
            )) as u8);
        }
    }
}

} // verus!
