//! The identity hasher: from an email address to a stable key that can name a
//! directory.

use vstd::prelude::*;
use vstd::utf8::encode_utf8;
use sha2::Digest;

verus! {

/// The SHA-256 digest of a byte string, as `sha2` computes it.
pub uninterp spec fn sha256_digest(data: Seq<u8>) -> Seq<u8>;

/// Calls `sha2::Sha256::digest`. The contract gives the digest its name and
/// says that it has 32 bytes, the output size that `sha2` fixes for SHA-256;
/// nothing is claimed of the digest's bytes.
#[verifier::external_body]
fn sha256(data: &[u8]) -> (digest: Vec<u8>)
    ensures
        digest@ == sha256_digest(data@),
        digest@.len() == 32,
{
    sha2::Sha256::digest(data).to_vec()
}

/// The lower-case hexadecimal digit of a value below sixteen.
pub open spec fn hex_char(nibble: u8) -> char {
    if nibble < 10 {
        (48 + nibble) as char
    } else {
        (87 + nibble) as char
    }
}

/// The digit at one place of the hexadecimal text of `bytes`: the high half
/// of a byte comes before its low half.
pub open spec fn hex_at(bytes: Seq<u8>, place: int) -> char {
    if place % 2 == 0 {
        hex_char(bytes[place / 2] >> 4)
    } else {
        hex_char(bytes[place / 2] & 0xf)
    }
}

/// The lower-case hexadecimal text of a byte string, two digits per byte.
pub open spec fn hex_lower(bytes: Seq<u8>) -> Seq<char> {
    Seq::new(2 * bytes.len(), |place: int| hex_at(bytes, place))
}

/// Whether a character is one of `0` to `9` and `a` to `f`.
pub open spec fn is_hex_char(c: char) -> bool {
    ('0' <= c && c <= '9') || ('a' <= c && c <= 'f')
}

/// The key under which a user's data is kept: the hexadecimal text of the
/// SHA-256 digest of the email's UTF-8 bytes.
pub open spec fn user_key(email: Seq<char>) -> Seq<char> {
    hex_lower(sha256_digest(encode_utf8(email)))
}

/// The digest that is stored in place of a password; computed as a user key
/// is.
pub open spec fn password_digest_text(password: Seq<char>) -> Seq<char> {
    hex_lower(sha256_digest(encode_utf8(password)))
}

fn hex_digit(nibble: u8) -> (digit: &'static str)
    requires
        nibble < 16,
    ensures
        digit@ == seq![hex_char(nibble)],
{
    proof {
        reveal_strlit("0");
        reveal_strlit("1");
        reveal_strlit("2");
        reveal_strlit("3");
        reveal_strlit("4");
        reveal_strlit("5");
        reveal_strlit("6");
        reveal_strlit("7");
        reveal_strlit("8");
        reveal_strlit("9");
        reveal_strlit("a");
        reveal_strlit("b");
        reveal_strlit("c");
        reveal_strlit("d");
        reveal_strlit("e");
        reveal_strlit("f");
    }
    let digit = match nibble {
        0 => "0",
        1 => "1",
        2 => "2",
        3 => "3",
        4 => "4",
        5 => "5",
        6 => "6",
        7 => "7",
        8 => "8",
        9 => "9",
        10 => "a",
        11 => "b",
        12 => "c",
        13 => "d",
        14 => "e",
        _ => "f",
    };
    assert(digit@ =~= seq![hex_char(nibble)]);
    digit
}

/// The lower-case hexadecimal text of `bytes`.
pub fn to_hex(bytes: &[u8]) -> (text: String)
    ensures
        text@ == hex_lower(bytes@),
{
    let mut text = String::new();
    let mut i: usize = 0;
    while i < bytes.len()
        invariant
            0 <= i <= bytes.len(),
            text@.len() == 2 * i,
            forall|place: int| 0 <= place < 2 * i ==> text@[place] == hex_at(bytes@, place),
        decreases bytes.len() - i,
    {
        let byte = bytes[i];
        let high = byte >> 4;
        let low = byte & 0xf;
        assert(high < 16) by (bit_vector)
            requires
                high == byte >> 4,
        ;
        assert(low < 16) by (bit_vector)
            requires
                low == byte & 0xf,
        ;
        text.append(hex_digit(high));
        text.append(hex_digit(low));
        i += 1;
    }
    assert(text@ =~= hex_lower(bytes@));
    text
}

/// The hexadecimal text of a byte string has two digits for each byte, and
/// holds nothing but the digits `0` to `9` and `a` to `f`.
pub proof fn lemma_hex_lower_shape(bytes: Seq<u8>)
    ensures
        hex_lower(bytes).len() == 2 * bytes.len(),
        forall|place: int|
            0 <= place < hex_lower(bytes).len() ==> is_hex_char(#[trigger] hex_lower(bytes)[place]),
{
    assert forall|place: int| 0 <= place < hex_lower(bytes).len() implies is_hex_char(
        #[trigger] hex_lower(bytes)[place],
    ) by {
        let byte = bytes[place / 2];
        assert((byte >> 4) < 16) by (bit_vector);
        assert((byte & 0xf) < 16) by (bit_vector);
    }
}

/// Two byte strings with the same hexadecimal text are the same.
pub proof fn lemma_hex_lower_injective(a: Seq<u8>, b: Seq<u8>)
    requires
        hex_lower(a) == hex_lower(b),
    ensures
        a == b,
{
    assert(hex_lower(a).len() == 2 * a.len());
    assert(hex_lower(b).len() == 2 * b.len());
    assert forall|i: int| 0 <= i < a.len() implies a[i] == b[i] by {
        let x = a[i];
        let y = b[i];
        assert(hex_lower(a)[2 * i] == hex_at(a, 2 * i));
        assert(hex_lower(b)[2 * i] == hex_at(b, 2 * i));
        assert(hex_lower(a)[2 * i + 1] == hex_at(a, 2 * i + 1));
        assert(hex_lower(b)[2 * i + 1] == hex_at(b, 2 * i + 1));
        assert((2 * i) / 2 == i && (2 * i) % 2 == 0);
        assert((2 * i + 1) / 2 == i && (2 * i + 1) % 2 == 1);
        assert((x >> 4) < 16 && (x & 0xf) < 16) by (bit_vector);
        assert((y >> 4) < 16 && (y & 0xf) < 16) by (bit_vector);
        assert(hex_char(x >> 4) == hex_char(y >> 4));
        assert(hex_char(x & 0xf) == hex_char(y & 0xf));
        assert(x >> 4 == y >> 4);
        assert(x & 0xf == y & 0xf);
        assert(x == y) by (bit_vector)
            requires
                x >> 4 == y >> 4,
                x & 0xf == y & 0xf,
        ;
    }
    assert(a =~= b);
}

/// The key of the user with this email. The same email gives the same key in
/// every run; the key has 64 characters, each a lower-case hexadecimal digit,
/// so that it can stand as one segment of a path.
pub fn hash_email(email: &str) -> (key: String)
    ensures
        key@ == user_key(email@),
        key@.len() == 64,
        forall|place: int| 0 <= place < 64 ==> is_hex_char(#[trigger] key@[place]),
{
    let digest = sha256(email.as_bytes());
    proof {
        lemma_hex_lower_shape(digest@);
    }
    to_hex(digest.as_slice())
}

/// The digest that is stored and compared in place of a password.
pub fn password_digest(password: &str) -> (digest: String)
    ensures
        digest@ == password_digest_text(password@),
{
    let digest = sha256(password.as_bytes());
    to_hex(digest.as_slice())
}

} // verus!
