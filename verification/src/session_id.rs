//! Session ids: eight random bytes, written as sixteen lower-case hex digits.

use vstd::prelude::*;

verus! {

/// The digit that stands for a value below sixteen.
pub open spec fn lower_hex_digit(nibble: int) -> char {
    "0123456789abcdef"@[nibble]
}

/// Lower-case hexadecimal text of a byte string: two digits per byte, the
/// high half of each byte first.
pub open spec fn lower_hex(bytes: Seq<u8>) -> Seq<char> {
    Seq::new(
        2 * bytes.len(),
        |i: int|
            if i % 2 == 0 {
                lower_hex_digit(bytes[i / 2] as int / 16)
            } else {
                lower_hex_digit(bytes[i / 2] as int % 16)
            },
    )
}

/// `0`..`9` and `a`..`f`.
pub open spec fn is_lower_hex_char(c: char) -> bool {
    ('0' <= c && c <= '9') || ('a' <= c && c <= 'f')
}

/// The value of a lower-case hex digit.
pub open spec fn hex_digit_value(c: char) -> int {
    if '0' <= c && c <= '9' {
        c as int - '0' as int
    } else {
        c as int - 'a' as int + 10
    }
}

/// The shape every generated session id has: sixteen lower-case hex digits.
pub open spec fn is_session_id(text: Seq<char>) -> bool {
    &&& text.len() == 16
    &&& forall|i: int| 0 <= i < 16 ==> is_lower_hex_char(#[trigger] text[i])
}

/// Every digit is a lower-case hex character, and reading it back gives the
/// value it was written for.
pub proof fn lemma_lower_hex_digit(nibble: int)
    requires
        0 <= nibble < 16,
    ensures
        is_lower_hex_char(lower_hex_digit(nibble)),
        hex_digit_value(lower_hex_digit(nibble)) == nibble,
{
    reveal_strlit("0123456789abcdef");
}

/// The text of `n` bytes has `2 * n` characters, all of them lower-case hex
/// digits.
pub proof fn lemma_lower_hex_shape(bytes: Seq<u8>)
    ensures
        lower_hex(bytes).len() == 2 * bytes.len(),
        forall|i: int|
            0 <= i < 2 * bytes.len() ==> is_lower_hex_char(#[trigger] lower_hex(bytes)[i]),
{
    assert forall|i: int| 0 <= i < 2 * bytes.len() implies is_lower_hex_char(
        #[trigger] lower_hex(bytes)[i],
    ) by {
        let b = bytes[i / 2] as int;
        lemma_lower_hex_digit(b / 16);
        lemma_lower_hex_digit(b % 16);
    }
}

/// The text determines the bytes: two byte strings with the same text are
/// the same byte string.
pub proof fn lemma_lower_hex_injective(a: Seq<u8>, b: Seq<u8>)
    requires
        lower_hex(a) == lower_hex(b),
    ensures
        a == b,
{
    assert(a.len() == b.len()) by {
        assert(lower_hex(a).len() == 2 * a.len());
        assert(lower_hex(b).len() == 2 * b.len());
    }
    assert forall|k: int| 0 <= k < a.len() implies a[k] == b[k] by {
        let x = a[k] as int;
        let y = b[k] as int;
        lemma_lower_hex_digit(x / 16);
        lemma_lower_hex_digit(x % 16);
        lemma_lower_hex_digit(y / 16);
        lemma_lower_hex_digit(y % 16);
        assert(lower_hex(a)[2 * k] == lower_hex_digit(x / 16));
        assert(lower_hex(b)[2 * k] == lower_hex_digit(y / 16));
        assert(lower_hex(a)[2 * k + 1] == lower_hex_digit(x % 16));
        assert(lower_hex(b)[2 * k + 1] == lower_hex_digit(y % 16));
    }
    assert(a =~= b);
}

/// Eight bytes from `rand::random`, which draws them from the thread-local
/// generator that the operating system seeds.  Nothing is claimed of the
/// bytes.  The call panics where the operating system cannot seed the
/// generator.
#[verifier::external_body]
fn random_bytes() -> (bytes: [u8; 8]) {
    rand::random::<[u8; 8]>()
}

/// `hex::encode`: the bytes as lower-case hex text, two digits per byte, the
/// high half of each byte first.
#[verifier::external_body]
fn hex_encode(data: &[u8]) -> (text: String)
    ensures
        text@ == lower_hex(data@),
{
    hex::encode(data)
}

/// The session id that stands for eight given bytes.
pub fn session_id_from_bytes(bytes: &[u8; 8]) -> (id: String)
    ensures
        id@ == lower_hex(bytes@),
        is_session_id(id@),
{
    proof {
        lemma_lower_hex_shape(bytes@);
    }
    hex_encode(bytes.as_slice())
}

/// A fresh session id: eight random bytes as sixteen lower-case hex digits.
///
/// Which bytes are drawn is not known here; whatever they are, the id is
/// their text.
pub fn new_psql_session_id() -> (id: String)
    ensures
        is_session_id(id@),
        exists|bytes: Seq<u8>| bytes.len() == 8 && id@ == lower_hex(bytes),
{
    let bytes: [u8; 8] = random_bytes();
    let id = session_id_from_bytes(&bytes);
    assert(bytes@.len() == 8 && id@ == lower_hex(bytes@));
    id
}

} // verus!
