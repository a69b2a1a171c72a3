//! Identifiers drawn from random UUIDs, and the lower-case hexadecimal
//! text they are written in.

use vstd::prelude::*;
use crate::text::{digit_char, push_char};

verus! {

/// The sixteen bytes of a fresh random UUID from `uuid::Uuid::new_v4`. The
/// contract states what holds of every outcome: sixteen bytes, the version
/// nibble 4 and the RFC 4122 variant bits; which bytes come out is chance
/// and not stated.
#[verifier::external_body]
pub(crate) fn random_uuid_bytes() -> (r: Vec<u8>)
    ensures
        r@.len() == 16,
        r@[6] / 16 == 4,
        128 <= r@[8] < 192,
{
    uuid::Uuid::new_v4().as_bytes().to_vec()
}

/// The lower-case hexadecimal digit for `n` (0 to 15).
pub open spec fn hex_digit(n: int) -> char {
    if n < 10 {
        digit_char(n)
    } else if n == 10 {
        'a'
    } else if n == 11 {
        'b'
    } else if n == 12 {
        'c'
    } else if n == 13 {
        'd'
    } else if n == 14 {
        'e'
    } else {
        'f'
    }
}

/// The lower-case hexadecimal text of `bytes`, two digits per byte.
pub open spec fn lower_hex(bytes: Seq<u8>) -> Seq<char>
    decreases bytes.len(),
{
    if bytes.len() == 0 {
        seq![]
    } else {
        lower_hex(bytes.drop_last()) + seq![hex_digit((bytes.last() / 16) as int), hex_digit((bytes.last() % 16) as int)]
    }
}

fn hex_char(n: u8) -> (c: char)
    requires
        n < 16,
    ensures
        c == hex_digit(n as int),
{
    if n == 0 {
        '0'
    } else if n == 1 {
        '1'
    } else if n == 2 {
        '2'
    } else if n == 3 {
        '3'
    } else if n == 4 {
        '4'
    } else if n == 5 {
        '5'
    } else if n == 6 {
        '6'
    } else if n == 7 {
        '7'
    } else if n == 8 {
        '8'
    } else if n == 9 {
        '9'
    } else if n == 10 {
        'a'
    } else if n == 11 {
        'b'
    } else if n == 12 {
        'c'
    } else if n == 13 {
        'd'
    } else if n == 14 {
        'e'
    } else {
        'f'
    }
}

proof fn lemma_lower_hex_len(bytes: Seq<u8>)
    ensures
        lower_hex(bytes).len() == 2 * bytes.len(),
    decreases bytes.len(),
{
    if bytes.len() > 0 {
        lemma_lower_hex_len(bytes.drop_last());
    }
}

/// The lower-case hexadecimal text of `bytes`.
pub fn hex_encode(bytes: &Vec<u8>) -> (r: String)
    ensures
        r@ == lower_hex(bytes@),
        r@.len() == 2 * bytes@.len(),
{
    let mut s = String::new();
    let n = bytes.len();
    let mut i: usize = 0;
    while i < n
        invariant
            n == bytes@.len(),
            i <= n,
            s@ == lower_hex(bytes@.subrange(0, i as int)),
        decreases n - i,
    {
        let b = bytes[i];
        proof {
            assert(bytes@.subrange(0, i + 1).drop_last() =~= bytes@.subrange(0, i as int));
        }
        push_char(&mut s, hex_char(b / 16));
        push_char(&mut s, hex_char(b % 16));
        i = i + 1;
        assert(s@ =~= lower_hex(bytes@.subrange(0, i as int)));
    }
    assert(bytes@.subrange(0, n as int) =~= bytes@);
    proof {
        lemma_lower_hex_len(bytes@);
    }
    s
}

/// Whether a dash precedes byte `i` in the hyphenated form of a UUID.
pub open spec fn dash_before(i: int) -> bool {
    i == 4 || i == 6 || i == 8 || i == 10
}

/// The hyphenated lower-case form of UUID bytes: two hexadecimal digits a
/// byte, with a dash before bytes 4, 6, 8 and 10.
pub open spec fn uuid_text_of(bytes: Seq<u8>) -> Seq<char>
    decreases bytes.len(),
{
    if bytes.len() == 0 {
        seq![]
    } else {
        let i = bytes.len() - 1;
        uuid_text_of(bytes.drop_last()) + (if dash_before(i) {
            seq!['-']
        } else {
            seq![]
        }) + seq![hex_digit((bytes.last() / 16) as int), hex_digit((bytes.last() % 16) as int)]
    }
}

/// The number of dashes among the first `n` bytes' text.
pub open spec fn dashes_before(n: int) -> int {
    (if n > 4 { 1int } else { 0int }) + (if n > 6 { 1int } else { 0int }) + (if n > 8 { 1int } else { 0int }) + (
    if n > 10 {
        1int
    } else {
        0int
    })
}

proof fn lemma_uuid_text_len(bytes: Seq<u8>)
    ensures
        uuid_text_of(bytes).len() == 2 * bytes.len() + dashes_before(bytes.len() as int),
    decreases bytes.len(),
{
    if bytes.len() > 0 {
        lemma_uuid_text_len(bytes.drop_last());
    }
}

/// The hyphenated text of sixteen UUID bytes, as `uuid::Uuid` displays it.
pub fn uuid_text(bytes: &Vec<u8>) -> (r: String)
    requires
        bytes@.len() == 16,
    ensures
        r@ == uuid_text_of(bytes@),
        r@.len() == 36,
{
    let mut s = String::new();
    let mut i: usize = 0;
    while i < 16
        invariant
            bytes@.len() == 16,
            i <= 16,
            s@ == uuid_text_of(bytes@.subrange(0, i as int)),
        decreases 16 - i,
    {
        let b = bytes[i];
        proof {
            assert(bytes@.subrange(0, i + 1).drop_last() =~= bytes@.subrange(0, i as int));
        }
        if i == 4 || i == 6 || i == 8 || i == 10 {
            push_char(&mut s, '-');
        }
        push_char(&mut s, hex_char(b / 16));
        push_char(&mut s, hex_char(b % 16));
        i = i + 1;
        assert(s@ =~= uuid_text_of(bytes@.subrange(0, i as int)));
    }
    assert(bytes@.subrange(0, 16) =~= bytes@);
    proof {
        lemma_uuid_text_len(bytes@);
    }
    s
}

/// A fresh random UUID in its hyphenated text (`Uuid::new_v4().to_string()`).
pub fn new_uuid_text() -> (r: String)
    ensures
        exists|b: Seq<u8>| b.len() == 16 && b[6] / 16 == 4 && #[trigger] uuid_text_of(b) == r@,
        r@.len() == 36,
{
    let bytes = random_uuid_bytes();
    uuid_text(&bytes)
}

/// A fresh random UUID as 32 hexadecimal digits without dashes
/// (`Uuid::new_v4().simple()`).
pub fn new_uuid_simple() -> (r: String)
    ensures
        exists|b: Seq<u8>| b.len() == 16 && b[6] / 16 == 4 && #[trigger] lower_hex(b) == r@,
        r@.len() == 32,
{
    let bytes = random_uuid_bytes();
    hex_encode(&bytes)
}

} // verus!
