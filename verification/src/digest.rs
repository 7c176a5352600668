//! The MD5 digest of a text, as the lower-case hexadecimal string that queue
//! deliveries carry.

use vstd::prelude::*;
use vstd::utf8::encode_utf8;

verus! {

/// The MD5 digest of `data`: sixteen bytes.
pub uninterp spec fn md5_digest(data: Seq<u8>) -> Seq<u8>;

/// The hexadecimal digit for a value below sixteen.
pub open spec fn hex_char(n: int) -> char {
    "0123456789abcdef"@[n]
}

/// Two lower-case hexadecimal digits for each byte, the high half first.
pub open spec fn hex_lower(bytes: Seq<u8>) -> Seq<char> {
    Seq::new(
        2 * bytes.len(),
        |i: int|
            if i % 2 == 0 {
                hex_char(bytes[i / 2] as int / 16)
            } else {
                hex_char(bytes[i / 2] as int % 16)
            },
    )
}

/// The digest that stands beside a body: the MD5 of its UTF-8 bytes, in
/// lower-case hexadecimal.
pub open spec fn content_digest(body: Seq<char>) -> Seq<char> {
    hex_lower(md5_digest(encode_utf8(body)))
}

/// Calls `md5::compute` and takes the sixteen bytes out of the digest it
/// returns. The contract only names them: they are the MD5 of `data`, a
/// function of `data` alone.
#[verifier::external_body]
fn compute_md5(data: &[u8]) -> (digest: [u8; 16])
    ensures
        digest@ == md5_digest(data@),
{
    md5::compute(data).0
}

/// The digit for `n`, as a string of one character.
fn hex_digit(n: u8) -> (r: &'static str)
    requires
        n < 16,
    ensures
        r@ == seq![hex_char(n as int)],
{
    proof {
        reveal_strlit("0123456789abcdef");
    }
    let digit = match n {
        0 => "0",
        1 => "1",
        2 => "2",
        3 => "3",
        4 => "4",
        5 => "5",
        6 => "6",
        7 => "7",
        8 => "8",
        9 => "9",
        10 => "a",
        11 => "b",
        12 => "c",
        13 => "d",
        14 => "e",
        _ => "f",
    };
    proof {
        reveal_strlit("0");
        reveal_strlit("1");
        reveal_strlit("2");
        reveal_strlit("3");
        reveal_strlit("4");
        reveal_strlit("5");
        reveal_strlit("6");
        reveal_strlit("7");
        reveal_strlit("8");
        reveal_strlit("9");
        reveal_strlit("a");
        reveal_strlit("b");
        reveal_strlit("c");
        reveal_strlit("d");
        reveal_strlit("e");
        reveal_strlit("f");
        assert(digit@ =~= seq![hex_char(n as int)]);
    }
    digit
}

/// Writes bytes in lower-case hexadecimal.
pub fn to_hex(bytes: &[u8]) -> (r: String)
    ensures
        r@ == hex_lower(bytes@),
{
    let mut r = String::new();
    let mut i: usize = 0;
    while i < bytes.len()
        invariant
            i <= bytes@.len(),
            r@ == hex_lower(bytes@.take(i as int)),
        decreases bytes@.len() - i,
    {
        let byte = bytes[i];
        let ghost before = r@;
        r.append(hex_digit(byte / 16));
        r.append(hex_digit(byte % 16));
        proof {
            assert(r@ =~= hex_lower(bytes@.take(i as int + 1)));
        }
        i += 1;
    }
    proof {
        assert(bytes@.take(i as int) =~= bytes@);
    }
    r
}

/// The digest of a body, as queue deliveries carry it: thirty-two
/// hexadecimal digits.
pub fn md5_hex(body: &str) -> (r: String)
    ensures
        r@ == content_digest(body@),
        r@.len() == 32,
{
    let digest = compute_md5(body.as_bytes());
    to_hex(digest.as_slice())
}

/// A digest written in hexadecimal has two characters for each byte, every
/// one of them a lower-case hexadecimal digit.
pub proof fn lemma_hex_lower_shape(bytes: Seq<u8>)
    ensures
        hex_lower(bytes).len() == 2 * bytes.len(),
        forall|i: int|
            0 <= i < hex_lower(bytes).len() ==> "0123456789abcdef"@.contains(
                #[trigger] hex_lower(bytes)[i],
            ),
{
    reveal_strlit("0123456789abcdef");
    assert forall|i: int| 0 <= i < hex_lower(bytes).len() implies "0123456789abcdef"@.contains(
        #[trigger] hex_lower(bytes)[i],
    ) by {
        let byte = bytes[i / 2] as int;
        let n = if i % 2 == 0 {
            byte / 16
        } else {
            byte % 16
        };
        assert(0 <= n < 16);
        assert(hex_lower(bytes)[i] == "0123456789abcdef"@[n]);
    }
}

} // verus!
