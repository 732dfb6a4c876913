//! Standard base64 without padding, the text form of perceptual hashes.
//!
//! Each group of three bytes becomes four digits of six bits each; a
//! trailing group of one or two bytes becomes two or three digits, with the
//! unused low bits zero and no `=` padding.
use vstd::prelude::*;

verus! {

/// The standard base64 alphabet: digit `v` is the `v`-th character.
pub open spec fn base64_alphabet() -> Seq<char> {
    "ABCDEFGHIJKLMNOPQRSTUVWXYZabcdefghijklmnopqrstuvwxyz0123456789+/"@
}

/// The character of the six-bit digit `v`.
pub open spec fn base64_digit(v: int) -> char {
    base64_alphabet()[v]
}

/// The four digits of the three bytes `a`, `b`, `c`.
pub open spec fn base64_group(a: int, b: int, c: int) -> Seq<char> {
    seq![
        base64_digit(a / 4),
        base64_digit((a % 4) * 16 + b / 16),
        base64_digit((b % 16) * 4 + c / 64),
        base64_digit(c % 64),
    ]
}

/// `bytes` encoded as unpadded standard base64.
pub open spec fn base64_encode(bytes: Seq<u8>) -> Seq<char>
    decreases bytes.len(),
{
    if bytes.len() == 0 {
        Seq::empty()
    } else if bytes.len() == 1 {
        let a = bytes[0] as int;
        seq![base64_digit(a / 4), base64_digit((a % 4) * 16)]
    } else if bytes.len() == 2 {
        let (a, b) = (bytes[0] as int, bytes[1] as int);
        seq![base64_digit(a / 4), base64_digit((a % 4) * 16 + b / 16), base64_digit((b % 16) * 4)]
    } else {
        base64_group(bytes[0] as int, bytes[1] as int, bytes[2] as int) + base64_encode(
            bytes.skip(3),
        )
    }
}

/// The length of the encoding of `n` bytes: four digits per full group of
/// three, plus two or three for a trailing one or two bytes.
pub open spec fn base64_len(n: nat) -> nat {
    4 * (n / 3) + if n % 3 == 0 {
        0
    } else {
        n % 3 + 1
    }
}

/// The encoding of `n` bytes is `base64_len(n)` characters long.
pub proof fn lemma_base64_len(bytes: Seq<u8>)
    ensures
        base64_encode(bytes).len() == base64_len(bytes.len()),
    decreases bytes.len(),
{
    if bytes.len() >= 3 {
        lemma_base64_len(bytes.skip(3));
    }
}

/// Appends the digit `v` to `text`.
fn push_digit(text: &mut String, alphabet: &str, v: u8)
    requires
        alphabet@ == base64_alphabet(),
        v < 64,
    ensures
        final(text)@ == old(text)@.push(base64_digit(v as int)),
{
    proof {
        reveal_strlit("ABCDEFGHIJKLMNOPQRSTUVWXYZabcdefghijklmnopqrstuvwxyz0123456789+/");
    }
    let d = alphabet.substring_char(v as usize, v as usize + 1);
    text.append(d);
    proof {
        assert(d@ =~= seq![base64_digit(v as int)]);
        assert(text@ =~= old(text)@.push(base64_digit(v as int)));
    }
}

/// Encodes `bytes` as unpadded standard base64.
pub fn encode_base64(bytes: &[u8]) -> (r: String)
    ensures
        r@ == base64_encode(bytes@),
{
    let alphabet = "ABCDEFGHIJKLMNOPQRSTUVWXYZabcdefghijklmnopqrstuvwxyz0123456789+/";
    let n = bytes.len();
    let mut text = String::new();
    let mut i: usize = 0;
    proof {
        assert(bytes@.skip(0) =~= bytes@);
        assert(text@ + base64_encode(bytes@) =~= base64_encode(bytes@));
    }
    while n - i >= 3
        invariant
            alphabet@ == base64_alphabet(),
            n == bytes@.len(),
            i <= n,
            text@ + base64_encode(bytes@.skip(i as int)) == base64_encode(bytes@),
        decreases n - i,
    {
        let a = bytes[i];
        let b = bytes[i + 1];
        let c = bytes[i + 2];
        let ghost before = text@;
        push_digit(&mut text, alphabet, a / 4);
        push_digit(&mut text, alphabet, (a % 4) * 16 + b / 16);
        push_digit(&mut text, alphabet, (b % 16) * 4 + c / 64);
        push_digit(&mut text, alphabet, c % 64);
        proof {
            let rest = bytes@.skip(i as int);
            assert(rest[0] == a && rest[1] == b && rest[2] == c);
            assert(rest.skip(3) =~= bytes@.skip(i + 3));
            assert(text@ =~= before + base64_group(a as int, b as int, c as int));
            assert(base64_encode(rest) == base64_group(a as int, b as int, c as int) + base64_encode(rest.skip(3)));
            assert(text@ + base64_encode(bytes@.skip(i + 3)) =~= before + base64_encode(rest));
        }
        i = i + 3;
    }
    let ghost before = text@;
    let ghost rest = bytes@.skip(i as int);
    if n - i == 1 {
        let a = bytes[i];
        push_digit(&mut text, alphabet, a / 4);
        push_digit(&mut text, alphabet, (a % 4) * 16);
        proof {
            assert(rest[0] == a);
            assert(text@ =~= before + base64_encode(rest));
        }
    } else if n - i == 2 {
        let a = bytes[i];
        let b = bytes[i + 1];
        push_digit(&mut text, alphabet, a / 4);
        push_digit(&mut text, alphabet, (a % 4) * 16 + b / 16);
        push_digit(&mut text, alphabet, (b % 16) * 4);
        proof {
            assert(rest[0] == a && rest[1] == b);
            assert(text@ =~= before + base64_encode(rest));
        }
    } else {
        proof {
            assert(rest.len() == 0);
            assert(text@ =~= before + base64_encode(rest));
        }
    }
    text
}

/// The standard alphabet: the 26 capitals, the 26 small letters and the
/// ten digits in order, then `+` and `/`.
pub proof fn lemma_standard_alphabet(v: int)
    requires
        0 <= v < 64,
    ensures
        base64_alphabet().len() == 64,
        v < 26 ==> base64_digit(v) as int == 'A' as int + v,
        26 <= v < 52 ==> base64_digit(v) as int == 'a' as int + (v - 26),
        52 <= v < 62 ==> base64_digit(v) as int == '0' as int + (v - 52),
        v == 62 ==> base64_digit(v) == '+',
        v == 63 ==> base64_digit(v) == '/',
{
    reveal_strlit("ABCDEFGHIJKLMNOPQRSTUVWXYZabcdefghijklmnopqrstuvwxyz0123456789+/");
}

} // verus!
