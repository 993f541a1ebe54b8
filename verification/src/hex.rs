//! Lowercase hexadecimal rendering of unsigned integers.

use vstd::prelude::*;
use vstd::string::*;

verus! {

/// The sixteen lowercase hexadecimal digits, in order of value.
pub open spec fn hex_digits() -> Seq<char> {
    "0123456789abcdef"@
}

/// A lowercase hexadecimal digit.
pub open spec fn is_lower_hex(c: char) -> bool {
    ||| '0' <= c <= '9'
    ||| 'a' <= c <= 'f'
}

/// `n` in lowercase hexadecimal, most significant digit first, without
/// leading zeros and without a prefix; zero is written `0`.
pub open spec fn lower_hex(n: nat) -> Seq<char>
    decreases n,
{
    if n < 16 {
        seq![hex_digits()[n as int]]
    } else {
        lower_hex(n / 16).push(hex_digits()[(n % 16) as int])
    }
}

/// 16 to the power `k`.
pub open spec fn sixteen_to(k: nat) -> nat
    decreases k,
{
    if k == 0 {
        1
    } else {
        16 * sixteen_to((k - 1) as nat)
    }
}

/// There are sixteen digits, each a lowercase hexadecimal digit.
pub proof fn lemma_hex_digits()
    ensures
        hex_digits().len() == 16,
        forall|d: int| 0 <= d < 16 ==> is_lower_hex(#[trigger] hex_digits()[d]),
{
    reveal_strlit("0123456789abcdef");
}

/// A number below 16 to the `k` is written with at least one and at most `k`
/// digits, all of them lowercase hexadecimal.
pub proof fn lemma_lower_hex_shape(n: nat, k: nat)
    requires
        k >= 1,
        n < sixteen_to(k),
    ensures
        1 <= lower_hex(n).len() <= k,
        forall|i: int| 0 <= i < lower_hex(n).len() ==> is_lower_hex(#[trigger] lower_hex(n)[i]),
    decreases n,
{
    lemma_hex_digits();
    if n >= 16 {
        reveal_with_fuel(sixteen_to, 2);
        assert(k >= 2);
        lemma_lower_hex_shape(n / 16, (k - 1) as nat);
    }
}

/// Every 128-bit number is written with 1 to 32 lowercase hexadecimal digits.
pub proof fn lemma_lower_hex_u128(value: u128)
    ensures
        1 <= lower_hex(value as nat).len() <= 32,
        forall|i: int|
            0 <= i < lower_hex(value as nat).len() ==> is_lower_hex(
                #[trigger] lower_hex(value as nat)[i],
            ),
{
    assert(sixteen_to(32) == 0x1_0000_0000_0000_0000_0000_0000_0000_0000nat) by {
        reveal_with_fuel(sixteen_to, 33);
    }
    lemma_lower_hex_shape(value as nat, 32);
}

/// The digits of `digits`, least significant first, written most significant
/// first.
spec fn reversed_hex(digits: Seq<u8>) -> Seq<char> {
    Seq::new(digits.len(), |i: int| hex_digits()[digits[digits.len() - 1 - i] as int])
}

fn hex_piece(digit: u8) -> (piece: &'static str)
    requires
        digit < 16,
    ensures
        piece@ == seq![hex_digits()[digit as int]],
{
    let digits = "0123456789abcdef";
    proof {
        lemma_hex_digits();
    }
    let at = digit as usize;
    digits.substring_ascii(at, at + 1)
}

/// Renders `value` in lowercase hexadecimal without leading zeros.
pub fn to_lower_hex(value: u128) -> (text: String)
    ensures
        text@ == lower_hex(value as nat),
{
    let mut digits: Vec<u8> = Vec::new();
    let mut rest = value;
    while rest >= 16
        invariant
            lower_hex(value as nat) == lower_hex(rest as nat) + reversed_hex(digits@),
            forall|j: int| 0 <= j < digits@.len() ==> digits@[j] < 16,
        decreases rest,
    {
        let digit = (rest % 16) as u8;
        proof {
            let before = digits@;
            let after = before.push(digit);
            assert(reversed_hex(after) =~= seq![hex_digits()[digit as int]] + reversed_hex(
                before,
            ));
            assert(lower_hex(rest as nat) =~= lower_hex((rest / 16) as nat) + seq![
                hex_digits()[digit as int],
            ]);
        }
        digits.push(digit);
        rest = rest / 16;
    }
    let mut text = String::from_str(hex_piece(rest as u8));
    let count = digits.len();
    let mut done: usize = 0;
    while done < count
        invariant
            done <= count,
            count == digits@.len(),
            forall|j: int| 0 <= j < digits@.len() ==> digits@[j] < 16,
            text@ == lower_hex(rest as nat) + reversed_hex(digits@).take(done as int),
            rest < 16,
        decreases count - done,
    {
        let piece = hex_piece(digits[count - 1 - done]);
        proof {
            assert(reversed_hex(digits@).take(done + 1) =~= reversed_hex(digits@).take(
                done as int,
            ) + piece@);
        }
        text.append(piece);
        done += 1;
    }
    proof {
        assert(reversed_hex(digits@).take(count as int) =~= reversed_hex(digits@));
    }
    text
}

} // verus!
