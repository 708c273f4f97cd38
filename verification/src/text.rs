//! Field values as text: numbers in hexadecimal and binary, bits as words.

use crate::field::FieldInfo;
use vstd::prelude::*;

verus! {

/// `String::push` of std appends one character to the end of the string.
pub assume_specification[ String::push ](text: &mut String, c: char)
    ensures
        final(text)@ == old(text)@.push(c),
;

/// The character that stands for a digit below 16, in lower case.
pub open spec fn digit_char(digit: nat) -> char {
    if digit == 0 {
        '0'
    } else if digit == 1 {
        '1'
    } else if digit == 2 {
        '2'
    } else if digit == 3 {
        '3'
    } else if digit == 4 {
        '4'
    } else if digit == 5 {
        '5'
    } else if digit == 6 {
        '6'
    } else if digit == 7 {
        '7'
    } else if digit == 8 {
        '8'
    } else if digit == 9 {
        '9'
    } else if digit == 10 {
        'a'
    } else if digit == 11 {
        'b'
    } else if digit == 12 {
        'c'
    } else if digit == 13 {
        'd'
    } else if digit == 14 {
        'e'
    } else {
        'f'
    }
}

/// The last `count` digits of `value` written in base `base`, the most
/// significant first.
pub open spec fn digits(value: nat, base: nat, count: nat) -> Seq<char>
    decreases count,
{
    if count == 0 {
        Seq::empty()
    } else {
        digits(value / base, base, (count - 1) as nat).push(digit_char(value % base))
    }
}

/// How many digits it takes to write `value` in base `base`: at least one.
pub open spec fn digit_count(value: nat, base: nat) -> nat
    decreases value,
{
    if base < 2 || value < base {
        1
    } else {
        proof {
            assert(value / base < value) by (nonlinear_arith)
                requires
                    base >= 2,
                    value >= base,
            ;
        }
        1 + digit_count(value / base, base)
    }
}

/// `count` times the digit 0.
pub open spec fn zeros(count: nat) -> Seq<char> {
    Seq::new(count, |i: int| '0')
}

/// `value` in base `base` behind `prefix`, with as many digits as it takes
/// and with zeros in front of them where those are fewer than `least`.
pub open spec fn numeral(value: nat, base: nat, prefix: Seq<char>, least: nat) -> Seq<char> {
    let count = if least > digit_count(value, base) {
        least
    } else {
        digit_count(value, base)
    };
    prefix + digits(value, base, count)
}

/// A value of `width` bits in hexadecimal: `0x` and one digit for every four
/// bits or part of four bits, more if the value takes more.
pub open spec fn hex_text(value: u64, width: nat) -> Seq<char> {
    numeral(value as nat, 16, "0x"@, (width + 3) / 4)
}

/// A value of `width` bits in binary: `0b` and one digit for every bit, more
/// if the value takes more, one for the value 0 of no bits.
pub open spec fn binary_text(value: u64, width: nat) -> Seq<char> {
    numeral(value as nat, 2, "0b"@, width)
}

/// A single bit as a word.
pub open spec fn bit_text(value: u64) -> Seq<char> {
    if value == 1 {
        "true"@
    } else {
        "false"@
    }
}

/// The value of a field as `value_string` writes it.
pub open spec fn value_text(value: u64, width: nat) -> Seq<char> {
    if width == 1 {
        bit_text(value)
    } else {
        hex_text(value, width)
    }
}

/// A field as one line: its name, and its value as a word for a single bit
/// and in hexadecimal and binary for any other width.
pub open spec fn field_text(name: Seq<char>, value: u64, width: nat) -> Seq<char> {
    if width == 1 {
        name + ": "@ + bit_text(value)
    } else {
        name + ": "@ + hex_text(value, width) + " "@ + binary_text(value, width)
    }
}

/// A number below `2^bits` takes at most `bits` digits in any base from 2 on.
proof fn lemma_digit_count_bound(value: nat, base: nat, bits: nat)
    requires
        base >= 2,
        value < vstd::arithmetic::power2::pow2(bits),
        bits >= 1,
    ensures
        digit_count(value, base) <= bits,
    decreases bits,
{
    vstd::arithmetic::power2::lemma2_to64();
    if value >= base {
        vstd::arithmetic::power2::lemma_pow2_unfold(bits);
        if bits == 1 {
            assert(false);
        } else {
            let half: nat = vstd::arithmetic::power2::pow2((bits - 1) as nat);
            assert(value / base <= value / 2) by {
                vstd::arithmetic::div_mod::lemma_div_is_ordered_by_denominator(
                    value as int,
                    2,
                    base as int,
                );
            }
            assert(value / 2 < half);
            lemma_digit_count_bound(value / base, base, (bits - 1) as nat);
        }
    }
}

/// Zero has only zeros for digits.
proof fn lemma_digits_of_zero(base: nat, count: nat)
    requires
        base >= 2,
    ensures
        digits(0, base, count) == zeros(count),
    decreases count,
{
    if count > 0 {
        lemma_digits_of_zero(base, (count - 1) as nat);
        assert(0nat / base == 0) by (nonlinear_arith)
            requires
                base >= 2,
        ;
        assert(0nat % base == 0) by (nonlinear_arith)
            requires
                base >= 2,
        ;
        assert(zeros((count - 1) as nat).push('0') =~= zeros(count));
    } else {
        assert(zeros(0) =~= Seq::<char>::empty());
    }
}

/// Digits beyond those that a value takes are zeros in front of them.
proof fn lemma_leading_zeros(value: nat, base: nat, count: nat)
    requires
        base >= 2,
        count >= digit_count(value, base),
    ensures
        digits(value, base, count) == zeros((count - digit_count(value, base)) as nat) + digits(
            value,
            base,
            digit_count(value, base),
        ),
    decreases count,
{
    let taken = digit_count(value, base);
    let last = digit_char(value % base);
    if value < base {
        assert(value / base == 0) by (nonlinear_arith)
            requires
                value < base,
        ;
        lemma_digits_of_zero(base, (count - 1) as nat);
        assert(digits(value, base, 1) =~= seq![last]) by {
            assert(digits(value / base, base, 0) =~= Seq::<char>::empty());
        }
        assert(zeros((count - 1) as nat).push(last) =~= zeros((count - 1) as nat) + seq![last]);
    } else {
        lemma_leading_zeros(value / base, base, (count - 1) as nat);
        let front = zeros((count - taken) as nat);
        let rest = digits(value / base, base, (taken - 1) as nat);
        assert((front + rest).push(last) =~= front + rest.push(last));
    }
}

/// The character of a digit below 16.
fn digit_to_char(digit: u64) -> (c: char)
    requires
        digit < 16,
    ensures
        c == digit_char(digit as nat),
{
    match digit {
        0 => '0',
        1 => '1',
        2 => '2',
        3 => '3',
        4 => '4',
        5 => '5',
        6 => '6',
        7 => '7',
        8 => '8',
        9 => '9',
        10 => 'a',
        11 => 'b',
        12 => 'c',
        13 => 'd',
        14 => 'e',
        _ => 'f',
    }
}

/// Counts the digits that `value` takes in base `base`.
fn count_digits(value: u64, base: u64) -> (count: usize)
    requires
        base >= 2,
    ensures
        count == digit_count(value as nat, base as nat),
        1 <= count <= 64,
{
    proof {
        vstd::arithmetic::power2::lemma2_to64_rest();
        lemma_digit_count_bound(value as nat, base as nat, 64);
    }
    let mut count: usize = 1;
    let mut rest: u64 = value;
    while rest >= base
        invariant
            base >= 2,
            count >= 1,
            count + digit_count(rest as nat, base as nat) == 1 + digit_count(
                value as nat,
                base as nat,
            ),
            digit_count(value as nat, base as nat) <= 64,
        decreases rest,
    {
        rest = rest / base;
        count = count + 1;
    }
    count
}

/// Appends `count` zeros to `out`.
fn push_zeros(out: &mut String, count: usize)
    ensures
        final(out)@ == old(out)@ + zeros(count as nat),
{
    let mut done: usize = 0;
    assert(out@ =~= old(out)@ + zeros(0));
    while done < count
        invariant
            done <= count,
            out@ == old(out)@ + zeros(done as nat),
        decreases count - done,
    {
        out.push('0');
        done = done + 1;
        assert(out@ =~= old(out)@ + zeros(done as nat));
    }
}

/// Appends the last `count` digits of `value` in base `base` to `out`.
fn push_digits(out: &mut String, value: u64, base: u64, count: usize)
    requires
        2 <= base <= 16,
    ensures
        final(out)@ == old(out)@ + digits(value as nat, base as nat, count as nat),
    decreases count,
{
    if count == 0 {
        assert(out@ =~= old(out)@ + Seq::<char>::empty());
    } else {
        push_digits(out, value / base, base, count - 1);
        out.push(digit_to_char(value % base));
        assert(out@ =~= old(out)@ + digits(value as nat, base as nat, count as nat));
    }
}

/// Writes `value` in base `base` behind `prefix`, with zeros in front of its
/// digits where those are fewer than `least`.
pub fn write_numeral(value: u64, base: u64, prefix: &str, least: usize) -> (text: String)
    requires
        2 <= base <= 16,
    ensures
        text@ == numeral(value as nat, base as nat, prefix@, least as nat),
{
    let taken = count_digits(value, base);
    let mut text = prefix.to_string();
    if least > taken {
        push_zeros(&mut text, least - taken);
    }
    push_digits(&mut text, value, base, taken);
    proof {
        let count: nat = if least > taken {
            least as nat
        } else {
            taken as nat
        };
        lemma_leading_zeros(value as nat, base as nat, count);
        assert(zeros(0) =~= Seq::<char>::empty());
        assert(text@ =~= prefix@ + digits(value as nat, base as nat, count));
    }
    text
}

impl FieldInfo {
    /// Returns the value as a hexadecimal string, or "true" or "false" if it
    /// is a single bit.
    pub fn value_string(&self) -> (text: String)
        ensures
            text@ == value_text(self.value, self.width as nat),
    {
        if self.width == 1 {
            if self.value == 1 {
                "true".to_string()
            } else {
                "false".to_string()
            }
        } else {
            let least: usize = if self.width % 4 == 0 {
                self.width / 4
            } else {
                self.width / 4 + 1
            };
            write_numeral(self.value, 16, "0x", least)
        }
    }

    /// Returns the value as a binary string.
    pub fn value_binary_string(&self) -> (text: String)
        ensures
            text@ == binary_text(self.value, self.width as nat),
    {
        write_numeral(self.value, 2, "0b", self.width)
    }

    /// Returns the field as one line of text: its name, a colon and its
    /// value, as a word for a single bit and else in hexadecimal and binary.
    pub fn to_text(&self) -> (text: String)
        ensures
            text@ == field_text(self.name@, self.value, self.width as nat),
    {
        let mut text = self.name.to_string();
        text.append(": ");
        if self.width == 1 {
            text.append(if self.value == 1 {
                "true"
            } else {
                "false"
            });
        } else {
            let hex = self.value_string();
            let binary = self.value_binary_string();
            text.append(hex.as_str());
            text.append(" ");
            text.append(binary.as_str());
        }
        text
    }
}

} // verus!
