//! Text renderings of integers and strings, as the debugging and error
//! texts of this crate print them.

use vstd::prelude::*;
use vstd::arithmetic::power::pow;
use vstd::arithmetic::div_mod::lemma_mod_breakdown;

verus! {

/// The ASCII digit for `d` in base 16, lower case (`0`–`9`, then `a`–`f`).
pub open spec fn digit_char(d: nat) -> char {
    if d < 10 {
        (48 + d) as char
    } else {
        (87 + d) as char
    }
}

/// The decimal rendering of `n`: its digits, most significant first, with
/// no leading zero (`0` renders as a single `0`).
pub open spec fn decimal(n: nat) -> Seq<char>
    decreases n,
{
    if n < 10 {
        seq![digit_char(n)]
    } else {
        decimal(n / 10).push(digit_char(n % 10))
    }
}

/// The decimal rendering of a signed value: `-` before the digits of its
/// magnitude when it is negative.
pub open spec fn signed_decimal(i: int) -> Seq<char> {
    if i < 0 {
        seq!['-'] + decimal((-i) as nat)
    } else {
        decimal(i as nat)
    }
}

/// The lowest `width` hexadecimal digits of `n`, lower case, most
/// significant first: the rendering of `n` zero-padded to `width` digits
/// whenever `n` has no more than `width` of them.
pub open spec fn hex_digits(n: nat, width: nat) -> Seq<char>
    decreases width,
{
    if width == 0 {
        Seq::empty()
    } else {
        hex_digits(n / 16, (width - 1) as nat).push(digit_char(n % 16))
    }
}

/// The value of a digit character: `0`–`9` stand for 0 to 9 and `a`–`f`
/// for 10 to 15; any other character is no digit and stands for -1.
pub open spec fn digit_value(c: char) -> int {
    if 48 <= c as u32 <= 57 {
        c as u32 - 48
    } else if 97 <= c as u32 <= 102 {
        c as u32 - 87
    } else {
        -1
    }
}

/// The number that the digit characters `s` stand for in `base`, the most
/// significant digit first.
pub open spec fn digits_value(s: Seq<char>, base: nat) -> int
    decreases s.len(),
{
    if s.len() == 0 {
        0
    } else {
        digits_value(s.drop_last(), base) * base + digit_value(s.last())
    }
}

/// The digit characters are the usual ones: digit `d` is the `d`-th
/// character of `0123456789abcdef`, and it reads back as `d`.
pub proof fn digit_chars_are_standard(d: nat)
    requires
        d < 16,
    ensures
        digit_char(d) == "0123456789abcdef"@[d as int],
        digit_value(digit_char(d)) == d,
{
    reveal_strlit("0123456789abcdef");
    assert(digit_char(d) as u32 == (if d < 10 { 48 + d } else { 87 + d }));
}

/// Distinct digits are written as distinct characters.
pub proof fn digit_chars_are_distinct(d: nat, e: nat)
    requires
        d < 16,
        e < 16,
        d != e,
    ensures
        digit_char(d) != digit_char(e),
{
    digit_chars_are_standard(d);
    digit_chars_are_standard(e);
}

/// The decimal rendering of `n` is a non-empty string of the characters
/// `0`–`9`, without a leading zero unless `n` is zero, and it reads back in
/// base 10 as `n`.
pub proof fn decimal_reads_back(n: nat)
    ensures
        decimal(n).len() > 0,
        forall|i: int| 0 <= i < decimal(n).len() ==> 48 <= (#[trigger] decimal(n)[i]) as u32 <= 57,
        digits_value(decimal(n), 10) == n,
        decimal(n)[0] == '0' ==> n == 0,
    decreases n,
{
    digit_chars_are_standard(n % 10);
    assert(decimal(n).last() == digit_char(n % 10));
    if n >= 10 {
        decimal_reads_back(n / 10);
        let t = decimal(n / 10);
        assert(decimal(n).drop_last() =~= t);
        assert forall|i: int| 0 <= i < decimal(n).len() implies 48 <= (#[trigger] decimal(
            n,
        )[i]) as u32 <= 57 by {
            if i < t.len() {
                assert(decimal(n)[i] == t[i]);
            }
        }
        assert(decimal(n)[0] == t[0]);
        assert(digits_value(decimal(n), 10) == digits_value(t, 10) * 10 + (n % 10) as int);
    } else {
        assert(decimal(n).drop_last() =~= Seq::<char>::empty());
        assert(digits_value(decimal(n), 10) == digits_value(Seq::<char>::empty(), 10) * 10 + n);
    }
}

/// Two numbers with the same decimal rendering are equal.
pub proof fn decimal_is_injective(m: nat, n: nat)
    requires
        decimal(m) == decimal(n),
    ensures
        m == n,
{
    decimal_reads_back(m);
    decimal_reads_back(n);
}

/// The signed rendering starts with `-` exactly for a negative value, and
/// the rest reads back in base 10 as the value's magnitude.
pub proof fn signed_decimal_reads_back(i: int)
    ensures
        signed_decimal(i).len() > 0,
        signed_decimal(i)[0] == '-' <==> i < 0,
        digits_value(
            if i < 0 {
                signed_decimal(i).drop_first()
            } else {
                signed_decimal(i)
            },
            10,
        ) == (if i < 0 {
            -i
        } else {
            i
        }),
{
    if i < 0 {
        decimal_reads_back((-i) as nat);
        assert(signed_decimal(i).drop_first() =~= decimal((-i) as nat));
    } else {
        decimal_reads_back(i as nat);
        assert(48 <= decimal(i as nat)[0] as u32);
    }
}

/// The `width` hexadecimal digits of `n` are `width` characters of
/// `0123456789abcdef` that read back in base 16 as `n` modulo `16^width`:
/// the usual zero-padded rendering whenever `n < 16^width`.
pub proof fn hex_digits_read_back(n: nat, width: nat)
    ensures
        hex_digits(n, width).len() == width,
        forall|i: int|
            0 <= i < width ==> 0 <= digit_value(#[trigger] hex_digits(n, width)[i]) < 16,
        digits_value(hex_digits(n, width), 16) == n % (pow(16, width) as nat),
    decreases width,
{
    if width == 0 {
        assert(pow(16, 0) == 1) by {
            reveal(pow);
        }
    } else {
        let w1: nat = (width - 1) as nat;
        hex_digits_read_back(n / 16, w1);
        digit_chars_are_standard(n % 16);
        let t = hex_digits(n / 16, w1);
        assert(hex_digits(n, width).drop_last() =~= t);
        assert forall|i: int| 0 <= i < width implies 0 <= digit_value(
            #[trigger] hex_digits(n, width)[i],
        ) < 16 by {
            if i < w1 {
                assert(hex_digits(n, width)[i] == t[i]);
            }
        }
        let p: int = pow(16, w1);
        assert(pow(16, width) == 16 * p) by {
            reveal(pow);
        }
        vstd::arithmetic::power::lemma_pow_positive(16, w1);
        lemma_mod_breakdown(n as int, 16, p);
    }
}

/// `text` shows `value` right after `label`, and the value ends there:
/// what follows it is a `,` or a space, the separator before the next
/// field or the closing brace.
pub open spec fn shows_after(text: Seq<char>, label: Seq<char>, value: Seq<char>) -> bool {
    exists|pre: Seq<char>, post: Seq<char>|
        text == pre + label + value + post && post.len() > 0 && (post[0] == ',' || post[0]
            == ' ')
}

/// A text made of a prefix, a label, a value and a rest that starts with a
/// separator shows that value after that label.
pub proof fn lemma_shows_after(
    pre: Seq<char>,
    label: Seq<char>,
    value: Seq<char>,
    post: Seq<char>,
)
    requires
        post.len() > 0,
        post[0] == ',' || post[0] == ' ',
    ensures
        shows_after(pre + label + value + post, label, value),
{
}

/// The one-character text of the digit `d` (below 16).
fn digit_str(d: u8) -> (r: &'static str)
    requires
        d < 16,
    ensures
        r@ == seq![digit_char(d as nat)],
        r@ == seq!["0123456789abcdef"@[d as int]],
{
    proof {
        reveal_strlit("0");
        reveal_strlit("1");
        reveal_strlit("2");
        reveal_strlit("3");
        reveal_strlit("4");
        reveal_strlit("5");
        reveal_strlit("6");
        reveal_strlit("7");
        reveal_strlit("8");
        reveal_strlit("9");
        reveal_strlit("a");
        reveal_strlit("b");
        reveal_strlit("c");
        reveal_strlit("d");
        reveal_strlit("e");
        reveal_strlit("f");
    }
    let r: &'static str = if d == 0 {
        "0"
    } else if d == 1 {
        "1"
    } else if d == 2 {
        "2"
    } else if d == 3 {
        "3"
    } else if d == 4 {
        "4"
    } else if d == 5 {
        "5"
    } else if d == 6 {
        "6"
    } else if d == 7 {
        "7"
    } else if d == 8 {
        "8"
    } else if d == 9 {
        "9"
    } else if d == 10 {
        "a"
    } else if d == 11 {
        "b"
    } else if d == 12 {
        "c"
    } else if d == 13 {
        "d"
    } else if d == 14 {
        "e"
    } else {
        "f"
    };
    assert(r@ =~= seq![digit_char(d as nat)]);
    proof {
        digit_chars_are_standard(d as nat);
    }
    r
}

/// Append the decimal rendering of `n` to `s`.
pub(crate) fn push_decimal(s: &mut String, n: u128)
    ensures
        final(s)@ == old(s)@ + decimal(n as nat),
    decreases n,
{
    if n >= 10 {
        push_decimal(s, n / 10);
    }
    s.append(digit_str((n % 10) as u8));
    proof {
        if n >= 10 {
            assert(old(s)@ + decimal((n / 10) as nat) + seq![digit_char((n % 10) as nat)]
                =~= old(s)@ + decimal(n as nat));
        }
    }
}

/// Append the decimal rendering of the signed value `i` to `s`.
pub(crate) fn push_signed_decimal(s: &mut String, i: i16)
    ensures
        final(s)@ == old(s)@ + signed_decimal(i as int),
{
    if i < 0 {
        s.append("-");
        proof {
            reveal_strlit("-");
        }
        let magnitude: u128 = (0i32 - i as i32) as u128;
        push_decimal(s, magnitude);
        assert(old(s)@ + seq!['-'] + decimal(magnitude as nat) =~= old(s)@ + signed_decimal(
            i as int,
        ));
    } else {
        push_decimal(s, i as u128);
    }
}

/// Append the lowest `width` hexadecimal digits of `n` to `s`.
pub(crate) fn push_hex(s: &mut String, n: u32, width: u8)
    ensures
        final(s)@ == old(s)@ + hex_digits(n as nat, width as nat),
    decreases width,
{
    if width > 0 {
        push_hex(s, n / 16, width - 1);
        s.append(digit_str((n % 16) as u8));
        assert(old(s)@ + hex_digits((n / 16) as nat, (width - 1) as nat) + seq![
            digit_char((n % 16) as nat),
        ] =~= old(s)@ + hex_digits(n as nat, width as nat));
    } else {
        assert(old(s)@ + hex_digits(n as nat, width as nat) =~= old(s)@);
    }
}

/// What `Debug` for `str` writes for a string of these characters: the
/// characters between double quotes, each escaped as
/// `char::escape_debug` escapes it.
pub uninterp spec fn str_debug_text(s: Seq<char>) -> Seq<char>;

/// Every character is printable ASCII (`' '` to `'~'`) other than the
/// double quote and the backslash, the characters that `Debug` for `str`
/// writes as they are.
pub open spec fn is_plain_ascii(s: Seq<char>) -> bool {
    forall|i: int|
        0 <= i < s.len() ==> 32 <= (#[trigger] s[i]) as u32 <= 126 && s[i] != '"' && s[i]
            != '\\'
}

/// Calls `format!("{:?}", s)`, the `Debug` rendering of a `str`. It depends
/// on the characters alone and is named by [`str_debug_text`]; for text of
/// printable ASCII without double quotes or backslashes it is that text
/// between double quotes, as the documentation of `char::escape_debug`
/// shows. How other characters are escaped is not stated.
#[verifier::external_body]
pub(crate) fn str_debug(s: &str) -> (r: String)
    ensures
        r@ == str_debug_text(s@),
        is_plain_ascii(s@) ==> r@ == seq!['"'] + s@ + seq!['"'],
{
    format!("{:?}", s)
}

} // verus!
