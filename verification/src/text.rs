//! Comparing and building the strings that name actors and message kinds.

use vstd::prelude::*;
use vstd::string::*;
use vstd::utf8::{encode_utf8, encode_utf8_decode_utf8};

verus! {

/// Whether `a` and `b` hold the same characters. The two are compared byte
/// by byte: a text is what its UTF-8 bytes decode to, so equal bytes mean
/// equal texts.
pub(crate) fn same_text(a: &str, b: &str) -> (same: bool)
    ensures
        same == (a@ == b@),
{
    let x = a.as_bytes();
    let y = b.as_bytes();
    proof {
        encode_utf8_decode_utf8(a@);
        encode_utf8_decode_utf8(b@);
    }
    if x.len() != y.len() {
        return false;
    }
    let mut i: usize = 0;
    while i < x.len()
        invariant
            i <= x@.len(),
            x@.len() == y@.len(),
            x@ == encode_utf8(a@),
            y@ == encode_utf8(b@),
            forall|k: int| 0 <= k < i ==> x@[k] == y@[k],
        decreases x@.len() - i,
    {
        if x[i] != y[i] {
            return false;
        }
        i += 1;
    }
    assert(x@ =~= y@);
    true
}

/// The character that writes the digit `d`.
pub open spec fn digit(d: int) -> char {
    if d == 0 {
        '0'
    } else if d == 1 {
        '1'
    } else if d == 2 {
        '2'
    } else if d == 3 {
        '3'
    } else if d == 4 {
        '4'
    } else if d == 5 {
        '5'
    } else if d == 6 {
        '6'
    } else if d == 7 {
        '7'
    } else if d == 8 {
        '8'
    } else {
        '9'
    }
}

/// `n` written in base ten, without leading zeros.
pub open spec fn decimal(n: nat) -> Seq<char>
    decreases n,
{
    if n < 10 {
        seq![digit(n as int)]
    } else {
        decimal(n / 10).push(digit((n % 10) as int))
    }
}

/// A name made of a prefix and a number: the prefix, then the number in
/// base ten.
pub open spec fn numbered_name(prefix: Seq<char>, n: nat) -> Seq<char> {
    prefix + decimal(n)
}

fn digit_text(d: u32) -> (text: &'static str)
    requires
        d < 10,
    ensures
        text@ == seq![digit(d as int)],
{
    proof {
        reveal_strlit("0");
        reveal_strlit("1");
        reveal_strlit("2");
        reveal_strlit("3");
        reveal_strlit("4");
        reveal_strlit("5");
        reveal_strlit("6");
        reveal_strlit("7");
        reveal_strlit("8");
        reveal_strlit("9");
    }
    let text = if d == 0 {
        "0"
    } else if d == 1 {
        "1"
    } else if d == 2 {
        "2"
    } else if d == 3 {
        "3"
    } else if d == 4 {
        "4"
    } else if d == 5 {
        "5"
    } else if d == 6 {
        "6"
    } else if d == 7 {
        "7"
    } else if d == 8 {
        "8"
    } else {
        "9"
    };
    assert(text@ =~= seq![digit(d as int)]);
    text
}

fn append_decimal(name: &mut String, n: u32)
    ensures
        final(name)@ == old(name)@ + decimal(n as nat),
    decreases n,
{
    if n >= 10 {
        append_decimal(name, n / 10);
    }
    let last = digit_text(n % 10);
    name.append(last);
    assert(name@ =~= old(name)@ + decimal(n as nat));
}

/// The name that `prefix` and the number `n` make.
pub fn numbered(prefix: &str, n: u32) -> (name: String)
    ensures
        name@ == numbered_name(prefix@, n as nat),
{
    let mut name = String::from_str(prefix);
    append_decimal(&mut name, n);
    name
}

/// No number is written with an empty string.
pub proof fn decimal_is_not_empty(n: nat)
    ensures
        decimal(n).len() >= 1,
    decreases n,
{
    if n >= 10 {
        decimal_is_not_empty(n / 10);
    }
}

/// Two numbers that are written alike are the same number.
pub proof fn decimal_is_injective(a: nat, b: nat)
    requires
        decimal(a) == decimal(b),
    ensures
        a == b,
    decreases a,
{
    if a < 10 && b < 10 {
        assert(decimal(a)[0] == digit(a as int));
        assert(decimal(b)[0] == digit(b as int));
        digit_is_injective(a as int, b as int);
    } else if a < 10 {
        decimal_is_not_empty(b / 10);
        assert(decimal(a).len() == 1);
        assert(decimal(b).len() >= 2);
    } else if b < 10 {
        decimal_is_not_empty(a / 10);
        assert(decimal(b).len() == 1);
        assert(decimal(a).len() >= 2);
    } else {
        let da = decimal(a / 10);
        let db = decimal(b / 10);
        assert(decimal(a).last() == digit((a % 10) as int));
        assert(decimal(b).last() == digit((b % 10) as int));
        digit_is_injective((a % 10) as int, (b % 10) as int);
        assert(decimal(a).drop_last() =~= da);
        assert(decimal(b).drop_last() =~= db);
        decimal_is_injective(a / 10, b / 10);
        assert(a == 10 * (a / 10) + a % 10);
        assert(b == 10 * (b / 10) + b % 10);
    }
}

/// Two digits that are written alike are the same digit.
pub proof fn digit_is_injective(a: int, b: int)
    requires
        0 <= a < 10,
        0 <= b < 10,
        digit(a) == digit(b),
    ensures
        a == b,
{
}

/// Whether `c` is one of the ten digits.
pub open spec fn is_digit(c: char) -> bool {
    c == '0' || c == '1' || c == '2' || c == '3' || c == '4' || c == '5' || c == '6' || c == '7'
        || c == '8' || c == '9'
}

/// Whether `text` ends in a digit.
pub open spec fn ends_in_digit(text: Seq<char>) -> bool {
    text.len() > 0 && is_digit(text.last())
}

/// A number is written with digits only.
pub proof fn decimal_is_all_digits(n: nat)
    ensures
        forall|i: int| 0 <= i < decimal(n).len() ==> is_digit(#[trigger] decimal(n)[i]),
    decreases n,
{
    if n >= 10 {
        decimal_is_all_digits(n / 10);
        assert forall|i: int| 0 <= i < decimal(n).len() implies is_digit(
            #[trigger] decimal(n)[i],
        ) by {
            if i < decimal(n / 10).len() {
                assert(decimal(n)[i] == decimal(n / 10)[i]);
            }
        }
    }
}

/// Names that carry different numbers are different names, also under
/// different prefixes, as long as neither prefix ends in a digit: the number
/// of a name is then all of its trailing digits.
pub proof fn numbers_tell_names_apart(first: Seq<char>, a: nat, second: Seq<char>, b: nat)
    requires
        !ends_in_digit(first),
        !ends_in_digit(second),
        a != b,
    ensures
        numbered_name(first, a) != numbered_name(second, b),
{
    let x = numbered_name(first, a);
    let y = numbered_name(second, b);
    if x == y {
        decimal_is_all_digits(a);
        decimal_is_all_digits(b);
        assert(x.len() == first.len() + decimal(a).len());
        assert(y.len() == second.len() + decimal(b).len());
        if first.len() == second.len() {
            assert(x.subrange(first.len() as int, x.len() as int) =~= decimal(a));
            assert(y.subrange(second.len() as int, y.len() as int) =~= decimal(b));
            decimal_is_injective(a, b);
        } else if first.len() < second.len() {
            let at = second.len() - 1;
            assert(y[at] == second.last());
            assert(0 <= at - first.len() < decimal(a).len());
            assert(x[at] == decimal(a)[at - first.len()]);
            assert(is_digit(decimal(a)[at - first.len()]));
        } else {
            let at = first.len() - 1;
            assert(x[at] == first.last());
            assert(0 <= at - second.len() < decimal(b).len());
            assert(y[at] == decimal(b)[at - second.len()]);
            assert(is_digit(decimal(b)[at - second.len()]));
        }
    }
}

/// Under one prefix, different numbers make different names.
pub proof fn numbered_names_differ(prefix: Seq<char>, a: nat, b: nat)
    requires
        a != b,
    ensures
        numbered_name(prefix, a) != numbered_name(prefix, b),
{
    let x = numbered_name(prefix, a);
    let y = numbered_name(prefix, b);
    if x == y {
        assert(x.subrange(prefix.len() as int, x.len() as int) =~= decimal(a));
        assert(y.subrange(prefix.len() as int, y.len() as int) =~= decimal(b));
        decimal_is_injective(a, b);
    }
}

} // verus!
