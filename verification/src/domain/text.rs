//! Text helpers shared by the use cases: membership in a list of allowed
//! values, joining such a list for messages, and building messages.

use vstd::prelude::*;

verus! {

/// Whether `value` is one of `options`.
pub open spec fn one_of(value: Seq<char>, options: Seq<&str>) -> bool {
    exists|i: int| 0 <= i < options.len() && (#[trigger] options[i])@ == value
}

/// The options written one after the other, separated by `sep`.
pub open spec fn joined(options: Seq<&str>, sep: Seq<char>) -> Seq<char>
    decreases options.len(),
{
    if options.len() == 0 {
        Seq::empty()
    } else if options.len() == 1 {
        options[0]@
    } else {
        joined(options.drop_last(), sep) + sep + options.last()@
    }
}

/// Whether `value` equals one of `options` (what `options.contains(&value)` decides).
pub fn is_one_of(value: &str, options: &[&str]) -> (r: bool)
    ensures
        r == one_of(value@, options@),
{
    let v = value.to_owned();
    let mut i: usize = 0;
    while i < options.len()
        invariant
            i <= options@.len(),
            v@ == value@,
            forall|j: int| 0 <= j < i ==> (#[trigger] options@[j])@ != value@,
        decreases options@.len() - i,
    {
        let o = options[i].to_owned();
        if o == v {
            return true;
        }
        i = i + 1;
    }
    false
}

/// `options.join(sep)`.
pub fn join(options: &[&str], sep: &str) -> (r: String)
    ensures
        r@ == joined(options@, sep@),
{
    let mut out = String::new();
    let mut i: usize = 0;
    while i < options.len()
        invariant
            i <= options@.len(),
            out@ == joined(options@.take(i as int), sep@),
        decreases options@.len() - i,
    {
        proof {
            assert(options@.take(i + 1).drop_last() =~= options@.take(i as int));
            assert(options@.take(i + 1).last() == options@[i as int]);
        }
        if i > 0 {
            out.append(sep);
        }
        out.append(options[i]);
        i = i + 1;
    }
    proof {
        assert(options@.take(options@.len() as int) =~= options@);
    }
    out
}

/// `prefix + middle + suffix` as a new `String`.
pub fn enclose(prefix: &str, middle: &str, suffix: &str) -> (r: String)
    ensures
        r@ == prefix@ + middle@ + suffix@,
{
    let mut out = String::from_str(prefix);
    out.append(middle);
    out.append(suffix);
    out
}

/// The decimal digits of a natural number, most significant first.
pub open spec fn natural_digits(n: nat) -> Seq<char>
    decreases n,
{
    if n < 10 {
        seq![digit_char(n)]
    } else {
        natural_digits(n / 10).push(digit_char(n % 10))
    }
}

/// The character of a single decimal digit.
pub open spec fn digit_char(d: nat) -> char {
    if d == 0 { '0' }
    else if d == 1 { '1' }
    else if d == 2 { '2' }
    else if d == 3 { '3' }
    else if d == 4 { '4' }
    else if d == 5 { '5' }
    else if d == 6 { '6' }
    else if d == 7 { '7' }
    else if d == 8 { '8' }
    else { '9' }
}

/// How an integer is written in decimal: a minus sign for negative values,
/// then the digits of its magnitude.
pub open spec fn decimal(n: int) -> Seq<char> {
    if n < 0 {
        seq!['-'] + natural_digits((-n) as nat)
    } else {
        natural_digits(n as nat)
    }
}

/// The one-character string of a decimal digit.
fn digit_text(d: u32) -> (r: &'static str)
    requires
        d < 10,
    ensures
        r@ == seq![digit_char(d as nat)],
{
    proof {
        reveal_strlit("0");
        reveal_strlit("1");
        reveal_strlit("2");
        reveal_strlit("3");
        reveal_strlit("4");
        reveal_strlit("5");
        reveal_strlit("6");
        reveal_strlit("7");
        reveal_strlit("8");
        reveal_strlit("9");
    }
    match d {
        0 => "0",
        1 => "1",
        2 => "2",
        3 => "3",
        4 => "4",
        5 => "5",
        6 => "6",
        7 => "7",
        8 => "8",
        _ => "9",
    }
}

/// Appends the decimal digits of `n` to `out`.
fn push_digits(n: u32, out: &mut String)
    ensures
        final(out)@ == old(out)@ + natural_digits(n as nat),
    decreases n,
{
    if n >= 10 {
        push_digits(n / 10, out);
    }
    out.append(digit_text(n % 10));
    proof {
        assert(old(out)@ + natural_digits(n as nat) =~= if n >= 10 {
            old(out)@ + natural_digits((n / 10) as nat) + seq![digit_char((n % 10) as nat)]
        } else {
            old(out)@ + seq![digit_char(n as nat)]
        });
    }
}

/// How `n.to_string()` writes an `i32`: a minus sign for negative values,
/// then the decimal digits of its magnitude, with no padding.
pub fn i32_to_decimal(n: i32) -> (r: String)
    ensures
        r@ == decimal(n as int),
{
    let mut out = String::new();
    if n < 0 {
        out.append("-");
        proof {
            reveal_strlit("-");
        }
        let magnitude: u32 = (0i64 - n as i64) as u32;
        push_digits(magnitude, &mut out);
    } else {
        push_digits(n as u32, &mut out);
    }
    proof {
        assert(out@ =~= decimal(n as int));
    }
    out
}

} // verus!
