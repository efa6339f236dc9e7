//! Small tools on text: scanning for characters, prefixes and suffixes, and
//! writing numbers in decimal.

use vstd::prelude::*;
use vstd::std_specs::iter::{IteratorSpec, VerusForLoopWrapper};
use vstd::string::{spec_iter, StringExecFns};

verus! {

broadcast use vstd::string::group_string_axioms;

/// The characters that Unicode lists as white space.
pub open spec fn is_white_space(c: char) -> bool {
    let code = c as u32;
    ||| 0x09 <= code <= 0x0d
    ||| code == 0x20
    ||| code == 0x85
    ||| code == 0xa0
    ||| code == 0x1680
    ||| 0x2000 <= code <= 0x200a
    ||| code == 0x2028
    ||| code == 0x2029
    ||| code == 0x202f
    ||| code == 0x205f
    ||| code == 0x3000
}

/// A text that holds nothing but white space; the empty text is one.
pub open spec fn is_blank_text(text: Seq<char>) -> bool {
    forall|i: int| 0 <= i < text.len() ==> is_white_space(#[trigger] text[i])
}

/// Asks `char::is_whitespace`.
///
/// Trusted: std answers by the Unicode property `White_Space`, whose code
/// points [`is_white_space`] lists.
#[verifier::external_body]
fn char_is_whitespace(c: char) -> (r: bool)
    ensures
        r == is_white_space(c),
{
    c.is_whitespace()
}

/// Decides whether `text` holds nothing but white space.
pub fn is_blank(text: &str) -> (r: bool)
    ensures
        r == is_blank_text(text@),
{
    let mut walk = VerusForLoopWrapper::new(text.chars(), Ghost(None));
    let ghost mut seen: int = 0;
    loop
        invariant
            walk.wf(),
            walk.snapshot@ == spec_iter(text),
            walk.seq() == text@,
            seen == walk.index(),
            forall|i: int| 0 <= i < seen ==> is_white_space(#[trigger] text@[i]),
        ensures
            seen == text@.len(),
            forall|i: int| 0 <= i < seen ==> is_white_space(#[trigger] text@[i]),
        decreases text@.len() - seen,
    {
        match walk.next() {
            Some(c) => {
                if !char_is_whitespace(c) {
                    return false;
                }
                proof {
                    seen = seen + 1;
                }
            },
            None => {
                break ;
            },
        }
    }
    true
}

/// Decides whether `wanted` occurs in `text`.
pub fn contains_char(text: &str, wanted: char) -> (r: bool)
    ensures
        r == text@.contains(wanted),
{
    let mut walk = VerusForLoopWrapper::new(text.chars(), Ghost(None));
    let ghost mut seen: int = 0;
    loop
        invariant
            walk.wf(),
            walk.snapshot@ == spec_iter(text),
            walk.seq() == text@,
            seen == walk.index(),
            forall|i: int| 0 <= i < seen ==> #[trigger] text@[i] != wanted,
        ensures
            seen == text@.len(),
            forall|i: int| 0 <= i < seen ==> #[trigger] text@[i] != wanted,
        decreases text@.len() - seen,
    {
        match walk.next() {
            Some(c) => {
                if c == wanted {
                    return true;
                }
                proof {
                    seen = seen + 1;
                }
            },
            None => {
                break ;
            },
        }
    }
    false
}

/// Compares two texts with `str::eq`.
///
/// Trusted: std compares the texts character by character.
#[verifier::external_body]
pub(crate) fn same_text(a: &str, b: &str) -> (r: bool)
    ensures
        r == (a@ == b@),
{
    a == b
}

/// Takes `prefix` off the front of `text` with `str::strip_prefix`.
///
/// Trusted: std returns the rest of the text where the text starts with the
/// prefix, and nothing where it does not.
#[verifier::external_body]
pub(crate) fn strip_prefix<'a>(text: &'a str, prefix: &str) -> (rest: Option<&'a str>)
    ensures
        match rest {
            Some(tail) => text@ == prefix@ + tail@,
            None => !prefix@.is_prefix_of(text@),
        },
{
    text.strip_prefix(prefix)
}

/// Asks `str::ends_with` for a text suffix.
///
/// Trusted: std says yes exactly when the last characters of the text are
/// those of the suffix.
#[verifier::external_body]
pub(crate) fn ends_with(text: &str, suffix: &str) -> (r: bool)
    ensures
        r == suffix@.is_suffix_of(text@),
{
    text.ends_with(suffix)
}

/// What `str::to_lowercase` makes of a text.
pub uninterp spec fn lowercased(text: Seq<char>) -> Seq<char>;

/// Lowers the case of a text with `str::to_lowercase`.
///
/// Trusted: the result is a function of the text alone, fixed by Unicode's
/// case tables; it is named, not spelled out.
#[verifier::external_body]
pub(crate) fn to_lowercase(text: &str) -> (lower: String)
    ensures
        lower@ == lowercased(text@),
{
    text.to_lowercase()
}

/// The character that stands for a digit.
pub open spec fn digit_char(d: int) -> char {
    if d == 0 {
        '0'
    } else if d == 1 {
        '1'
    } else if d == 2 {
        '2'
    } else if d == 3 {
        '3'
    } else if d == 4 {
        '4'
    } else if d == 5 {
        '5'
    } else if d == 6 {
        '6'
    } else if d == 7 {
        '7'
    } else if d == 8 {
        '8'
    } else {
        '9'
    }
}

/// A natural number in decimal, without leading zeros.
pub open spec fn nat_text(n: nat) -> Seq<char>
    decreases n,
{
    if n < 10 {
        seq![digit_char(n as int)]
    } else {
        nat_text(n / 10).push(digit_char((n % 10) as int))
    }
}

/// An integer in decimal, with a minus sign where it is negative.
pub open spec fn int_text(v: int) -> Seq<char> {
    if v < 0 {
        seq!['-'] + nat_text((-v) as nat)
    } else {
        nat_text(v as nat)
    }
}

/// A share given in units, written in percent with two decimals: the
/// nearest hundredth, halves away from zero, with a minus sign for every
/// negative number of units.
pub open spec fn percent_text(units: int) -> Seq<char> {
    let size = if units < 0 {
        -units
    } else {
        units
    };
    let hundredths = (size + 5_000) / 10_000;
    let sign = if units < 0 {
        seq!['-']
    } else {
        Seq::<char>::empty()
    };
    sign + nat_text((hundredths / 100) as nat) + seq![
        '.',
        digit_char(hundredths / 10 % 10),
        digit_char(hundredths % 10),
    ]
}

/// The one-character text of a digit.
fn digit_str(d: u8) -> (s: &'static str)
    requires
        d < 10,
    ensures
        s@ == seq![digit_char(d as int)],
{
    proof {
        reveal_strlit("0");
        reveal_strlit("1");
        reveal_strlit("2");
        reveal_strlit("3");
        reveal_strlit("4");
        reveal_strlit("5");
        reveal_strlit("6");
        reveal_strlit("7");
        reveal_strlit("8");
        reveal_strlit("9");
    }
    let s = if d == 0 {
        "0"
    } else if d == 1 {
        "1"
    } else if d == 2 {
        "2"
    } else if d == 3 {
        "3"
    } else if d == 4 {
        "4"
    } else if d == 5 {
        "5"
    } else if d == 6 {
        "6"
    } else if d == 7 {
        "7"
    } else if d == 8 {
        "8"
    } else {
        "9"
    };
    assert(s@ =~= seq![digit_char(d as int)]);
    s
}

/// Writes a natural number in decimal at the end of `out`.
pub fn push_nat(out: &mut String, n: u128)
    ensures
        final(out)@ == old(out)@ + nat_text(n as nat),
    decreases n,
{
    if n >= 10 {
        push_nat(out, n / 10);
    }
    out.append(digit_str((n % 10) as u8));
    assert(final(out)@ =~= old(out)@ + nat_text(n as nat)) by {
        if n >= 10 {
            assert(old(out)@ + nat_text((n / 10) as nat) + seq![digit_char((n % 10) as int)]
                =~= old(out)@ + nat_text((n / 10) as nat).push(digit_char((n % 10) as int)));
        }
    }
}

/// Writes an integer in decimal at the end of `out`.
pub fn push_int(out: &mut String, v: i128)
    requires
        v > i128::MIN,
    ensures
        final(out)@ == old(out)@ + int_text(v as int),
{
    if v < 0 {
        proof {
            reveal_strlit("-");
        }
        out.append("-");
        push_nat(out, (-v) as u128);
        assert(final(out)@ =~= old(out)@ + int_text(v as int));
    } else {
        push_nat(out, v as u128);
    }
}

/// An integer in decimal.
pub fn int_to_string(v: i64) -> (s: String)
    ensures
        s@ == int_text(v as int),
{
    let mut s = String::new();
    push_int(&mut s, v as i128);
    assert(s@ =~= int_text(v as int));
    s
}

/// Writes a share given in units at the end of `out`, in percent with two
/// decimals.
pub fn push_percent(out: &mut String, units: i128)
    ensures
        final(out)@ == old(out)@ + percent_text(units as int),
{
    let size: u128 = if units < 0 {
        (-(units + 1)) as u128 + 1
    } else {
        units as u128
    };
    let hundredths: u128 = (size + 5_000) / 10_000;
    if units < 0 {
        proof {
            reveal_strlit("-");
        }
        out.append("-");
    }
    push_nat(out, hundredths / 100);
    proof {
        reveal_strlit(".");
    }
    out.append(".");
    out.append(digit_str((hundredths / 10 % 10) as u8));
    out.append(digit_str((hundredths % 10) as u8));
    assert(final(out)@ =~= old(out)@ + percent_text(units as int));
}

/// The text `head` followed by the text `tail`.
pub fn join(head: &str, tail: &str) -> (joined: String)
    ensures
        joined@ == head@ + tail@,
{
    let mut joined = String::new();
    joined.append(head);
    joined.append(tail);
    assert(joined@ =~= head@ + tail@);
    joined
}

} // verus!
