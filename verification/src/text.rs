//! Text building blocks: comparison, joining and decimal numerals.

use vstd::prelude::*;
use vstd::string::*;
use vstd::utf8::*;

verus! {

/// The parts written one after another with `sep` between neighbours.
pub open spec fn joined(parts: Seq<Seq<char>>, sep: Seq<char>) -> Seq<char>
    decreases parts.len(),
{
    if parts.len() == 0 {
        Seq::empty()
    } else if parts.len() == 1 {
        parts[0]
    } else {
        joined(parts.drop_last(), sep) + sep + parts.last()
    }
}

/// The text of one decimal digit; empty for a number that is not a digit.
pub open spec fn digit_text(d: nat) -> Seq<char> {
    if d == 0 {
        "0"@
    } else if d == 1 {
        "1"@
    } else if d == 2 {
        "2"@
    } else if d == 3 {
        "3"@
    } else if d == 4 {
        "4"@
    } else if d == 5 {
        "5"@
    } else if d == 6 {
        "6"@
    } else if d == 7 {
        "7"@
    } else if d == 8 {
        "8"@
    } else if d == 9 {
        "9"@
    } else {
        Seq::empty()
    }
}

/// The decimal numeral of `n`, most significant digit first, without leading zeros.
pub open spec fn decimal(n: nat) -> Seq<char>
    decreases n,
{
    if n < 10 {
        digit_text(n)
    } else {
        decimal(n / 10) + digit_text(n % 10)
    }
}

/// A name between double quotes.
pub open spec fn quoted(name: Seq<char>) -> Seq<char> {
    "\""@ + name + "\""@
}

/// The names, each between double quotes, separated by a comma and a space.
pub open spec fn quoted_list(names: Seq<Seq<char>>) -> Seq<char> {
    joined(names.map_values(|name: Seq<char>| quoted(name)), ", "@)
}

/// The message for a text that names no value of a closed set: what kind of
/// value was asked for, the text that was given, and every name that would
/// have been accepted.
pub open spec fn unknown_value(kind: Seq<char>, given: Seq<char>, names: Seq<Seq<char>>) -> Seq<
    char,
> {
    "Unknown "@ + kind + ": "@ + given + ". Expected one of "@ + quoted_list(names)
}

/// Whether two string slices hold the same characters.
pub fn str_eq(a: &str, b: &str) -> (res: bool)
    ensures
        res == (a@ == b@),
{
    let x = a.as_bytes();
    let y = b.as_bytes();
    proof {
        encode_utf8_decode_utf8(a@);
        encode_utf8_decode_utf8(b@);
    }
    if x.len() != y.len() {
        return false;
    }
    let mut i: usize = 0;
    while i < x.len()
        invariant
            x@ == encode_utf8(a@),
            y@ == encode_utf8(b@),
            x@.len() == y@.len(),
            i <= x@.len(),
            forall|j: int| 0 <= j < i ==> x@[j] == y@[j],
        decreases x@.len() - i,
    {
        if x[i] != y[i] {
            assert(x@[i as int] != y@[i as int]);
            return false;
        }
        i += 1;
    }
    assert(x@ =~= y@);
    true
}

/// Joins the parts with `sep` between neighbours, as `[String]::join` does.
pub fn join(parts: &Vec<String>, sep: &str) -> (res: String)
    ensures
        res@ == joined(parts.deep_view(), sep@),
{
    let mut out = String::new();
    let mut i: usize = 0;
    while i < parts.len()
        invariant
            i <= parts.len(),
            out@ == joined(parts.deep_view().take(i as int), sep@),
        decreases parts.len() - i,
    {
        let ghost before = parts.deep_view().take(i as int);
        let ghost after = parts.deep_view().take(i + 1);
        assert(after.drop_last() =~= before);
        assert(after.last() == parts@[i as int]@);
        if i > 0 {
            out.append(sep);
        }
        out.append(parts[i].as_str());
        assert(out@ =~= joined(after, sep@));
        i += 1;
    }
    assert(parts.deep_view().take(i as int) =~= parts.deep_view());
    out
}

/// Builds the message that `unknown_value` describes.
pub fn unknown_value_message(kind: &str, given: &str, names: &Vec<String>) -> (res: String)
    ensures
        res@ == unknown_value(kind@, given@, names.deep_view()),
{
    let mut quoted_names: Vec<String> = Vec::new();
    let mut i: usize = 0;
    while i < names.len()
        invariant
            i <= names.len(),
            quoted_names.deep_view() == names.deep_view().take(i as int).map_values(
                |name: Seq<char>| quoted(name),
            ),
        decreases names.len() - i,
    {
        let mut q = String::from_str("\"");
        q.append(names[i].as_str());
        q.append("\"");
        let ghost before = quoted_names.deep_view();
        quoted_names.push(q);
        assert(quoted_names.deep_view() =~= before.push(quoted(names@[i as int]@)));
        assert(names.deep_view().take(i + 1) =~= names.deep_view().take(i as int).push(
            names@[i as int]@,
        ));
        assert(quoted_names.deep_view() =~= names.deep_view().take(i + 1).map_values(
            |name: Seq<char>| quoted(name),
        ));
        i += 1;
    }
    assert(names.deep_view().take(i as int) =~= names.deep_view());
    let list = join(&quoted_names, ", ");
    let mut out = String::from_str("Unknown ");
    out.append(kind);
    out.append(": ");
    out.append(given);
    out.append(". Expected one of ");
    out.append(list.as_str());
    out
}

fn digit_str(d: u8) -> (res: &'static str)
    requires
        d < 10,
    ensures
        res@ == digit_text(d as nat),
{
    if d == 0 {
        "0"
    } else if d == 1 {
        "1"
    } else if d == 2 {
        "2"
    } else if d == 3 {
        "3"
    } else if d == 4 {
        "4"
    } else if d == 5 {
        "5"
    } else if d == 6 {
        "6"
    } else if d == 7 {
        "7"
    } else if d == 8 {
        "8"
    } else {
        "9"
    }
}

/// The decimal numeral of a 16-bit number.
pub fn u16_to_string(n: u16) -> (res: String)
    ensures
        res@ == decimal(n as nat),
    decreases n,
{
    if n < 10 {
        String::from_str(digit_str(n as u8))
    } else {
        let mut out = u16_to_string(n / 10);
        out.append(digit_str((n % 10) as u8));
        out
    }
}

} // verus!
