//! Quoting of identifiers and decimal numbers.
use vstd::prelude::*;
use vstd::string::StringExecFns;

use crate::buffer::Buffer;

verus! {

/// An identifier between backticks.
pub open spec fn quoted(name: Seq<char>) -> Seq<char> {
    "`"@ + name + "`"@
}

/// The decimal digit for a value under ten.
pub open spec fn digit(d: nat) -> Seq<char> {
    if d == 0 {
        "0"@
    } else if d == 1 {
        "1"@
    } else if d == 2 {
        "2"@
    } else if d == 3 {
        "3"@
    } else if d == 4 {
        "4"@
    } else if d == 5 {
        "5"@
    } else if d == 6 {
        "6"@
    } else if d == 7 {
        "7"@
    } else if d == 8 {
        "8"@
    } else {
        "9"@
    }
}

/// A number written in decimal, without leading zeros.
pub open spec fn decimal(n: nat) -> Seq<char>
    decreases n,
{
    if n < 10 {
        digit(n)
    } else {
        decimal(n / 10) + digit(n % 10)
    }
}

/// An identifier between backticks.
pub fn quote(name: &str) -> (r: String)
    ensures
        r@ == quoted(name@),
{
    let mut r = String::from_str("`");
    r.append(name);
    r.append("`");
    r
}

fn digit_str(d: usize) -> (r: &'static str)
    requires
        d < 10,
    ensures
        r@ == digit(d as nat),
{
    if d == 0 {
        "0"
    } else if d == 1 {
        "1"
    } else if d == 2 {
        "2"
    } else if d == 3 {
        "3"
    } else if d == 4 {
        "4"
    } else if d == 5 {
        "5"
    } else if d == 6 {
        "6"
    } else if d == 7 {
        "7"
    } else if d == 8 {
        "8"
    } else {
        "9"
    }
}

/// A number written in decimal.
pub fn decimal_string(n: usize) -> (r: String)
    ensures
        r@ == decimal(n as nat),
    decreases n,
{
    if n < 10 {
        String::from_str(digit_str(n))
    } else {
        let mut r = decimal_string(n / 10);
        r.append(digit_str(n % 10));
        r
    }
}

/// The texts of a list of strings.
pub open spec fn string_views(names: Seq<String>) -> Seq<Seq<char>> {
    names.map_values(|s: String| s@)
}

/// The texts of a list of string slices.
pub open spec fn str_views(names: Seq<&str>) -> Seq<Seq<char>> {
    names.map_values(|s: &str| s@)
}

/// Each identifier of a list between backticks.
pub open spec fn quoted_all(names: Seq<Seq<char>>) -> Seq<Seq<char>> {
    names.map_values(|name: Seq<char>| quoted(name))
}

/// Append copies of the names, in order.
pub fn extend_names(names: &mut Vec<String>, values: &[&str])
    ensures
        string_views(final(names)@) == string_views(old(names)@) + str_views(values@),
{
    let ghost before = string_views(names@);
    let mut i: usize = 0;
    while i < values.len()
        invariant
            i <= values@.len(),
            string_views(names@) == before + str_views(values@.take(i as int)),
        decreases values@.len() - i,
    {
        let ghost previous = names@;
        names.push(String::from_str(values[i]));
        assert(string_views(names@) =~= string_views(previous).push(values@[i as int]@));
        assert(str_views(values@.take(i + 1)) =~= str_views(values@.take(i as int)).push(
            values@[i as int]@,
        ));
        i = i + 1;
        assert(string_views(names@) =~= before + str_views(values@.take(i as int)));
    }
    assert(values@.take(i as int) =~= values@);
}

/// Each name between backticks, in order.
pub fn quote_all(names: &Vec<String>) -> (r: Buffer)
    ensures
        r@ == quoted_all(string_views(names@)),
{
    let mut buffer = Buffer::new();
    let mut i: usize = 0;
    while i < names.len()
        invariant
            i <= names@.len(),
            buffer@ =~= quoted_all(string_views(names@)).take(i as int),
        decreases names@.len() - i,
    {
        buffer.push(quote(names[i].as_str()));
        i = i + 1;
    }
    buffer
}

} // verus!
