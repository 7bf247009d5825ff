//! The temperature unit: a two-valued enumeration with a case-insensitive
//! parser for the unit token given on the command line.

use vstd::prelude::*;
use crate::text::{chars_of, chars_eq, string_of};

verus! {

/// Temperature unit selected on the command line.
#[derive(Clone, Copy, PartialEq, Eq, Structural, Debug)]
pub enum Unit {
    Celsius,
    Fahrenheit,
}

/// ASCII lowercase of one character; other characters are unchanged.
pub open spec fn lower_char(c: char) -> char {
    if 'A' <= c && c <= 'Z' {
        (((c as u8) + 32) as char)
    } else {
        c
    }
}

/// ASCII lowercase of a character sequence.
pub open spec fn lower_seq(s: Seq<char>) -> Seq<char> {
    s.map_values(|c: char| lower_char(c))
}

/// The unit denoted by a token, compared case-insensitively: `c`/`celsius`
/// mean Celsius, `f`/`fahrenheit` mean Fahrenheit, anything else is refused.
pub open spec fn unit_of_token(s: Seq<char>) -> Option<Unit> {
    if lower_seq(s) == "c"@ || lower_seq(s) == "celsius"@ {
        Some(Unit::Celsius)
    } else if lower_seq(s) == "f"@ || lower_seq(s) == "fahrenheit"@ {
        Some(Unit::Fahrenheit)
    } else {
        None
    }
}

/// The one-letter suffix of a unit, `C` or `F`.
pub open spec fn unit_letter(u: Unit) -> Seq<char> {
    match u {
        Unit::Celsius => "C"@,
        Unit::Fahrenheit => "F"@,
    }
}

fn lower_chars(v: &Vec<char>) -> (r: Vec<char>)
    ensures
        r@ == lower_seq(v@),
{
    let mut r: Vec<char> = Vec::new();
    let mut i: usize = 0;
    while i < v.len()
        invariant
            i <= v@.len(),
            r@ == lower_seq(v@.subrange(0, i as int)),
        decreases v@.len() - i,
    {
        let c = v[i];
        let lc: char = if 'A' <= c && c <= 'Z' {
            ((c as u8) + 32) as char
        } else {
            c
        };
        r.push(lc);
        i = i + 1;
        proof {
            assert(r@ =~= lower_seq(v@.subrange(0, i as int)));
        }
    }
    proof {
        assert(v@.subrange(0, v@.len() as int) =~= v@);
    }
    r
}

impl Unit {
    /// Parses a unit token, case-insensitively, as `unit_of_token` says.
    pub fn from_token(s: &str) -> (r: Option<Unit>)
        ensures
            r == unit_of_token(s@),
    {
        let v = chars_of(s);
        let low = lower_chars(&v);
        if chars_eq(&low, &chars_of("c")) || chars_eq(&low, &chars_of("celsius")) {
            Some(Unit::Celsius)
        } else if chars_eq(&low, &chars_of("f")) || chars_eq(&low, &chars_of("fahrenheit")) {
            Some(Unit::Fahrenheit)
        } else {
            None
        }
    }

    /// The unit's one-letter suffix, `C` or `F`.
    pub fn letter(&self) -> (r: String)
        ensures
            r@ == unit_letter(*self),
    {
        match self {
            Unit::Celsius => string_of(&chars_of("C")),
            Unit::Fahrenheit => string_of(&chars_of("F")),
        }
    }
}

} // verus!
