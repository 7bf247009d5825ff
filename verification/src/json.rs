//! A JSON text grammar, written as recursive specification functions over
//! character sequences, together with executable parsers proved equal to
//! them.
//!
//! The grammar is standard JSON with two documented restrictions: numbers
//! are kept as their raw character text (never converted to machine
//! floating point), and `\u` escapes are accepted only for ASCII code
//! points (characters outside ASCII appear as themselves in the text).
//! Every parsing function takes a start position and returns the position
//! just past what it consumed, or nothing when the text does not match the
//! grammar there.

use vstd::prelude::*;

verus! {

broadcast use vstd::string::group_string_axioms;

/// JSON whitespace.
pub open spec fn is_ws(c: char) -> bool {
    c == ' ' || c == '\t' || c == '\n' || c == '\r'
}

/// A decimal digit.
pub open spec fn is_digit(c: char) -> bool {
    '0' <= c && c <= '9'
}

/// A hexadecimal digit, either case.
pub open spec fn is_hex(c: char) -> bool {
    is_digit(c) || ('a' <= c && c <= 'f') || ('A' <= c && c <= 'F')
}

/// The value of a hexadecimal digit.
pub open spec fn hex_val(c: char) -> int {
    if is_digit(c) {
        c as u32 - '0' as u32
    } else if 'a' <= c && c <= 'f' {
        c as u32 - 'a' as u32 + 10
    } else {
        c as u32 - 'A' as u32 + 10
    }
}

/// Whether only whitespace stands from `i` to the end.
pub open spec fn all_ws(s: Seq<char>, i: int) -> bool
    decreases s.len() - i,
{
    if i < s.len() {
        is_ws(s[i]) && all_ws(s, i + 1)
    } else {
        true
    }
}

/// The end of the run of digits that starts at `i`.
pub open spec fn digits_end(s: Seq<char>, i: int) -> int
    decreases s.len() - i,
{
    if i < s.len() && is_digit(s[i]) {
        digits_end(s, i + 1)
    } else {
        i
    }
}

/// The end of an optional fraction part at `b`: a `.` must be followed by
/// at least one digit.
pub open spec fn frac_end(s: Seq<char>, b: int) -> Option<int> {
    if b < s.len() && s[b] == '.' {
        let d = digits_end(s, b + 1);
        if d == b + 1 {
            None
        } else {
            Some(d)
        }
    } else {
        Some(b)
    }
}

/// The end of an optional exponent part at `d`: `e` or `E`, an optional
/// sign, and at least one digit.
pub open spec fn exp_end(s: Seq<char>, d: int) -> Option<int> {
    if d < s.len() && (s[d] == 'e' || s[d] == 'E') {
        let e0 = if d + 1 < s.len() && (s[d + 1] == '+' || s[d + 1] == '-') {
            d + 2
        } else {
            d + 1
        };
        let f = digits_end(s, e0);
        if f == e0 {
            None
        } else {
            Some(f)
        }
    } else {
        Some(d)
    }
}

/// The end of a number starting at `i`: an optional minus sign, at least
/// one digit, an optional fraction and an optional exponent.
pub open spec fn skip_number(s: Seq<char>, i: int) -> Option<int> {
    let a = if i < s.len() && s[i] == '-' {
        i + 1
    } else {
        i
    };
    let b = digits_end(s, a);
    if b == a {
        None
    } else {
        match frac_end(s, b) {
            Some(d) => exp_end(s, d),
            None => None,
        }
    }
}

/// Whether a whole character sequence is a number of the grammar.
pub open spec fn is_number_seq(t: Seq<char>) -> bool {
    skip_number(t, 0) == Some(t.len() as int)
}

/// Whether `e` continues a string escape at the backslash: the single
/// characters that may follow a backslash directly.
pub open spec fn is_simple_escape(e: char) -> bool {
    e == '"' || e == '\\' || e == '/' || e == 'b' || e == 'f' || e == 'n' || e == 'r' || e == 't'
}

/// The character denoted by a simple escape.
pub open spec fn simple_escape_char(e: char) -> char {
    if e == 'b' {
        '\u{8}'
    } else if e == 'f' {
        '\u{c}'
    } else if e == 'n' {
        '\n'
    } else if e == 'r' {
        '\r'
    } else if e == 't' {
        '\t'
    } else {
        e
    }
}

/// Whether a `\u` escape for an ASCII code point stands at the backslash
/// position `i`: `u`, two zeros, and two more hex digits below 0x80.
pub open spec fn is_ascii_u_escape(s: Seq<char>, i: int) -> bool {
    &&& i + 5 < s.len()
    &&& s[i + 1] == 'u'
    &&& s[i + 2] == '0'
    &&& s[i + 3] == '0'
    &&& is_hex(s[i + 4])
    &&& is_hex(s[i + 5])
    &&& hex_val(s[i + 4]) < 8
}

/// The character denoted by an ASCII `\u` escape at `i`.
pub open spec fn u_escape_char(s: Seq<char>, i: int) -> char {
    (((hex_val(s[i + 4]) * 16 + hex_val(s[i + 5])) as u8) as char)
}

/// The end of a string body starting at `i` (just after the opening
/// quote); consumes the closing quote.
pub open spec fn skip_str(s: Seq<char>, i: int) -> Option<int>
    decreases s.len() - i,
{
    if i >= s.len() {
        None
    } else if s[i] == '"' {
        Some(i + 1)
    } else if s[i] == '\\' {
        if i + 1 < s.len() && is_simple_escape(s[i + 1]) {
            skip_str(s, i + 2)
        } else if is_ascii_u_escape(s, i) {
            skip_str(s, i + 6)
        } else {
            None
        }
    } else if (s[i] as u32) >= 0x20 {
        skip_str(s, i + 1)
    } else {
        None
    }
}

/// The decoded content and end of a string body starting at `i` (just
/// after the opening quote); the end is past the closing quote.
pub open spec fn str_content(s: Seq<char>, i: int) -> Option<(Seq<char>, int)>
    decreases s.len() - i,
{
    if i >= s.len() {
        None
    } else if s[i] == '"' {
        Some((Seq::empty(), i + 1))
    } else if s[i] == '\\' {
        if i + 1 < s.len() && is_simple_escape(s[i + 1]) {
            match str_content(s, i + 2) {
                Some((t, j)) => Some((seq![simple_escape_char(s[i + 1])] + t, j)),
                None => None,
            }
        } else if is_ascii_u_escape(s, i) {
            match str_content(s, i + 6) {
                Some((t, j)) => Some((seq![u_escape_char(s, i)] + t, j)),
                None => None,
            }
        } else {
            None
        }
    } else if (s[i] as u32) >= 0x20 {
        match str_content(s, i + 1) {
            Some((t, j)) => Some((seq![s[i]] + t, j)),
            None => None,
        }
    } else {
        None
    }
}

/// The position just past a `:` preceded by whitespace at `i`.
pub open spec fn after_colon(s: Seq<char>, i: int) -> Option<int>
    decreases s.len() - i,
{
    if i >= s.len() {
        None
    } else if is_ws(s[i]) {
        after_colon(s, i + 1)
    } else if s[i] == ':' {
        Some(i + 1)
    } else {
        None
    }
}

/// The end of a complete JSON value starting at `i`, leading whitespace
/// allowed.
pub open spec fn skip_value(s: Seq<char>, i: int) -> Option<int>
    decreases s.len() - i, 0int,
{
    if i >= s.len() {
        None
    } else if is_ws(s[i]) {
        skip_value(s, i + 1)
    } else if s[i] == '{' {
        skip_obj(s, i + 1)
    } else if s[i] == '[' {
        skip_arr(s, i + 1)
    } else if s[i] == '"' {
        skip_str(s, i + 1)
    } else if s[i] == 't' {
        if i + 4 <= s.len() && s.subrange(i, i + 4) == "true"@ {
            Some(i + 4)
        } else {
            None
        }
    } else if s[i] == 'f' {
        if i + 5 <= s.len() && s.subrange(i, i + 5) == "false"@ {
            Some(i + 5)
        } else {
            None
        }
    } else if s[i] == 'n' {
        if i + 4 <= s.len() && s.subrange(i, i + 4) == "null"@ {
            Some(i + 4)
        } else {
            None
        }
    } else if s[i] == '-' || is_digit(s[i]) {
        skip_number(s, i)
    } else {
        None
    }
}

/// The end of an object body starting at `i` (just after the `{`).
pub open spec fn skip_obj(s: Seq<char>, i: int) -> Option<int>
    decreases s.len() - i, 2int,
{
    if i >= s.len() {
        None
    } else if is_ws(s[i]) {
        skip_obj(s, i + 1)
    } else if s[i] == '}' {
        Some(i + 1)
    } else {
        skip_members(s, i)
    }
}

/// The end of a non-empty member list starting at `i`, including the
/// closing `}`.
pub open spec fn skip_members(s: Seq<char>, i: int) -> Option<int>
    decreases s.len() - i, 1int,
{
    if i >= s.len() {
        None
    } else if is_ws(s[i]) {
        skip_members(s, i + 1)
    } else if s[i] == '"' {
        match skip_str(s, i + 1) {
            Some(j) => if i + 1 < j && j <= s.len() {
                match after_colon(s, j) {
                    Some(p) => if j < p && p <= s.len() {
                        match skip_value(s, p) {
                            Some(k) => if p < k && k <= s.len() {
                                members_tail(s, k)
                            } else {
                                None
                            },
                            None => None,
                        }
                    } else {
                        None
                    },
                    None => None,
                }
            } else {
                None
            },
            None => None,
        }
    } else {
        None
    }
}

/// After a member: whitespace, then either `,` and more members or the
/// closing `}`.
pub open spec fn members_tail(s: Seq<char>, i: int) -> Option<int>
    decreases s.len() - i, 1int,
{
    if i >= s.len() {
        None
    } else if is_ws(s[i]) {
        members_tail(s, i + 1)
    } else if s[i] == ',' {
        skip_members(s, i + 1)
    } else if s[i] == '}' {
        Some(i + 1)
    } else {
        None
    }
}

/// The end of an array body starting at `i` (just after the `[`).
pub open spec fn skip_arr(s: Seq<char>, i: int) -> Option<int>
    decreases s.len() - i, 2int,
{
    if i >= s.len() {
        None
    } else if is_ws(s[i]) {
        skip_arr(s, i + 1)
    } else if s[i] == ']' {
        Some(i + 1)
    } else {
        skip_elems(s, i)
    }
}

/// The end of a non-empty element list starting at `i`, including the
/// closing `]`.
pub open spec fn skip_elems(s: Seq<char>, i: int) -> Option<int>
    decreases s.len() - i, 1int,
{
    match skip_value(s, i) {
        Some(k) => if i < k && k <= s.len() {
            elems_tail(s, k)
        } else {
            None
        },
        None => None,
    }
}

/// After an element: whitespace, then either `,` and more elements or the
/// closing `]`.
pub open spec fn elems_tail(s: Seq<char>, i: int) -> Option<int>
    decreases s.len() - i, 1int,
{
    if i >= s.len() {
        None
    } else if is_ws(s[i]) {
        elems_tail(s, i + 1)
    } else if s[i] == ',' {
        skip_elems(s, i + 1)
    } else if s[i] == ']' {
        Some(i + 1)
    } else {
        None
    }
}

/// Whether the whole sequence is one JSON value with nothing but
/// whitespace after it.
pub open spec fn json_ok(s: Seq<char>) -> bool {
    match skip_value(s, 0) {
        Some(e) => 0 <= e <= s.len() && all_ws(s, e),
        None => false,
    }
}

/// The position of the value of the first member with the given decoded
/// key, scanning a member list that starts at `i`; the position points
/// just past the member's `:`.
pub open spec fn find_member(s: Seq<char>, i: int, key: Seq<char>) -> Option<int>
    decreases s.len() - i, 0int,
{
    if i >= s.len() {
        None
    } else if is_ws(s[i]) {
        find_member(s, i + 1, key)
    } else if s[i] == '"' {
        match str_content(s, i + 1) {
            Some((k, j)) => if i + 1 < j && j <= s.len() {
                match after_colon(s, j) {
                    Some(p) => if j < p && p <= s.len() {
                        if k == key {
                            Some(p)
                        } else {
                            match skip_value(s, p) {
                                Some(e) => if p < e && e <= s.len() {
                                    find_tail(s, e, key)
                                } else {
                                    None
                                },
                                None => None,
                            }
                        }
                    } else {
                        None
                    },
                    None => None,
                }
            } else {
                None
            },
            None => None,
        }
    } else {
        None
    }
}

/// After a skipped member: whitespace, then `,` and the rest of the
/// member list; the key is not present once `}` is reached.
pub open spec fn find_tail(s: Seq<char>, i: int, key: Seq<char>) -> Option<int>
    decreases s.len() - i, 1int,
{
    if i >= s.len() {
        None
    } else if is_ws(s[i]) {
        find_tail(s, i + 1, key)
    } else if s[i] == ',' {
        find_member(s, i + 1, key)
    } else {
        None
    }
}

/// The position just past the `{` of an object that starts, after
/// whitespace, at `i`.
pub open spec fn obj_body_at(s: Seq<char>, i: int) -> Option<int>
    decreases s.len() - i,
{
    if i >= s.len() {
        None
    } else if is_ws(s[i]) {
        obj_body_at(s, i + 1)
    } else if s[i] == '{' {
        Some(i + 1)
    } else {
        None
    }
}

/// The raw text of a number that stands, after whitespace, at `i`.  The
/// text is checked to be a complete number on its own.
pub open spec fn number_at(s: Seq<char>, i: int) -> Option<Seq<char>>
    decreases s.len() - i,
{
    if i >= s.len() {
        None
    } else if is_ws(s[i]) {
        number_at(s, i + 1)
    } else if s[i] == '-' || is_digit(s[i]) {
        match skip_number(s, i) {
            Some(e) => if i < e && e <= s.len() {
                let t = s.subrange(i, e);
                if is_number_seq(t) {
                    Some(t)
                } else {
                    None
                }
            } else {
                None
            },
            None => None,
        }
    } else {
        None
    }
}

/// The decoded content of a string that stands, after whitespace, at `i`.
pub open spec fn string_at(s: Seq<char>, i: int) -> Option<Seq<char>>
    decreases s.len() - i,
{
    if i >= s.len() {
        None
    } else if is_ws(s[i]) {
        string_at(s, i + 1)
    } else if s[i] == '"' {
        match str_content(s, i + 1) {
            Some((t, j)) => Some(t),
            None => None,
        }
    } else {
        None
    }
}

/// A returned position as a mathematical one.
pub open spec fn pos_of(r: Option<usize>) -> Option<int> {
    match r {
        Some(j) => Some(j as int),
        None => None,
    }
}

fn is_ws_x(c: char) -> (r: bool)
    ensures
        r == is_ws(c),
{
    c == ' ' || c == '\t' || c == '\n' || c == '\r'
}

fn is_digit_x(c: char) -> (r: bool)
    ensures
        r == is_digit(c),
{
    '0' <= c && c <= '9'
}

fn is_hex_x(c: char) -> (r: bool)
    ensures
        r == is_hex(c),
{
    ('0' <= c && c <= '9') || ('a' <= c && c <= 'f') || ('A' <= c && c <= 'F')
}

fn hex_val_x(c: char) -> (r: u8)
    requires
        is_hex(c),
    ensures
        r as int == hex_val(c),
        r < 16,
{
    if '0' <= c && c <= '9' {
        (c as u8) - ('0' as u8)
    } else if 'a' <= c && c <= 'f' {
        (c as u8) - ('a' as u8) + 10
    } else {
        (c as u8) - ('A' as u8) + 10
    }
}

/// Whether only whitespace follows position `i`.
pub fn all_ws_x(s: &Vec<char>, i: usize) -> (r: bool)
    requires
        i <= s@.len(),
    ensures
        r == all_ws(s@, i as int),
    decreases s@.len() - i,
{
    if i < s.len() {
        if is_ws_x(s[i]) {
            all_ws_x(s, i + 1)
        } else {
            false
        }
    } else {
        true
    }
}

fn digits_end_x(s: &Vec<char>, i: usize) -> (r: usize)
    requires
        i <= s@.len(),
    ensures
        r as int == digits_end(s@, i as int),
        i <= r <= s@.len(),
    decreases s@.len() - i,
{
    if i < s.len() && is_digit_x(s[i]) {
        digits_end_x(s, i + 1)
    } else {
        i
    }
}

fn skip_number_x(s: &Vec<char>, i: usize) -> (r: Option<usize>)
    requires
        i <= s@.len(),
    ensures
        pos_of(r) == skip_number(s@, i as int),
        r is Some ==> i <= r.unwrap() <= s@.len(),
    decreases s@.len() - i,
{
    let a = if i < s.len() && s[i] == '-' {
        i + 1
    } else {
        i
    };
    let b = digits_end_x(s, a);
    if b == a {
        None
    } else {
        let d = if b < s.len() && s[b] == '.' {
            let d0 = digits_end_x(s, b + 1);
            if d0 == b + 1 {
                return None;
            }
            d0
        } else {
            b
        };
        if d < s.len() && (s[d] == 'e' || s[d] == 'E') {
            let e0 = if d + 1 < s.len() && (s[d + 1] == '+' || s[d + 1] == '-') {
                d + 2
            } else {
                d + 1
            };
            let f = digits_end_x(s, e0);
            if f == e0 {
                None
            } else {
                Some(f)
            }
        } else {
            Some(d)
        }
    }
}

fn skip_str_x(s: &Vec<char>, i: usize) -> (r: Option<usize>)
    requires
        i <= s@.len(),
    ensures
        pos_of(r) == skip_str(s@, i as int),
        r is Some ==> i < r.unwrap() <= s@.len(),
    decreases s@.len() - i,
{
    if i >= s.len() {
        None
    } else if s[i] == '"' {
        Some(i + 1)
    } else if s[i] == '\\' {
        if i + 1 < s.len() && {
            let e = s[i + 1];
            e == '"' || e == '\\' || e == '/' || e == 'b' || e == 'f' || e == 'n' || e == 'r' || e
                == 't'
        } {
            skip_str_x(s, i + 2)
        } else if s.len() - i > 5 && s[i + 1] == 'u' && s[i + 2] == '0' && s[i + 3] == '0'
            && is_hex_x(s[i + 4]) && is_hex_x(s[i + 5]) && hex_val_x(s[i + 4]) < 8 {
            skip_str_x(s, i + 6)
        } else {
            None
        }
    } else if (s[i] as u32) >= 0x20 {
        skip_str_x(s, i + 1)
    } else {
        None
    }
}

fn str_content_x(s: &Vec<char>, i: usize) -> (r: Option<(Vec<char>, usize)>)
    requires
        i <= s@.len(),
    ensures
        match r {
            Some((t, j)) => str_content(s@, i as int) == Some((t@, j as int)) && i < j <= s@.len(),
            None => str_content(s@, i as int) is None,
        },
    decreases s@.len() - i,
{
    if i >= s.len() {
        None
    } else if s[i] == '"' {
        Some((Vec::new(), i + 1))
    } else if s[i] == '\\' {
        if i + 1 < s.len() && {
            let e = s[i + 1];
            e == '"' || e == '\\' || e == '/' || e == 'b' || e == 'f' || e == 'n' || e == 'r' || e
                == 't'
        } {
            let e = s[i + 1];
            let c: char = if e == 'b' {
                '\u{8}'
            } else if e == 'f' {
                '\u{c}'
            } else if e == 'n' {
                '\n'
            } else if e == 'r' {
                '\r'
            } else if e == 't' {
                '\t'
            } else {
                e
            };
            match str_content_x(s, i + 2) {
                Some((t, j)) => {
                    let mut t = t;
                    t.insert(0, c);
                    proof {
                        assert(t@ =~= seq![simple_escape_char(s@[i as int + 1])] + t@.subrange(
                            1,
                            t@.len() as int,
                        ));
                    }
                    Some((t, j))
                },
                None => None,
            }
        } else if s.len() - i > 5 && s[i + 1] == 'u' && s[i + 2] == '0' && s[i + 3] == '0'
            && is_hex_x(s[i + 4]) && is_hex_x(s[i + 5]) && hex_val_x(s[i + 4]) < 8 {
            let n: u8 = hex_val_x(s[i + 4]) * 16 + hex_val_x(s[i + 5]);
            let c: char = n as char;
            match str_content_x(s, i + 6) {
                Some((t, j)) => {
                    let mut t = t;
                    t.insert(0, c);
                    proof {
                        assert(c == u_escape_char(s@, i as int));
                        assert(t@ =~= seq![u_escape_char(s@, i as int)] + t@.subrange(
                            1,
                            t@.len() as int,
                        ));
                    }
                    Some((t, j))
                },
                None => None,
            }
        } else {
            None
        }
    } else if (s[i] as u32) >= 0x20 {
        match str_content_x(s, i + 1) {
            Some((t, j)) => {
                let c = s[i];
                let mut t = t;
                t.insert(0, c);
                proof {
                    assert(t@ =~= seq![s@[i as int]] + t@.subrange(1, t@.len() as int));
                }
                Some((t, j))
            },
            None => None,
        }
    } else {
        None
    }
}

fn after_colon_x(s: &Vec<char>, i: usize) -> (r: Option<usize>)
    requires
        i <= s@.len(),
    ensures
        pos_of(r) == after_colon(s@, i as int),
        r is Some ==> i < r.unwrap() <= s@.len(),
    decreases s@.len() - i,
{
    if i >= s.len() {
        None
    } else if is_ws_x(s[i]) {
        after_colon_x(s, i + 1)
    } else if s[i] == ':' {
        Some(i + 1)
    } else {
        None
    }
}

fn skip_value_x(s: &Vec<char>, i: usize) -> (r: Option<usize>)
    requires
        i <= s@.len(),
    ensures
        pos_of(r) == skip_value(s@, i as int),
        r is Some ==> i < r.unwrap() <= s@.len(),
    decreases s@.len() - i, 0int,
{
    if i >= s.len() {
        return None;
    } else if is_ws_x(s[i]) {
        return skip_value_x(s, i + 1);
    } else if s[i] == '{' {
        return skip_obj_x(s, i + 1);
    } else if s[i] == '[' {
        return skip_arr_x(s, i + 1);
    } else if s[i] == '"' {
        return skip_str_x(s, i + 1);
    } else if s[i] == 't' {
        proof {
            reveal_strlit("true");
            assert("true"@.len() == 4 && "true"@[0] == 't' && "true"@[1] == 'r' && "true"@[2]
                == 'u' && "true"@[3] == 'e');
        }
        if s.len() - i >= 4 && s[i + 1] == 'r' && s[i + 2] == 'u' && s[i + 3] == 'e' {
            proof {
                assert(s@.subrange(i as int, i as int + 4) =~= "true"@);
            }
            return Some(i + 4);
        } else {
            proof {
                if i + 4 <= s@.len() {
                    assert(forall|k: int|
                        0 <= k < 4 ==> #[trigger] s@.subrange(i as int, i as int + 4)[k] == s@[i
                            + k]);
                }
            }
            return None;
        }
    } else if s[i] == 'f' {
        proof {
            reveal_strlit("false");
            assert("false"@.len() == 5 && "false"@[0] == 'f' && "false"@[1] == 'a' && "false"@[2]
                == 'l' && "false"@[3] == 's' && "false"@[4] == 'e');
        }
        if s.len() - i >= 5 && s[i + 1] == 'a' && s[i + 2] == 'l' && s[i + 3] == 's' && s[i + 4]
            == 'e' {
            proof {
                assert(s@.subrange(i as int, i as int + 5) =~= "false"@);
            }
            return Some(i + 5);
        } else {
            proof {
                if i + 5 <= s@.len() {
                    assert(forall|k: int|
                        0 <= k < 5 ==> #[trigger] s@.subrange(i as int, i as int + 5)[k] == s@[i
                            + k]);
                }
            }
            return None;
        }
    } else if s[i] == 'n' {
        proof {
            reveal_strlit("null");
            assert("null"@.len() == 4 && "null"@[0] == 'n' && "null"@[1] == 'u' && "null"@[2]
                == 'l' && "null"@[3] == 'l');
        }
        if s.len() - i >= 4 && s[i + 1] == 'u' && s[i + 2] == 'l' && s[i + 3] == 'l' {
            proof {
                assert(s@.subrange(i as int, i as int + 4) =~= "null"@);
            }
            return Some(i + 4);
        } else {
            proof {
                if i + 4 <= s@.len() {
                    assert(forall|k: int|
                        0 <= k < 4 ==> #[trigger] s@.subrange(i as int, i as int + 4)[k] == s@[i
                            + k]);
                }
            }
            return None;
        }
    } else if s[i] == '-' || is_digit_x(s[i]) {
        proof {
            lemma_skip_number_bounds(s@, i as int);
        }
        return skip_number_x(s, i);
    } else {
        return None;
    }
}

/// A parsed number always ends strictly past where it began.
proof fn lemma_skip_number_bounds(s: Seq<char>, i: int)
    requires
        0 <= i <= s.len(),
    ensures
        match skip_number(s, i) {
            Some(e) => i < e <= s.len(),
            None => true,
        },
{
    let a = if i < s.len() && s[i] == '-' {
        i + 1
    } else {
        i
    };
    lemma_digits_end_bounds(s, a);
    let b = digits_end(s, a);
    if b != a {
        if b < s.len() && s[b] == '.' {
            lemma_digits_end_bounds(s, b + 1);
        }
        match frac_end(s, b) {
            Some(d) => {
                if d < s.len() && (s[d] == 'e' || s[d] == 'E') {
                    let e0 = if d + 1 < s.len() && (s[d + 1] == '+' || s[d + 1] == '-') {
                        d + 2
                    } else {
                        d + 1
                    };
                    lemma_digits_end_bounds(s, e0);
                }
            },
            None => {},
        }
    }
}

fn skip_obj_x(s: &Vec<char>, i: usize) -> (r: Option<usize>)
    requires
        i <= s@.len(),
    ensures
        pos_of(r) == skip_obj(s@, i as int),
        r is Some ==> i < r.unwrap() <= s@.len(),
    decreases s@.len() - i, 2int,
{
    if i >= s.len() {
        None
    } else if is_ws_x(s[i]) {
        skip_obj_x(s, i + 1)
    } else if s[i] == '}' {
        Some(i + 1)
    } else {
        skip_members_x(s, i)
    }
}

fn skip_members_x(s: &Vec<char>, i: usize) -> (r: Option<usize>)
    requires
        i <= s@.len(),
    ensures
        pos_of(r) == skip_members(s@, i as int),
        r is Some ==> i < r.unwrap() <= s@.len(),
    decreases s@.len() - i, 1int,
{
    if i >= s.len() {
        None
    } else if is_ws_x(s[i]) {
        skip_members_x(s, i + 1)
    } else if s[i] == '"' {
        match skip_str_x(s, i + 1) {
            Some(j) => match after_colon_x(s, j) {
                Some(p) => match skip_value_x(s, p) {
                    Some(k) => members_tail_x(s, k),
                    None => None,
                },
                None => None,
            },
            None => None,
        }
    } else {
        None
    }
}

fn members_tail_x(s: &Vec<char>, i: usize) -> (r: Option<usize>)
    requires
        i <= s@.len(),
    ensures
        pos_of(r) == members_tail(s@, i as int),
        r is Some ==> i < r.unwrap() <= s@.len(),
    decreases s@.len() - i, 1int,
{
    if i >= s.len() {
        None
    } else if is_ws_x(s[i]) {
        members_tail_x(s, i + 1)
    } else if s[i] == ',' {
        skip_members_x(s, i + 1)
    } else if s[i] == '}' {
        Some(i + 1)
    } else {
        None
    }
}

fn skip_arr_x(s: &Vec<char>, i: usize) -> (r: Option<usize>)
    requires
        i <= s@.len(),
    ensures
        pos_of(r) == skip_arr(s@, i as int),
        r is Some ==> i < r.unwrap() <= s@.len(),
    decreases s@.len() - i, 2int,
{
    if i >= s.len() {
        None
    } else if is_ws_x(s[i]) {
        skip_arr_x(s, i + 1)
    } else if s[i] == ']' {
        Some(i + 1)
    } else {
        skip_elems_x(s, i)
    }
}

fn skip_elems_x(s: &Vec<char>, i: usize) -> (r: Option<usize>)
    requires
        i <= s@.len(),
    ensures
        pos_of(r) == skip_elems(s@, i as int),
        r is Some ==> i < r.unwrap() <= s@.len(),
    decreases s@.len() - i, 1int,
{
    match skip_value_x(s, i) {
        Some(k) => elems_tail_x(s, k),
        None => None,
    }
}

fn elems_tail_x(s: &Vec<char>, i: usize) -> (r: Option<usize>)
    requires
        i <= s@.len(),
    ensures
        pos_of(r) == elems_tail(s@, i as int),
        r is Some ==> i < r.unwrap() <= s@.len(),
    decreases s@.len() - i, 1int,
{
    if i >= s.len() {
        None
    } else if is_ws_x(s[i]) {
        elems_tail_x(s, i + 1)
    } else if s[i] == ',' {
        skip_elems_x(s, i + 1)
    } else if s[i] == ']' {
        Some(i + 1)
    } else {
        None
    }
}

proof fn lemma_digits_end_bounds(s: Seq<char>, i: int)
    requires
        0 <= i <= s.len(),
    ensures
        i <= digits_end(s, i) <= s.len(),
    decreases s.len() - i,
{
    if i < s.len() && is_digit(s[i]) {
        lemma_digits_end_bounds(s, i + 1);
    }
}

/// Whether the whole vector is one JSON value with only whitespace
/// around it, as `json_ok` says.
pub fn json_ok_x(s: &Vec<char>) -> (r: bool)
    ensures
        r == json_ok(s@),
{
    match skip_value_x(s, 0) {
        Some(e) => all_ws_x(s, e),
        None => false,
    }
}

/// Finds the value position of the first member with the given decoded
/// key in the member list starting at `i`, as `find_member` says.
pub fn member_pos(s: &Vec<char>, i: usize, key: &Vec<char>) -> (r: Option<usize>)
    requires
        i <= s@.len(),
    ensures
        pos_of(r) == find_member(s@, i as int, key@),
        r is Some ==> i < r.unwrap() <= s@.len(),
    decreases s@.len() - i, 0int,
{
    if i >= s.len() {
        None
    } else if is_ws_x(s[i]) {
        member_pos(s, i + 1, key)
    } else if s[i] == '"' {
        match str_content_x(s, i + 1) {
            Some((k, j)) => match after_colon_x(s, j) {
                Some(p) => if crate::text::chars_eq(&k, key) {
                    Some(p)
                } else {
                    match skip_value_x(s, p) {
                        Some(e) => find_tail_x(s, e, key),
                        None => None,
                    }
                },
                None => None,
            },
            None => None,
        }
    } else {
        None
    }
}

fn find_tail_x(s: &Vec<char>, i: usize, key: &Vec<char>) -> (r: Option<usize>)
    requires
        i <= s@.len(),
    ensures
        pos_of(r) == find_tail(s@, i as int, key@),
        r is Some ==> i < r.unwrap() <= s@.len(),
    decreases s@.len() - i, 1int,
{
    if i >= s.len() {
        None
    } else if is_ws_x(s[i]) {
        find_tail_x(s, i + 1, key)
    } else if s[i] == ',' {
        member_pos(s, i + 1, key)
    } else {
        None
    }
}

/// The position just past the `{` of the object standing at `i`, as
/// `obj_body_at` says.
pub fn obj_body_at_x(s: &Vec<char>, i: usize) -> (r: Option<usize>)
    requires
        i <= s@.len(),
    ensures
        pos_of(r) == obj_body_at(s@, i as int),
        r is Some ==> i < r.unwrap() <= s@.len(),
    decreases s@.len() - i,
{
    if i >= s.len() {
        None
    } else if is_ws_x(s[i]) {
        obj_body_at_x(s, i + 1)
    } else if s[i] == '{' {
        Some(i + 1)
    } else {
        None
    }
}

/// The raw text of the number standing at `i`, as `number_at` says.
pub fn number_at_x(s: &Vec<char>, i: usize) -> (r: Option<Vec<char>>)
    requires
        i <= s@.len(),
    ensures
        match r {
            Some(t) => number_at(s@, i as int) == Some(t@) && is_number_seq(t@),
            None => number_at(s@, i as int) is None,
        },
    decreases s@.len() - i,
{
    if i >= s.len() {
        None
    } else if is_ws_x(s[i]) {
        number_at_x(s, i + 1)
    } else if s[i] == '-' || is_digit_x(s[i]) {
        match skip_number_x(s, i) {
            Some(e) => if i < e {
                let mut t: Vec<char> = Vec::new();
                let mut k: usize = i;
                while k < e
                    invariant
                        i <= k <= e <= s@.len(),
                        t@ == s@.subrange(i as int, k as int),
                    decreases e - k,
                {
                    t.push(s[k]);
                    k = k + 1;
                    proof {
                        assert(t@ =~= s@.subrange(i as int, k as int));
                    }
                }
                match skip_number_x(&t, 0) {
                    Some(f) => if f == t.len() {
                        Some(t)
                    } else {
                        None
                    },
                    None => None,
                }
            } else {
                None
            },
            None => None,
        }
    } else {
        None
    }
}

/// The decoded content of the string standing at `i`, as `string_at`
/// says.
pub fn string_at_x(s: &Vec<char>, i: usize) -> (r: Option<Vec<char>>)
    requires
        i <= s@.len(),
    ensures
        match r {
            Some(t) => string_at(s@, i as int) == Some(t@),
            None => string_at(s@, i as int) is None,
        },
    decreases s@.len() - i,
{
    if i >= s.len() {
        None
    } else if is_ws_x(s[i]) {
        string_at_x(s, i + 1)
    } else if s[i] == '"' {
        match str_content_x(s, i + 1) {
            Some((t, j)) => Some(t),
            None => None,
        }
    } else {
        None
    }
}

} // verus!
