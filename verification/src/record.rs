//! The status record and its JSON codec: building the single-line JSON
//! object that is written to standard output, and the strict decoder that
//! reads exactly that form back.  Encoding and decoding are proved inverse
//! to each other.

use vstd::prelude::*;
use crate::json::{is_digit, hex_val};
use crate::text::{chars_of, string_of};

verus! {

broadcast use vstd::string::group_string_axioms;

/// The record emitted once per successful poll cycle.
#[derive(Debug)]
pub struct WaybarPayload {
    pub text: String,
    pub class: String,
    pub alt: String,
    pub tooltip: String,
}

/// A lowercase hexadecimal digit character.
pub open spec fn is_hex_lower(c: char) -> bool {
    is_digit(c) || ('a' <= c && c <= 'f')
}

/// The lowercase hexadecimal digit for a value below 16.
pub open spec fn hex_digit(k: int) -> char {
    if k == 0 {
        '0'
    } else if k == 1 {
        '1'
    } else if k == 2 {
        '2'
    } else if k == 3 {
        '3'
    } else if k == 4 {
        '4'
    } else if k == 5 {
        '5'
    } else if k == 6 {
        '6'
    } else if k == 7 {
        '7'
    } else if k == 8 {
        '8'
    } else if k == 9 {
        '9'
    } else if k == 10 {
        'a'
    } else if k == 11 {
        'b'
    } else if k == 12 {
        'c'
    } else if k == 13 {
        'd'
    } else if k == 14 {
        'e'
    } else {
        'f'
    }
}

/// The escape of one character in an emitted JSON string: quote and
/// backslash get a backslash escape, control characters a `\u00..` escape,
/// and every other character stands for itself.
pub open spec fn esc_char(c: char) -> Seq<char> {
    if c == '"' {
        seq!['\\', '"']
    } else if c == '\\' {
        seq!['\\', '\\']
    } else if (c as u32) < 0x20 {
        seq!['\\', 'u', '0', '0', hex_digit(c as u32 as int / 16), hex_digit(c as u32 as int % 16)]
    } else {
        seq![c]
    }
}

/// The escaped form of a whole string.
pub open spec fn escape_seq(t: Seq<char>) -> Seq<char>
    decreases t.len(),
{
    if t.len() == 0 {
        Seq::empty()
    } else {
        esc_char(t[0]) + escape_seq(t.drop_first())
    }
}

/// The serialized record: one JSON object with the four fields in the
/// fixed order `text`, `alt`, `tooltip`, `class`, each value an escaped
/// string.
pub open spec fn record_json(t: Seq<char>, a: Seq<char>, p: Seq<char>, c: Seq<char>) -> Seq<
    char,
> {
    "{\"text\":\""@ + escape_seq(t) + seq!['"'] + ",\"alt\":\""@ + escape_seq(a) + seq!['"']
        + ",\"tooltip\":\""@ + escape_seq(p) + seq!['"'] + ",\"class\":\""@ + escape_seq(c) + seq![
        '"',
        '}',
    ]
}

/// Whether the literal `l` stands in `s` at position `i`.
pub open spec fn lit_at(s: Seq<char>, i: int, l: Seq<char>) -> bool {
    0 <= i && i + l.len() <= s.len() && s.subrange(i, i + l.len()) == l
}

/// The content and end of a canonically escaped string body starting at
/// `i` (just after the opening quote): exactly the image of `escape_seq`,
/// followed by the closing quote, is accepted.
pub open spec fn canon_str(s: Seq<char>, i: int) -> Option<(Seq<char>, int)>
    decreases s.len() - i,
{
    if i >= s.len() {
        None
    } else if s[i] == '"' {
        Some((Seq::empty(), i + 1))
    } else if s[i] == '\\' {
        if i + 1 < s.len() && (s[i + 1] == '"' || s[i + 1] == '\\') {
            match canon_str(s, i + 2) {
                Some((t, j)) => Some((seq![s[i + 1]] + t, j)),
                None => None,
            }
        } else if i + 5 < s.len() && s[i + 1] == 'u' && s[i + 2] == '0' && s[i + 3] == '0'
            && is_hex_lower(s[i + 4]) && is_hex_lower(s[i + 5]) && hex_val(s[i + 4]) * 16 + hex_val(
            s[i + 5],
        ) < 0x20 {
            match canon_str(s, i + 6) {
                Some((t, j)) => Some(
                    (seq![(((hex_val(s[i + 4]) * 16 + hex_val(s[i + 5])) as u8) as char)] + t, j),
                ),
                None => None,
            }
        } else {
            None
        }
    } else if (s[i] as u32) >= 0x20 {
        match canon_str(s, i + 1) {
            Some((t, j)) => Some((seq![s[i]] + t, j)),
            None => None,
        }
    } else {
        None
    }
}

/// The four fields read back from a serialized record, when the text is
/// exactly the canonical form that `record_json` produces.
pub open spec fn payload_fields(s: Seq<char>) -> Option<(Seq<char>, Seq<char>, Seq<char>, Seq<
    char,
>)> {
    if lit_at(s, 0, "{\"text\":\""@) {
        match canon_str(s, "{\"text\":\""@.len() as int) {
            Some((t, i1)) => if lit_at(s, i1, ",\"alt\":\""@) {
                match canon_str(s, i1 + ",\"alt\":\""@.len()) {
                    Some((a, i2)) => if lit_at(s, i2, ",\"tooltip\":\""@) {
                        match canon_str(s, i2 + ",\"tooltip\":\""@.len()) {
                            Some((p, i3)) => if lit_at(s, i3, ",\"class\":\""@) {
                                match canon_str(s, i3 + ",\"class\":\""@.len()) {
                                    Some((c, i4)) => if i4 + 1 == s.len() && s[i4] == '}' {
                                        Some((t, a, p, c))
                                    } else {
                                        None
                                    },
                                    None => None,
                                }
                            } else {
                                None
                            },
                            None => None,
                        }
                    } else {
                        None
                    },
                    None => None,
                }
            } else {
                None
            },
            None => None,
        }
    } else {
        None
    }
}

/// Appending one character extends the escaped form by that character's
/// escape.
proof fn lemma_escape_snoc(t: Seq<char>, c: char)
    ensures
        escape_seq(t.push(c)) == escape_seq(t) + esc_char(c),
    decreases t.len(),
{
    if t.len() == 0 {
        assert(t.push(c)[0] == c);
        assert(t.push(c).drop_first() =~= t);
        assert(escape_seq(t.push(c)) == esc_char(c) + escape_seq(t));
        assert(escape_seq(t.push(c)) =~= escape_seq(t) + esc_char(c));
    } else {
        assert(t.push(c).drop_first() =~= t.drop_first().push(c));
        lemma_escape_snoc(t.drop_first(), c);
        assert(t.push(c)[0] == t[0]);
        assert(escape_seq(t) == esc_char(t[0]) + escape_seq(t.drop_first()));
        assert(escape_seq(t.push(c)) == esc_char(t[0]) + escape_seq(t.drop_first().push(c)));
        assert(esc_char(t[0]) + (escape_seq(t.drop_first()) + esc_char(c)) =~= (esc_char(t[0])
            + escape_seq(t.drop_first())) + esc_char(c));
        assert(escape_seq(t.push(c)) =~= escape_seq(t) + esc_char(c));
    }
}

/// The hexadecimal digit characters decode back to their values.
proof fn lemma_hex_digit_val(k: int)
    requires
        0 <= k < 16,
    ensures
        is_hex_lower(hex_digit(k)),
        hex_val(hex_digit(k)) == k,
{
}

/// A control character comes back from its code point.
proof fn lemma_ctrl_round(c: char, x: int)
    requires
        x == c as u32,
        x < 32,
    ensures
        ((x as u8) as char) == c,
{
}

/// A canonically escaped string body, followed by its closing quote,
/// decodes back to the original string.
#[verifier::rlimit(60)]
proof fn lemma_canon_escaped(s: Seq<char>, i: int, t: Seq<char>)
    requires
        0 <= i,
        i + escape_seq(t).len() + 1 <= s.len(),
        s.subrange(i, i + escape_seq(t).len() + 1) == escape_seq(t) + seq!['"'],
    ensures
        canon_str(s, i) == Some((t, i + escape_seq(t).len() + 1)),
    decreases t.len(),
{
    let e_all = escape_seq(t);
    assert forall|m: int| i <= m < i + e_all.len() + 1 implies #[trigger] s[m] == (e_all
        + seq!['"'])[m - i] by {
        assert(s.subrange(i, i + e_all.len() + 1)[m - i] == s[m]);
    }
    if t.len() == 0 {
        assert(s[i] == '"');
        assert(t =~= Seq::<char>::empty());
    } else {
        let c = t[0];
        let t1 = t.drop_first();
        let e = esc_char(c);
        let e1 = escape_seq(t1);
        assert(e_all == e + e1);
        assert(e_all + seq!['"'] =~= e + (e1 + seq!['"']));
        let k: int = e.len() as int;
        assert(e_all.len() == k + e1.len());
        assert(s.subrange(i + k, i + k + e1.len() + 1) =~= e1 + seq!['"']) by {
            assert forall|m: int| 0 <= m < e1.len() + 1 implies #[trigger] s.subrange(
                i + k,
                i + k + e1.len() + 1,
            )[m] == (e1 + seq!['"'])[m] by {
                assert(s.subrange(i + k, i + k + e1.len() + 1)[m] == s[i + k + m]);
                assert(s[i + k + m] == (e_all + seq!['"'])[i + k + m - i]);
                assert((e_all + seq!['"'])[k + m] == (e + (e1 + seq!['"']))[k + m]);
            }
        }
        lemma_canon_escaped(s, i + k, t1);
        if c == '"' || c == '\\' {
            assert(s[i] == '\\' && s[i + 1] == c);
            assert(canon_str(s, i) == Some((seq![c] + t1, i + k + e1.len() + 1)));
            assert(seq![c] + t1 =~= t);
        } else if (c as u32) < 0x20 {
            let n = c as u32 as int;
            assert(s[i] == '\\' && s[i + 1] == 'u' && s[i + 2] == '0' && s[i + 3] == '0');
            assert(s[i + 4] == hex_digit(n / 16) && s[i + 5] == hex_digit(n % 16));
            lemma_hex_digit_val(n / 16);
            lemma_hex_digit_val(n % 16);
            assert(hex_val(s[i + 4]) * 16 + hex_val(s[i + 5]) == n);
            lemma_ctrl_round(c, n);
            assert((((hex_val(s[i + 4]) * 16 + hex_val(s[i + 5])) as u8) as char) == c);
            assert(canon_str(s, i) == Some((seq![c] + t1, i + k + e1.len() + 1)));
            assert(seq![c] + t1 =~= t);
        } else {
            assert(s[i] == c);
            assert(canon_str(s, i) == Some((seq![c] + t1, i + k + e1.len() + 1)));
            assert(seq![c] + t1 =~= t);
        }
    }
}

/// Decoding reads back exactly what encoding wrote: the serialized record
/// of any four fields decodes to those same four fields.
#[verifier::rlimit(100)]
pub proof fn lemma_record_round_trip(t: Seq<char>, a: Seq<char>, p: Seq<char>, c: Seq<char>)
    ensures
        payload_fields(record_json(t, a, p, c)) == Some((t, a, p, c)),
{
    let s = record_json(t, a, p, c);
    let l1 = "{\"text\":\""@;
    let l2 = ",\"alt\":\""@;
    let l3 = ",\"tooltip\":\""@;
    let l4 = ",\"class\":\""@;
    let et = escape_seq(t);
    let ea = escape_seq(a);
    let ep = escape_seq(p);
    let ec = escape_seq(c);
    let i1: int = l1.len() + et.len() + 1 as int;
    let i2: int = i1 + l2.len() + ea.len() + 1;
    let i3: int = i2 + l3.len() + ep.len() + 1;
    let i4: int = i3 + l4.len() + ec.len() + 1;
    assert(s.len() == i4 + 1);
    assert(s.subrange(0, l1.len() as int) =~= l1);
    assert(s.subrange(l1.len() as int, l1.len() + et.len() + 1 as int) =~= et + seq!['"']);
    lemma_canon_escaped(s, l1.len() as int, t);
    assert(s.subrange(i1, i1 + l2.len() as int) =~= l2);
    assert(s.subrange(i1 + l2.len() as int, i1 + l2.len() + ea.len() + 1 as int) =~= ea + seq!['"']);
    lemma_canon_escaped(s, i1 + l2.len() as int, a);
    assert(s.subrange(i2, i2 + l3.len() as int) =~= l3);
    assert(s.subrange(i2 + l3.len() as int, i2 + l3.len() + ep.len() + 1 as int) =~= ep + seq!['"']);
    lemma_canon_escaped(s, i2 + l3.len() as int, p);
    assert(s.subrange(i3, i3 + l4.len() as int) =~= l4);
    assert(s.subrange(i3 + l4.len() as int, i3 + l4.len() + ec.len() + 1 as int) =~= ec + seq!['"']);
    lemma_canon_escaped(s, i3 + l4.len() as int, c);
    assert(s[i4] == '}');
}

fn hex_digit_x(k: u32) -> (r: char)
    requires
        k < 16,
    ensures
        r == hex_digit(k as int),
{
    if k == 0 {
        '0'
    } else if k == 1 {
        '1'
    } else if k == 2 {
        '2'
    } else if k == 3 {
        '3'
    } else if k == 4 {
        '4'
    } else if k == 5 {
        '5'
    } else if k == 6 {
        '6'
    } else if k == 7 {
        '7'
    } else if k == 8 {
        '8'
    } else if k == 9 {
        '9'
    } else if k == 10 {
        'a'
    } else if k == 11 {
        'b'
    } else if k == 12 {
        'c'
    } else if k == 13 {
        'd'
    } else if k == 14 {
        'e'
    } else {
        'f'
    }
}

fn escape_chars(v: &Vec<char>) -> (r: Vec<char>)
    ensures
        r@ == escape_seq(v@),
{
    let mut r: Vec<char> = Vec::new();
    let mut i: usize = 0;
    while i < v.len()
        invariant
            i <= v@.len(),
            r@ == escape_seq(v@.subrange(0, i as int)),
        decreases v@.len() - i,
    {
        let c = v[i];
        if c == '"' {
            r.push('\\');
            r.push('"');
        } else if c == '\\' {
            r.push('\\');
            r.push('\\');
        } else if (c as u32) < 0x20 {
            r.push('\\');
            r.push('u');
            r.push('0');
            r.push('0');
            r.push(hex_digit_x((c as u32) / 16));
            r.push(hex_digit_x((c as u32) % 16));
        } else {
            r.push(c);
        }
        proof {
            lemma_escape_snoc(v@.subrange(0, i as int), c);
            assert(v@.subrange(0, i as int).push(c) =~= v@.subrange(0, i as int + 1));
            assert(r@ =~= escape_seq(v@.subrange(0, i as int)) + esc_char(c));
        }
        i = i + 1;
    }
    proof {
        assert(v@.subrange(0, v@.len() as int) =~= v@);
    }
    r
}

impl WaybarPayload {
    /// Serializes the record to its single-line JSON form, exactly as
    /// `record_json` states it.
    pub fn encode(&self) -> (r: String)
        ensures
            r@ == record_json(self.text@, self.alt@, self.tooltip@, self.class@),
    {
        let mut out: Vec<char> = chars_of("{\"text\":\"");
        let mut e1 = escape_chars(&chars_of(self.text.as_str()));
        out.append(&mut e1);
        out.push('"');
        let ghost g1 = out@;
        proof {
            assert(g1 =~= "{\"text\":\""@ + escape_seq(self.text@) + seq!['"']);
        }
        let mut l2 = chars_of(",\"alt\":\"");
        out.append(&mut l2);
        let mut e2 = escape_chars(&chars_of(self.alt.as_str()));
        out.append(&mut e2);
        out.push('"');
        let ghost g2 = out@;
        proof {
            assert(g2 =~= g1 + ",\"alt\":\""@ + escape_seq(self.alt@) + seq!['"']);
        }
        let mut l3 = chars_of(",\"tooltip\":\"");
        out.append(&mut l3);
        let mut e3 = escape_chars(&chars_of(self.tooltip.as_str()));
        out.append(&mut e3);
        out.push('"');
        let ghost g3 = out@;
        proof {
            assert(g3 =~= g2 + ",\"tooltip\":\""@ + escape_seq(self.tooltip@) + seq!['"']);
        }
        let mut l4 = chars_of(",\"class\":\"");
        out.append(&mut l4);
        let mut e4 = escape_chars(&chars_of(self.class.as_str()));
        out.append(&mut e4);
        out.push('"');
        out.push('}');
        proof {
            assert(out@ =~= g3 + ",\"class\":\""@ + escape_seq(self.class@) + seq!['"', '}']);
            assert(out@ =~= record_json(self.text@, self.alt@, self.tooltip@, self.class@));
        }
        string_of(&out)
    }
}

fn lit_at_x(s: &Vec<char>, i: usize, l: &Vec<char>) -> (r: bool)
    requires
        i <= s@.len(),
    ensures
        r == lit_at(s@, i as int, l@),
{
    if s.len() - i < l.len() {
        return false;
    }
    let mut k: usize = 0;
    while k < l.len()
        invariant
            i + l@.len() <= s@.len(),
            k <= l@.len(),
            forall|m: int| 0 <= m < k ==> s@[i + m] == l@[m],
        decreases l@.len() - k,
    {
        // Binding the length here keeps the index bound available to the
        // isolated loop body.
        let n = s.len();
        proof {
            assert(i + k < n);
        }
        if s[i + k] != l[k] {
            proof {
                assert(s@.subrange(i as int, i + l@.len())[k as int] == s@[i + k]);
            }
            return false;
        }
        k = k + 1;
    }
    proof {
        assert(s@.subrange(i as int, i + l@.len()) =~= l@);
    }
    true
}

fn canon_str_x(s: &Vec<char>, i: usize) -> (r: Option<(Vec<char>, usize)>)
    requires
        i <= s@.len(),
    ensures
        match r {
            Some((t, j)) => canon_str(s@, i as int) == Some((t@, j as int)) && i < j <= s@.len(),
            None => canon_str(s@, i as int) is None,
        },
    decreases s@.len() - i,
{
    if i >= s.len() {
        None
    } else if s[i] == '"' {
        Some((Vec::new(), i + 1))
    } else if s[i] == '\\' {
        if i + 1 < s.len() && (s[i + 1] == '"' || s[i + 1] == '\\') {
            let c = s[i + 1];
            match canon_str_x(s, i + 2) {
                Some((t, j)) => {
                    let mut t = t;
                    t.insert(0, c);
                    proof {
                        assert(t@ =~= seq![s@[i as int + 1]] + t@.subrange(1, t@.len() as int));
                    }
                    Some((t, j))
                },
                None => None,
            }
        } else if s.len() - i > 5 && s[i + 1] == 'u' && s[i + 2] == '0' && s[i + 3] == '0' && {
            let c4 = s[i + 4];
            let c5 = s[i + 5];
            (('0' <= c4 && c4 <= '9') || ('a' <= c4 && c4 <= 'f')) && (('0' <= c5 && c5 <= '9') || (
            'a' <= c5 && c5 <= 'f'))
        } {
            let h4: u32 = if '0' <= s[i + 4] && s[i + 4] <= '9' {
                s[i + 4] as u32 - '0' as u32
            } else {
                s[i + 4] as u32 - 'a' as u32 + 10
            };
            let h5: u32 = if '0' <= s[i + 5] && s[i + 5] <= '9' {
                s[i + 5] as u32 - '0' as u32
            } else {
                s[i + 5] as u32 - 'a' as u32 + 10
            };
            let n: u32 = h4 * 16 + h5;
            if n < 0x20 {
                let c: char = (n as u8) as char;
                match canon_str_x(s, i + 6) {
                    Some((t, j)) => {
                        let mut t = t;
                        t.insert(0, c);
                        proof {
                            assert(h4 as int == hex_val(s@[i as int + 4]));
                            assert(h5 as int == hex_val(s@[i as int + 5]));
                            assert(t@ =~= seq![
                                (((hex_val(s@[i as int + 4]) * 16 + hex_val(s@[i as int + 5]))
                                    as u8) as char),
                            ] + t@.subrange(1, t@.len() as int));
                        }
                        Some((t, j))
                    },
                    None => None,
                }
            } else {
                None
            }
        } else {
            None
        }
    } else if (s[i] as u32) >= 0x20 {
        let c = s[i];
        match canon_str_x(s, i + 1) {
            Some((t, j)) => {
                let mut t = t;
                t.insert(0, c);
                proof {
                    assert(t@ =~= seq![s@[i as int]] + t@.subrange(1, t@.len() as int));
                }
                Some((t, j))
            },
            None => None,
        }
    } else {
        None
    }
}

/// Reads a serialized record back, accepting exactly the canonical form
/// that `encode` produces, as `payload_fields` states.
pub fn decode_status(s: &str) -> (r: Option<WaybarPayload>)
    ensures
        match r {
            Some(pl) => payload_fields(s@) == Some((pl.text@, pl.alt@, pl.tooltip@, pl.class@)),
            None => payload_fields(s@) is None,
        },
{
    let v = chars_of(s);
    // Binding the length keeps the position sums below it in bounds.
    let n = v.len();
    let l1 = chars_of("{\"text\":\"");
    if !lit_at_x(&v, 0, &l1) {
        return None;
    }
    let (t, i1) = match canon_str_x(&v, l1.len()) {
        Some(x) => x,
        None => {
            return None;
        },
    };
    let l2 = chars_of(",\"alt\":\"");
    if !lit_at_x(&v, i1, &l2) {
        return None;
    }
    let (a, i2) = match canon_str_x(&v, i1 + l2.len()) {
        Some(x) => x,
        None => {
            return None;
        },
    };
    let l3 = chars_of(",\"tooltip\":\"");
    if !lit_at_x(&v, i2, &l3) {
        return None;
    }
    let (p, i3) = match canon_str_x(&v, i2 + l3.len()) {
        Some(x) => x,
        None => {
            return None;
        },
    };
    let l4 = chars_of(",\"class\":\"");
    if !lit_at_x(&v, i3, &l4) {
        return None;
    }
    let (c, i4) = match canon_str_x(&v, i3 + l4.len()) {
        Some(x) => x,
        None => {
            return None;
        },
    };
    if i4 < v.len() && v.len() - i4 == 1 && v[i4] == '}' {
        Some(
            WaybarPayload {
                text: string_of(&t),
                class: string_of(&c),
                alt: string_of(&a),
                tooltip: string_of(&p),
            },
        )
    } else {
        None
    }
}

} // verus!
