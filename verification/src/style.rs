//! Textual pattern notations: parsing and rendering.
//!
//! Three notations compile to the same token sequence:
//! - marked-wildcard hex (`"11 ? 33"`): hex byte pairs, `?` is one wildcard;
//! - double-mark hex (`"11 ?? 33"`): the wildcard token is `??`;
//! - byte array plus mask (`b"\x11\x00\x33"` with `"x?x"`): the mask takes a
//!   byte exactly (`x`) or ignores it (`?`).
//!
//! The parsing and rendering functions here are shared by the fixed-length
//! and the variable-length pattern types.

use vstd::prelude::*;

use crate::pattern::{hex_val, is_hex_digit, single, ByteMatch};

verus! {

/// The uppercase hexadecimal digit for a value below sixteen.
pub open spec fn hex_char(v: int) -> char {
    if v == 0 {
        '0'
    } else if v == 1 {
        '1'
    } else if v == 2 {
        '2'
    } else if v == 3 {
        '3'
    } else if v == 4 {
        '4'
    } else if v == 5 {
        '5'
    } else if v == 6 {
        '6'
    } else if v == 7 {
        '7'
    } else if v == 8 {
        '8'
    } else if v == 9 {
        '9'
    } else if v == 10 {
        'A'
    } else if v == 11 {
        'B'
    } else if v == 12 {
        'C'
    } else if v == 13 {
        'D'
    } else if v == 14 {
        'E'
    } else {
        'F'
    }
}

/// Rendering is inverted by digit parsing, and never yields a separator or a
/// wildcard mark.
pub proof fn lemma_hex_char(v: int)
    requires
        0 <= v < 16,
    ensures
        is_hex_digit(hex_char(v)),
        hex_val(hex_char(v)) == v,
        hex_char(v) != ' ',
        hex_char(v) != '?',
{
}

/// The text a single token renders to, in either hex notation.
pub open spec fn render_tok(t: ByteMatch, peid: bool) -> Seq<char> {
    match t {
        ByteMatch::Exact(b) => seq![hex_char(b as int / 16), hex_char(b as int % 16)],
        ByteMatch::Any => if peid {
            seq!['?', '?']
        } else {
            seq!['?']
        },
    }
}

/// The text a token sequence renders to: tokens joined by single spaces.
pub open spec fn render_style(toks: Seq<ByteMatch>, peid: bool) -> Seq<char>
    decreases toks.len(),
{
    if toks.len() == 0 {
        Seq::empty()
    } else if toks.len() == 1 {
        render_tok(toks[0], peid)
    } else {
        render_tok(toks[0], peid) + seq![' '] + render_style(toks.skip(1), peid)
    }
}

/// Parses hex-notation text into tokens: separator spaces are skipped, a
/// wildcard mark (`?`, or `??` when `peid` is set) or a hex byte pair emits
/// one token and must be followed by a space or the end of the text.
/// Any other shape is malformed and parses to `None`.
pub open spec fn parse_style(s: Seq<char>, peid: bool) -> Option<Seq<ByteMatch>>
    decreases s.len(),
{
    if s.len() == 0 {
        Some(Seq::empty())
    } else if s[0] == ' ' {
        parse_style(s.skip(1), peid)
    } else if s[0] == '?' && !peid {
        if s.len() == 1 {
            Some(seq![ByteMatch::Any])
        } else if s[1] == ' ' {
            match parse_style(s.skip(2), peid) {
                Some(r) => Some(seq![ByteMatch::Any] + r),
                None => None,
            }
        } else {
            None
        }
    } else if s[0] == '?' && peid {
        if s.len() >= 2 && s[1] == '?' {
            if s.len() == 2 {
                Some(seq![ByteMatch::Any])
            } else if s[2] == ' ' {
                match parse_style(s.skip(3), peid) {
                    Some(r) => Some(seq![ByteMatch::Any] + r),
                    None => None,
                }
            } else {
                None
            }
        } else {
            None
        }
    } else if is_hex_digit(s[0]) {
        if s.len() >= 2 && is_hex_digit(s[1]) {
            let b = (16 * hex_val(s[0]) + hex_val(s[1])) as u8;
            if s.len() == 2 {
                Some(seq![ByteMatch::Exact(b)])
            } else if s[2] == ' ' {
                match parse_style(s.skip(3), peid) {
                    Some(r) => Some(seq![ByteMatch::Exact(b)] + r),
                    None => None,
                }
            } else {
                None
            }
        } else {
            None
        }
    } else {
        None
    }
}

/// Prepends already-parsed tokens to the outcome of parsing the remaining
/// text.
pub open spec fn opt_cons(pre: Seq<ByteMatch>, rest: Option<Seq<ByteMatch>>) -> Option<
    Seq<ByteMatch>,
> {
    match rest {
        Some(r) => Some(pre + r),
        None => None,
    }
}

proof fn lemma_opt_cons_assoc(a: Seq<ByteMatch>, b: Seq<ByteMatch>, r: Option<Seq<ByteMatch>>)
    ensures
        opt_cons(a, opt_cons(b, r)) == opt_cons(a + b, r),
{
    match r {
        Some(t) => {
            assert(a + (b + t) =~= (a + b) + t);
        },
        None => {},
    }
}

/// The one-character string holding the uppercase hex digit for `v`.
fn digit_str(v: u8) -> (r: &'static str)
    requires
        v < 16,
    ensures
        r@ =~= seq![hex_char(v as int)],
{
    proof {
        reveal_strlit("0");
        reveal_strlit("1");
        reveal_strlit("2");
        reveal_strlit("3");
        reveal_strlit("4");
        reveal_strlit("5");
        reveal_strlit("6");
        reveal_strlit("7");
        reveal_strlit("8");
        reveal_strlit("9");
        reveal_strlit("A");
        reveal_strlit("B");
        reveal_strlit("C");
        reveal_strlit("D");
        reveal_strlit("E");
        reveal_strlit("F");
    }
    match v {
        0 => "0",
        1 => "1",
        2 => "2",
        3 => "3",
        4 => "4",
        5 => "5",
        6 => "6",
        7 => "7",
        8 => "8",
        9 => "9",
        10 => "A",
        11 => "B",
        12 => "C",
        13 => "D",
        14 => "E",
        _ => "F",
    }
}

/// Decides whether a character is a hexadecimal digit of either case.
fn is_hex_exec(c: char) -> (r: bool)
    ensures
        r == is_hex_digit(c),
{
    ('0' <= c && c <= '9') || ('a' <= c && c <= 'f') || ('A' <= c && c <= 'F')
}

/// Parses hex-notation text into a token vector; `None` exactly when the
/// text is malformed for the chosen notation.
pub fn parse_tokens(s: &str, peid: bool) -> (r: Option<Vec<ByteMatch>>)
    ensures
        match r {
            Some(v) => parse_style(s@, peid) == Some(v@),
            None => parse_style(s@, peid) is None,
        },
{
    let n = s.unicode_len();
    let mut i: usize = 0;
    let mut out: Vec<ByteMatch> = Vec::new();
    proof {
        assert(s@.skip(0) =~= s@);
        match parse_style(s@, peid) {
            Some(t) => {
                assert(Seq::<ByteMatch>::empty() + t =~= t);
            },
            None => {},
        }
    }
    while i < n
        invariant
            n == s@.len(),
            i <= n,
            parse_style(s@, peid) == opt_cons(out@, parse_style(s@.skip(i as int), peid)),
        decreases n - i,
    {
        let ghost rem = s@.skip(i as int);
        proof {
            assert(rem.len() == n - i);
            assert(rem[0] == s@[i as int]);
        }
        let c0 = s.get_char(i);
        if c0 == ' ' {
            proof {
                assert(rem.skip(1) =~= s@.skip(i + 1));
            }
            i = i + 1;
        } else if c0 == '?' && !peid {
            if i + 1 == n {
                proof {
                    assert(parse_style(rem, peid) == Some(seq![ByteMatch::Any]));
                    lemma_opt_cons_assoc(out@, seq![ByteMatch::Any], Some(Seq::empty()));
                    assert(seq![ByteMatch::Any] + Seq::<ByteMatch>::empty() =~= seq![
                        ByteMatch::Any,
                    ]);
                    assert(s@.skip(n as int) =~= Seq::<char>::empty());
                }
                out.push(ByteMatch::Any);
                i = n;
            } else {
                proof {
                    assert(rem[1] == s@[i + 1]);
                }
                let c1 = s.get_char(i + 1);
                if c1 == ' ' {
                    proof {
                        assert(rem.skip(2) =~= s@.skip(i + 2));
                        assert(parse_style(rem, peid) == opt_cons(
                            seq![ByteMatch::Any],
                            parse_style(s@.skip(i + 2), peid),
                        ));
                        lemma_opt_cons_assoc(
                            out@,
                            seq![ByteMatch::Any],
                            parse_style(s@.skip(i + 2), peid),
                        );
                        assert(out@ + seq![ByteMatch::Any] =~= out@.push(ByteMatch::Any));
                    }
                    out.push(ByteMatch::Any);
                    i = i + 2;
                } else {
                    proof {
                        assert(parse_style(rem, peid) is None);
                    }
                    return None;
                }
            }
        } else if c0 == '?' && peid {
            if i + 1 == n {
                proof {
                    assert(parse_style(rem, peid) is None);
                }
                return None;
            }
            proof {
                assert(rem[1] == s@[i + 1]);
            }
            let c1 = s.get_char(i + 1);
            if c1 != '?' {
                proof {
                    assert(parse_style(rem, peid) is None);
                }
                return None;
            }
            if i + 2 == n {
                proof {
                    assert(parse_style(rem, peid) == Some(seq![ByteMatch::Any]));
                    lemma_opt_cons_assoc(out@, seq![ByteMatch::Any], Some(Seq::empty()));
                    assert(seq![ByteMatch::Any] + Seq::<ByteMatch>::empty() =~= seq![
                        ByteMatch::Any,
                    ]);
                    assert(s@.skip(n as int) =~= Seq::<char>::empty());
                }
                out.push(ByteMatch::Any);
                i = n;
            } else {
                proof {
                    assert(rem[2] == s@[i + 2]);
                }
                let c2 = s.get_char(i + 2);
                if c2 == ' ' {
                    proof {
                        assert(rem.skip(3) =~= s@.skip(i + 3));
                        assert(parse_style(rem, peid) == opt_cons(
                            seq![ByteMatch::Any],
                            parse_style(s@.skip(i + 3), peid),
                        ));
                        lemma_opt_cons_assoc(
                            out@,
                            seq![ByteMatch::Any],
                            parse_style(s@.skip(i + 3), peid),
                        );
                        assert(out@ + seq![ByteMatch::Any] =~= out@.push(ByteMatch::Any));
                    }
                    out.push(ByteMatch::Any);
                    i = i + 3;
                } else {
                    proof {
                        assert(parse_style(rem, peid) is None);
                    }
                    return None;
                }
            }
        } else if is_hex_exec(c0) {
            if i + 1 == n {
                proof {
                    assert(parse_style(rem, peid) is None);
                }
                return None;
            }
            proof {
                assert(rem[1] == s@[i + 1]);
            }
            let c1 = s.get_char(i + 1);
            if !is_hex_exec(c1) {
                proof {
                    assert(parse_style(rem, peid) is None);
                }
                return None;
            }
            let b: u8 = 16 * single(c0) + single(c1);
            let ghost tok = ByteMatch::Exact(b);
            if i + 2 == n {
                proof {
                    assert(parse_style(rem, peid) == Some(seq![tok]));
                    lemma_opt_cons_assoc(out@, seq![tok], Some(Seq::empty()));
                    assert(seq![tok] + Seq::<ByteMatch>::empty() =~= seq![tok]);
                    assert(s@.skip(n as int) =~= Seq::<char>::empty());
                }
                out.push(ByteMatch::Exact(b));
                i = n;
            } else {
                proof {
                    assert(rem[2] == s@[i + 2]);
                }
                let c2 = s.get_char(i + 2);
                if c2 == ' ' {
                    proof {
                        assert(rem.skip(3) =~= s@.skip(i + 3));
                        assert(parse_style(rem, peid) == opt_cons(
                            seq![tok],
                            parse_style(s@.skip(i + 3), peid),
                        ));
                        lemma_opt_cons_assoc(out@, seq![tok], parse_style(s@.skip(i + 3), peid));
                        assert(out@ + seq![tok] =~= out@.push(tok));
                    }
                    out.push(ByteMatch::Exact(b));
                    i = i + 3;
                } else {
                    proof {
                        assert(parse_style(rem, peid) is None);
                    }
                    return None;
                }
            }
        } else {
            proof {
                assert(parse_style(rem, peid) is None);
            }
            return None;
        }
    }
    proof {
        assert(s@.skip(n as int) =~= Seq::<char>::empty());
        assert(parse_style(s@, peid) == Some(out@ + Seq::<ByteMatch>::empty()));
        assert(out@ + Seq::<ByteMatch>::empty() =~= out@);
    }
    Some(out)
}

/// Compiles the byte-array-plus-mask notation: the mask must have the same
/// length as the byte sequence and hold only `x` (take the byte exactly) or
/// `?` (wildcard); anything else is malformed and parses to `None`.
pub open spec fn parse_code(bytes: Seq<u8>, mask: Seq<char>) -> Option<Seq<ByteMatch>> {
    if bytes.len() == mask.len() && (forall|i: int|
        0 <= i < mask.len() ==> mask[i] == 'x' || mask[i] == '?') {
        Some(
            Seq::new(
                mask.len(),
                |i: int|
                    if mask[i] == 'x' {
                        ByteMatch::Exact(bytes[i])
                    } else {
                        ByteMatch::Any
                    },
            ),
        )
    } else {
        None
    }
}

/// The text a single token renders to in the escaped byte-string half of the
/// code-style notation.
pub open spec fn render_code_tok(t: ByteMatch) -> Seq<char> {
    match t {
        ByteMatch::Exact(b) => seq!['\\', 'x', hex_char(b as int / 16), hex_char(b as int % 16)],
        ByteMatch::Any => seq!['?'],
    }
}

/// The escaped byte-string half of the code-style rendering.
pub open spec fn render_code_bytes(toks: Seq<ByteMatch>) -> Seq<char>
    decreases toks.len(),
{
    if toks.len() == 0 {
        Seq::empty()
    } else {
        render_code_tok(toks[0]) + render_code_bytes(toks.skip(1))
    }
}

/// The mask half of the code-style rendering: `x` for an exact byte, `?` for
/// a wildcard.
pub open spec fn render_code_mask(toks: Seq<ByteMatch>) -> Seq<char> {
    Seq::new(
        toks.len(),
        |i: int|
            match toks[i] {
                ByteMatch::Exact(_) => 'x',
                ByteMatch::Any => '?',
            },
    )
}

/// Compiles byte-array-plus-mask notation into a token vector; `None`
/// exactly when the notation is malformed.
pub fn parse_code_tokens(bytes: &[u8], mask: &str) -> (r: Option<Vec<ByteMatch>>)
    ensures
        match r {
            Some(v) => parse_code(bytes@, mask@) == Some(v@),
            None => parse_code(bytes@, mask@) is None,
        },
{
    let n = mask.unicode_len();
    if bytes.len() != n {
        return None;
    }
    let mut out: Vec<ByteMatch> = Vec::new();
    let mut i: usize = 0;
    while i < n
        invariant
            n == mask@.len() == bytes@.len(),
            i <= n,
            out@.len() == i,
            forall|j: int| 0 <= j < i ==> mask@[j] == 'x' || mask@[j] == '?',
            forall|j: int|
                0 <= j < i ==> out@[j] == (if mask@[j] == 'x' {
                    ByteMatch::Exact(bytes@[j])
                } else {
                    ByteMatch::Any
                }),
        decreases n - i,
    {
        let c = mask.get_char(i);
        if c == 'x' {
            out.push(ByteMatch::Exact(bytes[i]));
        } else if c == '?' {
            out.push(ByteMatch::Any);
        } else {
            assert(parse_code(bytes@, mask@) is None);
            return None;
        }
        i = i + 1;
    }
    proof {
        let expect = parse_code(bytes@, mask@);
        assert(expect matches Some(t) && t =~= out@);
    }
    Some(out)
}

/// Joining one more token onto the escaped byte-string rendering.
proof fn lemma_code_snoc(s: Seq<ByteMatch>, t: ByteMatch)
    ensures
        render_code_bytes(s.push(t)) == render_code_bytes(s) + render_code_tok(t),
    decreases s.len(),
{
    if s.len() == 0 {
        assert(s.push(t)[0] == t);
        assert(s.push(t).skip(1) =~= Seq::<ByteMatch>::empty());
        assert(render_code_bytes(s.push(t)) == render_code_tok(t) + render_code_bytes(
            Seq::<ByteMatch>::empty(),
        ));
        assert(render_code_tok(t) + Seq::<char>::empty() =~= render_code_tok(t));
        assert(Seq::<char>::empty() + render_code_tok(t) =~= render_code_tok(t));
    } else {
        assert(s.push(t).skip(1) =~= s.skip(1).push(t));
        lemma_code_snoc(s.skip(1), t);
        assert(s.push(t)[0] == s[0]);
        assert(render_code_tok(s[0]) + (render_code_bytes(s.skip(1)) + render_code_tok(t)) =~= (
        render_code_tok(s[0]) + render_code_bytes(s.skip(1))) + render_code_tok(t));
    }
}

/// Renders a token vector in code-style notation, returning the escaped byte
/// string and the mask string.
pub fn render_code_tokens(toks: &Vec<ByteMatch>) -> (r: (String, String))
    ensures
        r.0@ == render_code_bytes(toks@),
        r.1@ == render_code_mask(toks@),
{
    let mut pat = String::new();
    let mut mask = String::new();
    let mut i: usize = 0;
    while i < toks.len()
        invariant
            i <= toks@.len(),
            pat@ == render_code_bytes(toks@.take(i as int)),
            mask@ == render_code_mask(toks@.take(i as int)),
        decreases toks@.len() - i,
    {
        match toks[i] {
            ByteMatch::Exact(b) => {
                proof {
                    reveal_strlit("\\x");
                    reveal_strlit("x");
                }
                pat.append("\\x");
                pat.append(digit_str(b / 16));
                pat.append(digit_str(b % 16));
                mask.append("x");
            },
            ByteMatch::Any => {
                proof {
                    reveal_strlit("?");
                }
                pat.append("?");
                mask.append("?");
            },
        }
        proof {
            lemma_code_snoc(toks@.take(i as int), toks@[i as int]);
            assert(toks@.take(i + 1) =~= toks@.take(i as int).push(toks@[i as int]));
            assert(pat@ =~= render_code_bytes(toks@.take(i as int)) + render_code_tok(
                toks@[i as int],
            ));
            assert(mask@ =~= render_code_mask(toks@.take(i + 1)));
        }
        i = i + 1;
    }
    proof {
        assert(toks@.take(toks@.len() as int) =~= toks@);
    }
    (pat, mask)
}

/// Round trip: compiling rendered text reproduces the token sequence, in
/// both the marked-wildcard and the double-mark notation.
pub proof fn lemma_round_trip(toks: Seq<ByteMatch>, peid: bool)
    ensures
        parse_style(render_style(toks, peid), peid) == Some(toks),
    decreases toks.len(),
{
    if toks.len() == 0 {
    } else if toks.len() == 1 {
        let t0 = toks[0];
        let s = render_style(toks, peid);
        assert(s == render_tok(t0, peid));
        match t0 {
            ByteMatch::Exact(b) => {
                lemma_hex_char(b as int / 16);
                lemma_hex_char(b as int % 16);
                assert(s[0] == hex_char(b as int / 16));
                assert(s[1] == hex_char(b as int % 16));
                assert(b as int == 16 * (b as int / 16) + (b as int % 16));
                assert(parse_style(s, peid) == Some(seq![ByteMatch::Exact(b)]));
                assert(seq![t0] =~= toks);
            },
            ByteMatch::Any => {
                if peid {
                    assert(s[0] == '?');
                    assert(s[1] == '?');
                    assert(parse_style(s, peid) == Some(seq![ByteMatch::Any]));
                } else {
                    assert(s[0] == '?');
                    assert(parse_style(s, peid) == Some(seq![ByteMatch::Any]));
                }
                assert(seq![t0] =~= toks);
            },
        }
    } else {
        let t0 = toks[0];
        lemma_round_trip(toks.skip(1), peid);
        let rest = render_style(toks.skip(1), peid);
        let s = render_style(toks, peid);
        assert(s == render_tok(t0, peid) + seq![' '] + rest);
        match t0 {
            ByteMatch::Exact(b) => {
                lemma_hex_char(b as int / 16);
                lemma_hex_char(b as int % 16);
                assert(s.len() == 3 + rest.len());
                assert(s[0] == hex_char(b as int / 16));
                assert(s[1] == hex_char(b as int % 16));
                assert(s[2] == ' ');
                assert(s.skip(3) =~= rest);
                assert(b as int == 16 * (b as int / 16) + (b as int % 16));
                assert(parse_style(s, peid) == opt_cons(
                    seq![ByteMatch::Exact(b)],
                    parse_style(rest, peid),
                ));
                assert(seq![t0] + toks.skip(1) =~= toks);
            },
            ByteMatch::Any => {
                if peid {
                    assert(s.len() == 3 + rest.len());
                    assert(s[0] == '?');
                    assert(s[1] == '?');
                    assert(s[2] == ' ');
                    assert(s.skip(3) =~= rest);
                    assert(parse_style(s, peid) == opt_cons(
                        seq![ByteMatch::Any],
                        parse_style(rest, peid),
                    ));
                } else {
                    assert(s.len() == 2 + rest.len());
                    assert(s[0] == '?');
                    assert(s[1] == ' ');
                    assert(s.skip(2) =~= rest);
                    assert(parse_style(s, peid) == opt_cons(
                        seq![ByteMatch::Any],
                        parse_style(rest, peid),
                    ));
                }
                assert(seq![t0] + toks.skip(1) =~= toks);
            },
        }
    }
}

/// Counts the tokens a hex-notation literal compiles to: the counting pass
/// that fixed-size storage is allocated from.  Malformed text counts as
/// zero tokens.
pub fn __ida_peid_count(pat: &str, peid: bool) -> (r: usize)
    ensures
        match parse_style(pat@, peid) {
            Some(t) => r == t.len(),
            None => r == 0,
        },
{
    match parse_tokens(pat, peid) {
        Some(v) => v.len(),
        None => 0,
    }
}

/// Appending one token to a rendered sequence appends a separator (except at
/// the front) and the token's own text.
proof fn lemma_render_snoc(s: Seq<ByteMatch>, t: ByteMatch, peid: bool)
    ensures
        render_style(s.push(t), peid) == if s.len() == 0 {
            render_tok(t, peid)
        } else {
            render_style(s, peid) + seq![' '] + render_tok(t, peid)
        },
    decreases s.len(),
{
    if s.len() == 0 {
        assert(s.push(t).len() == 1);
        assert(s.push(t)[0] == t);
    } else {
        assert(s.push(t).skip(1) =~= s.skip(1).push(t));
        lemma_render_snoc(s.skip(1), t, peid);
        assert(s.push(t)[0] == s[0]);
        if s.len() == 1 {
            assert(render_style(s.push(t), peid) == render_tok(s[0], peid) + seq![' ']
                + render_tok(t, peid));
        } else {
            assert(render_tok(s[0], peid) + seq![' '] + (render_style(s.skip(1), peid) + seq![' ']
                + render_tok(t, peid)) =~= (render_tok(s[0], peid) + seq![' '] + render_style(
                s.skip(1),
                peid,
            )) + seq![' '] + render_tok(t, peid));
        }
    }
}

/// Renders a token vector in marked-wildcard (`?`) or double-mark (`??`)
/// hex notation, tokens joined by single spaces.
pub fn render_tokens(toks: &Vec<ByteMatch>, peid: bool) -> (r: String)
    ensures
        r@ == render_style(toks@, peid),
{
    let mut out = String::new();
    let mut i: usize = 0;
    while i < toks.len()
        invariant
            i <= toks@.len(),
            out@ == render_style(toks@.take(i as int), peid),
        decreases toks@.len() - i,
    {
        let ghost out0 = out@;
        if i > 0 {
            proof {
                reveal_strlit(" ");
            }
            out.append(" ");
        }
        match toks[i] {
            ByteMatch::Exact(b) => {
                out.append(digit_str(b / 16));
                out.append(digit_str(b % 16));
            },
            ByteMatch::Any => {
                if peid {
                    proof {
                        reveal_strlit("??");
                    }
                    out.append("??");
                } else {
                    proof {
                        reveal_strlit("?");
                    }
                    out.append("?");
                }
            },
        }
        proof {
            lemma_render_snoc(toks@.take(i as int), toks@[i as int], peid);
            assert(toks@.take(i + 1) =~= toks@.take(i as int).push(toks@[i as int]));
            if i == 0 {
                assert(out@ =~= render_tok(toks@[i as int], peid));
            } else {
                assert(out@ =~= render_style(toks@.take(i as int), peid) + seq![' '] + render_tok(
                    toks@[i as int],
                    peid,
                ));
            }
        }
        i = i + 1;
    }
    proof {
        assert(toks@.take(toks@.len() as int) =~= toks@);
    }
    out
}

} // verus!
