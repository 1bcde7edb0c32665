//! Match tokens, the matcher capability and the fixed-length pattern.

use vstd::prelude::*;

verus! {

/// One unit of a pattern: either one exact byte value or a one-byte wildcard.
#[derive(Debug, Clone, Copy, PartialEq, Eq, Structural)]
pub enum ByteMatch {
    /// Accepts exactly this byte.
    Exact(u8),
    /// Accepts any byte.
    Any,
}

impl ByteMatch {
    /// What `matches` returns: a wildcard accepts every byte, an exact token
    /// only its own.
    pub open spec fn spec_matches(self, byte: u8) -> bool {
        match self {
            ByteMatch::Exact(b) => b == byte,
            ByteMatch::Any => true,
        }
    }

    /// Checks if the token accepts the given byte.
    pub fn matches(self, byte: u8) -> (r: bool)
        ensures
            r == self.spec_matches(byte),
    {
        match self {
            ByteMatch::Exact(b) => b == byte,
            ByteMatch::Any => true,
        }
    }
}

/// A token sequence matches a byte window exactly when the lengths agree and
/// every token accepts the byte at its position.
pub open spec fn toks_match(toks: Seq<ByteMatch>, data: Seq<u8>) -> bool {
    &&& toks.len() == data.len()
    &&& forall|i: int| 0 <= i < toks.len() ==> toks[i].spec_matches(data[i])
}

/// Converts a single hexadecimal digit to its value.
pub open spec fn hex_val(c: char) -> int {
    if '0' <= c && c <= '9' {
        c as int - '0' as int
    } else if 'a' <= c && c <= 'f' {
        10 + (c as int - 'a' as int)
    } else {
        10 + (c as int - 'A' as int)
    }
}

/// Whether a character is a hexadecimal digit of either case.
pub open spec fn is_hex_digit(c: char) -> bool {
    ('0' <= c && c <= '9') || ('a' <= c && c <= 'f') || ('A' <= c && c <= 'F')
}

/// Converts one hexadecimal digit character to its numeric value.
pub fn single(c: char) -> (r: u8)
    requires
        is_hex_digit(c),
    ensures
        r == hex_val(c),
        r < 16,
{
    if 'a' <= c && c <= 'f' {
        10 + (c as u8 - ('a' as u8))
    } else if 'A' <= c && c <= 'F' {
        10 + (c as u8 - ('A' as u8))
    } else {
        c as u8 - ('0' as u8)
    }
}

/// Checks a token slice against a byte window: true exactly when the lengths
/// agree and every token accepts its byte.
pub(crate) fn toks_match_exec(toks: &[ByteMatch], data: &[u8]) -> (r: bool)
    ensures
        r == toks_match(toks@, data@),
{
    if toks.len() != data.len() {
        return false;
    }
    let n = toks.len();
    let mut i: usize = 0;
    while i < n
        invariant
            n == toks@.len() == data@.len(),
            i <= n,
            forall|j: int| 0 <= j < i ==> toks@[j].spec_matches(data@[j]),
        decreases n - i,
    {
        if !toks[i].matches(data[i]) {
            return false;
        }
        i = i + 1;
    }
    true
}

/// The all-exact token sequence of a byte sequence: one exact token per
/// byte, no wildcard.
pub open spec fn exact_toks(bytes: Seq<u8>) -> Seq<ByteMatch> {
    bytes.map_values(|b: u8| ByteMatch::Exact(b))
}

/// Reflexivity: the all-exact pattern built from a byte sequence matches
/// that same sequence.
pub proof fn lemma_exact_reflexive(bytes: Seq<u8>)
    ensures
        toks_match(exact_toks(bytes), bytes),
{
}

/// The capability shared by the fixed-length and the variable-length
/// pattern: test a byte window, and tell the pattern's size.
pub trait Matcher: crate::sealed::Sealed {
    /// The token sequence this matcher stands for.
    spec fn toks(&self) -> Seq<ByteMatch>;

    /// Checks if the byte window satisfies the pattern.
    fn matches(&self, seq: &[u8]) -> (r: bool)
        ensures
            r == toks_match(self.toks(), seq@),
    ;

    /// Size of the pattern in bytes.
    fn len(&self) -> (r: usize)
        ensures
            r == self.toks().len(),
    ;
}

/// A fixed-length pattern: an ordered sequence of exactly `N` match tokens,
/// compiled once from a textual literal.
#[derive(Debug)]
pub struct Pattern<const N: usize> {
    toks: Vec<ByteMatch>,
}

impl<const N: usize> View for Pattern<N> {
    type V = Seq<ByteMatch>;

    closed spec fn view(&self) -> Seq<ByteMatch> {
        self.toks@
    }
}

impl<const N: usize> Pattern<N> {
    /// A pattern always holds exactly `N` tokens, and never none at all.
    #[verifier::type_invariant]
    spec fn wf(self) -> bool {
        &&& self.toks@.len() == N
        &&& N >= 1
    }

    /// Checks if the pattern matches the byte window; a window of the wrong
    /// length never matches.
    pub fn matches(&self, data: &[u8]) -> (r: bool)
        ensures
            r == toks_match(self@, data@),
    {
        toks_match_exec(self.toks.as_slice(), data)
    }

    /// Creates a pattern from either hex notation: marked-wildcard when
    /// `peid` is false, double-mark when it is true.  The literal must be
    /// well formed and hold exactly `N` tokens, at least one.
    pub fn from_ida_peid_style(pat: &str, peid: bool) -> (r: Pattern<N>)
        requires
            N >= 1,
            crate::style::parse_style(pat@, peid) matches Some(t) && t.len() == N,
        ensures
            Some(r@) == crate::style::parse_style(pat@, peid),
    {
        match crate::style::parse_tokens(pat, peid) {
            Some(v) => Pattern { toks: v },
            None => vstd::pervasive::unreached(),
        }
    }

    /// Creates a pattern from a marked-wildcard hex literal (`"11 ? 33"`).
    pub fn from_ida_style(pat: &str) -> (r: Pattern<N>)
        requires
            N >= 1,
            crate::style::parse_style(pat@, false) matches Some(t) && t.len() == N,
        ensures
            Some(r@) == crate::style::parse_style(pat@, false),
    {
        Self::from_ida_peid_style(pat, false)
    }

    /// Creates a pattern from a double-mark hex literal (`"11 ?? 33"`).
    pub fn from_peid_style(pat: &str) -> (r: Pattern<N>)
        requires
            N >= 1,
            crate::style::parse_style(pat@, true) matches Some(t) && t.len() == N,
        ensures
            Some(r@) == crate::style::parse_style(pat@, true),
    {
        Self::from_ida_peid_style(pat, true)
    }

    /// Creates a pattern from a byte literal and an equal-length mask of `x`
    /// (exact) and `?` (wildcard) characters.
    pub fn from_code_style(pat: &[u8], mask: &str) -> (r: Pattern<N>)
        requires
            N >= 1,
            crate::style::parse_code(pat@, mask@) matches Some(t) && t.len() == N,
        ensures
            Some(r@) == crate::style::parse_code(pat@, mask@),
    {
        match crate::style::parse_code_tokens(pat, mask) {
            Some(v) => Pattern { toks: v },
            None => vstd::pervasive::unreached(),
        }
    }

    /// Copies the pattern's tokens into a new vector.
    pub(crate) fn tokens_vec(&self) -> (r: Vec<ByteMatch>)
        ensures
            r@ == self@,
            r@.len() >= 1,
    {
        proof {
            use_type_invariant(self);
        }
        let n = self.toks.len();
        let mut out: Vec<ByteMatch> = Vec::new();
        let mut i: usize = 0;
        while i < n
            invariant
                n == self.toks@.len(),
                i <= n,
                out@ =~= self.toks@.take(i as int),
            decreases n - i,
        {
            out.push(self.toks[i]);
            proof {
                assert(out@ =~= self.toks@.take(i + 1));
            }
            i = i + 1;
        }
        proof {
            assert(self.toks@.take(n as int) =~= self.toks@);
        }
        out
    }

    /// Converts the pattern to a marked-wildcard hex string.
    pub fn to_ida_style(&self) -> (r: String)
        ensures
            r@ == crate::style::render_style(self@, false),
    {
        crate::style::render_tokens(&self.toks, false)
    }

    /// Converts the pattern to a double-mark hex string.
    pub fn to_peid_style(&self) -> (r: String)
        ensures
            r@ == crate::style::render_style(self@, true),
    {
        crate::style::render_tokens(&self.toks, true)
    }

    /// Converts the pattern to code style, returning the escaped byte string
    /// and the mask string.
    pub fn to_code_style(&self) -> (r: (String, String))
        ensures
            r.0@ == crate::style::render_code_bytes(self@),
            r.1@ == crate::style::render_code_mask(self@),
    {
        crate::style::render_code_tokens(&self.toks)
    }
}

impl<const N: usize> PartialEq for Pattern<N> {
    /// Two patterns are equal when their token sequences are.
    fn eq(&self, other: &Pattern<N>) -> (r: bool) {
        toks_equal(&self.toks, &other.toks)
    }
}

impl<const N: usize> vstd::std_specs::cmp::PartialEqSpecImpl for Pattern<N> {
    open spec fn obeys_eq_spec() -> bool {
        true
    }

    open spec fn eq_spec(&self, other: &Pattern<N>) -> bool {
        self@ == other@
    }
}

/// Compares two token vectors element by element.
pub(crate) fn toks_equal(a: &Vec<ByteMatch>, b: &Vec<ByteMatch>) -> (r: bool)
    ensures
        r == (a@ == b@),
{
    if a.len() != b.len() {
        proof {
            assert(a@.len() != b@.len());
        }
        return false;
    }
    let n = a.len();
    let mut i: usize = 0;
    while i < n
        invariant
            n == a@.len() == b@.len(),
            i <= n,
            forall|j: int| 0 <= j < i ==> a@[j] == b@[j],
        decreases n - i,
    {
        if a[i] != b[i] {
            return false;
        }
        i = i + 1;
    }
    proof {
        assert(a@ =~= b@);
    }
    true
}

impl<const N: usize> crate::sealed::Sealed for Pattern<N> {

}

impl<const N: usize> Matcher for Pattern<N> {
    open spec fn toks(&self) -> Seq<ByteMatch> {
        self@
    }

    fn matches(&self, seq: &[u8]) -> (r: bool) {
        self.matches(seq)
    }

    fn len(&self) -> (r: usize) {
        proof {
            use_type_invariant(self);
        }
        N
    }
}

} // verus!
