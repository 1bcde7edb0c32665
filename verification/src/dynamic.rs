//! The variable-length pattern, built at runtime.

use vstd::prelude::*;

use crate::error::PatternError;
use crate::pattern::{exact_toks, toks_match, toks_match_exec, ByteMatch, Matcher};
use crate::style;

verus! {

/// A variable-length pattern: an ordered token sequence built at runtime,
/// either compiled from text, derived all-exact from a byte slice, or
/// produced by the signature synthesizer.
#[derive(Debug)]
pub struct DynPattern {
    toks: Vec<ByteMatch>,
}

impl View for DynPattern {
    type V = Seq<ByteMatch>;

    closed spec fn view(&self) -> Seq<ByteMatch> {
        self.toks@
    }
}

impl DynPattern {
    /// A pattern never holds no token at all.
    #[verifier::type_invariant]
    spec fn wf(self) -> bool {
        self.toks@.len() >= 1
    }

    /// Checks if the byte window matches the pattern.  A window whose length
    /// differs from the pattern's size never matches; the fixed-length
    /// pattern behaves the same way.
    pub fn matches(&self, data: &[u8]) -> (r: bool)
        ensures
            r == toks_match(self@, data@),
    {
        toks_match_exec(self.toks.as_slice(), data)
    }

    /// Size of the pattern in bytes.
    pub fn size(&self) -> (r: usize)
        ensures
            r == self@.len(),
            r >= 1,
    {
        proof {
            use_type_invariant(self);
        }
        self.toks.len()
    }

    /// Builds the pattern out of an already-checked token vector.
    pub(crate) fn from_tokens(toks: Vec<ByteMatch>) -> (r: DynPattern)
        requires
            toks@.len() >= 1,
        ensures
            r@ == toks@,
    {
        DynPattern { toks }
    }

    /// Copies a fixed-length pattern into a variable-length one.
    pub fn from_pattern<const N: usize>(pat: &crate::pattern::Pattern<N>) -> (r: DynPattern)
        ensures
            r@ == pat@,
    {
        DynPattern { toks: pat.tokens_vec() }
    }

    /// Derives the all-exact pattern of a byte slice: one exact token for
    /// each byte.  An empty slice is rejected, since a pattern must hold at
    /// least one token.
    pub fn from_bytes(data: &[u8]) -> (r: Result<DynPattern, PatternError>)
        ensures
            data@.len() >= 1 ==> (r matches Ok(p) && p@ == exact_toks(data@)),
            data@.len() == 0 ==> r == Err::<DynPattern, PatternError>(PatternError::Empty),
    {
        if data.len() == 0 {
            return Err(PatternError::Empty);
        }
        let n = data.len();
        let mut toks: Vec<ByteMatch> = Vec::new();
        let mut i: usize = 0;
        while i < n
            invariant
                n == data@.len(),
                i <= n,
                toks@ =~= exact_toks(data@.take(i as int)),
            decreases n - i,
        {
            toks.push(ByteMatch::Exact(data[i]));
            proof {
                assert(toks@ =~= exact_toks(data@.take(i + 1)));
            }
            i = i + 1;
        }
        proof {
            assert(data@.take(n as int) =~= data@);
        }
        Ok(DynPattern { toks })
    }

    /// Compiles a marked-wildcard hex string (`"11 ? 33"`) at runtime,
    /// surfacing a malformed or empty literal as a recoverable error.
    pub fn from_ida_style(pat: &str) -> (r: Result<DynPattern, PatternError>)
        ensures
            match style::parse_style(pat@, false) {
                Some(t) => if t.len() >= 1 {
                    r matches Ok(p) && p@ == t
                } else {
                    r == Err::<DynPattern, PatternError>(PatternError::Empty)
                },
                None => r == Err::<DynPattern, PatternError>(PatternError::Malformed),
            },
    {
        Self::from_parsed(style::parse_tokens(pat, false))
    }

    /// Compiles a double-mark hex string (`"11 ?? 33"`) at runtime,
    /// surfacing a malformed or empty literal as a recoverable error.
    pub fn from_peid_style(pat: &str) -> (r: Result<DynPattern, PatternError>)
        ensures
            match style::parse_style(pat@, true) {
                Some(t) => if t.len() >= 1 {
                    r matches Ok(p) && p@ == t
                } else {
                    r == Err::<DynPattern, PatternError>(PatternError::Empty)
                },
                None => r == Err::<DynPattern, PatternError>(PatternError::Malformed),
            },
    {
        Self::from_parsed(style::parse_tokens(pat, true))
    }

    /// Compiles the byte-array-plus-mask notation at runtime, surfacing a
    /// mask of the wrong length or with a stray character as a recoverable
    /// error.
    pub fn from_code_style(pat: &[u8], mask: &str) -> (r: Result<DynPattern, PatternError>)
        ensures
            match style::parse_code(pat@, mask@) {
                Some(t) => if t.len() >= 1 {
                    r matches Ok(p) && p@ == t
                } else {
                    r == Err::<DynPattern, PatternError>(PatternError::Empty)
                },
                None => r == Err::<DynPattern, PatternError>(PatternError::Malformed),
            },
    {
        Self::from_parsed(style::parse_code_tokens(pat, mask))
    }

    /// Wraps a parse outcome: a missing result is malformed text, an empty
    /// token list is an empty pattern, anything else constructs.
    fn from_parsed(parsed: Option<Vec<ByteMatch>>) -> (r: Result<DynPattern, PatternError>)
        ensures
            match parsed {
                Some(v) => if v@.len() >= 1 {
                    r matches Ok(p) && p@ == v@
                } else {
                    r == Err::<DynPattern, PatternError>(PatternError::Empty)
                },
                None => r == Err::<DynPattern, PatternError>(PatternError::Malformed),
            },
    {
        match parsed {
            Some(v) => {
                if v.len() == 0 {
                    Err(PatternError::Empty)
                } else {
                    Ok(DynPattern { toks: v })
                }
            },
            None => Err(PatternError::Malformed),
        }
    }

    /// Converts the pattern to a marked-wildcard hex string.
    pub fn to_ida_style(&self) -> (r: String)
        ensures
            r@ == style::render_style(self@, false),
    {
        style::render_tokens(&self.toks, false)
    }

    /// Converts the pattern to a double-mark hex string.
    pub fn to_peid_style(&self) -> (r: String)
        ensures
            r@ == style::render_style(self@, true),
    {
        style::render_tokens(&self.toks, true)
    }

    /// Converts the pattern to code style, returning the escaped byte string
    /// and the mask string.
    pub fn to_code_style(&self) -> (r: (String, String))
        ensures
            r.0@ == style::render_code_bytes(self@),
            r.1@ == style::render_code_mask(self@),
    {
        style::render_code_tokens(&self.toks)
    }
}

impl PartialEq for DynPattern {
    /// Two patterns are equal when their token sequences are.
    fn eq(&self, other: &DynPattern) -> (r: bool) {
        crate::pattern::toks_equal(&self.toks, &other.toks)
    }
}

impl vstd::std_specs::cmp::PartialEqSpecImpl for DynPattern {
    open spec fn obeys_eq_spec() -> bool {
        true
    }

    open spec fn eq_spec(&self, other: &DynPattern) -> bool {
        self@ == other@
    }
}

impl crate::sealed::Sealed for DynPattern {

}

impl Matcher for DynPattern {
    open spec fn toks(&self) -> Seq<ByteMatch> {
        self@
    }

    fn matches(&self, seq: &[u8]) -> (r: bool) {
        self.matches(seq)
    }

    fn len(&self) -> (r: usize) {
        self.size()
    }
}

} // verus!
