//! The scanner: slides a pattern across a byte range and collects every
//! offset at which it matches.

use vstd::prelude::*;

use crate::pattern::{toks_match, ByteMatch, Matcher};

verus! {

/// The pattern given by `toks` matches the window of `data` that starts at
/// offset `i`.
pub open spec fn match_at(toks: Seq<ByteMatch>, data: Seq<u8>, i: int) -> bool {
    &&& 0 <= i
    &&& i + toks.len() <= data.len()
    &&& toks_match(toks, data.subrange(i, i + toks.len() as int))
}

/// Finds every offset in `data` at which the pattern matches.  The offsets
/// come back in ascending order, each one matching, and none missing.
pub fn find_pattern<M: Matcher>(pat: &M, data: &[u8]) -> (r: Vec<usize>)
    requires
        pat.toks().len() >= 1,
    ensures
        forall|k1: int, k2: int| 0 <= k1 < k2 < r@.len() ==> r@[k1] < r@[k2],
        forall|k: int| 0 <= k < r@.len() ==> match_at(pat.toks(), data@, r@[k] as int),
        forall|i: int| match_at(pat.toks(), data@, i) ==> r@.contains(i as usize),
{
    let size = pat.len();
    let n = data.len();
    let mut out: Vec<usize> = Vec::new();
    if size > n {
        return out;
    }
    let last = n - size;
    let mut i: usize = 0;
    while i <= last
        invariant
            size == pat.toks().len(),
            n == data@.len(),
            1 <= size <= n,
            last == n - size,
            i <= last + 1,
            forall|k1: int, k2: int| 0 <= k1 < k2 < out@.len() ==> out@[k1] < out@[k2],
            forall|k: int|
                0 <= k < out@.len() ==> out@[k] < i && match_at(pat.toks(), data@, out@[k] as int),
            forall|j: int| 0 <= j < i && match_at(pat.toks(), data@, j) ==> out@.contains(j as usize),
        decreases last + 1 - i,
    {
        let window = vstd::slice::slice_subrange(data, i, i + size);
        if pat.matches(window) {
            let ghost out0 = out@;
            out.push(i);
            proof {
                assert(out@ == out0.push(i));
                assert forall|j: int|
                    0 <= j < i + 1 && match_at(pat.toks(), data@, j) implies out@.contains(
                    j as usize,
                ) by {
                    if j < i {
                        assert(out0.contains(j as usize));
                        let k = choose|k: int| 0 <= k < out0.len() && out0[k] == j as usize;
                        assert(out@[k] == j as usize);
                    } else {
                        assert(out@[out@.len() - 1] == i);
                    }
                }
            }
        }
        i = i + 1;
    }
    proof {
        assert forall|j: int| match_at(pat.toks(), data@, j) implies out@.contains(j as usize) by {
            assert(0 <= j && j + size <= data@.len());
            assert(j < i);
        }
    }
    out
}

/// A scan over memory that is read window by window, for ranges that cannot
/// be read in bulk (another process's address space).  The caller reads the
/// bytes that `next_read` asks for and hands them to `feed`; a failed read
/// is reported through `abort` and ends the scan, matches found up to that
/// point stand.
pub struct RemoteScan<M: Matcher> {
    pat: M,
    start: usize,
    len: usize,
    offset: usize,
    done: bool,
}

impl<M: Matcher> RemoteScan<M> {
    /// Scan positions never leave the range and addresses never wrap.
    #[verifier::type_invariant]
    spec fn wf(self) -> bool {
        &&& self.start + self.len <= usize::MAX
        &&& self.offset <= self.len
        &&& self.pat.toks().len() >= 1 || self.done
    }

    /// The pattern's token sequence.
    pub closed spec fn spec_toks(self) -> Seq<ByteMatch> {
        self.pat.toks()
    }

    /// The range's base address.
    pub closed spec fn spec_start(self) -> usize {
        self.start
    }

    /// The range's length in bytes.
    pub closed spec fn spec_len(self) -> usize {
        self.len
    }

    /// The offset the scan will test next.
    pub closed spec fn spec_offset(self) -> usize {
        self.offset
    }

    /// Whether the scan has ended.
    pub closed spec fn spec_done(self) -> bool {
        self.done
    }

    /// Starts a scan of the range of `len` bytes at `start`.  A pattern
    /// without tokens has nothing to scan for, so the scan starts ended.
    pub fn new(pat: M, start: usize, len: usize) -> (r: RemoteScan<M>)
        requires
            start + len <= usize::MAX,
        ensures
            r.spec_toks() == pat.toks(),
            r.spec_start() == start,
            r.spec_len() == len,
            r.spec_offset() == 0,
            r.spec_done() <==> pat.toks().len() == 0,
    {
        let empty = pat.len() == 0;
        RemoteScan { pat, start, len, offset: 0, done: empty }
    }

    /// The address and size of the window the scan wants next, or `None`
    /// once the remaining range is smaller than the pattern or the scan has
    /// ended.
    pub fn next_read(&self) -> (r: Option<(usize, usize)>)
        ensures
            r matches Some(req) ==> {
                &&& !self.spec_done()
                &&& self.spec_offset() + self.spec_toks().len() <= self.spec_len()
                &&& req.0 == self.spec_start() + self.spec_offset()
                &&& req.1 == self.spec_toks().len()
            },
            r is None ==> self.spec_done() || self.spec_offset() + self.spec_toks().len()
                > self.spec_len(),
    {
        proof {
            use_type_invariant(self);
        }
        if self.done {
            return None;
        }
        let size = self.pat.len();
        if size <= self.len && self.offset <= self.len - size {
            Some((self.start + self.offset, size))
        } else {
            None
        }
    }

    /// Tests the window read at the current offset and moves one byte
    /// forward; the returned address, when there is one, is where the
    /// pattern matched.
    pub fn feed(&mut self, window: &[u8]) -> (m: Option<usize>)
        requires
            !old(self).spec_done(),
            old(self).spec_offset() + old(self).spec_toks().len() <= old(self).spec_len(),
        ensures
            final (self).spec_toks() == old(self).spec_toks(),
            final (self).spec_start() == old(self).spec_start(),
            final (self).spec_len() == old(self).spec_len(),
            final (self).spec_offset() == old(self).spec_offset() + 1,
            !final (self).spec_done(),
            m matches Some(a) ==> a == old(self).spec_start() + old(self).spec_offset()
                && toks_match(old(self).spec_toks(), window@),
            m is None ==> !toks_match(old(self).spec_toks(), window@),
    {
        proof {
            use_type_invariant(&*self);
        }
        let matched = self.pat.matches(window);
        let at = self.start + self.offset;
        self.offset = self.offset + 1;
        if matched {
            Some(at)
        } else {
            None
        }
    }

    /// Ends the scan: the caller could not read the window it was asked
    /// for, and match addresses already returned stay valid.
    pub fn abort(&mut self)
        ensures
            final (self).spec_done(),
            final (self).spec_toks() == old(self).spec_toks(),
            final (self).spec_start() == old(self).spec_start(),
            final (self).spec_len() == old(self).spec_len(),
            final (self).spec_offset() == old(self).spec_offset(),
    {
        proof {
            use_type_invariant(&*self);
        }
        self.done = true;
    }
}

} // verus!
