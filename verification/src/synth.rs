//! The signature synthesizer: grows an exact-byte pattern anchored at a
//! target offset until it occurs nowhere else inside a bounding range.
//!
//! The candidate starts three bytes long.  Each time some other offset holds
//! the same bytes, the candidate grows by one byte and the search resumes at
//! the colliding offset; offsets already passed cannot match the longer
//! candidate either, so they need no second look.  The candidate is returned
//! once no collision remains, and the search gives up once growing would
//! exceed the size bound or run past the end of the range.

use vstd::prelude::*;

use crate::dynamic::DynPattern;
use crate::pattern::{exact_toks, ByteMatch};
use crate::scan::match_at;

verus! {

/// The window of length `s` at offset `i` holds the same bytes as the window
/// of length `s` at the target offset `t`, while being a different offset.
pub open spec fn collides(data: Seq<u8>, t: int, s: int, i: int) -> bool {
    &&& i != t
    &&& 0 <= i
    &&& i + s <= data.len()
    &&& forall|k: int| 0 <= k < s ==> #[trigger] data[i + k] == data[t + k]
}

/// The window of length `s` at the target offset `t` occurs nowhere else in
/// the range.
pub open spec fn unique_at(data: Seq<u8>, t: int, s: int) -> bool {
    forall|i: int| !collides(data, t, s, i)
}

/// A collision of a longer window is a collision of every shorter one.
proof fn lemma_collides_mono(data: Seq<u8>, t: int, s1: int, s2: int, i: int)
    requires
        0 <= s1 <= s2,
        collides(data, t, s2, i),
    ensures
        collides(data, t, s1, i),
{
}

/// Compares the windows of length `s` at offsets `i` and `t`.
fn windows_equal(data: &[u8], i: usize, t: usize, s: usize) -> (r: bool)
    requires
        i + s <= data@.len(),
        t + s <= data@.len(),
    ensures
        r == forall|k: int| 0 <= k < s ==> #[trigger] data@[i + k] == data@[t + k],
{
    let n = data.len();
    let mut k: usize = 0;
    while k < s
        invariant
            n == data@.len(),
            i + s <= n,
            t + s <= n,
            k <= s,
            forall|j: int| 0 <= j < k ==> #[trigger] data@[i + j] == data@[t + j],
        decreases s - k,
    {
        if data[i + k] != data[t + k] {
            return false;
        }
        k = k + 1;
    }
    true
}

/// Finds the first offset at or after `from` whose window collides with the
/// target's window of length `s`; offsets it passed over do not collide.
fn find_collision(data: &[u8], t: usize, s: usize, from: usize) -> (r: Option<usize>)
    requires
        t + s <= data@.len(),
        1 <= s,
    ensures
        r matches Some(i) ==> from <= i && collides(data@, t as int, s as int, i as int) && (
        forall|j: int| from <= j < i ==> !collides(data@, t as int, s as int, j)),
        r is None ==> forall|j: int| from <= j ==> !collides(data@, t as int, s as int, j),
{
    let n = data.len();
    let mut i: usize = from;
    while i <= n - s
        invariant
            n == data@.len(),
            t + s <= n,
            1 <= s,
            from <= i,
            forall|j: int| from <= j < i ==> !collides(data@, t as int, s as int, j),
        decreases n - i,
    {
        if i != t {
            if windows_equal(data, i, t, s) {
                return Some(i);
            }
        }
        i = i + 1;
    }
    None
}

/// Synthesizes a signature: an all-exact pattern anchored at `target` that
/// matches nowhere else inside `data`.  The result, when there is one, is
/// the shortest such pattern of at least three bytes; `None` means that no
/// candidate within `max_size` bytes (and within the range) is unique.  A
/// caller that wants no size bound passes `usize::MAX`: the range's end
/// already stops the growth.
pub fn synthesize(data: &[u8], target: usize, max_size: usize) -> (r: Option<DynPattern>)
    requires
        target < data@.len(),
    ensures
        r matches Some(p) ==> {
            &&& 3 <= p@.len() <= max_size
            &&& target + p@.len() <= data@.len()
            &&& p@ == exact_toks(data@.subrange(target as int, target + p@.len()))
            &&& unique_at(data@, target as int, p@.len() as int)
            &&& forall|s: int| 3 <= s < p@.len() ==> !unique_at(data@, target as int, s)
        },
        r is None ==> forall|s: int|
            3 <= s <= max_size && target + s <= data@.len() ==> !unique_at(
                data@,
                target as int,
                s,
            ),
{
    let n = data.len();
    if max_size < 3 || n - target < 3 {
        return None;
    }
    let mut size: usize = 3;
    let mut resume: usize = 0;
    loop
        invariant
            n == data@.len(),
            target < n,
            3 <= size <= max_size,
            target + size <= n,
            forall|j: int| 0 <= j < resume ==> !collides(data@, target as int, size as int, j),
            forall|s: int| 3 <= s < size ==> !unique_at(data@, target as int, s),
        decreases max_size - size,
    {
        match find_collision(data, target, size, resume) {
            None => {
                proof {
                    assert forall|i: int| !collides(data@, target as int, size as int, i) by {
                        if 0 <= i < resume {
                        } else if i >= resume {
                        }
                    }
                }
                let bytes = vstd::slice::slice_subrange(data, target, target + size);
                match DynPattern::from_bytes(bytes) {
                    Ok(p) => {
                        return Some(p);
                    },
                    Err(_) => {
                        return vstd::pervasive::unreached();
                    },
                }
            },
            Some(i) => {
                proof {
                    assert(!unique_at(data@, target as int, size as int));
                }
                if size == max_size {
                    return None;
                }
                if n - target == size {
                    return None;
                }
                proof {
                    assert forall|j: int|
                        0 <= j < i implies !(#[trigger] collides(
                        data@,
                        target as int,
                        size + 1,
                        j,
                    )) by {
                        if collides(data@, target as int, size + 1, j) {
                            lemma_collides_mono(data@, target as int, size as int, size + 1, j);
                        }
                    }
                }
                size = size + 1;
                resume = i;
            },
        }
    }
}

/// Soundness of a synthesized signature: the exact window at `t`, unique in
/// the range, matches the range at `t` and at no other offset — so a scan
/// yields exactly one match, located at the target.
pub proof fn lemma_unique_matches_only_target(data: Seq<u8>, t: int, s: int)
    requires
        0 <= t,
        1 <= s,
        t + s <= data.len(),
        unique_at(data, t, s),
    ensures
        match_at(exact_toks(data.subrange(t, t + s)), data, t),
        forall|i: int| i != t ==> !(#[trigger] match_at(exact_toks(data.subrange(t, t + s)), data, i)),
{
    let toks = exact_toks(data.subrange(t, t + s));
    assert(toks.len() == s);
    crate::pattern::lemma_exact_reflexive(data.subrange(t, t + s));
    assert forall|i: int| i != t implies !(#[trigger] match_at(toks, data, i)) by {
        if match_at(toks, data, i) {
            let w = data.subrange(i, i + s);
            assert forall|k: int| 0 <= k < s implies #[trigger] data[i + k] == data[t + k] by {
                assert(toks[k].spec_matches(w[k]));
            }
            assert(collides(data, t, s, i));
        }
    }
}

/// A sorted, sound and complete offset list over a pattern that matches only
/// at `t` is exactly the one-element list holding `t`.
pub proof fn lemma_single_match(
    r: Seq<usize>,
    toks: Seq<ByteMatch>,
    data: Seq<u8>,
    t: usize,
)
    requires
        forall|k1: int, k2: int| 0 <= k1 < k2 < r.len() ==> r[k1] < r[k2],
        forall|k: int| 0 <= k < r.len() ==> match_at(toks, data, r[k] as int),
        forall|i: int| match_at(toks, data, i) ==> r.contains(i as usize),
        match_at(toks, data, t as int),
        forall|i: int| i != t ==> !match_at(toks, data, i),
    ensures
        r =~= seq![t],
{
    assert(r.contains(t));
    assert forall|k: int| 0 <= k < r.len() implies r[k] == t by {
        assert(match_at(toks, data, r[k] as int));
    }
    if r.len() >= 2 {
        assert(r[0] < r[1]);
        assert(false);
    }
    let k0 = choose|k: int| 0 <= k < r.len() && r[k] == t;
    assert(0 <= k0 < r.len());
    assert(r.len() == 1);
}

} // verus!
