//! Dedup filter: the single-slot "have I already announced this exact
//! image" filter.  It remembers only the fingerprint of the last image
//! that was admitted; it holds no longer history, and it is never cleared
//! once set.

use vstd::prelude::*;

verus! {

/// What one `accept` call does to the filter: the admitted flag and the new
/// remembered fingerprint, as a function of the old fingerprint and the
/// candidate.
pub open spec fn accept_outcome(last: Option<u128>, fp: u128) -> (bool, Option<u128>) {
    if last == Some(fp) {
        (false, last)
    } else {
        (true, Some(fp))
    }
}

/// The filter itself: at most one remembered fingerprint.
pub struct DedupState {
    last: Option<u128>,
}

impl DedupState {
    /// The fingerprint of the last admitted image, if any was admitted.
    pub closed spec fn last_fp(&self) -> Option<u128> {
        self.last
    }

    /// A fresh dedup remembers nothing: the first image is always admitted.
    pub fn new() -> (r: DedupState)
        ensures
            r.last_fp() is None,
    {
        DedupState { last: None }
    }

    /// Compare a fingerprint against the remembered one.  Returns `false`
    /// (suppressed) and leaves the state unchanged when they are equal;
    /// returns `true` (admitted) and remembers the new fingerprint
    /// otherwise.  Either way the filter afterwards remembers exactly `fp`.
    pub fn accept(&mut self, fp: u128) -> (r: bool)
        ensures
            (r, final(self).last_fp()) == accept_outcome(old(self).last_fp(), fp),
            r == (old(self).last_fp() != Some(fp)),
            final(self).last_fp() == Some(fp),
    {
        let same = match self.last {
            Some(prev) => prev == fp,
            None => false,
        };
        if same {
            false
        } else {
            self.last = Some(fp);
            true
        }
    }
}

/// Idempotence of the filter: admitting the same fingerprint twice in a
/// row admits it at most once — the second call is always suppressed and
/// leaves the remembered fingerprint in place.
pub proof fn lemma_accept_idempotent(last: Option<u128>, fp: u128)
    ensures
        ({
            let (r1, l1) = accept_outcome(last, fp);
            let (r2, l2) = accept_outcome(l1, fp);
            r1 == (last != Some(fp)) && !r2 && l2 == l1
        }),
{
}

/// No long-term history: after an image I, a different image J, and I
/// again, every one of the three is admitted — only the last-seen
/// fingerprint is remembered.
pub proof fn lemma_accept_last_seen_only(last: Option<u128>, fp_i: u128, fp_j: u128)
    requires
        last != Some(fp_i),
        fp_i != fp_j,
    ensures
        ({
            let (r1, l1) = accept_outcome(last, fp_i);
            let (r2, l2) = accept_outcome(l1, fp_j);
            let (r3, l3) = accept_outcome(l2, fp_i);
            r1 && r2 && r3 && l3 == Some(fp_i)
        }),
{
}

} // verus!
