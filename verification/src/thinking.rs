//! A generation's bounded reasoning: the policy that forces it closed and
//! the decisions taken around each sampled token.

use vstd::prelude::*;
use crate::roles::ThinkingPolicy;
use crate::text::{concat3, owned};

verus! {

impl ThinkingPolicy {
    /// A role's bound on its reasoning: with a nudge, after `max_tokens`
    /// tokens the reasoning is forced closed by the nudge and the close
    /// marker, each on a line of its own between blank lines; without one, it
    /// is never forced.
    pub fn bounded(nudge: Option<&str>, close_marker: &str, max_tokens: usize) -> (r: ThinkingPolicy)
        ensures
            r.close_marker@ == close_marker@,
            match nudge {
                Some(n) => r.force_close@ == "\n\n"@ + n@ + "\n"@ + close_marker@ + "\n\n"@ && r.max_tokens == max_tokens,
                None => r.force_close@ == Seq::<char>::empty() && r.max_tokens == usize::MAX,
            },
    {
        match nudge {
            Some(n) => {
                let mut force_close = concat3("\n\n", n, "\n");
                crate::text::push_str(&mut force_close, close_marker);
                crate::text::push_str(&mut force_close, "\n\n");
                ThinkingPolicy { force_close, close_marker: owned(close_marker), max_tokens }
            },
            None => {
                let r = ThinkingPolicy { force_close: String::new(), close_marker: owned(close_marker), max_tokens: usize::MAX };
                assert(r.force_close@ =~= Seq::<char>::empty());
                r
            },
        }
    }
}

/// Whether `m` occurs in `out` as a run of consecutive bytes.
pub open spec fn holds_window(out: Seq<u8>, m: Seq<u8>) -> bool {
    exists|k: int| 0 <= k && k + m.len() <= out.len() && #[trigger] out.subrange(k, k + m.len()) == m
}

/// Where a generation's reasoning stands: still open, or closed (by the
/// model or by force).
pub struct ThinkingState {
    pub closed: bool,
}

fn window_at(out: &Vec<u8>, m: &Vec<u8>, k: usize) -> (r: bool)
    requires
        k + m@.len() <= out@.len(),
    ensures
        r == (out@.subrange(k as int, k + m@.len()) == m@),
{
    let mut i: usize = 0;
    while i < m.len()
        invariant
            i <= m.len(),
            k + m@.len() <= out.len(),
            out.len() == out@.len(),
            forall|j: int| 0 <= j < i ==> out@[k + j] == m@[j],
        decreases m.len() - i,
    {
        assert(k + i < out@.len());
        if out[k + i] != m[i] {
            assert(out@.subrange(k as int, k + m@.len())[i as int] != m@[i as int]);
            return false;
        }
        i += 1;
    }
    assert(out@.subrange(k as int, k + m@.len()) =~= m@);
    true
}

impl ThinkingState {
    /// A generation's reasoning starts open.
    pub fn new() -> (r: ThinkingState)
        ensures
            !r.closed,
    {
        ThinkingState { closed: false }
    }

    /// Before the token numbered `i`: whether the forced close is to be
    /// emitted now — the reasoning is still open and has used its tokens —
    /// after which the reasoning is closed.
    pub fn before_token(&mut self, i: usize, policy: &ThinkingPolicy) -> (force: bool)
        ensures
            force == (!old(self).closed && i >= policy.max_tokens),
            final(self).closed == (old(self).closed || force),
    {
        let force = !self.closed && i >= policy.max_tokens;
        if force {
            self.closed = true;
        }
        force
    }

    /// After a token: the reasoning is closed once the output so far holds
    /// the (non-empty) close marker.
    pub fn after_token(&mut self, out: &Vec<u8>, marker: &Vec<u8>)
        ensures
            final(self).closed == (old(self).closed || (marker@.len() > 0 && holds_window(out@, marker@))),
    {
        if self.closed || marker.len() == 0 {
            return;
        }
        if marker.len() > out.len() {
            assert(!holds_window(out@, marker@));
            return;
        }
        let last = out.len() - marker.len();
        let mut k: usize = 0;
        while k <= last
            invariant
                !self.closed,
                !old(self).closed,
                marker@.len() > 0,
                last == out@.len() - marker@.len(),
                marker@.len() <= out@.len(),
                k <= last + 1,
                forall|j: int| 0 <= j < k ==> #[trigger] out@.subrange(j, j + marker@.len()) != marker@,
            decreases last + 1 - k,
        {
            if window_at(out, marker, k) {
                assert(out@.subrange(k as int, k + marker@.len()) == marker@);
                self.closed = true;
                return;
            }
            if k == last {
                assert(!holds_window(out@, marker@));
                return;
            }
            k += 1;
        }
    }
}

} // verus!
