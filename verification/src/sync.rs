//! Rate-limited, deduplicated synchronization of the player's viewport.

use vstd::prelude::*;

use crate::geom::ViewRect;
use crate::orders::Order;

verus! {

/// Minimum milliseconds between two `SetViewport` sends.
pub const VIEWPORT_INTERVAL_MS: u64 = 150;

/// Saturating addition of elapsed milliseconds.
pub open spec fn spec_accum(s: u64, e: u64) -> u64 {
    if s + e > u64::MAX {
        u64::MAX
    } else {
        (s + e) as u64
    }
}

/// Dispatches viewport subscriptions: at most one per rate-limit interval,
/// and only when the rectangle differs from the last one sent.
///
/// The limiter advances every frame whether or not a send occurs; a
/// rectangle change observed while the limiter is not ready is retried on
/// the next frame the limiter becomes ready, so changes are coalesced, not
/// dropped.
#[derive(Clone, Copy, PartialEq, Eq, Structural, Debug)]
pub struct ViewportSync {
    pub last_sent: Option<ViewRect>,
    pub since_ms: u64,
}

/// Whether a frame with rectangle `rect` after `e` more milliseconds sends.
pub open spec fn spec_sync_sends(s: ViewportSync, rect: ViewRect, e: u64) -> bool {
    spec_accum(s.since_ms, e) >= VIEWPORT_INTERVAL_MS && s.last_sent != Some(rect)
}

/// The synchronizer state after one frame.
pub open spec fn spec_sync_next(s: ViewportSync, rect: ViewRect, e: u64) -> ViewportSync {
    if spec_sync_sends(s, rect, e) {
        ViewportSync { last_sent: Some(rect), since_ms: 0 }
    } else {
        ViewportSync { last_sent: s.last_sent, since_ms: spec_accum(s.since_ms, e) }
    }
}

impl ViewportSync {
    /// A synchronizer that has sent nothing and is immediately ready.
    pub fn new() -> (r: ViewportSync)
        ensures
            r.last_sent is None,
            r.since_ms == VIEWPORT_INTERVAL_MS,
    {
        ViewportSync { last_sent: None, since_ms: VIEWPORT_INTERVAL_MS }
    }

    /// Advances the limiter by `elapsed_ms` and dispatches a `SetViewport`
    /// order when the rectangle changed and the limiter is ready.
    pub fn frame(&mut self, rect: ViewRect, elapsed_ms: u64) -> (r: Option<Order>)
        ensures
            *final(self) == spec_sync_next(*old(self), rect, elapsed_ms),
            r is Some <==> spec_sync_sends(*old(self), rect, elapsed_ms),
            r is Some ==> r == Some(Order::SetViewport(rect)),
    {
        let accum: u64 = if self.since_ms <= u64::MAX - elapsed_ms {
            self.since_ms + elapsed_ms
        } else {
            u64::MAX
        };
        let changed: bool = match self.last_sent {
            Some(prev) => prev != rect,
            None => true,
        };
        if accum >= VIEWPORT_INTERVAL_MS && changed {
            self.last_sent = Some(rect);
            self.since_ms = 0;
            Some(Order::SetViewport(rect))
        } else {
            self.since_ms = accum;
            None
        }
    }
}

/// The synchronizer state after a run of frames.
pub open spec fn spec_sync_run(s: ViewportSync, frames: Seq<(ViewRect, u64)>) -> ViewportSync
    decreases frames.len(),
{
    if frames.len() == 0 {
        s
    } else {
        spec_sync_run(spec_sync_next(s, frames[0].0, frames[0].1), frames.drop_first())
    }
}

/// How many frames of a run send an order.
pub open spec fn spec_sync_send_count(s: ViewportSync, frames: Seq<(ViewRect, u64)>) -> nat
    decreases frames.len(),
{
    if frames.len() == 0 {
        0
    } else {
        (if spec_sync_sends(s, frames[0].0, frames[0].1) {
            1nat
        } else {
            0nat
        }) + spec_sync_send_count(spec_sync_next(s, frames[0].0, frames[0].1), frames.drop_first())
    }
}

/// Total elapsed milliseconds over a run of frames.
pub open spec fn spec_total_elapsed(frames: Seq<(ViewRect, u64)>) -> int
    decreases frames.len(),
{
    if frames.len() == 0 {
        0
    } else {
        frames[0].1 + spec_total_elapsed(frames.drop_first())
    }
}

/// While less time than the limiter's accumulator is missing toward the
/// interval, no frame of the run sends.
pub proof fn lemma_sync_quiet_run(s: ViewportSync, frames: Seq<(ViewRect, u64)>)
    requires
        s.since_ms + spec_total_elapsed(frames) < VIEWPORT_INTERVAL_MS,
    ensures
        spec_sync_send_count(s, frames) == 0,
    decreases frames.len(),
{
    if frames.len() > 0 {
        assert(spec_total_elapsed(frames.drop_first()) >= 0) by {
            lemma_total_elapsed_nonneg(frames.drop_first());
        }
        lemma_sync_quiet_run(spec_sync_next(s, frames[0].0, frames[0].1), frames.drop_first());
    }
}

/// The total elapsed time of a run is never negative.
pub proof fn lemma_total_elapsed_nonneg(frames: Seq<(ViewRect, u64)>)
    ensures
        spec_total_elapsed(frames) >= 0,
    decreases frames.len(),
{
    if frames.len() > 0 {
        lemma_total_elapsed_nonneg(frames.drop_first());
    }
}

/// Dispatch is rate limited: immediately after a send, no further frame of
/// any run whose total elapsed time stays under the interval sends again.
pub proof fn lemma_viewport_rate_limited(s: ViewportSync, frames: Seq<(ViewRect, u64)>)
    requires
        s.since_ms == 0,
        spec_total_elapsed(frames) < VIEWPORT_INTERVAL_MS,
    ensures
        spec_sync_send_count(s, frames) == 0,
{
    lemma_sync_quiet_run(s, frames);
}

/// A frame whose rectangle equals the last-sent rectangle never sends,
/// however much time has passed.
pub proof fn lemma_no_resend_same_rect(s: ViewportSync, rect: ViewRect, e: u64)
    requires
        s.last_sent == Some(rect),
    ensures
        !spec_sync_sends(s, rect, e),
{
}

} // verus!
