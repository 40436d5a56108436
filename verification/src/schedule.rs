//! The report scheduler of the keyboard persona.
//!
//! One snapshot can encode to up to three keyboard reports, but the host
//! takes only one per poll tick. The [`ReportQueue`] holds the encoded
//! sequence and releases it oldest-first, one report per tick; the input
//! lines are sampled again only once the prior sequence has fully
//! drained, so the host never sees two snapshots interleaved.

use vstd::prelude::*;

use crate::inputs::InputMap;
use crate::inputs::KeyboardReport;
use crate::inputs::lemma_report_count_bounds;
use crate::inputs::pressed_count;
use crate::inputs::report_matches;
use crate::inputs::spec_report_count;

verus! {

/// A fixed-capacity queue of the keyboard reports one snapshot encoded
/// to. It is either being drained (some of its reports already sent) or
/// empty and ready to take the next snapshot's sequence; its view is the
/// reports still to send, oldest first.
pub struct ReportQueue {
    reports: [KeyboardReport; 3],
    count: usize,
    next: usize,
}

impl View for ReportQueue {
    type V = Seq<KeyboardReport>;

    closed spec fn view(&self) -> Seq<KeyboardReport> {
        self.reports@.subrange(self.next as int, self.count as int)
    }
}

impl ReportQueue {
    /// The loaded sequence lies within capacity and the drain position
    /// within the loaded sequence.
    pub closed spec fn wf(&self) -> bool {
        self.next <= self.count <= 3
    }

    /// An empty queue: the state at startup, before the first sample.
    pub fn new() -> (q: Self)
        ensures
            q.wf(),
            q@.len() == 0,
    {
        let q = ReportQueue {
            reports: [KeyboardReport::empty(), KeyboardReport::empty(), KeyboardReport::empty()],
            count: 0,
            next: 0,
        };
        proof {
            assert(q@ =~= Seq::<KeyboardReport>::empty());
        }
        q
    }

    /// Whether the whole loaded sequence has been sent.
    pub fn is_empty(&self) -> (e: bool)
        requires
            self.wf(),
        ensures
            e == (self@.len() == 0),
    {
        self.next == self.count
    }

    /// How many reports are still to send.
    pub fn len(&self) -> (n: usize)
        requires
            self.wf(),
        ensures
            n == self@.len(),
    {
        self.count - self.next
    }

    /// Replaces the drained queue with the `count` reports a fresh
    /// snapshot encoded to, oldest-first. Only a fully drained queue may
    /// be reloaded: a sequence is never torn by a newer sample.
    pub fn load(&mut self, reports: &[KeyboardReport; 3], count: usize)
        requires
            old(self).wf(),
            old(self)@.len() == 0,
            count <= 3,
        ensures
            final(self).wf(),
            final(self)@ == reports@.take(count as int),
    {
        self.reports = *reports;
        self.count = count;
        self.next = 0;
        proof {
            assert(self@ =~= reports@.take(count as int));
        }
    }

    /// Hands out the oldest report not yet sent, if any is left.
    pub fn pop(&mut self) -> (r: Option<KeyboardReport>)
        requires
            old(self).wf(),
        ensures
            final(self).wf(),
            old(self)@.len() == 0 ==> r is None && final(self)@ == old(self)@,
            old(self)@.len() > 0 ==> r == Some(old(self)@[0]) && final(self)@ == old(self)@.drop_first(),
    {
        if self.next < self.count {
            let r = self.reports[self.next];
            self.next = self.next + 1;
            proof {
                assert(self@ =~= old(self)@.drop_first());
            }
            Some(r)
        } else {
            None
        }
    }

    /// Throws away whatever is still queued.
    pub fn clear(&mut self)
        ensures
            final(self).wf(),
            final(self)@.len() == 0,
    {
        self.count = 0;
        self.next = 0;
    }

    /// One poll tick of the keyboard persona. While a prior sequence is
    /// draining the sample is ignored and the next queued report goes
    /// out; only an empty queue takes the fresh snapshot, encodes it and
    /// sends its first report. When nothing is pressed and nothing is
    /// queued, the idle all-zero report goes out so the host never
    /// stalls.
    pub fn tick(&mut self, sample: InputMap) -> (out: KeyboardReport)
        requires
            old(self).wf(),
        ensures
            final(self).wf(),
            old(self)@.len() > 0 ==> out == old(self)@[0] && final(self)@ == old(self)@.drop_first(),
            old(self)@.len() == 0 && pressed_count(sample@) == 0 ==> out.spec_is_zero()
                && final(self)@.len() == 0,
            old(self)@.len() == 0 && pressed_count(sample@) > 0 ==> {
                &&& report_matches(out, sample@, 0)
                &&& final(self)@.len() == spec_report_count(sample@) - 1
                &&& forall|k: int|
                    0 <= k < final(self)@.len() ==> report_matches(
                        #[trigger] final(self)@[k],
                        sample@,
                        k + 1,
                    )
            },
    {
        if self.is_empty() {
            proof {
                lemma_report_count_bounds(sample@);
            }
            let (reports, count) = sample.into_keyboard_reports();
            self.load(&reports, count);
        }
        match self.pop() {
            Some(r) => r,
            None => KeyboardReport::empty(),
        }
    }
}

/// The fatal-fault path: when startup or the transport fails for good,
/// no safe degraded mode exists, so the device stops emitting input. The
/// queue is dropped to empty and only the idle report is left to offer,
/// so a host that still polls sees no stuck keys.
pub fn panic_handler(queue: &mut ReportQueue) -> (out: KeyboardReport)
    ensures
        final(queue).wf(),
        final(queue)@.len() == 0,
        out.spec_is_zero(),
{
    queue.clear();
    KeyboardReport::empty()
}

} // verus!
