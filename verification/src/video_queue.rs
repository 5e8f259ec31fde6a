//! The video frame queue. Decoded, converted frames wait here, ordered by
//! presentation instant, until the display pulls them. Pushing a frame
//! discards every queued frame due *after* it: after a seek, or under
//! out-of-order delivery, stale frames must not outlive fresher ones. The
//! queue also carries the output delay the pacing layer computed, to be
//! added to every frame's instant when deciding what is due.

use vstd::prelude::*;

use crate::frame::VideoFrame;

verus! {

/// Whether a queued frame survives the arrival of a frame due at
/// `new_present`: frames with no known instant always survive, and a
/// newcomer with no known instant discards nothing; otherwise only frames
/// not due after the newcomer survive.
pub open spec fn keeps(f: VideoFrame, new_present: Option<i64>) -> bool {
    f.present is None || new_present is None || f.present->0 <= new_present->0
}

/// The frames of `s` that survive pushing a frame due at `new_present`,
/// in their original order.
pub open spec fn surviving(s: Seq<VideoFrame>, new_present: Option<i64>) -> Seq<VideoFrame>
    decreases s.len(),
{
    if s.len() == 0 {
        Seq::empty()
    } else {
        let rest = surviving(s.drop_last(), new_present);
        if keeps(s.last(), new_present) {
            rest.push(s.last())
        } else {
            rest
        }
    }
}

/// Presentation instants, where known, never decrease along the queue.
pub open spec fn instants_sorted(s: Seq<VideoFrame>) -> bool {
    forall|i: int, j: int|
        0 <= i < j < s.len() && s[i].present is Some && s[j].present is Some
            ==> s[i].present->0 <= s[j].present->0
}

/// The discard-on-push rule is sound: every survivor is one of the old
/// frames, no survivor is due after the newcomer, and survivors of a
/// monotone queue are still monotone.
pub proof fn lemma_surviving_monotone(s: Seq<VideoFrame>, p: Option<i64>)
    ensures
        forall|i: int| 0 <= i < surviving(s, p).len() ==> keeps(#[trigger] surviving(s, p)[i], p),
        forall|i: int| 0 <= i < surviving(s, p).len() ==> s.contains(#[trigger] surviving(s, p)[i]),
        instants_sorted(s) ==> instants_sorted(surviving(s, p)),
    decreases s.len(),
{
    if s.len() == 0 {
    } else {
        let t = s.drop_last();
        lemma_surviving_monotone(t, p);
        assert(forall|j: int| 0 <= j < t.len() ==> t[j] == s[j]);
        assert forall|i: int| 0 <= i < surviving(s, p).len() implies s.contains(
            #[trigger] surviving(s, p)[i],
        ) by {
            let res = surviving(s, p);
            if keeps(s.last(), p) && i == res.len() - 1 {
                assert(res[i] == s[s.len() - 1]);
            } else {
                assert(res[i] == surviving(t, p)[i]);
                assert(t.contains(res[i]));
                let k = choose|k: int| 0 <= k < t.len() && t[k] == res[i];
                assert(s[k] == res[i]);
            }
        }
        if instants_sorted(s) {
            assert(instants_sorted(t));
            let res = surviving(s, p);
            assert forall|i: int, j: int|
                0 <= i < j < res.len() && res[i].present is Some && res[j].present is Some implies
                res[i].present->0 <= res[j].present->0 by {
                if keeps(s.last(), p) && j == res.len() - 1 {
                    assert(res[j] == s[s.len() - 1]);
                    assert(res[i] == surviving(t, p)[i]);
                    assert(t.contains(res[i]));
                    let k = choose|k: int| 0 <= k < t.len() && t[k] == res[i];
                    assert(s[k] == res[i]);
                    assert(s[k].present is Some && s[s.len() - 1].present is Some ==> s[k].present->0
                        <= s[s.len() - 1].present->0);
                } else {
                    assert(res[i] == surviving(t, p)[i] && res[j] == surviving(t, p)[j]);
                }
            }
        }
    }
}

/// One push, as the queue's contract states it: the survivors of the
/// newcomer, with the newcomer behind them.
pub open spec fn pushed(s: Seq<VideoFrame>, f: VideoFrame) -> Seq<VideoFrame> {
    surviving(s, f.present).push(f)
}

/// One push keeps the queue monotone: the survivors are monotone and none
/// of them is due after the newcomer at the back.
pub proof fn lemma_push_preserves_monotone(s: Seq<VideoFrame>, f: VideoFrame)
    requires
        instants_sorted(s),
    ensures
        instants_sorted(pushed(s, f)),
{
    lemma_surviving_monotone(s, f.present);
    let res = pushed(s, f);
    assert forall|i: int, j: int|
        0 <= i < j < res.len() && res[i].present is Some && res[j].present is Some implies
        res[i].present->0 <= res[j].present->0 by {
        if j == res.len() - 1 {
            assert(res[i] == surviving(s, f.present)[i]);
            assert(keeps(res[i], f.present));
        } else {
            assert(res[i] == surviving(s, f.present)[i] && res[j] == surviving(s, f.present)[j]);
        }
    }
}

/// The queue after pushing `pushes`, in order, onto frames `s`.
pub open spec fn after_pushes(s: Seq<VideoFrame>, pushes: Seq<VideoFrame>) -> Seq<VideoFrame>
    decreases pushes.len(),
{
    if pushes.len() == 0 {
        s
    } else {
        after_pushes(pushed(s, pushes[0]), pushes.drop_first())
    }
}

/// Any sequence of pushes onto a monotone queue — an empty one included —
/// leaves the surviving frames with non-decreasing presentation instants.
pub proof fn lemma_pushes_monotone(s: Seq<VideoFrame>, pushes: Seq<VideoFrame>)
    requires
        instants_sorted(s),
    ensures
        instants_sorted(after_pushes(s, pushes)),
    decreases pushes.len(),
{
    if pushes.len() > 0 {
        lemma_push_preserves_monotone(s, pushes[0]);
        lemma_pushes_monotone(pushed(s, pushes[0]), pushes.drop_first());
    }
}

/// The earliest and latest known presentation instants among `s`, or `None`
/// when no frame carries one.
pub open spec fn span(s: Seq<VideoFrame>) -> Option<(i64, i64)>
    decreases s.len(),
{
    if s.len() == 0 {
        None
    } else {
        let rest = span(s.drop_last());
        match s.last().present {
            None => rest,
            Some(t) => match rest {
                None => Some((t, t)),
                Some(lohi) => Some(
                    (
                        if t < lohi.0 {
                            t
                        } else {
                            lohi.0
                        },
                        if t > lohi.1 {
                            t
                        } else {
                            lohi.1
                        },
                    ),
                ),
            },
        }
    }
}

/// Whether a frame is due at wall instant `now` when the queue's output
/// delay is added: frames with no known instant are due immediately.
pub open spec fn frame_due(f: VideoFrame, delay: i64, now: i64) -> bool {
    match f.present {
        None => true,
        Some(t) => t + delay <= now,
    }
}

/// How many frames at the front of `s` are due at `now`.
pub open spec fn due_prefix_len(s: Seq<VideoFrame>, delay: i64, now: i64) -> int
    decreases s.len(),
{
    if s.len() == 0 {
        0
    } else if !frame_due(s[0], delay, now) {
        0
    } else {
        1 + due_prefix_len(s.drop_first(), delay, now)
    }
}

/// The due prefix is exactly the frames before the first one not yet due.
pub proof fn lemma_due_prefix_char(s: Seq<VideoFrame>, delay: i64, now: i64, c: int)
    requires
        0 <= c <= s.len(),
        forall|i: int| 0 <= i < c ==> frame_due(#[trigger] s[i], delay, now),
        c < s.len() ==> !frame_due(s[c], delay, now),
    ensures
        due_prefix_len(s, delay, now) == c,
    decreases s.len(),
{
    if c == 0 {
    } else {
        let t = s.drop_first();
        assert(forall|i: int| 0 <= i < t.len() ==> #[trigger] t[i] == s[i + 1]);
        lemma_due_prefix_char(t, delay, now, c - 1);
    }
}

/// The due prefix is never longer than the queue.
pub proof fn lemma_due_prefix_len_bounds(s: Seq<VideoFrame>, delay: i64, now: i64)
    ensures
        0 <= due_prefix_len(s, delay, now) <= s.len(),
    decreases s.len(),
{
    if s.len() > 0 && frame_due(s[0], delay, now) {
        lemma_due_prefix_len_bounds(s.drop_first(), delay, now);
    }
}

/// Frames are presented in non-decreasing timestamp order: the frame that
/// presentation selection hands out precedes, by known instant, every
/// frame it leaves in a monotone queue.
pub proof fn lemma_presentation_order(s: Seq<VideoFrame>, delay: i64, now: i64)
    requires
        instants_sorted(s),
    ensures
        ({
            let k = due_prefix_len(s, delay, now);
            k > 0 ==> forall|i: int|
                k <= i < s.len() && s[k - 1].present is Some && #[trigger] s[i].present is Some
                    ==> s[k - 1].present->0 <= s[i].present->0
        }),
{
    lemma_due_prefix_len_bounds(s, delay, now);
}

/// Buffer of decoded frames between the video pipeline and the display.
pub struct VideoQueue {
    data: Vec<VideoFrame>,
    delay: i64,
}

impl VideoQueue {
    /// The queued frames, oldest due first.
    pub closed spec fn frames(self) -> Seq<VideoFrame> {
        self.data@
    }

    /// Microseconds to add to every frame's presentation instant, so that
    /// display waits for the buffer to fill and for device latency.
    pub closed spec fn delay(self) -> i64 {
        self.delay
    }

    /// Frames stay monotone by presentation instant; the delay is never
    /// negative.
    pub open spec fn wf(self) -> bool {
        &&& instants_sorted(self.frames())
        &&& self.delay() >= 0
    }

    /// An empty queue with no output delay.
    pub fn new() -> (r: VideoQueue)
        ensures
            r.wf(),
            r.frames() == Seq::<VideoFrame>::empty(),
            r.delay() == 0,
    {
        VideoQueue { data: Vec::new(), delay: 0 }
    }

    pub fn len(&self) -> (r: usize)
        ensures
            r == self.frames().len(),
    {
        self.data.len()
    }

    /// The queued frame at position `i`, front of the queue first.
    pub fn get(&self, i: usize) -> (r: &VideoFrame)
        requires
            i < self.frames().len(),
        ensures
            *r == self.frames()[i as int],
    {
        &self.data[i]
    }

    pub fn get_delay(&self) -> (r: i64)
        ensures
            r == self.delay(),
    {
        self.delay
    }

    /// Replaces the output delay; the pacing layer recomputes it after
    /// every packet.
    pub fn set_delay(&mut self, delay: i64)
        requires
            delay >= 0,
        ensures
            final(self).delay() == delay,
            final(self).frames() == old(self).frames(),
            old(self).wf() ==> final(self).wf(),
    {
        self.delay = delay;
    }

    /// Appends a frame, first discarding every queued frame that is due
    /// after it.
    pub fn push(&mut self, frame: VideoFrame)
        requires
            old(self).wf(),
        ensures
            final(self).wf(),
            final(self).frames() == pushed(old(self).frames(), frame),
            final(self).delay() == old(self).delay(),
    {
        let ghost orig: Seq<VideoFrame> = self.data@;
        let ghost p: Option<i64> = frame.present;
        let mut kept: Vec<VideoFrame> = Vec::new();
        let mut taken: usize = 0;
        let n = self.data.len();
        proof {
            assert(orig.len() == n as int);
        }
        while self.data.len() > 0
            invariant
                orig.len() <= usize::MAX,
                taken + self.data@.len() == orig.len(),
                self.data@ == orig.skip(taken as int),
                kept@ == surviving(orig.take(taken as int), p),
                p == frame.present,
                self.delay == old(self).delay,
            decreases self.data@.len(),
        {
            let f = self.data.remove(0);
            proof {
                assert(f == orig[taken as int]);
            }
            let keep: bool = match (f.present, frame.present) {
                (Option::None, _) => true,
                (_, Option::None) => true,
                (Option::Some(mine), Option::Some(new)) => mine <= new,
            };
            assert(keep == keeps(f, p));
            if keep {
                kept.push(f);
            }
            taken = taken + 1;
            proof {
                assert(orig.take(taken as int).drop_last() =~= orig.take(taken as int - 1));
                assert(orig.take(taken as int).last() == orig[taken as int - 1]);
                assert(self.data@ =~= orig.skip(taken as int));
            }
        }
        proof {
            assert(orig.take(orig.len() as int) =~= orig);
        }
        self.data = kept;
        self.data.push(frame);
        proof {
            lemma_push_preserves_monotone(orig, frame);
        }
    }

    /// How much stream time is buffered: the distance, in microseconds,
    /// between the earliest and the latest known presentation instant, and
    /// zero when no frame carries one.
    pub fn duration(&self) -> (r: i64)
        requires
            span(self.frames()) matches Some(lohi) ==> lohi.1 - lohi.0 <= i64::MAX,
        ensures
            match span(self.frames()) {
                Some(lohi) => r == lohi.1 - lohi.0,
                None => r == 0,
            },
            r >= 0,
    {
        let n = self.data.len();
        let mut start_end: Option<(i64, i64)> = None;
        let mut i: usize = 0;
        proof {
            assert(self.frames().take(0int) =~= Seq::<VideoFrame>::empty());
        }
        while i < n
            invariant
                n == self.frames().len(),
                0 <= i <= n,
                start_end == span(self.frames().take(i as int)),
                start_end matches Some(lohi) ==> lohi.0 <= lohi.1,
            decreases n - i,
        {
            let f = &self.data[i];
            match f.present {
                None => {},
                Some(t) => {
                    start_end = match start_end {
                        None => Some((t, t)),
                        Some((lo, hi)) => Some(
                            (if t < lo { t } else { lo }, if t > hi { t } else { hi }),
                        ),
                    };
                },
            }
            i = i + 1;
            proof {
                assert(self.frames().take(i as int).drop_last() =~= self.frames().take(
                    i as int - 1,
                ));
                assert(self.frames().take(i as int).last() == self.frames()[i as int - 1]);
            }
        }
        proof {
            assert(self.frames().take(n as int) =~= self.frames());
        }
        match start_end {
            Some((start, end)) => end - start,
            None => 0,
        }
    }

    /// Takes every frame that is due at wall instant `now`, the queue's
    /// delay included, off the front of the queue. Returns the most recent
    /// of them — the one to show — together with the number of older due
    /// frames it superseded. Frames still in the future stay queued.
    pub fn pop_due(&mut self, now: i64) -> (r: (Option<VideoFrame>, usize))
        requires
            old(self).wf(),
        ensures
            final(self).wf(),
            final(self).delay() == old(self).delay(),
            ({
                let k = due_prefix_len(old(self).frames(), old(self).delay(), now);
                &&& final(self).frames() == old(self).frames().skip(k)
                &&& (k == 0 ==> r.0 is None && r.1 == 0)
                &&& (k > 0 ==> r.0 == Some(old(self).frames()[k - 1]) && r.1 == k - 1)
            }),
    {
        let ghost orig: Seq<VideoFrame> = self.data@;
        let ghost d0: i64 = self.delay;
        let mut last: Option<VideoFrame> = None;
        let mut taken: usize = 0;
        let n = self.data.len();
        proof {
            assert(orig.len() == n as int);
            assert(orig.skip(0int) =~= orig);
        }
        loop
            invariant
                orig.len() <= usize::MAX,
                taken + self.data@.len() == orig.len(),
                self.data@ == orig.skip(taken as int),
                forall|i: int| 0 <= i < taken ==> frame_due(#[trigger] orig[i], d0, now),
                taken == 0 ==> last is None,
                taken > 0 ==> last == Some(orig[taken as int - 1]),
                self.delay == d0,
            ensures
                taken + self.data@.len() == orig.len(),
                self.data@ == orig.skip(taken as int),
                forall|i: int| 0 <= i < taken ==> frame_due(#[trigger] orig[i], d0, now),
                taken == 0 ==> last is None,
                taken > 0 ==> last == Some(orig[taken as int - 1]),
                self.delay == d0,
                taken as int == orig.len() || !frame_due(orig[taken as int], d0, now),
            decreases self.data@.len(),
        {
            if self.data.len() == 0 {
                break ;
            }
            let is_due: bool = {
                let f = &self.data[0];
                match f.present {
                    None => true,
                    Some(t) => (t as i128) + (self.delay as i128) <= now as i128,
                }
            };
            proof {
                assert(self.data@[0] == orig[taken as int]);
                assert(is_due == frame_due(orig[taken as int], d0, now));
            }
            if !is_due {
                break ;
            }
            let f = self.data.remove(0);
            last = Some(f);
            taken = taken + 1;
            proof {
                assert(self.data@ =~= orig.skip(taken as int));
            }
        }
        proof {
            lemma_due_prefix_char(orig, d0, now, taken as int);
            let k = due_prefix_len(orig, d0, now);
            let rest = orig.skip(k);
            assert(forall|i: int| 0 <= i < rest.len() ==> #[trigger] rest[i] == orig[i + k]);
        }
        let skipped: usize = if taken > 0 {
            taken - 1
        } else {
            0
        };
        (last, skipped)
    }

    /// Drops every queued frame; the delay is kept. A seek purges the
    /// queue this way.
    pub fn clear(&mut self)
        ensures
            final(self).wf() == (final(self).delay() >= 0),
            final(self).frames() == Seq::<VideoFrame>::empty(),
            final(self).delay() == old(self).delay(),
    {
        self.data.clear();
    }
}

} // verus!
