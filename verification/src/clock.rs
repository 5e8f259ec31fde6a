//! The synchronization clock. Audio is played by the device at its own
//! cadence, so wall-clock time is mapped to stream time through a single
//! anchor: the wall instant at which stream time zero would have played.
//! The anchor is established once, by the first resampled audio chunk that
//! carries a timestamp, and cleared only by an explicit reset (a seek).
//! Every later chunk merely measures drift against it.

use vstd::prelude::*;

verus! {

/// Minimum drift, in microseconds, before the driver reacts: smaller
/// surpluses are not worth sleeping for, smaller deficits not worth skipping.
pub const SYNC_SLACK_MICROS: i64 = 1000;

/// What the drift check after one resampled audio chunk found.
#[derive(Clone, Copy, Debug, PartialEq, Eq, Structural)]
pub enum SyncAction {
    /// The chunk carried no timestamp, so nothing could be measured.
    NoTimestamp,
    /// This chunk established the anchor; there was nothing to compare yet.
    Anchored,
    /// Decoding is ahead of the wall clock by `surplus` microseconds; the
    /// driver may sleep most of it away.
    Ahead { surplus: i64 },
    /// Decoding is behind the wall clock by `deficit` microseconds (zero
    /// means exactly in step); frame skipping is the designed remedy.
    Behind { deficit: i64 },
}

/// An anchor value as a mathematical integer, for stating the clock's
/// transition exactly.
pub open spec fn anchor_as_int(anchor: Option<i64>) -> Option<int> {
    match anchor {
        Some(t) => Some(t as int),
        None => None,
    }
}

/// The anchor after one audio chunk with stream time `pts_micros`,
/// observed at wall instant `now`: an established anchor stands untouched;
/// an unestablished one is established by the first known timestamp, as
/// `now` minus the stream time already elapsed.
pub open spec fn anchor_after_chunk(
    anchor: Option<i64>,
    pts_micros: Option<i64>,
    now: i64,
) -> Option<int> {
    match anchor {
        Some(t) => Some(t as int),
        None => match pts_micros {
            Some(e) => Some(now - e),
            None => None,
        },
    }
}

/// The anchor is established exactly once between resets: a chunk finds
/// the clock unestablished only until the first timestamped chunk, which
/// establishes it, and from then on no chunk moves it — only a reset
/// clears it.
pub proof fn lemma_anchor_established_once(anchor: Option<i64>, pts_micros: Option<i64>, now: i64)
    ensures
        anchor is Some ==> anchor_after_chunk(anchor, pts_micros, now) == anchor_as_int(anchor),
        anchor is None && pts_micros is Some ==> anchor_after_chunk(anchor, pts_micros, now)
            == Some(now - pts_micros->0),
        anchor is None && pts_micros is None ==> anchor_after_chunk(anchor, pts_micros, now)
            is None,
{
}

/// The sync anchor. `None` means unestablished: no timestamped audio has
/// been seen since start or since the last seek.
pub struct SyncClock {
    anchor_micros: Option<i64>,
}

impl SyncClock {
    /// The wall instant, in microseconds, at which stream time zero played;
    /// `None` while unestablished.
    pub closed spec fn anchor(self) -> Option<i64> {
        self.anchor_micros
    }

    /// A fresh clock is unestablished.
    pub fn new() -> (r: SyncClock)
        ensures
            r.anchor() is None,
    {
        SyncClock { anchor_micros: None }
    }

    /// Whether the anchor has been established.
    pub fn is_established(&self) -> (r: bool)
        ensures
            r == (self.anchor() is Some),
    {
        self.anchor_micros.is_some()
    }

    /// Clears the anchor. Every seek must do this, whatever the prior state.
    pub fn reset(&mut self)
        ensures
            final(self).anchor() is None,
    {
        self.anchor_micros = None;
    }

    /// Accounts for one resampled audio chunk, due at stream time
    /// `pts_micros` (if known), observed at wall instant `now`.
    ///
    /// The first timestamped chunk establishes the anchor as `now` minus the
    /// stream time already elapsed; an established anchor is never moved.
    /// Against an established anchor the chunk only measures drift:
    /// the stream time it carries against the wall time since the anchor.
    pub fn on_chunk(&mut self, pts_micros: Option<i64>, now: i64) -> (r: SyncAction)
        requires
            pts_micros is Some && old(self).anchor() is None ==> i64::MIN <= now - pts_micros->0
                <= i64::MAX,
            old(self).anchor() is Some && pts_micros is Some ==> -0x7fff_ffff_ffff_ffff
                <= pts_micros->0 - (now - old(self).anchor()->0) <= 0x7fff_ffff_ffff_ffff,
        ensures
            anchor_as_int(final(self).anchor()) == anchor_after_chunk(
                old(self).anchor(),
                pts_micros,
                now,
            ),
            old(self).anchor() is Some ==> final(self).anchor() == old(self).anchor(),
            pts_micros is None ==> final(self).anchor() == old(self).anchor() && r
                == SyncAction::NoTimestamp,
            pts_micros is Some && old(self).anchor() is None ==> final(self).anchor()
                == Some((now - pts_micros->0) as i64) && r == SyncAction::Anchored,
            old(self).anchor() is Some && pts_micros is Some ==> r == (if pts_micros->0 > now
                - old(self).anchor()->0 {
                SyncAction::Ahead {
                    surplus: (pts_micros->0 - (now - old(self).anchor()->0)) as i64,
                }
            } else {
                SyncAction::Behind {
                    deficit: ((now - old(self).anchor()->0) - pts_micros->0) as i64,
                }
            }),
    {
        match pts_micros {
            None => SyncAction::NoTimestamp,
            Some(expected) => {
                match self.anchor_micros {
                    None => {
                        self.anchor_micros = Some(now - expected);
                        SyncAction::Anchored
                    },
                    Some(anchor) => {
                        let expected_i128: i128 = expected as i128;
                        let actual_i128: i128 = now as i128 - anchor as i128;
                        if expected_i128 > actual_i128 {
                            SyncAction::Ahead { surplus: (expected_i128 - actual_i128) as i64 }
                        } else {
                            SyncAction::Behind { deficit: (actual_i128 - expected_i128) as i64 }
                        }
                    },
                }
            },
        }
    }

    /// A snapshot of the anchor, for the video convert stage to compute
    /// presentation instants from.
    pub fn anchor_value(&self) -> (r: Option<i64>)
        ensures
            r == self.anchor(),
    {
        self.anchor_micros
    }
}

/// How long the decode driver should sleep when it runs ahead by
/// `surplus` microseconds: the surplus minus the slack, so that it never
/// oversleeps, and nothing at all when the surplus is within the slack.
pub fn drift_sleep(surplus: i64) -> (r: Option<i64>)
    requires
        surplus >= 0,
    ensures
        r == (if surplus > SYNC_SLACK_MICROS {
            Some((surplus - SYNC_SLACK_MICROS) as i64)
        } else {
            None::<i64>
        }),
{
    if surplus > SYNC_SLACK_MICROS {
        Some(surplus - SYNC_SLACK_MICROS)
    } else {
        None
    }
}

/// How much stream time is worth skipping when the decoder lags by
/// `deficit` microseconds: the whole deficit once it exceeds the slack.
pub fn drift_skip(deficit: i64) -> (r: Option<i64>)
    requires
        deficit >= 0,
    ensures
        r == (if deficit > SYNC_SLACK_MICROS {
            Some(deficit)
        } else {
            None::<i64>
        }),
{
    if deficit > SYNC_SLACK_MICROS {
        Some(deficit)
    } else {
        None
    }
}

} // verus!
