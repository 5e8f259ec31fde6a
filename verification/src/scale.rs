//! The video scale/convert stage. Each decoded picture is converted to the
//! fixed display format by a converter the multimedia framework provides;
//! this module holds the decisions around that call: when the cached
//! converter must be rebuilt, which pending frame to convert when the stage
//! falls behind, and the wall instant the converted frame is due.

use vstd::prelude::*;

verus! {

/// What the cached converter was built for: the source picture's numeric
/// pixel-format tag and size. Conversion parameters rarely change, so the
/// converter is rebuilt only when they do, never per frame.
#[derive(Clone, Copy, Debug, PartialEq, Eq, Structural)]
pub struct ConverterSetup {
    pub format: u32,
    pub width: u32,
    pub height: u32,
}

impl ConverterSetup {
    /// Whether the cached converter already fits a picture of this format
    /// and size.
    pub fn matches_input(&self, format: u32, width: u32, height: u32) -> (r: bool)
        ensures
            r == (self.format == format && self.width == width && self.height == height),
    {
        self.format == format && self.width == width && self.height == height
    }

    /// Adopts the given input parameters, reporting whether the converter
    /// they describe must be rebuilt.
    pub fn rebuild_for(&mut self, format: u32, width: u32, height: u32) -> (rebuilt: bool)
        ensures
            final(self).format == format,
            final(self).width == width,
            final(self).height == height,
            rebuilt == !(old(self).format == format && old(self).width == width && old(
                self,
            ).height == height),
    {
        let rebuilt = !self.matches_input(format, width, height);
        self.format = format;
        self.width = width;
        self.height = height;
        rebuilt
    }
}

/// Backpressure policy: when more than one frame is pending, convert only
/// the most recently produced one and report how many older ones were
/// skipped — video freshness over completeness.
pub fn take_latest<T>(pending: Vec<T>) -> (r: (Option<T>, usize))
    ensures
        pending@.len() == 0 ==> r.0 is None && r.1 == 0,
        pending@.len() > 0 ==> r.0 == Some(pending@.last()) && r.1 == pending@.len() - 1,
{
    let mut rest = pending;
    match rest.pop() {
        None => (None, 0),
        Some(newest) => {
            let skipped = rest.len();
            (Some(newest), skipped)
        },
    }
}

/// The wall instant a frame with stream time `pts_micros` is due, from a
/// snapshot of the synchronization anchor: anchor plus stream time. Known
/// exactly when both are known and the sum fits the clock's range.
pub fn presentation_instant(anchor: Option<i64>, pts_micros: Option<i64>) -> (r: Option<i64>)
    ensures
        r matches Some(p) ==> anchor matches Some(t) && pts_micros matches Some(e) && p == t + e,
        r is None ==> anchor is None || pts_micros is None || !(i64::MIN <= (anchor->0
            + pts_micros->0) <= i64::MAX),
{
    match (anchor, pts_micros) {
        (Some(t), Some(e)) => {
            let sum: i128 = t as i128 + e as i128;
            if i64::MIN as i128 <= sum && sum <= i64::MAX as i128 {
                Some(sum as i64)
            } else {
                None
            }
        },
        _ => None,
    }
}

} // verus!
