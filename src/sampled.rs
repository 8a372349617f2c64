use crate::decode::{Act, ZoneContext};
use vstd::prelude::*;

verus! {

/// The two most recent samples of one value.
#[derive(Clone, Copy, Debug, PartialEq, Eq)]
pub struct SamplePair<T> {
    pub old: T,
    pub current: T,
}

/// Holds the last two samples of a periodically re-read value.
#[derive(Clone, Copy, Debug, PartialEq, Eq)]
pub struct SampledField<T> {
    pub pair: Option<SamplePair<T>>,
}

/// The pair after one successful sample `v`.
pub open spec fn next_pair<T>(p: Option<SamplePair<T>>, v: T) -> SamplePair<T> {
    match p {
        None => SamplePair { old: v, current: v },
        Some(q) => SamplePair { old: q.current, current: v },
    }
}

/// A field after one read: unchanged where the read failed.
pub open spec fn next_field<T>(p: Option<SamplePair<T>>, v: Option<T>) -> Option<SamplePair<T>> {
    match v {
        None => p,
        Some(x) => Some(next_pair(p, x)),
    }
}

/// The two most recent samples differ; false before the first sample.
pub open spec fn differs<T>(p: Option<SamplePair<T>>) -> bool {
    p matches Some(q) && q.old != q.current
}

/// The first sample fills both slots with it; each later sample moves the previous
/// one to `old`.
pub proof fn lemma_update_order<T>(p: Option<SamplePair<T>>, v: T, w: T)
    ensures
        next_pair(None, v) == (SamplePair { old: v, current: v }),
        next_pair(Some(next_pair(p, v)), w) == (SamplePair { old: v, current: w }),
{
}

/// After samples `v` then `w`, with any number of failed reads around them,
/// the field reports a change exactly when `v` and `w` differ; a failed read
/// never alters what it reports.
pub proof fn lemma_changed_tracks_last_two<T>(p: Option<SamplePair<T>>, v: T, w: T)
    ensures
        differs(next_field(Some(next_pair(p, v)), Some(w))) <==> v != w,
        next_field(p, None) == p,
        differs(next_field(p, None)) == differs(p),
{
}

impl<T: Copy> SampledField<T> {
    /// A field that has not been sampled yet.
    pub fn new() -> (r: Self)
        ensures
            r.pair is None,
    {
        SampledField { pair: None }
    }

    /// Records a successful sample: the previous `current` becomes `old`.
    pub fn update(&mut self, v: T) -> (r: SamplePair<T>)
        ensures
            final(self).pair == Some(next_pair(old(self).pair, v)),
            r == next_pair(old(self).pair, v),
    {
        let p = match self.pair {
            None => SamplePair { old: v, current: v },
            Some(q) => SamplePair { old: q.current, current: v },
        };
        self.pair = Some(p);
        p
    }

    /// Records the outcome of one read: a failed read (`None`) leaves the field as it was.
    pub fn update_opt(&mut self, v: Option<T>)
        ensures
            final(self).pair == next_field(old(self).pair, v),
    {
        if let Some(x) = v {
            self.update(x);
        }
    }
}

impl SampledField<u8> {
    /// Whether the two most recent samples differ; false before the first sample.
    pub fn changed(&self) -> (r: bool)
        ensures
            r == differs(self.pair),
    {
        match self.pair {
            None => false,
            Some(p) => p.old != p.current,
        }
    }
}

impl SampledField<Act> {
    /// Whether the two most recent samples differ; false before the first sample.
    pub fn changed(&self) -> (r: bool)
        ensures
            r == differs(self.pair),
    {
        match self.pair {
            None => false,
            Some(p) => p.old != p.current,
        }
    }
}

impl SampledField<ZoneContext> {
    /// Whether the two most recent samples differ; false before the first sample.
    pub fn changed(&self) -> (r: bool)
        ensures
            r == differs(self.pair),
    {
        match self.pair {
            None => false,
            Some(p) => p.old != p.current,
        }
    }
}

} // verus!
