use crate::decode::{act_of_byte, zone_of_tag, Act, ZoneContext};
use crate::sampled::{next_field, next_pair, SamplePair, SampledField};
use vstd::prelude::*;

verus! {

/// The raw values read from the game in one tick; `None` where a read failed.
#[derive(Clone, Copy, Debug, PartialEq, Eq)]
pub struct RawSample {
    pub state: Option<u8>,
    pub levelid: Option<u8>,
    pub startindicator: Option<u8>,
    pub zoneselectongamecomplete: Option<u8>,
    pub zoneindicator: Option<u32>,
}

/// The sampled fields the decision rules read.
#[derive(Clone, Copy, Debug, PartialEq, Eq)]
pub struct WatcherSet {
    pub state: SampledField<u8>,
    pub levelid: SampledField<Act>,
    pub startindicator: SampledField<u8>,
    pub zoneselectongamecomplete: SampledField<u8>,
    pub zoneindicator: SampledField<ZoneContext>,
}

/// The level field after a tick whose zone reads `zone`: in a level it takes the
/// decoded level byte, in the ending it becomes `Default`, and elsewhere it keeps
/// its current act.
pub open spec fn next_level(
    p: Option<SamplePair<Act>>,
    zone: ZoneContext,
    raw: Option<u8>,
) -> Option<SamplePair<Act>> {
    match zone {
        ZoneContext::Ending => Some(next_pair(p, Act::Default)),
        ZoneContext::Zones => match raw {
            None => p,
            Some(b) => Some(next_pair(p, act_of_byte(b))),
        },
        _ => Some(
            next_pair(
                p,
                match p {
                    Some(q) => q.current,
                    None => Act::Default,
                },
            ),
        ),
    }
}

impl RawSample {
    /// Whether every read that the tick depends on succeeded: the level byte
    /// matters only while the zone tag says a level is being played.
    pub open spec fn complete(self) -> bool {
        &&& self.state is Some
        &&& self.startindicator is Some
        &&& self.zoneselectongamecomplete is Some
        &&& self.zoneindicator is Some
        &&& zone_of_tag(self.zoneindicator->0) == ZoneContext::Zones ==> self.levelid is Some
    }
}

impl WatcherSet {
    /// The fields after feeding them one sample.
    pub open spec fn next(self, s: RawSample) -> WatcherSet {
        WatcherSet {
            state: SampledField { pair: next_field(self.state.pair, s.state) },
            startindicator: SampledField {
                pair: next_field(self.startindicator.pair, s.startindicator),
            },
            zoneselectongamecomplete: SampledField {
                pair: next_field(self.zoneselectongamecomplete.pair, s.zoneselectongamecomplete),
            },
            zoneindicator: SampledField {
                pair: match s.zoneindicator {
                    None => self.zoneindicator.pair,
                    Some(t) => Some(next_pair(self.zoneindicator.pair, zone_of_tag(t))),
                },
            },
            levelid: SampledField {
                pair: match s.zoneindicator {
                    None => self.levelid.pair,
                    Some(t) => next_level(self.levelid.pair, zone_of_tag(t), s.levelid),
                },
            },
        }
    }

    /// A set in which nothing has been sampled yet.
    pub fn new() -> (r: WatcherSet)
        ensures
            r.state.pair is None,
            r.levelid.pair is None,
            r.startindicator.pair is None,
            r.zoneselectongamecomplete.pair is None,
            r.zoneindicator.pair is None,
    {
        WatcherSet {
            state: SampledField::new(),
            levelid: SampledField::new(),
            startindicator: SampledField::new(),
            zoneselectongamecomplete: SampledField::new(),
            zoneindicator: SampledField::new(),
        }
    }

    /// Feeds one tick's reads into the fields and decodes the zone and act.
    /// A failed read leaves its field as it was. Returns whether the sample was
    /// complete, that is whether the rules may be evaluated this tick.
    pub fn update(&mut self, s: &RawSample) -> (r: bool)
        ensures
            *final(self) == old(self).next(*s),
            r == s.complete(),
    {
        self.state.update_opt(s.state);
        self.startindicator.update_opt(s.startindicator);
        self.zoneselectongamecomplete.update_opt(s.zoneselectongamecomplete);
        let complete_basic = s.state.is_some() && s.startindicator.is_some()
            && s.zoneselectongamecomplete.is_some();
        match s.zoneindicator {
            None => false,
            Some(t) => {
                let zone = self.zoneindicator.update(ZoneContext::from_tag(t)).current;
                match zone {
                    ZoneContext::Ending => {
                        self.levelid.update(Act::Default);
                        complete_basic
                    },
                    ZoneContext::Zones => match s.levelid {
                        None => false,
                        Some(b) => {
                            self.levelid.update(Act::from_level_byte(b));
                            complete_basic
                        },
                    },
                    _ => {
                        let keep = match self.levelid.pair {
                            Some(q) => q.current,
                            None => Act::Default,
                        };
                        self.levelid.update(keep);
                        complete_basic
                    },
                }
            },
        }
    }
}

/// While the zone tag reads the main menu, the save select or an unknown value,
/// the act keeps its current value across a tick, whatever the level byte read.
pub proof fn lemma_menus_keep_act(w: WatcherSet, s: RawSample)
    requires
        s.zoneindicator matches Some(t) && zone_of_tag(t) != ZoneContext::Zones && zone_of_tag(t)
            != ZoneContext::Ending,
        w.levelid.pair is Some,
    ensures
        w.next(s).levelid.pair matches Some(q) && q.current == w.levelid.pair->0.current,
{
}

} // verus!
