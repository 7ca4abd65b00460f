use std::hash::{Hash, Hasher};
use std::time::Instant;
use vstd::prelude::*;

verus! {

/// Device capability types.
#[derive(Debug, Clone, Copy, PartialEq, Eq, Structural, Hash)]
pub enum Capability {
    Sense,
    Act,
    Route,
    Predict,
    Train,
    Communicate,
}

/// Device tier: determines compute power and role in the hierarchy.
/// Tiers are ordered `Reflex < Backbone < Cortex < Cloud`.
#[derive(Debug, Clone, Copy, PartialEq, Eq, Structural, Hash, PartialOrd, Ord)]
pub enum DeviceTier {
    /// ESP32/Arduino: hardcoded responses, no thinking
    Reflex,
    /// Raspberry Pi: routes signals, runs local agent
    Backbone,
    /// Jetson/Workstation: perception, models, training
    Cortex,
    /// Remote: heavy compute, APIs, training
    Cloud,
}

/// The position of a tier in the hierarchy, from 0 (`Reflex`) to 3 (`Cloud`).
pub open spec fn tier_rank(t: DeviceTier) -> nat {
    match t {
        DeviceTier::Reflex => 0,
        DeviceTier::Backbone => 1,
        DeviceTier::Cortex => 2,
        DeviceTier::Cloud => 3,
    }
}

/// The tiers stand in the order `Reflex < Backbone < Cortex < Cloud`, each
/// one rank above the one before, and no two share a rank.
pub proof fn lemma_tier_order()
    ensures
        tier_rank(DeviceTier::Reflex) == 0,
        tier_rank(DeviceTier::Reflex) + 1 == tier_rank(DeviceTier::Backbone),
        tier_rank(DeviceTier::Backbone) + 1 == tier_rank(DeviceTier::Cortex),
        tier_rank(DeviceTier::Cortex) + 1 == tier_rank(DeviceTier::Cloud),
        forall|a: DeviceTier, b: DeviceTier| tier_rank(a) == tier_rank(b) ==> a == b,
{
}

/// The name of a tier, as its `Debug` form writes it.
pub open spec fn tier_name(t: DeviceTier) -> Seq<char> {
    match t {
        DeviceTier::Reflex => "Reflex"@,
        DeviceTier::Backbone => "Backbone"@,
        DeviceTier::Cortex => "Cortex"@,
        DeviceTier::Cloud => "Cloud"@,
    }
}

impl DeviceTier {
    /// The name of this tier.
    pub fn name(&self) -> (s: &'static str)
        ensures
            s@ == tier_name(*self),
    {
        match self {
            DeviceTier::Reflex => "Reflex",
            DeviceTier::Backbone => "Backbone",
            DeviceTier::Cortex => "Cortex",
            DeviceTier::Cloud => "Cloud",
        }
    }

    /// The position of this tier in the hierarchy (the order that `Ord` gives).
    pub fn rank(&self) -> (r: u8)
        ensures
            r == tier_rank(*self),
    {
        match self {
            DeviceTier::Reflex => 0,
            DeviceTier::Backbone => 1,
            DeviceTier::Cortex => 2,
            DeviceTier::Cloud => 3,
        }
    }

    /// `self <= other` in the tier order.
    pub fn at_most(&self, other: &DeviceTier) -> (b: bool)
        ensures
            b == (tier_rank(*self) <= tier_rank(*other)),
    {
        self.rank() <= other.rank()
    }
}


/// `std::time::Instant`, declared so that a device can carry the moment it
/// was last seen. Verus sees nothing inside it.
#[verifier::external_type_specification]
#[verifier::external_body]
pub struct ExInstant(Instant);

/// Reads the monotonic clock through `std::time::Instant::now`.
/// The reading depends on the time of the call, so nothing is claimed of it.
#[verifier::external_body]
fn clock_now() -> (t: Instant) {
    Instant::now()
}

/// `Instant` is `Copy`: its `clone` hands back the same instant.
pub assume_specification[ <Instant as Clone>::clone ](t: &Instant) -> (r: Instant)
    ensures
        r == *t,
;

/// `String::hash` feeds the string into a hasher. Nothing is claimed of the
/// hasher's state afterwards.
pub assume_specification<H: Hasher>[ <String as Hash>::hash::<H> ](s: &String, state: &mut H);

/// The set of capabilities that a list of capabilities names.
pub open spec fn capability_set(caps: Seq<Capability>) -> Set<Capability> {
    caps.to_set()
}

/// A device in the network. Two devices are equal when their ids are.
#[derive(Debug, Clone)]
pub struct Device {
    pub id: String,
    pub name: String,
    pub tier: DeviceTier,
    /// The capabilities of the device, each listed once.
    pub capabilities: Vec<Capability>,
    pub last_seen: Instant,
}

impl Device {
    /// A device with no capabilities, last seen now.
    pub fn new(id: &str, name: &str, tier: DeviceTier) -> (d: Device)
        ensures
            d.id@ == id@,
            d.name@ == name@,
            d.tier == tier,
            d.capabilities@ == Seq::<Capability>::empty(),
    {
        Device {
            id: id.to_owned(),
            name: name.to_owned(),
            tier,
            capabilities: Vec::new(),
            last_seen: clock_now(),
        }
    }

    /// Whether the device has capability `cap`.
    pub fn can(&self, cap: Capability) -> (b: bool)
        ensures
            b == capability_set(self.capabilities@).contains(cap),
    {
        let mut i: usize = 0;
        while i < self.capabilities.len()
            invariant
                i <= self.capabilities.len(),
                forall|j: int| 0 <= j < i ==> self.capabilities@[j] != cap,
            decreases self.capabilities.len() - i,
        {
            if self.capabilities[i] == cap {
                assert(self.capabilities@.contains(cap));
                return true;
            }
            i = i + 1;
        }
        false
    }

    pub fn tier(&self) -> (t: DeviceTier)
        ensures
            t == self.tier,
    {
        self.tier
    }

    /// Replaces the capabilities by those in `caps`, each kept once.
    pub fn with_capabilities(self, caps: Vec<Capability>) -> (d: Device)
        ensures
            d.id == self.id,
            d.name == self.name,
            d.tier == self.tier,
            d.last_seen == self.last_seen,
            capability_set(d.capabilities@) == capability_set(caps@),
            d.capabilities@.no_duplicates(),
    {
        let mut set: Vec<Capability> = Vec::new();
        let mut i: usize = 0;
        while i < caps.len()
            invariant
                i <= caps.len(),
                set@.no_duplicates(),
                set@.to_set() == caps@.subrange(0, i as int).to_set(),
            decreases caps.len() - i,
        {
            let c = caps[i];
            let mut found = false;
            let mut k: usize = 0;
            while k < set.len()
                invariant
                    k <= set.len(),
                    found == (exists|j: int| 0 <= j < k && set@[j] == c),
                decreases set.len() - k,
            {
                if set[k] == c {
                    found = true;
                }
                k = k + 1;
            }
            proof {
                assert(caps@.subrange(0, i + 1) == caps@.subrange(0, i as int).push(c));
                caps@.subrange(0, i as int).lemma_push_to_set_commute(c);
                if found {
                    assert(set@.contains(c));
                    assert(set@.to_set().insert(c) =~= set@.to_set());
                }
            }
            if !found {
                proof {
                    set@.lemma_push_to_set_commute(c);
                }
                set.push(c);
            }
            i = i + 1;
        }
        assert(caps@.subrange(0, caps.len() as int) == caps@);
        Device { capabilities: set, ..self }
    }
}

impl PartialEq for Device {
    fn eq(&self, other: &Self) -> (r: bool) {
        self.id == other.id
    }
}

impl vstd::std_specs::cmp::PartialEqSpecImpl for Device {
    open spec fn obeys_eq_spec() -> bool {
        true
    }

    open spec fn eq_spec(&self, other: &Device) -> bool {
        self.id@ == other.id@
    }
}

impl Eq for Device {}

impl Hash for Device {
    fn hash<H: Hasher>(&self, state: &mut H) {
        self.id.hash(state);
    }
}

} // verus!
