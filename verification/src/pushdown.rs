use crate::device::{tier_rank, DeviceTier};
use vstd::prelude::*;

verus! {

/// Classification of compute requirements, from `Trivial` to `Massive`.
#[derive(Debug, Clone, Copy, PartialEq, Eq, Structural, PartialOrd, Ord)]
pub enum ComputeClass {
    Trivial,
    Light,
    Medium,
    Heavy,
    Massive,
}

/// The position of a compute class in its order, from 0 (`Trivial`) to 4 (`Massive`).
pub open spec fn compute_rank(c: ComputeClass) -> nat {
    match c {
        ComputeClass::Trivial => 0,
        ComputeClass::Light => 1,
        ComputeClass::Medium => 2,
        ComputeClass::Heavy => 3,
        ComputeClass::Massive => 4,
    }
}

/// The compute classes stand in the order
/// `Trivial < Light < Medium < Heavy < Massive`, one rank apart.
pub proof fn lemma_compute_order()
    ensures
        compute_rank(ComputeClass::Trivial) == 0,
        compute_rank(ComputeClass::Trivial) + 1 == compute_rank(ComputeClass::Light),
        compute_rank(ComputeClass::Light) + 1 == compute_rank(ComputeClass::Medium),
        compute_rank(ComputeClass::Medium) + 1 == compute_rank(ComputeClass::Heavy),
        compute_rank(ComputeClass::Heavy) + 1 == compute_rank(ComputeClass::Massive),
{
}

impl ComputeClass {
    /// The position of this class in the order that `Ord` gives.
    pub fn rank(&self) -> (r: u8)
        ensures
            r == compute_rank(*self),
    {
        match self {
            ComputeClass::Trivial => 0,
            ComputeClass::Light => 1,
            ComputeClass::Medium => 2,
            ComputeClass::Heavy => 3,
            ComputeClass::Massive => 4,
        }
    }
}

/// A feature that may be pushed down to a lower tier.
#[derive(Debug)]
pub struct FeatureSpec {
    pub name: String,
    pub min_tier: DeviceTier,
    /// Memory the feature needs, in bytes.
    pub memory_bytes: u64,
    pub compute_estimate: ComputeClass,
}

impl Clone for FeatureSpec {
    fn clone(&self) -> (r: Self)
        ensures
            r == *self,
    {
        FeatureSpec {
            name: self.name.clone(),
            min_tier: self.min_tier,
            memory_bytes: self.memory_bytes,
            compute_estimate: self.compute_estimate,
        }
    }
}

/// Result of pushing a feature down.
#[derive(Debug, Clone, PartialEq, Eq, Structural)]
pub enum FeatureStatus {
    /// Feature can run at this tier
    Available,
    /// Feature is degraded (running at lower quality)
    Degraded,
    /// Feature cannot run at this tier: dropped
    Dropped,
}

/// A feature that has been evaluated for push-down.
#[derive(Debug, Clone)]
pub struct PushedFeature {
    pub spec: FeatureSpec,
    pub status: FeatureStatus,
    pub running_at: DeviceTier,
}

/// The largest compute class a tier can run.
pub open spec fn compute_capacity(t: DeviceTier) -> ComputeClass {
    match t {
        DeviceTier::Reflex => ComputeClass::Trivial,
        DeviceTier::Backbone => ComputeClass::Light,
        DeviceTier::Cortex => ComputeClass::Heavy,
        DeviceTier::Cloud => ComputeClass::Massive,
    }
}

/// The memory a tier offers, in bytes: 520KB, 4GB, 32GB, unbounded.
pub open spec fn memory_capacity(t: DeviceTier) -> u64 {
    match t {
        DeviceTier::Reflex => 520_000,
        DeviceTier::Backbone => 4_000_000_000,
        DeviceTier::Cortex => 32_000_000_000,
        DeviceTier::Cloud => u64::MAX,
    }
}

/// Whether the compute and memory that `f` needs fit in tier `t`.
pub open spec fn fits_capacity(f: FeatureSpec, t: DeviceTier) -> bool {
    &&& f.memory_bytes <= memory_capacity(t)
    &&& compute_rank(f.compute_estimate) <= compute_rank(compute_capacity(t))
}

/// The status of feature `f` on tier `t`: available when the tier meets its
/// minimum and its needs fit; degraded when only its needs fit, on `Backbone`
/// or above; dropped otherwise.
pub open spec fn feature_status(f: FeatureSpec, t: DeviceTier) -> FeatureStatus {
    if tier_rank(f.min_tier) <= tier_rank(t) && fits_capacity(f, t) {
        FeatureStatus::Available
    } else if tier_rank(t) >= 1 && fits_capacity(f, t) {
        FeatureStatus::Degraded
    } else {
        FeatureStatus::Dropped
    }
}

/// Tier capacity for compute and memory (rough estimates).
fn tier_capacity(tier: DeviceTier) -> (r: (ComputeClass, u64))
    ensures
        r == (compute_capacity(tier), memory_capacity(tier)),
{
    match tier {
        DeviceTier::Reflex => (ComputeClass::Trivial, 520_000),
        DeviceTier::Backbone => (ComputeClass::Light, 4_000_000_000),
        DeviceTier::Cortex => (ComputeClass::Heavy, 32_000_000_000),
        DeviceTier::Cloud => (ComputeClass::Massive, u64::MAX),
    }
}

/// Evaluates which features can run at the available tier. Features that
/// require a higher tier are either degraded or dropped.
pub fn push_down(features: &[FeatureSpec], available_tier: DeviceTier) -> (r: Vec<PushedFeature>)
    ensures
        r.len() == features.len(),
        forall|i: int|
            0 <= i < features.len() ==> {
                &&& (#[trigger] r[i]).spec == features[i]
                &&& r[i].status == feature_status(features[i], available_tier)
                &&& r[i].running_at == available_tier
            },
{
    let (max_compute, max_memory) = tier_capacity(available_tier);
    let tier_rank_now = available_tier.rank();
    let compute_cap = max_compute.rank();
    let mut r: Vec<PushedFeature> = Vec::new();
    let mut i: usize = 0;
    while i < features.len()
        invariant
            i <= features.len(),
            r.len() == i,
            tier_rank_now == tier_rank(available_tier),
            compute_cap == compute_rank(compute_capacity(available_tier)),
            max_memory == memory_capacity(available_tier),
            forall|j: int|
                0 <= j < i ==> {
                    &&& (#[trigger] r[j]).spec == features[j]
                    &&& r[j].status == feature_status(features[j], available_tier)
                    &&& r[j].running_at == available_tier
                },
        decreases features.len() - i,
    {
        let spec = &features[i];
        let tier_ok = spec.min_tier.rank() <= tier_rank_now;
        let memory_ok = spec.memory_bytes <= max_memory;
        let compute_ok = spec.compute_estimate.rank() <= compute_cap;
        let status = if tier_ok && memory_ok && compute_ok {
            FeatureStatus::Available
        } else if tier_rank_now >= 1 && compute_ok && memory_ok {
            FeatureStatus::Degraded
        } else {
            FeatureStatus::Dropped
        };
        r.push(PushedFeature { spec: spec.clone(), status, running_at: available_tier });
        i = i + 1;
    }
    r
}

/// A feature available on a tier is available on every higher tier.
pub proof fn lemma_available_moves_up(f: FeatureSpec, low: DeviceTier, high: DeviceTier)
    requires
        tier_rank(low) <= tier_rank(high),
        feature_status(f, low) == FeatureStatus::Available,
    ensures
        feature_status(f, high) == FeatureStatus::Available,
{
}

/// What each tier can hold: `Reflex` trivial compute within 520 KB,
/// `Backbone` up to light compute within 4 GB, `Cortex` up to heavy compute
/// within 32 GB, `Cloud` anything. A feature that needs more than its tier
/// holds is dropped there; one that fits is never dropped on `Backbone` or
/// above, and is available on `Reflex` when it asks for no more than `Reflex`.
pub proof fn lemma_tier_capacities(f: FeatureSpec)
    ensures
        (f.compute_estimate != ComputeClass::Trivial || f.memory_bytes > 520_000)
            ==> feature_status(f, DeviceTier::Reflex) == FeatureStatus::Dropped,
        (f.compute_estimate == ComputeClass::Trivial && f.memory_bytes <= 520_000 && f.min_tier == DeviceTier::Reflex)
            ==> feature_status(f, DeviceTier::Reflex) == FeatureStatus::Available,
        (f.compute_estimate == ComputeClass::Medium || f.compute_estimate == ComputeClass::Heavy
            || f.compute_estimate == ComputeClass::Massive || f.memory_bytes > 4_000_000_000)
            ==> feature_status(f, DeviceTier::Backbone) == FeatureStatus::Dropped,
        ((f.compute_estimate == ComputeClass::Trivial || f.compute_estimate == ComputeClass::Light)
            && f.memory_bytes <= 4_000_000_000)
            ==> feature_status(f, DeviceTier::Backbone) != FeatureStatus::Dropped,
        (f.compute_estimate == ComputeClass::Massive || f.memory_bytes > 32_000_000_000)
            ==> feature_status(f, DeviceTier::Cortex) == FeatureStatus::Dropped,
        (f.compute_estimate != ComputeClass::Massive && f.memory_bytes <= 32_000_000_000)
            ==> feature_status(f, DeviceTier::Cortex) != FeatureStatus::Dropped,
{
}

/// A feature runs at full quality wherever its minimum tier is met and its
/// compute and memory fit; where only the tier falls short, a tier of
/// `Backbone` or above runs it degraded.
pub proof fn lemma_status_when_needs_fit(f: FeatureSpec, t: DeviceTier)
    requires
        fits_capacity(f, t),
    ensures
        tier_rank(f.min_tier) <= tier_rank(t) ==> feature_status(f, t) == FeatureStatus::Available,
        tier_rank(f.min_tier) > tier_rank(t) && t != DeviceTier::Reflex
            ==> feature_status(f, t) == FeatureStatus::Degraded,
        tier_rank(f.min_tier) > tier_rank(t) && t == DeviceTier::Reflex
            ==> feature_status(f, t) == FeatureStatus::Dropped,
{
}

/// A feature that runs (available or degraded) on a tier of `Backbone` or
/// above still runs on every higher tier.
pub proof fn lemma_running_moves_up(f: FeatureSpec, low: DeviceTier, high: DeviceTier)
    requires
        low != DeviceTier::Reflex,
        tier_rank(low) <= tier_rank(high),
        feature_status(f, low) != FeatureStatus::Dropped,
    ensures
        feature_status(f, high) != FeatureStatus::Dropped,
{
}

/// A feature whose compute or memory does not fit a tier is dropped there.
pub proof fn lemma_dropped_when_needs_exceed(f: FeatureSpec, t: DeviceTier)
    requires
        !fits_capacity(f, t),
    ensures
        feature_status(f, t) == FeatureStatus::Dropped,
{
}

/// The cloud runs every feature.
pub proof fn lemma_cloud_runs_everything(f: FeatureSpec)
    ensures
        feature_status(f, DeviceTier::Cloud) == FeatureStatus::Available,
{
}

/// A feature that requires a higher tier than the one available is never
/// available there: it is degraded or dropped.
pub proof fn lemma_higher_requirement_not_available(f: FeatureSpec, t: DeviceTier)
    requires
        tier_rank(f.min_tier) > tier_rank(t),
    ensures
        feature_status(f, t) != FeatureStatus::Available,
{
}

/// On `Reflex` nothing runs degraded: a feature is available or dropped.
pub proof fn lemma_reflex_never_degrades(f: FeatureSpec)
    ensures
        feature_status(f, DeviceTier::Reflex) != FeatureStatus::Degraded,
{
}

} // verus!
