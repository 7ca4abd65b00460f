use crate::device::{tier_name, tier_rank, DeviceTier};
use vstd::prelude::*;

verus! {

/// A single layer in the compute stripe.
#[derive(Debug)]
pub struct StripeLayer {
    pub tier: DeviceTier,
    pub device_id: String,
    pub healthy: bool,
    pub latency_ms: Option<u64>,
}

impl Clone for StripeLayer {
    fn clone(&self) -> (r: Self)
        ensures
            r == *self,
    {
        StripeLayer {
            tier: self.tier,
            device_id: self.device_id.clone(),
            healthy: self.healthy,
            latency_ms: self.latency_ms,
        }
    }
}

/// Events emitted by the stripe as layers come, fail and go.
#[derive(Debug, Clone)]
pub enum StripeEvent {
    LayerAdded(StripeLayer),
    LayerFailed(String),
    Rebalanced { from: String, to: String, reason: String },
    Degraded { remaining_tiers: Vec<DeviceTier> },
}

/// Layers ordered from the highest tier to the lowest.
pub open spec fn layers_sorted(s: Seq<StripeLayer>) -> bool {
    forall|i: int, j: int| 0 <= i <= j < s.len() ==> tier_rank(s[i].tier) >= tier_rank(s[j].tier)
}

/// The healthy layers, in stripe order.
pub open spec fn healthy_of(s: Seq<StripeLayer>) -> Seq<StripeLayer> {
    s.filter(|l: StripeLayer| l.healthy)
}

/// The tiers of the layers, in order.
pub open spec fn tiers_of(s: Seq<StripeLayer>) -> Seq<DeviceTier> {
    s.map_values(|l: StripeLayer| l.tier)
}

/// The tiers of the healthy layers, in stripe order.
pub open spec fn active_tiers(s: Seq<StripeLayer>) -> Seq<DeviceTier> {
    tiers_of(healthy_of(s))
}

/// The tier of the first healthy layer, if any.
pub open spec fn active_tier(s: Seq<StripeLayer>) -> Option<DeviceTier> {
    if active_tiers(s).len() > 0 {
        Some(active_tiers(s)[0])
    } else {
        None
    }
}

/// Whether some layer carries the device id `id`.
pub open spec fn has_device(s: Seq<StripeLayer>, id: Seq<char>) -> bool {
    exists|k: int| 0 <= k < s.len() && s[k].device_id@ == id
}

/// `k` is the position of the first layer that carries the device id `id`.
pub open spec fn first_with_device(s: Seq<StripeLayer>, id: Seq<char>, k: int) -> bool {
    &&& 0 <= k < s.len()
    &&& s[k].device_id@ == id
    &&& forall|j: int| 0 <= j < k ==> s[j].device_id@ != id
}

/// The layer `l` marked unhealthy.
pub open spec fn marked_failed(l: StripeLayer) -> StripeLayer {
    StripeLayer { healthy: false, ..l }
}

/// What `fail_layer` reports once the layer of device `id`, of tier `t`, has
/// been marked unhealthy and the stripe reads `s`: a hand-over to the first
/// healthy layer, or a degraded stripe when none is left.
pub open spec fn failover_event(e: StripeEvent, s: Seq<StripeLayer>, id: Seq<char>, t: DeviceTier) -> bool {
    if healthy_of(s).len() > 0 {
        &&& e matches StripeEvent::Rebalanced { from, to, reason }
        &&& from@ == id
        &&& to@ == healthy_of(s)[0].device_id@
        &&& reason@ == tier_name(t) + " layer failed"@
    } else {
        &&& e matches StripeEvent::Degraded { remaining_tiers }
        &&& remaining_tiers@ == active_tiers(s)
    }
}

/// The tier of a given rank (clamped to `Cloud` above 3).
pub open spec fn tier_of_rank(r: int) -> DeviceTier {
    if r <= 0 {
        DeviceTier::Reflex
    } else if r == 1 {
        DeviceTier::Backbone
    } else if r == 2 {
        DeviceTier::Cortex
    } else {
        DeviceTier::Cloud
    }
}

/// All tiers from `t` down to `Reflex`, highest first.
pub open spec fn tiers_down_from(t: DeviceTier) -> Seq<DeviceTier> {
    Seq::new(tier_rank(t) + 1, |i: int| tier_of_rank(tier_rank(t) - i))
}

/// The compute stripe: an ordered chain of devices from highest to lowest tier.
#[derive(Debug)]
pub struct Stripe {
    layers: Vec<StripeLayer>,
}

impl View for Stripe {
    type V = Seq<StripeLayer>;

    closed spec fn view(&self) -> Seq<StripeLayer> {
        self.layers@
    }
}

impl Stripe {
    /// The stripe keeps its layers ordered from highest to lowest tier.
    pub open spec fn wf(&self) -> bool {
        layers_sorted(self@)
    }

    pub fn new() -> (s: Stripe)
        ensures
            s.wf(),
            s@ == Seq::<StripeLayer>::empty(),
    {
        Stripe { layers: Vec::new() }
    }

    /// The layers, highest tier first.
    pub fn layers(&self) -> (r: &[StripeLayer])
        ensures
            r@ == self@,
    {
        self.layers.as_slice()
    }

    /// The position of the first layer of device `target`.
    fn position_of(&self, target: &String) -> (r: Option<usize>)
        ensures
            match r {
                None => !has_device(self@, target@),
                Some(k) => first_with_device(self@, target@, k as int),
            },
    {
        let mut i: usize = 0;
        while i < self.layers.len()
            invariant
                i <= self.layers.len(),
                forall|j: int| 0 <= j < i ==> self@[j].device_id@ != target@,
            decreases self.layers.len() - i,
        {
            if self.layers[i].device_id == *target {
                return Some(i);
            }
            i = i + 1;
        }
        None
    }

    /// Adds a layer after every layer of its tier or a higher one, so that the
    /// layers stay ordered from highest to lowest tier.
    pub fn add_layer(&mut self, layer: StripeLayer) -> (r: StripeEvent)
        requires
            old(self).wf(),
        ensures
            final(self).wf(),
            exists|k: int|
                {
                    &&& 0 <= k <= old(self)@.len()
                    &&& final(self)@ == old(self)@.insert(k, layer)
                    &&& forall|j: int| 0 <= j < k ==> tier_rank(old(self)@[j].tier) >= tier_rank(layer.tier)
                    &&& forall|j: int| k <= j < old(self)@.len() ==> tier_rank(old(self)@[j].tier) < tier_rank(layer.tier)
                },
            r == StripeEvent::LayerAdded(layer),
    {
        let event = StripeEvent::LayerAdded(layer.clone());
        let rank = layer.tier.rank();
        let mut k: usize = 0;
        while k < self.layers.len() && self.layers[k].tier.rank() >= rank
            invariant
                k <= self.layers.len(),
                rank == tier_rank(layer.tier),
                forall|j: int| 0 <= j < k ==> tier_rank(self@[j].tier) >= rank,
            decreases self.layers.len() - k,
        {
            k = k + 1;
        }
        let ghost old_layers = self@;
        proof {
            assert forall|j: int| k <= j < old_layers.len() implies tier_rank(old_layers[j].tier) < rank by {
                assert(tier_rank(old_layers[k as int].tier) >= tier_rank(old_layers[j].tier));
            }
        }
        self.layers.insert(k, layer);
        proof {
            let s = self@;
            assert forall|i: int, j: int| 0 <= i <= j < s.len() implies tier_rank(s[i].tier) >= tier_rank(s[j].tier) by {
                if i < k {
                    if j < k {
                        assert(s[i] == old_layers[i] && s[j] == old_layers[j]);
                    } else if j == k {
                    } else {
                        assert(s[j] == old_layers[j - 1]);
                    }
                } else if i == k {
                    if j > k {
                        assert(s[j] == old_layers[j - 1]);
                    }
                } else {
                    assert(s[i] == old_layers[i - 1] && s[j] == old_layers[j - 1]);
                }
            }
        }
        event
    }

    /// Removes the first layer of device `device_id`, reporting it as failed.
    pub fn remove_layer(&mut self, device_id: &str) -> (r: Option<StripeEvent>)
        requires
            old(self).wf(),
        ensures
            final(self).wf(),
            match r {
                None => !has_device(old(self)@, device_id@) && final(self)@ == old(self)@,
                Some(e) => exists|k: int|
                    {
                        &&& first_with_device(old(self)@, device_id@, k)
                        &&& final(self)@ == old(self)@.remove(k)
                        &&& e matches StripeEvent::LayerFailed(id)
                        &&& id@ == device_id@
                    },
            },
    {
        let target = device_id.to_owned();
        match self.position_of(&target) {
            None => None,
            Some(k) => {
                self.layers.remove(k);
                Some(StripeEvent::LayerFailed(target))
            },
        }
    }

    /// Marks the first layer of device `device_id` unhealthy and reports who
    /// takes over: the first healthy layer left, or a degraded stripe.
    pub fn fail_layer(&mut self, device_id: &str) -> (r: Option<StripeEvent>)
        requires
            old(self).wf(),
        ensures
            final(self).wf(),
            match r {
                None => !has_device(old(self)@, device_id@) && final(self)@ == old(self)@,
                Some(e) => exists|k: int|
                    {
                        &&& first_with_device(old(self)@, device_id@, k)
                        &&& final(self)@ == old(self)@.update(k, marked_failed(old(self)@[k]))
                        &&& failover_event(e, final(self)@, device_id@, old(self)@[k].tier)
                    },
            },
    {
        let target = device_id.to_owned();
        match self.position_of(&target) {
            None => None,
            Some(k) => {
                let mut failed = self.layers[k].clone();
                let old_tier = failed.tier;
                failed.healthy = false;
                self.layers.set(k, failed);
                let healthy = self.healthy_layers();
                if healthy.len() > 0 {
                    proof {
                        assert(healthy@.map_values(|l: &StripeLayer| *l)[0] == *healthy@[0]);
                    }
                    let to = healthy[0].device_id.clone();
                    let mut reason = old_tier.name().to_owned();
                    reason.append(" layer failed");
                    Some(StripeEvent::Rebalanced { from: target, to, reason })
                } else {
                    Some(StripeEvent::Degraded { remaining_tiers: self.get_active_tiers() })
                }
            },
        }
    }

    /// The tiers of the healthy layers, highest first.
    pub fn get_active_tiers(&self) -> (r: Vec<DeviceTier>)
        ensures
            r@ == active_tiers(self@),
    {
        let mut r: Vec<DeviceTier> = Vec::new();
        let mut i: usize = 0;
        while i < self.layers.len()
            invariant
                i <= self.layers.len(),
                r@ == active_tiers(self@.take(i as int)),
            decreases self.layers.len() - i,
        {
            proof {
                let s = self@;
                s.lemma_take_succ_push(i as int);
                s.take(i as int).lemma_filter_push(s[i as int], |l: StripeLayer| l.healthy);
                healthy_of(s.take(i as int)).lemma_push_map_commute(|l: StripeLayer| l.tier, s[i as int]);
            }
            if self.layers[i].healthy {
                r.push(self.layers[i].tier);
            }
            i = i + 1;
        }
        proof {
            self@.lemma_take_len();
        }
        r
    }

    /// The highest healthy tier currently active.
    pub fn get_active_tier(&self) -> (r: Option<DeviceTier>)
        ensures
            r == active_tier(self@),
    {
        let tiers = self.get_active_tiers();
        if tiers.len() > 0 {
            Some(tiers[0])
        } else {
            None
        }
    }

    /// The healthy layers, highest tier first.
    pub fn healthy_layers(&self) -> (r: Vec<&StripeLayer>)
        ensures
            r@.map_values(|l: &StripeLayer| *l) == healthy_of(self@),
    {
        let mut r: Vec<&StripeLayer> = Vec::new();
        let mut i: usize = 0;
        while i < self.layers.len()
            invariant
                i <= self.layers.len(),
                r@.map_values(|l: &StripeLayer| *l) == healthy_of(self@.take(i as int)),
            decreases self.layers.len() - i,
        {
            proof {
                let s = self@;
                s.lemma_take_succ_push(i as int);
                s.take(i as int).lemma_filter_push(s[i as int], |l: StripeLayer| l.healthy);
                r@.lemma_push_map_commute(|l: &StripeLayer| *l, &s[i as int]);
            }
            if self.layers[i].healthy {
                r.push(&self.layers[i]);
            }
            i = i + 1;
        }
        proof {
            self@.lemma_take_len();
        }
        r
    }

    /// Reports a degraded stripe when no layer is healthy; otherwise nothing.
    pub fn rebalance(&mut self) -> (r: Option<StripeEvent>)
        ensures
            final(self)@ == old(self)@,
            (r is Some) == (active_tiers(old(self)@).len() == 0),
            r matches Some(e) ==> e matches StripeEvent::Degraded { remaining_tiers }
                && remaining_tiers@ == Seq::<DeviceTier>::empty(),
    {
        let tiers = self.get_active_tiers();
        if tiers.len() == 0 {
            Some(StripeEvent::Degraded { remaining_tiers: Vec::new() })
        } else {
            None
        }
    }

    /// The fallback path from the active tier (or `Reflex` when none is
    /// active) down to `Reflex`.
    pub fn fallback_path(&self) -> (r: Vec<DeviceTier>)
        ensures
            r@ == tiers_down_from(
                match active_tier(self@) {
                    Some(t) => t,
                    None => DeviceTier::Reflex,
                },
            ),
    {
        let active = match self.get_active_tier() {
            Some(t) => t,
            None => DeviceTier::Reflex,
        };
        let all_tiers = [
            DeviceTier::Cloud,
            DeviceTier::Cortex,
            DeviceTier::Backbone,
            DeviceTier::Reflex,
        ];
        let mut r: Vec<DeviceTier> = Vec::new();
        let mut i: usize = 0;
        while i < 4
            invariant
                i <= 4,
                all_tiers@ == seq![DeviceTier::Cloud, DeviceTier::Cortex, DeviceTier::Backbone, DeviceTier::Reflex],
                r@ == Seq::new(
                    (if tier_rank(active) + 1 >= 4 - i { tier_rank(active) + 1 - (4 - i) } else { 0 }) as nat,
                    |j: int| tier_of_rank(tier_rank(active) - j),
                ),
            decreases 4 - i,
        {
            let t = all_tiers[i];
            if t.at_most(&active) {
                r.push(t);
            }
            i = i + 1;
        }
        assert(r@ =~= tiers_down_from(active));
        r
    }
}

/// In a stripe ordered from highest to lowest tier, the active tier is the
/// highest tier of a healthy layer, and there is none exactly when no layer
/// is healthy.
pub proof fn lemma_active_tier_is_highest(s: Seq<StripeLayer>)
    requires
        layers_sorted(s),
    ensures
        (active_tier(s) is None) <==> (forall|i: int| 0 <= i < s.len() ==> !s[i].healthy),
        active_tier(s) matches Some(t) ==> {
            &&& exists|i: int| 0 <= i < s.len() && s[i].healthy && s[i].tier == t
            &&& forall|i: int| 0 <= i < s.len() && s[i].healthy ==> tier_rank(s[i].tier) <= tier_rank(t)
        },
    decreases s.len(),
{
    if s.len() > 0 {
        let d = s.drop_last();
        let last = s.last();
        assert(layers_sorted(d));
        lemma_active_tier_is_highest(d);
        assert(s == d.push(last));
        d.lemma_filter_push(last, |l: StripeLayer| l.healthy);
        healthy_of(d).lemma_push_map_commute(|l: StripeLayer| l.tier, last);
        if active_tiers(d).len() > 0 {
            let t = active_tiers(d)[0];
            assert(active_tier(s) == Some(t));
            let w = choose|i: int| 0 <= i < d.len() && d[i].healthy && d[i].tier == t;
            assert(s[w] == d[w]);
            assert forall|i: int| 0 <= i < s.len() && s[i].healthy implies tier_rank(s[i].tier) <= tier_rank(t) by {
                if i < s.len() - 1 {
                    assert(s[i] == d[i]);
                } else {
                    assert(tier_rank(s[w].tier) >= tier_rank(s[i].tier));
                }
            }
        } else {
            assert forall|i: int| 0 <= i < d.len() implies !s[i].healthy by {
                assert(s[i] == d[i]);
            }
        }
    }
}

/// When `fail_layer` hands over, it hands over to the first healthy layer
/// left, which carries the active tier; when it reports a degraded stripe, no
/// layer is healthy and no tier is left.
pub proof fn lemma_failover_goes_to_first_healthy(e: StripeEvent, s: Seq<StripeLayer>, id: Seq<char>, t: DeviceTier)
    requires
        failover_event(e, s, id, t),
    ensures
        e matches StripeEvent::Rebalanced { from, to, reason } ==> {
            &&& from@ == id
            &&& exists|i: int| {
                &&& 0 <= i < s.len()
                &&& s[i].healthy
                &&& s[i].device_id@ == to@
                &&& active_tier(s) == Some(s[i].tier)
                &&& forall|j: int| 0 <= j < i ==> !s[j].healthy
            }
        },
        e matches StripeEvent::Degraded { remaining_tiers } ==> {
            &&& remaining_tiers@.len() == 0
            &&& forall|j: int| 0 <= j < s.len() ==> !s[j].healthy
        },
{
    lemma_first_healthy(s);
}

proof fn lemma_first_healthy(s: Seq<StripeLayer>)
    ensures
        healthy_of(s).len() == 0 ==> forall|j: int| 0 <= j < s.len() ==> !s[j].healthy,
        healthy_of(s).len() > 0 ==> exists|i: int| {
            &&& 0 <= i < s.len()
            &&& s[i] == healthy_of(s)[0]
            &&& s[i].healthy
            &&& forall|j: int| 0 <= j < i ==> !s[j].healthy
        },
    decreases s.len(),
{
    if s.len() > 0 {
        let d = s.drop_last();
        let last = s.last();
        lemma_first_healthy(d);
        assert(s == d.push(last));
        d.lemma_filter_push(last, |l: StripeLayer| l.healthy);
        if healthy_of(d).len() > 0 {
            let i = choose|i: int| {
                &&& 0 <= i < d.len()
                &&& d[i] == healthy_of(d)[0]
                &&& d[i].healthy
                &&& forall|j: int| 0 <= j < i ==> !d[j].healthy
            };
            assert(s[i] == d[i]);
            assert forall|j: int| 0 <= j < i implies !s[j].healthy by {
                assert(s[j] == d[j]);
            }
        } else {
            assert forall|j: int| 0 <= j < d.len() implies !s[j].healthy by {
                assert(s[j] == d[j]);
            }
            if last.healthy {
                let i = s.len() - 1;
                assert(healthy_of(s)[0] == last);
                assert(s[i] == last);
            }
        }
    }
}

/// The fallback path from tier `t` starts at `t`, ends at `Reflex`, and goes
/// down one tier at a time.
pub proof fn lemma_fallback_path_descends(t: DeviceTier)
    ensures
        tiers_down_from(t).len() == tier_rank(t) + 1,
        tiers_down_from(t)[0] == t,
        tiers_down_from(t).last() == DeviceTier::Reflex,
        forall|i: int|
            0 <= i < tiers_down_from(t).len() - 1 ==> tier_rank(#[trigger] tiers_down_from(t)[i + 1]) + 1
                == tier_rank(tiers_down_from(t)[i]),
{
}

/// Failing a layer never raises the active tier: whatever is active
/// afterwards was active, or lower than what was active, before.
pub proof fn lemma_failure_never_raises_active_tier(s: Seq<StripeLayer>, k: int)
    requires
        layers_sorted(s),
        0 <= k < s.len(),
    ensures
        active_tier(s.update(k, marked_failed(s[k]))) matches Some(t2) ==> {
            &&& active_tier(s) is Some
            &&& tier_rank(t2) <= tier_rank(active_tier(s).unwrap())
        },
{
    let s2 = s.update(k, marked_failed(s[k]));
    assert(layers_sorted(s2));
    lemma_active_tier_is_highest(s);
    lemma_active_tier_is_highest(s2);
    if let Some(t2) = active_tier(s2) {
        let w = choose|i: int| 0 <= i < s2.len() && s2[i].healthy && s2[i].tier == t2;
        assert(w != k);
        assert(s[w].healthy);
    }
}

impl Clone for Stripe {
    fn clone(&self) -> (r: Self)
        ensures
            r@ == self@,
    {
        let layers = self.layers.clone();
        proof {
            assert forall|i: int| 0 <= i < self.layers.len() implies layers@[i] == self.layers@[i] by {
                assert(cloned::<StripeLayer>(self.layers[i], layers[i]));
            }
            assert(layers@ =~= self.layers@);
        }
        Stripe { layers }
    }
}

impl Default for Stripe {
    fn default() -> (s: Stripe)
        ensures
            s.wf(),
            s@ == Seq::<StripeLayer>::empty(),
    {
        Stripe::new()
    }
}

} // verus!
