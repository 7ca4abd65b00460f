use cocapn_core::{
    push_down, Capability, ComputeClass, Device, DeviceTier, FeatureSpec, FeatureStatus, Handoff,
    HandoffState, Progress, PushedFeature, Stripe, StripeEvent, StripeLayer,
};
use std::time::Duration;

fn fraction(p: Progress) -> f64 {
    p.numerator as f64 / p.denominator as f64
}

fn nanos(d: Duration) -> u128 {
    d.as_nanos()
}

#[test]
fn device_new_basic() {
    let d = Device::new("esp-01", "Temperature Sensor", DeviceTier::Reflex);
    assert_eq!(d.id, "esp-01");
    assert_eq!(d.name, "Temperature Sensor");
    assert_eq!(d.tier(), DeviceTier::Reflex);
}

#[test]
fn device_capabilities() {
    let d = Device::new("rpi-01", "Router", DeviceTier::Backbone)
        .with_capabilities(vec![Capability::Route, Capability::Communicate]);
    assert!(d.can(Capability::Route));
    assert!(d.can(Capability::Communicate));
    assert!(!d.can(Capability::Predict));
}

#[test]
fn device_tier_ordering() {
    assert!(DeviceTier::Reflex < DeviceTier::Backbone);
    assert!(DeviceTier::Backbone < DeviceTier::Cortex);
    assert!(DeviceTier::Cortex < DeviceTier::Cloud);
}

#[test]
fn device_equality_by_id() {
    let a = Device::new("x", "A", DeviceTier::Reflex);
    let b = Device::new("x", "B", DeviceTier::Cloud);
    assert_eq!(a, b); // same id
}

#[test]
fn device_empty_capabilities() {
    let d = Device::new("bare", "Bare", DeviceTier::Reflex);
    assert!(!d.can(Capability::Sense));
}

#[test]
fn stripe_add_layers_sorted() {
    let mut s = Stripe::new();
    s.add_layer(StripeLayer {
        tier: DeviceTier::Reflex,
        device_id: "esp".into(),
        healthy: true,
        latency_ms: Some(5),
    });
    s.add_layer(StripeLayer {
        tier: DeviceTier::Cortex,
        device_id: "jetson".into(),
        healthy: true,
        latency_ms: Some(20),
    });

    // Cortex should be first (highest)
    assert_eq!(s.layers()[0].tier, DeviceTier::Cortex);
    assert_eq!(s.layers()[1].tier, DeviceTier::Reflex);
}

#[test]
fn stripe_active_tier() {
    let mut s = Stripe::new();
    assert_eq!(s.get_active_tier(), None);

    s.add_layer(StripeLayer {
        tier: DeviceTier::Backbone,
        device_id: "rpi".into(),
        healthy: true,
        latency_ms: None,
    });
    assert_eq!(s.get_active_tier(), Some(DeviceTier::Backbone));
}

#[test]
fn stripe_fail_layer_rebalances() {
    let mut s = Stripe::new();
    s.add_layer(StripeLayer {
        tier: DeviceTier::Cortex,
        device_id: "jetson".into(),
        healthy: true,
        latency_ms: Some(10),
    });
    s.add_layer(StripeLayer {
        tier: DeviceTier::Backbone,
        device_id: "rpi".into(),
        healthy: true,
        latency_ms: Some(50),
    });

    let event = s.fail_layer("jetson").unwrap();
    match event {
        StripeEvent::Rebalanced { from, to, reason } => {
            assert_eq!(from, "jetson");
            assert_eq!(to, "rpi");
            assert!(reason.contains("Cortex"));
        }
        _ => panic!("Expected Rebalanced event"),
    }
    assert_eq!(s.get_active_tier(), Some(DeviceTier::Backbone));
}

#[test]
fn stripe_all_layers_failed() {
    let mut s = Stripe::new();
    s.add_layer(StripeLayer {
        tier: DeviceTier::Reflex,
        device_id: "esp".into(),
        healthy: true,
        latency_ms: None,
    });

    let event = s.fail_layer("esp").unwrap();
    match event {
        StripeEvent::Degraded { remaining_tiers } => {
            assert!(remaining_tiers.is_empty());
        }
        _ => panic!("Expected Degraded event"),
    }
    assert_eq!(s.get_active_tier(), None);
}

#[test]
fn stripe_fallback_path() {
    let mut s = Stripe::new();
    s.add_layer(StripeLayer {
        tier: DeviceTier::Cortex,
        device_id: "jetson".into(),
        healthy: true,
        latency_ms: None,
    });
    s.add_layer(StripeLayer {
        tier: DeviceTier::Backbone,
        device_id: "rpi".into(),
        healthy: true,
        latency_ms: None,
    });

    let path = s.fallback_path();
    assert_eq!(
        path,
        vec![DeviceTier::Cortex, DeviceTier::Backbone, DeviceTier::Reflex]
    );
}

#[test]
fn stripe_empty_fallback() {
    let s = Stripe::new();
    let path = s.fallback_path();
    assert_eq!(path, vec![DeviceTier::Reflex]);
}

#[test]
fn stripe_remove_layer() {
    let mut s = Stripe::new();
    s.add_layer(StripeLayer {
        tier: DeviceTier::Reflex,
        device_id: "esp".into(),
        healthy: true,
        latency_ms: None,
    });
    let event = s.remove_layer("esp").unwrap();
    match event {
        StripeEvent::LayerFailed(id) => assert_eq!(id, "esp"),
        _ => panic!("Expected LayerFailed"),
    }
    assert!(s.layers().is_empty());
}

#[test]
fn handoff_full_transition() {
    let mut h = Handoff::new("jetson", "rpi", nanos(Duration::from_secs(10)));
    assert_eq!(h.state, HandoffState::Stable);

    h.begin().unwrap();
    assert_eq!(h.state, HandoffState::FadingOut);

    let p = fraction(h.progress(nanos(Duration::from_secs(4))));
    assert!(p > 0.3);
    assert_eq!(h.state, HandoffState::Crossfading);

    let p = fraction(h.progress(nanos(Duration::from_secs(4))));
    assert!(p > 0.6);
    assert_eq!(h.state, HandoffState::FadingIn);

    let p = fraction(h.progress(nanos(Duration::from_secs(4))));
    assert_eq!(p, 1.0);
    assert!(h.is_complete());
}

#[test]
fn handoff_cancel_midway() {
    let mut h = Handoff::new("jetson", "rpi", nanos(Duration::from_secs(10)));
    h.begin().unwrap();
    h.progress(nanos(Duration::from_secs(2)));
    h.cancel().unwrap();
    assert!(h.is_cancelled());
    assert_eq!(h.state, HandoffState::Stable);
}

#[test]
fn handoff_cannot_begin_twice() {
    let mut h = Handoff::new("a", "b", nanos(Duration::from_secs(5)));
    h.begin().unwrap();
    assert!(h.begin().is_err());
}

#[test]
fn handoff_cannot_cancel_complete() {
    let mut h = Handoff::new("a", "b", nanos(Duration::from_secs(1)));
    h.begin().unwrap();
    h.progress(nanos(Duration::from_secs(5)));
    assert!(h.is_complete());
    assert!(h.cancel().is_err());
}

#[test]
fn handoff_cannot_cancel_stable() {
    let h = Handoff::new("a", "b", nanos(Duration::from_secs(1)));
    let mut h = h;
    assert!(h.cancel().is_err());
}

#[test]
fn handoff_zero_duration() {
    let mut h = Handoff::new("a", "b", nanos(Duration::from_secs(0)));
    h.begin().unwrap();
    let p = fraction(h.progress(nanos(Duration::from_millis(1))));
    assert_eq!(p, 1.0);
    assert!(h.is_complete());
}

#[test]
fn handoff_cannot_begin_cancelled() {
    let mut h = Handoff::new("a", "b", nanos(Duration::from_secs(5)));
    h.begin().unwrap();
    h.cancel().unwrap();
    assert!(h.begin().is_err());
}

#[test]
fn pushdown_all_available_at_cloud() {
    let features = vec![FeatureSpec {
        name: "vision".into(),
        min_tier: DeviceTier::Cortex,
        memory_bytes: 1_000_000,
        compute_estimate: ComputeClass::Heavy,
    }];
    let result = push_down(&features, DeviceTier::Cloud);
    assert_eq!(result[0].status, FeatureStatus::Available);
}

#[test]
fn pushdown_drops_heavy_at_reflex() {
    let features = vec![FeatureSpec {
        name: "llm".into(),
        min_tier: DeviceTier::Cloud,
        memory_bytes: 8_000_000_000,
        compute_estimate: ComputeClass::Massive,
    }];
    let result = push_down(&features, DeviceTier::Reflex);
    assert_eq!(result[0].status, FeatureStatus::Dropped);
}

#[test]
fn pushdown_cortex_features_at_backbone() {
    let features = vec![FeatureSpec {
        name: "detector".into(),
        min_tier: DeviceTier::Cortex,
        memory_bytes: 100_000,
        compute_estimate: ComputeClass::Light,
    }];
    // Cortex feature at Backbone: tier is lower but compute/memory fits
    let result = push_down(&features, DeviceTier::Backbone);
    // Should be Degraded since tier doesn't match but Backbone can run it
    assert!(matches!(
        result[0].status,
        FeatureStatus::Degraded | FeatureStatus::Dropped
    ));
}

#[test]
fn pushdown_trivial_at_reflex() {
    let features = vec![FeatureSpec {
        name: "blink".into(),
        min_tier: DeviceTier::Reflex,
        memory_bytes: 100,
        compute_estimate: ComputeClass::Trivial,
    }];
    let result = push_down(&features, DeviceTier::Reflex);
    assert_eq!(result[0].status, FeatureStatus::Available);
}

#[test]
fn pushdown_empty_features() {
    let result: Vec<PushedFeature> = push_down(&[], DeviceTier::Cortex);
    assert!(result.is_empty());
}

#[test]
fn pushdown_mixed_features() {
    let features = vec![
        FeatureSpec {
            name: "trivial".into(),
            min_tier: DeviceTier::Reflex,
            memory_bytes: 100,
            compute_estimate: ComputeClass::Trivial,
        },
        FeatureSpec {
            name: "heavy".into(),
            min_tier: DeviceTier::Cloud,
            memory_bytes: 100_000_000_000,
            compute_estimate: ComputeClass::Massive,
        },
    ];
    let result = push_down(&features, DeviceTier::Backbone);
    assert_eq!(result[0].status, FeatureStatus::Available);
    assert_eq!(result[1].status, FeatureStatus::Dropped);
}
