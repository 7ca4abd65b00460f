//! Marine autopilot scenarios: a stripe failing over tier by tier, and what
//! each tier can run.

use cocapn_core::{
    push_down, ComputeClass, DeviceTier, FeatureSpec, FeatureStatus, Handoff, HandoffState,
    Stripe, StripeEvent, StripeLayer,
};
use std::time::Duration;

/// Scenario 3, the handoff half: the Pi fails and control reverts to the
/// ESP32 over a fast 1 s crossfade; 2 s later the handoff is complete.
#[test]
fn emergency_handoff_back_to_esp32_completes() {
    let mut handoff = Handoff::new("helm-pi", "helm-esp32", Duration::from_secs(1).as_nanos());
    handoff.begin().unwrap();
    let p = handoff.progress(Duration::from_secs(2).as_nanos());
    assert_eq!(p.numerator as f64 / p.denominator as f64, 1.0);
    assert!(handoff.is_complete());
    assert_eq!(handoff.state, HandoffState::Complete);
}

/// Scenario 4: Stripe-based failover with device tiers.
#[test]
fn stripe_based_system_redundancy() {
    let mut s = Stripe::new();

    // Add devices to stripe: Cortex > Backbone > Reflex
    s.add_layer(StripeLayer {
        tier: DeviceTier::Cortex,
        device_id: "helm-jetson".into(),
        healthy: true,
        latency_ms: Some(25),
    });
    s.add_layer(StripeLayer {
        tier: DeviceTier::Backbone,
        device_id: "helm-pi".into(),
        healthy: true,
        latency_ms: Some(50),
    });
    s.add_layer(StripeLayer {
        tier: DeviceTier::Reflex,
        device_id: "helm-esp32".into(),
        healthy: true,
        latency_ms: Some(5),
    });

    // Active tier should be Cortex (highest healthy)
    assert_eq!(s.get_active_tier(), Some(DeviceTier::Cortex));

    // Cortex fails
    let event = s.fail_layer("helm-jetson").unwrap();
    match event {
        StripeEvent::Rebalanced { from, to, .. } => {
            assert_eq!(from, "helm-jetson");
            assert_eq!(to, "helm-pi");
        }
        _ => panic!("Expected Rebalanced event"),
    }
    assert_eq!(s.get_active_tier(), Some(DeviceTier::Backbone));

    // Pi fails too
    let event = s.fail_layer("helm-pi").unwrap();
    match event {
        StripeEvent::Rebalanced { from, to, .. } => {
            assert_eq!(from, "helm-pi");
            assert_eq!(to, "helm-esp32");
        }
        _ => panic!("Expected Rebalanced event"),
    }
    assert_eq!(s.get_active_tier(), Some(DeviceTier::Reflex));

    // Even ESP32 fails: total degradation
    let event = s.fail_layer("helm-esp32").unwrap();
    match event {
        StripeEvent::Degraded { .. } => { /* expected */ }
        _ => panic!("Expected Degraded event"),
    }
    assert_eq!(s.get_active_tier(), None);

    // After all failed, get_active_tier returns None, fallback_path defaults to Reflex
    let path = s.fallback_path();
    assert_eq!(path, vec![DeviceTier::Reflex]);
}

/// Scenario 5: Heading hold with push-down: what can the ESP32 actually run?
#[test]
fn pushdown_for_marine_features() {
    let features = vec![
        FeatureSpec {
            name: "heading_hold".into(),
            min_tier: DeviceTier::Reflex,
            memory_bytes: 2_000,
            compute_estimate: ComputeClass::Trivial,
        },
        FeatureSpec {
            name: "nmea_0183_parser".into(),
            min_tier: DeviceTier::Reflex,
            memory_bytes: 8_000,
            compute_estimate: ComputeClass::Trivial,
        },
        FeatureSpec {
            name: "route_following".into(),
            min_tier: DeviceTier::Backbone,
            memory_bytes: 50_000,
            compute_estimate: ComputeClass::Light,
        },
        FeatureSpec {
            name: "wave_prediction".into(),
            min_tier: DeviceTier::Cortex,
            memory_bytes: 50_000_000,
            compute_estimate: ComputeClass::Heavy,
        },
    ];

    // What can the ESP32 (Reflex) run?
    let esp_capable = push_down(&features, DeviceTier::Reflex);
    assert_eq!(esp_capable[0].status, FeatureStatus::Available);
    assert_eq!(esp_capable[1].status, FeatureStatus::Available);
    assert_eq!(esp_capable[2].status, FeatureStatus::Dropped);
    assert_eq!(esp_capable[3].status, FeatureStatus::Dropped);

    // What can the Pi (Backbone) run?
    let pi_capable = push_down(&features, DeviceTier::Backbone);
    assert_eq!(pi_capable[0].status, FeatureStatus::Available);
    assert_eq!(pi_capable[1].status, FeatureStatus::Available);
    assert_eq!(pi_capable[2].status, FeatureStatus::Available);
    // Heavy compute exceeds what Backbone offers (Light), so it is dropped.
    assert_eq!(pi_capable[3].status, FeatureStatus::Dropped);

    // Jetson (Cortex) runs everything
    let jetson_capable = push_down(&features, DeviceTier::Cortex);
    assert_eq!(jetson_capable[3].status, FeatureStatus::Available);
}
