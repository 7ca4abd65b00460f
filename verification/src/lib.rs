//! Core types of a tiered device network: device tiers, deadband
//! classification, compute stripes, crossfade handoffs and push-down
//! evaluation of features.

pub mod agent;
pub mod deadband;
pub mod device;
pub mod handoff;
pub mod pushdown;
pub mod stripe;

pub use agent::{AgentError, EmergencyAction};
pub use deadband::{classify, Band, DeadbandDirection, DeadbandState, Side};
pub use device::{Capability, Device, DeviceTier};
pub use handoff::{Handoff, HandoffState, Progress};
pub use pushdown::{push_down, ComputeClass, FeatureSpec, FeatureStatus, PushedFeature};
pub use stripe::{Stripe, StripeEvent, StripeLayer};
