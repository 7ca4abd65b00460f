use vstd::prelude::*;

verus! {

/// Direction of the deadband sensitivity.
#[derive(Debug, Clone, Copy, PartialEq, Eq, Structural)]
pub enum DeadbandDirection {
    /// Trigger in both directions
    Both,
    /// Only trigger when value exceeds above center (e.g., overcurrent protection)
    Above,
    /// Only trigger when value drops below center (e.g., conservation: only flag decrease)
    Below,
}

/// State relative to the deadband.
#[derive(Debug, Clone, Copy, PartialEq, Eq, Structural)]
pub enum DeadbandState {
    /// Within tolerance
    Normal,
    /// Nearing the edge of tolerance
    Approaching,
    /// Outside tolerance: action needed
    Exceeded,
}

/// Where a value lies relative to the center of a deadband.
#[derive(Debug, Clone, Copy, PartialEq, Eq, Structural)]
pub enum Side {
    Below,
    AtCenter,
    Above,
}

/// How far a value deviates from the center, measured against the tolerance:
/// `Within` up to 80% of it, `Near` above 80% and up to all of it, `Beyond`
/// above it. The deviation is relative to the center, or absolute when the
/// center is zero.
#[derive(Debug, Clone, Copy, PartialEq, Eq, Structural)]
pub enum Band {
    Within,
    Near,
    Beyond,
}

/// The severity of a state: 0 for `Normal`, 1 for `Approaching`, 2 for `Exceeded`.
pub open spec fn severity(s: DeadbandState) -> nat {
    match s {
        DeadbandState::Normal => 0,
        DeadbandState::Approaching => 1,
        DeadbandState::Exceeded => 2,
    }
}

/// How far out a band lies: 0, 1 or 2.
pub open spec fn band_rank(b: Band) -> nat {
    match b {
        Band::Within => 0,
        Band::Near => 1,
        Band::Beyond => 2,
    }
}

/// The state that a band alone gives.
pub open spec fn band_state(b: Band) -> DeadbandState {
    match b {
        Band::Within => DeadbandState::Normal,
        Band::Near => DeadbandState::Approaching,
        Band::Beyond => DeadbandState::Exceeded,
    }
}

/// Whether a one-sided deadband ignores a value on side `side`: an `Above`
/// deadband ignores values below the center, a `Below` one values above it.
pub open spec fn filtered_out(direction: DeadbandDirection, side: Side) -> bool {
    match direction {
        DeadbandDirection::Above => side == Side::Below,
        DeadbandDirection::Below => side == Side::Above,
        DeadbandDirection::Both => false,
    }
}

/// The state of a value. A one-sided deadband treats a value on the side
/// that it ignores as normal, whatever its center; any other value takes the
/// state of its band. With a zero center the band is measured by the
/// absolute deviation, otherwise by the deviation relative to the center.
pub open spec fn deadband_state(direction: DeadbandDirection, side: Side, band: Band) -> DeadbandState {
    if filtered_out(direction, side) {
        DeadbandState::Normal
    } else {
        band_state(band)
    }
}

/// Classifies a value from where it lies relative to the center and how far
/// it deviates.
pub fn classify(direction: DeadbandDirection, side: Side, band: Band) -> (r: DeadbandState)
    ensures
        r == deadband_state(direction, side, band),
{
    match direction {
        DeadbandDirection::Above => {
            if side == Side::Below {
                return DeadbandState::Normal;
            }
        },
        DeadbandDirection::Below => {
            if side == Side::Above {
                return DeadbandState::Normal;
            }
        },
        DeadbandDirection::Both => {},
    }
    match band {
        Band::Beyond => DeadbandState::Exceeded,
        Band::Near => DeadbandState::Approaching,
        Band::Within => DeadbandState::Normal,
    }
}

/// A value is exceeded only beyond the tolerance, and approaching only near
/// its edge.
pub proof fn lemma_state_needs_band(direction: DeadbandDirection, side: Side, band: Band)
    ensures
        deadband_state(direction, side, band) == DeadbandState::Exceeded ==> band == Band::Beyond,
        deadband_state(direction, side, band) == DeadbandState::Approaching ==> band == Band::Near,
        band == Band::Within ==> deadband_state(direction, side, band) == DeadbandState::Normal,
{
}

/// A value on a side that the deadband watches is judged by its band alone:
/// within 80% of the tolerance it is normal, nearer the edge it is
/// approaching, beyond it exceeded. A two-sided deadband watches every side;
/// an `Above` deadband watches all but values below its center, a `Below`
/// deadband all but values above it.
pub proof fn lemma_watched_side_follows_band(direction: DeadbandDirection, side: Side, band: Band)
    requires
        !(direction == DeadbandDirection::Above && side == Side::Below),
        !(direction == DeadbandDirection::Below && side == Side::Above),
    ensures
        band == Band::Within ==> deadband_state(direction, side, band) == DeadbandState::Normal,
        band == Band::Near ==> deadband_state(direction, side, band) == DeadbandState::Approaching,
        band == Band::Beyond ==> deadband_state(direction, side, band) == DeadbandState::Exceeded,
{
}

/// A one-sided deadband never flags a value on the side it ignores, whether
/// its center is zero or not: an `Above` deadband is normal below its center,
/// a `Below` deadband above it.
pub proof fn lemma_one_sided_ignores_other_side(band: Band)
    ensures
        deadband_state(DeadbandDirection::Above, Side::Below, band) == DeadbandState::Normal,
        deadband_state(DeadbandDirection::Below, Side::Above, band) == DeadbandState::Normal,
{
}

/// A two-sided deadband treats both sides alike.
pub proof fn lemma_two_sided_is_symmetric(s1: Side, s2: Side, band: Band)
    ensures
        deadband_state(DeadbandDirection::Both, s1, band) == deadband_state(DeadbandDirection::Both, s2, band),
{
}

/// Deviating further never makes a value less severe.
pub proof fn lemma_severity_grows_with_band(direction: DeadbandDirection, side: Side, b1: Band, b2: Band)
    requires
        band_rank(b1) <= band_rank(b2),
    ensures
        severity(deadband_state(direction, side, b1)) <= severity(deadband_state(direction, side, b2)),
{
}

} // verus!
