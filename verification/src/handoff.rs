use vstd::prelude::*;

verus! {

/// State of a handoff between devices:
/// `Stable -> FadingOut -> Crossfading -> FadingIn -> Complete`.
#[derive(Debug, Clone, Copy, PartialEq, Eq, Structural)]
pub enum HandoffState {
    Stable,
    FadingOut,
    Crossfading,
    FadingIn,
    Complete,
}

/// The name of a state, as its `Debug` form writes it.
pub open spec fn state_name(s: HandoffState) -> Seq<char> {
    match s {
        HandoffState::Stable => "Stable"@,
        HandoffState::FadingOut => "FadingOut"@,
        HandoffState::Crossfading => "Crossfading"@,
        HandoffState::FadingIn => "FadingIn"@,
        HandoffState::Complete => "Complete"@,
    }
}

/// How far along the transition a state stands, from 0 to 4.
pub open spec fn phase_rank(s: HandoffState) -> nat {
    match s {
        HandoffState::Stable => 0,
        HandoffState::FadingOut => 1,
        HandoffState::Crossfading => 2,
        HandoffState::FadingIn => 3,
        HandoffState::Complete => 4,
    }
}

impl HandoffState {
    /// The name of this state.
    pub fn name(&self) -> (s: &'static str)
        ensures
            s@ == state_name(*self),
    {
        match self {
            HandoffState::Stable => "Stable",
            HandoffState::FadingOut => "FadingOut",
            HandoffState::Crossfading => "Crossfading",
            HandoffState::FadingIn => "FadingIn",
            HandoffState::Complete => "Complete",
        }
    }
}

/// The largest span a `std::time::Duration` can hold, in nanoseconds.
pub const MAX_DURATION_NANOS: u128 = 18_446_744_073_709_551_615_999_999_999u128;

/// The progress of a transition: the fraction `numerator / denominator`,
/// between 0 and 1.
#[derive(Debug, Clone, Copy, PartialEq, Eq, Structural)]
pub struct Progress {
    pub numerator: u128,
    pub denominator: u128,
}

/// The progress reported for a handoff that is not under way: 0 before and
/// while fading out, 1/2 while crossfading, 4/5 while fading in, 1 once
/// complete.
pub open spec fn resting_progress(s: HandoffState) -> Progress {
    match s {
        HandoffState::Stable => Progress { numerator: 0, denominator: 1 },
        HandoffState::FadingOut => Progress { numerator: 0, denominator: 1 },
        HandoffState::Crossfading => Progress { numerator: 1, denominator: 2 },
        HandoffState::FadingIn => Progress { numerator: 4, denominator: 5 },
        HandoffState::Complete => Progress { numerator: 1, denominator: 1 },
    }
}

/// The fraction of the transition that `elapsed` covers, clamped to 1; a
/// transition of no length is complete at once.
pub open spec fn elapsed_fraction(elapsed: u128, total: u128) -> Progress {
    if total > 0 {
        Progress { numerator: if elapsed < total { elapsed } else { total }, denominator: total }
    } else {
        Progress { numerator: 1, denominator: 1 }
    }
}

/// The state for a progress `p`: fading out below 0.33, crossfading below
/// 0.66, fading in below 1, complete at 1.
pub open spec fn phase_for(p: Progress) -> HandoffState {
    if 100 * p.numerator < 33 * p.denominator {
        HandoffState::FadingOut
    } else if 100 * p.numerator < 66 * p.denominator {
        HandoffState::Crossfading
    } else if p.numerator < p.denominator {
        HandoffState::FadingIn
    } else {
        HandoffState::Complete
    }
}

/// Progress stays between 0 and 1, whether the handoff is under way or not.
pub proof fn lemma_progress_in_unit_range(elapsed: u128, total: u128, s: HandoffState)
    ensures
        elapsed_fraction(elapsed, total).denominator > 0,
        elapsed_fraction(elapsed, total).numerator <= elapsed_fraction(elapsed, total).denominator,
        resting_progress(s).denominator > 0,
        resting_progress(s).numerator <= resting_progress(s).denominator,
{
}

/// Time only moves a transition forward: with more time elapsed, the
/// progress is no smaller and the state no earlier, and a transition under
/// way never reads `Stable`.
pub proof fn lemma_progress_monotone(e1: u128, e2: u128, total: u128)
    requires
        e1 <= e2,
    ensures
        elapsed_fraction(e1, total).denominator == elapsed_fraction(e2, total).denominator,
        elapsed_fraction(e1, total).numerator <= elapsed_fraction(e2, total).numerator,
        phase_rank(phase_for(elapsed_fraction(e1, total))) <= phase_rank(phase_for(elapsed_fraction(e2, total))),
        phase_rank(phase_for(elapsed_fraction(e1, total))) >= 1,
{
}

/// A transition under way is complete exactly when the time elapsed covers
/// its whole length.
pub proof fn lemma_complete_iff_elapsed_covers(elapsed: u128, total: u128)
    ensures
        (phase_for(elapsed_fraction(elapsed, total)) == HandoffState::Complete) <==> elapsed >= total,
{
}

/// `begin` starts a handoff only from `Stable`, and only if it was never
/// cancelled: it then fades out with no time elapsed, keeping its devices,
/// length and cancellation flag. From any other state, `Complete` included,
/// it fails and leaves the handoff as it was.
pub proof fn lemma_begin_only_from_stable(v: HandoffView)
    ensures
        begin_ok(v) <==> (v.state == HandoffState::Stable && !v.cancelled),
        (v.state == HandoffState::Stable && !v.cancelled) ==> begin_next(v) == (HandoffView {
            from_device: v.from_device,
            to_device: v.to_device,
            state: HandoffState::FadingOut,
            transition_nanos: v.transition_nanos,
            elapsed_nanos: 0,
            cancelled: false,
        }),
        !(v.state == HandoffState::Stable && !v.cancelled) ==> begin_next(v) == v,
{
}

/// `cancel` succeeds from every state of the transition (fading out,
/// crossfading, fading in): the handoff returns to `Stable`, marked
/// cancelled, with no time elapsed, keeping its devices and length. From
/// `Stable` or `Complete` it fails and leaves the handoff as it was.
pub proof fn lemma_cancel_from_transition_states(v: HandoffView)
    ensures
        (v.state == HandoffState::FadingOut || v.state == HandoffState::Crossfading || v.state == HandoffState::FadingIn) ==> {
            &&& cancel_ok(v)
            &&& cancel_next(v) == (HandoffView {
                from_device: v.from_device,
                to_device: v.to_device,
                state: HandoffState::Stable,
                transition_nanos: v.transition_nanos,
                elapsed_nanos: 0,
                cancelled: true,
            })
        },
        (v.state == HandoffState::Stable || v.state == HandoffState::Complete) ==> !cancel_ok(v) && cancel_next(v) == v,
{
}

/// While a handoff is under way, `progress(delta)` adds `delta` to the time
/// elapsed and reports the share of the transition covered, capped at the
/// whole: fading out below 33%, crossfading below 66%, fading in below the
/// whole, complete from then on. A transition of no length completes at once.
pub proof fn lemma_progress_under_way(v: HandoffView, delta: u128)
    requires
        !v.cancelled,
        v.state == HandoffState::FadingOut || v.state == HandoffState::Crossfading || v.state == HandoffState::FadingIn,
        v.elapsed_nanos + delta <= MAX_DURATION_NANOS,
    ensures
        ({
            let (w, p) = progress_step(v, delta);
            let e = v.elapsed_nanos + delta;
            let t = v.transition_nanos;
            &&& w.elapsed_nanos == e
            &&& w.from_device == v.from_device && w.to_device == v.to_device
            &&& w.transition_nanos == t && !w.cancelled
            &&& t == 0 ==> p == (Progress { numerator: 1, denominator: 1 }) && w.state == HandoffState::Complete
            &&& t > 0 && e >= t ==> p == (Progress { numerator: t, denominator: t }) && w.state == HandoffState::Complete
            &&& t > 0 && e < t ==> {
                &&& p == (Progress { numerator: e as u128, denominator: t })
                &&& (w.state == HandoffState::FadingOut) == (100 * e < 33 * t)
                &&& (w.state == HandoffState::Crossfading) == (33 * t <= 100 * e && 100 * e < 66 * t)
                &&& (w.state == HandoffState::FadingIn) == (66 * t <= 100 * e)
            }
        }),
{
}

/// A handoff that is stable, complete or cancelled is left as it is by
/// `progress`, which reports 0 while stable or fading out, 1/2 while
/// crossfading, 4/5 while fading in and 1 once complete.
pub proof fn lemma_progress_at_rest(v: HandoffView, delta: u128)
    requires
        v.cancelled || v.state == HandoffState::Stable || v.state == HandoffState::Complete,
    ensures
        progress_step(v, delta).0 == v,
        v.state == HandoffState::Stable ==> progress_step(v, delta).1 == (Progress { numerator: 0, denominator: 1 }),
        v.state == HandoffState::FadingOut ==> progress_step(v, delta).1 == (Progress { numerator: 0, denominator: 1 }),
        v.state == HandoffState::Crossfading ==> progress_step(v, delta).1 == (Progress { numerator: 1, denominator: 2 }),
        v.state == HandoffState::FadingIn ==> progress_step(v, delta).1 == (Progress { numerator: 4, denominator: 5 }),
        v.state == HandoffState::Complete ==> progress_step(v, delta).1 == (Progress { numerator: 1, denominator: 1 }),
{
}

/// A crossfade transition between two devices. Durations are counted in
/// nanoseconds.
#[derive(Debug, Clone)]
pub struct Handoff {
    pub from_device: String,
    pub to_device: String,
    pub state: HandoffState,
    pub transition_nanos: u128,
    elapsed_nanos: u128,
    cancelled: bool,
}

/// What a handoff holds, as the contracts speak of it.
pub struct HandoffView {
    pub from_device: Seq<char>,
    pub to_device: Seq<char>,
    pub state: HandoffState,
    pub transition_nanos: u128,
    pub elapsed_nanos: u128,
    pub cancelled: bool,
}

impl HandoffView {
    /// Whether the transition is under way, so that `progress` advances it.
    pub open spec fn under_way(self) -> bool {
        !self.cancelled && self.state != HandoffState::Complete && self.state != HandoffState::Stable
    }
}

/// Whether `begin` succeeds: only on a stable handoff never cancelled.
pub open spec fn begin_ok(v: HandoffView) -> bool {
    v.state == HandoffState::Stable && !v.cancelled
}

/// The handoff after `begin`: fading out with no time elapsed when it
/// succeeds, unchanged when it fails.
pub open spec fn begin_next(v: HandoffView) -> HandoffView {
    if begin_ok(v) {
        HandoffView { state: HandoffState::FadingOut, elapsed_nanos: 0, ..v }
    } else {
        v
    }
}

/// Whether `cancel` succeeds: only while neither stable nor complete.
pub open spec fn cancel_ok(v: HandoffView) -> bool {
    v.state != HandoffState::Complete && v.state != HandoffState::Stable
}

/// The handoff after `cancel`: back to stable, marked cancelled, with no time
/// elapsed when it succeeds; unchanged when it fails.
pub open spec fn cancel_next(v: HandoffView) -> HandoffView {
    if cancel_ok(v) {
        HandoffView { state: HandoffState::Stable, cancelled: true, elapsed_nanos: 0, ..v }
    } else {
        v
    }
}

/// The handoff after `progress(delta)`, and the progress it reports. A
/// handoff under way gains `delta` of elapsed time and takes the state of its
/// new progress; any other is left as it is and reports the progress of its
/// state.
pub open spec fn progress_step(v: HandoffView, delta: u128) -> (HandoffView, Progress) {
    if v.under_way() {
        let elapsed = (v.elapsed_nanos + delta) as u128;
        let p = elapsed_fraction(elapsed, v.transition_nanos);
        (HandoffView { state: phase_for(p), elapsed_nanos: elapsed, ..v }, p)
    } else {
        (v, resting_progress(v.state))
    }
}

impl View for Handoff {
    type V = HandoffView;

    closed spec fn view(&self) -> HandoffView {
        HandoffView {
            from_device: self.from_device@,
            to_device: self.to_device@,
            state: self.state,
            transition_nanos: self.transition_nanos,
            elapsed_nanos: self.elapsed_nanos,
            cancelled: self.cancelled,
        }
    }
}

impl Handoff {
    pub fn new(from_device: &str, to_device: &str, transition_nanos: u128) -> (h: Handoff)
        ensures
            h@ == (HandoffView {
                from_device: from_device@,
                to_device: to_device@,
                state: HandoffState::Stable,
                transition_nanos,
                elapsed_nanos: 0,
                cancelled: false,
            }),
    {
        Handoff {
            from_device: from_device.to_owned(),
            to_device: to_device.to_owned(),
            state: HandoffState::Stable,
            transition_nanos,
            elapsed_nanos: 0,
            cancelled: false,
        }
    }

    /// Begins the handoff: from a stable, never cancelled handoff it starts
    /// fading out with no time elapsed; otherwise it fails and changes nothing.
    pub fn begin(&mut self) -> (r: Result<(), String>)
        ensures
            (r is Ok) == begin_ok(old(self)@),
            final(self)@ == begin_next(old(self)@),
            r matches Err(e) ==> e@ == if old(self)@.state != HandoffState::Stable {
                "Cannot begin handoff from state "@ + state_name(old(self)@.state)
            } else {
                "Handoff was cancelled"@
            },
    {
        if self.state != HandoffState::Stable {
            let mut msg = "Cannot begin handoff from state ".to_owned();
            msg.append(self.state.name());
            return Err(msg);
        }
        if self.cancelled {
            return Err("Handoff was cancelled".to_owned());
        }
        self.state = HandoffState::FadingOut;
        self.elapsed_nanos = 0;
        Ok(())
    }

    /// Advances the handoff by `delta_nanos` and returns its progress. A
    /// handoff that is not under way is left as it is, and reports the
    /// progress of its state.
    pub fn progress(&mut self, delta_nanos: u128) -> (r: Progress)
        requires
            old(self)@.transition_nanos <= MAX_DURATION_NANOS,
            old(self)@.under_way() ==> old(self)@.elapsed_nanos + delta_nanos <= MAX_DURATION_NANOS,
        ensures
            (final(self)@, r) == progress_step(old(self)@, delta_nanos),
    {
        if self.cancelled || self.state == HandoffState::Complete || self.state == HandoffState::Stable {
            return self.state_to_progress();
        }
        self.elapsed_nanos = self.elapsed_nanos + delta_nanos;
        let total = self.transition_nanos;
        let p = if total > 0 {
            let covered = if self.elapsed_nanos < total { self.elapsed_nanos } else { total };
            Progress { numerator: covered, denominator: total }
        } else {
            Progress { numerator: 1, denominator: 1 }
        };
        if 100 * p.numerator < 33 * p.denominator {
            self.state = HandoffState::FadingOut;
        } else if 100 * p.numerator < 66 * p.denominator {
            self.state = HandoffState::Crossfading;
        } else if p.numerator < p.denominator {
            self.state = HandoffState::FadingIn;
        } else {
            self.state = HandoffState::Complete;
        }
        p
    }

    /// Cancels the transition: a handoff under way returns to stable, marked
    /// cancelled, with no time elapsed. A complete or stable one cannot be
    /// cancelled, and is left as it is.
    pub fn cancel(&mut self) -> (r: Result<(), String>)
        ensures
            (r is Ok) == cancel_ok(old(self)@),
            final(self)@ == cancel_next(old(self)@),
            r matches Err(e) ==> e@ == if old(self)@.state == HandoffState::Complete {
                "Cannot cancel a completed handoff"@
            } else {
                "Nothing to cancel"@
            },
    {
        if self.state == HandoffState::Complete {
            return Err("Cannot cancel a completed handoff".to_owned());
        }
        if self.state == HandoffState::Stable {
            return Err("Nothing to cancel".to_owned());
        }
        self.cancelled = true;
        self.state = HandoffState::Stable;
        self.elapsed_nanos = 0;
        Ok(())
    }

    fn state_to_progress(&self) -> (r: Progress)
        ensures
            r == resting_progress(self@.state),
    {
        match self.state {
            HandoffState::Stable => Progress { numerator: 0, denominator: 1 },
            HandoffState::FadingOut => Progress { numerator: 0, denominator: 1 },
            HandoffState::Crossfading => Progress { numerator: 1, denominator: 2 },
            HandoffState::FadingIn => Progress { numerator: 4, denominator: 5 },
            HandoffState::Complete => Progress { numerator: 1, denominator: 1 },
        }
    }

    /// Time elapsed since the handoff began, in nanoseconds.
    pub fn elapsed_nanos(&self) -> (n: u128)
        ensures
            n == self@.elapsed_nanos,
    {
        self.elapsed_nanos
    }

    pub fn is_complete(&self) -> (b: bool)
        ensures
            b == (self@.state == HandoffState::Complete),
    {
        self.state == HandoffState::Complete
    }

    pub fn is_cancelled(&self) -> (b: bool)
        ensures
            b == self@.cancelled,
    {
        self.cancelled
    }
}

} // verus!

verus! {

/// Whether progress `p` is at most progress `q`, as fractions.
pub open spec fn progress_le(p: Progress, q: Progress) -> bool {
    p.numerator * q.denominator <= q.numerator * p.denominator
}

/// The handoffs and reports that successive calls of `progress` with the
/// given deltas produce, one pair per call.
pub open spec fn progress_trace(v: HandoffView, deltas: Seq<u128>) -> Seq<(HandoffView, Progress)>
    decreases deltas.len(),
{
    if deltas.len() == 0 {
        Seq::empty()
    } else {
        let next = progress_step(v, deltas[0]);
        seq![next] + progress_trace(next.0, deltas.drop_first())
    }
}

/// The total of the deltas.
pub open spec fn delta_sum(deltas: Seq<u128>) -> int
    decreases deltas.len(),
{
    if deltas.len() == 0 {
        0
    } else {
        deltas[0] + delta_sum(deltas.drop_first())
    }
}

/// One call of `progress` followed by the next: the progress does not
/// shrink, the state does not go back, and once complete the handoff stays
/// complete and reports 1.
pub open spec fn moves_forward(a: (HandoffView, Progress), b: (HandoffView, Progress)) -> bool {
    &&& progress_le(a.1, b.1)
    &&& phase_rank(a.0.state) <= phase_rank(b.0.state)
    &&& a.0.state == HandoffState::Complete ==> {
        &&& b.0.state == HandoffState::Complete
        &&& b.1 == (Progress { numerator: 1, denominator: 1 })
    }
}

/// A handoff that `progress` can act on: under way, or complete and never
/// cancelled.
pub open spec fn advancing(v: HandoffView) -> bool {
    v.under_way() || (v.state == HandoffState::Complete && !v.cancelled)
}

proof fn lemma_two_steps_move_forward(v: HandoffView, d0: u128, d1: u128)
    requires
        advancing(v),
        v.transition_nanos <= MAX_DURATION_NANOS,
        v.elapsed_nanos + d0 + d1 <= MAX_DURATION_NANOS,
    ensures
        advancing(progress_step(v, d0).0),
        progress_step(v, d0).0.transition_nanos == v.transition_nanos,
        progress_step(v, d0).0.elapsed_nanos <= v.elapsed_nanos + d0,
        moves_forward(progress_step(v, d0), progress_step(progress_step(v, d0).0, d1)),
{
    if v.under_way() {
        let e0 = (v.elapsed_nanos + d0) as u128;
        let e1 = (e0 + d1) as u128;
        let t = v.transition_nanos;
        let p1 = elapsed_fraction(e0, t);
        let p2 = elapsed_fraction(e1, t);
        lemma_progress_monotone(e0, e1, t);
        lemma_progress_in_unit_range(e0, t, HandoffState::Complete);
        let n1 = p1.numerator;
        let n2 = p2.numerator;
        let den = p1.denominator;
        assert(n1 * den <= n2 * den) by (nonlinear_arith)
            requires
                n1 <= n2,
        ;
        assert(n1 * 1 <= 1 * den) by (nonlinear_arith)
            requires
                n1 <= den,
        ;
    }
}

/// Successive calls of `progress` on a handoff under way (or complete) move
/// it forward: each report is at least the one before, the state never goes
/// back, and once complete it stays complete and reports 1. No state along
/// the way is stable or cancelled.
pub proof fn lemma_progress_moves_forward(v: HandoffView, deltas: Seq<u128>)
    requires
        advancing(v),
        v.transition_nanos <= MAX_DURATION_NANOS,
        v.elapsed_nanos + delta_sum(deltas) <= MAX_DURATION_NANOS,
    ensures
        progress_trace(v, deltas).len() == deltas.len(),
        forall|k: int|
            0 <= k < deltas.len() - 1 ==> moves_forward(
                #[trigger] progress_trace(v, deltas)[k],
                progress_trace(v, deltas)[k + 1],
            ),
        forall|k: int|
            0 <= k < deltas.len() ==> advancing(#[trigger] progress_trace(v, deltas)[k].0),
    decreases deltas.len(),
{
    if deltas.len() > 0 {
        let rest = deltas.drop_first();
        let next = progress_step(v, deltas[0]);
        assert(delta_sum(deltas) == deltas[0] + delta_sum(rest));
        assert(delta_sum(rest) >= 0) by {
            lemma_delta_sum_nonnegative(rest);
        }
        if rest.len() > 0 {
            assert(delta_sum(rest) == rest[0] + delta_sum(rest.drop_first()));
            lemma_delta_sum_nonnegative(rest.drop_first());
        }
        let d1: u128 = if rest.len() > 0 { rest[0] } else { 0 };
        lemma_two_steps_move_forward(v, deltas[0], d1);
        lemma_progress_moves_forward(next.0, rest);
        let tr = progress_trace(v, deltas);
        let tail = progress_trace(next.0, rest);
        assert(tr == seq![next] + tail);
        assert forall|k: int| 0 <= k < deltas.len() - 1 implies moves_forward(#[trigger] tr[k], tr[k + 1]) by {
            if k == 0 {
                assert(tr[1] == tail[0]);
            } else {
                assert(tr[k] == tail[k - 1] && tr[k + 1] == tail[k]);
            }
        }
        assert forall|k: int| 0 <= k < deltas.len() implies advancing(#[trigger] tr[k].0) by {
            if k > 0 {
                assert(tr[k] == tail[k - 1]);
            }
        }
    }
}

proof fn lemma_delta_sum_nonnegative(deltas: Seq<u128>)
    ensures
        delta_sum(deltas) >= 0,
    decreases deltas.len(),
{
    if deltas.len() > 0 {
        lemma_delta_sum_nonnegative(deltas.drop_first());
    }
}

/// A call on a handoff.
pub enum HandoffCall {
    Begin,
    Progress(u128),
    Cancel,
}

/// The handoff after one call.
pub open spec fn apply_call(v: HandoffView, c: HandoffCall) -> HandoffView {
    match c {
        HandoffCall::Begin => begin_next(v),
        HandoffCall::Progress(d) => progress_step(v, d).0,
        HandoffCall::Cancel => cancel_next(v),
    }
}

/// The handoff after a sequence of calls, in order.
pub open spec fn run_calls(v: HandoffView, calls: Seq<HandoffCall>) -> HandoffView
    decreases calls.len(),
{
    if calls.len() == 0 {
        v
    } else {
        apply_call(run_calls(v, calls.drop_last()), calls.last())
    }
}

/// The call at position `k` is a `cancel` that succeeds.
pub open spec fn cancel_succeeds_at(v: HandoffView, calls: Seq<HandoffCall>, k: int) -> bool {
    &&& 0 <= k < calls.len()
    &&& calls[k] is Cancel
    &&& cancel_ok(run_calls(v, calls.take(k)))
}

/// A cancelled, stable handoff is frozen: `begin` and `cancel` fail and
/// change nothing, and `progress` changes nothing and reports 0.
pub proof fn lemma_cancelled_handoff_is_frozen(v: HandoffView, delta: u128)
    requires
        v.cancelled,
        v.state == HandoffState::Stable,
    ensures
        !begin_ok(v),
        begin_next(v) == v,
        !cancel_ok(v),
        cancel_next(v) == v,
        progress_step(v, delta) == (v, Progress { numerator: 0, denominator: 1 }),
{
}

/// Starting from a handoff never cancelled, whatever calls follow, the
/// handoff is cancelled exactly when one of those calls was a `cancel` that
/// succeeded; and a cancelled handoff is stable.
pub proof fn lemma_cancelled_iff_a_cancel_succeeded(v: HandoffView, calls: Seq<HandoffCall>)
    requires
        !v.cancelled,
    ensures
        run_calls(v, calls).cancelled <==> exists|k: int| cancel_succeeds_at(v, calls, k),
        run_calls(v, calls).cancelled ==> run_calls(v, calls).state == HandoffState::Stable,
    decreases calls.len(),
{
    if calls.len() == 0 {
        assert(!(exists|k: int| cancel_succeeds_at(v, calls, k)));
    } else {
        let n = calls.len() - 1;
        let pre = calls.drop_last();
        lemma_cancelled_iff_a_cancel_succeeded(v, pre);
        let w = run_calls(v, pre);
        assert(calls.take(n) =~= pre);
        assert forall|k: int| 0 <= k < n implies cancel_succeeds_at(v, calls, k) == cancel_succeeds_at(v, pre, k) by {
            assert(calls.take(k) =~= pre.take(k));
        }
        if w.cancelled {
            let k = choose|k: int| cancel_succeeds_at(v, pre, k);
            assert(cancel_succeeds_at(v, calls, k));
        } else if run_calls(v, calls).cancelled {
            assert(cancel_succeeds_at(v, calls, n));
        } else {
            assert forall|k: int| !cancel_succeeds_at(v, calls, k) by {
                if 0 <= k < n {
                    assert(!cancel_succeeds_at(v, pre, k));
                }
            }
        }
    }
}

} // verus!
