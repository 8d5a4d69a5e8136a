//! Laws of the transition relation, over single ticks and over runs of
//! several ticks.

use crate::geometry::DisplayRectangle;
use crate::session::{
    ends_on_other_window, transition, Command, Event, LockState, SessionState, TickInput,
    WindowHandle, GRACE_MAX,
};
use vstd::prelude::*;

verus! {

/// The state reached from `s` after the first `k` of `inputs`.
pub open spec fn state_after(s: SessionState, inputs: Seq<TickInput>, k: nat) -> SessionState
    decreases k,
{
    if k == 0 {
        s
    } else {
        transition(state_after(s, inputs, (k - 1) as nat), inputs[k - 1]).state
    }
}

/// The commands emitted by tick `k` of the run of `inputs` from `s`, the
/// first tick being tick 0.
pub open spec fn commands_at(s: SessionState, inputs: Seq<TickInput>, k: nat) -> Seq<Command> {
    transition(state_after(s, inputs, k), inputs[k as int]).commands
}

/// No command of the sequence applies a region.
pub open spec fn no_apply(commands: Seq<Command>) -> bool {
    forall|i: int| 0 <= i < commands.len() ==> !(#[trigger] commands[i] is Apply)
}

/// The tick sees a foreground window other than the switcher, judged
/// fullscreen as `window` on `region`.
pub open spec fn confirms(input: TickInput, window: WindowHandle, region: DisplayRectangle) -> bool {
    &&& input.foreground is Some
    &&& !input.is_switcher
    &&& input.fullscreen_region == Some((window, region))
}

/// The tick sees a foreground window other than the switcher that is judged
/// fullscreen.
pub open spec fn qualifies(input: TickInput) -> bool {
    &&& input.foreground is Some
    &&& !input.is_switcher
    &&& input.fullscreen_region is Some
}

/// The tick sees nothing fullscreen: no foreground window, or one that is
/// neither the switcher nor judged fullscreen.
pub open spec fn sees_nothing_fullscreen(input: TickInput) -> bool {
    input.foreground is None || (!input.is_switcher && input.fullscreen_region is None)
}

/// The tick sees the window switcher in the foreground.
pub open spec fn sees_switcher(input: TickInput) -> bool {
    input.foreground is Some && input.is_switcher
}

/// The tick ends a switch gesture on a window other than the remembered
/// one.
pub open spec fn ends_gesture_elsewhere(s: SessionState, input: TickInput) -> bool {
    &&& input.foreground matches Some(foreground)
    &&& !input.is_switcher
    &&& ends_on_other_window(s, foreground)
}

/// The tick finds a locked session with grace to spare and no foreground
/// window, so that the session asserts its region again.
pub open spec fn reasserts_without_foreground(s: SessionState, input: TickInput) -> bool {
    &&& input.foreground is None
    &&& s.lock matches LockState::Locked { grace_ticks, .. }
    &&& grace_ticks > 1
}

/// The state that is locked onto `window` and `region` with the full grace,
/// outside any switch gesture.
pub open spec fn freshly_locked(window: WindowHandle, region: DisplayRectangle) -> SessionState {
    SessionState {
        lock: LockState::Locked { window, region, grace_ticks: GRACE_MAX },
        switcher_active: false,
        remembered_window: None,
        suspended: false,
    }
}

/// The initial state is well formed and every transition keeps a state
/// well formed.
pub proof fn lemma_well_formed_is_invariant(s: SessionState, input: TickInput)
    ensures
        SessionState::initial().well_formed(),
        s.well_formed() ==> transition(s, input).state.well_formed(),
{
}

/// A run from a well-formed state passes through well-formed states only.
pub proof fn lemma_run_stays_well_formed(s: SessionState, inputs: Seq<TickInput>, k: nat)
    requires
        s.well_formed(),
    ensures
        state_after(s, inputs, k).well_formed(),
    decreases k,
{
    if k > 0 {
        lemma_run_stays_well_formed(s, inputs, (k - 1) as nat);
        lemma_well_formed_is_invariant(state_after(s, inputs, (k - 1) as nat), inputs[k - 1]);
    }
}

/// A run can be cut after `n` ticks: what follows is the run of the
/// remaining inputs from the state reached.
pub proof fn lemma_run_splits(s: SessionState, inputs: Seq<TickInput>, n: nat, k: nat)
    requires
        n + k <= inputs.len(),
    ensures
        state_after(s, inputs, n + k) == state_after(
            state_after(s, inputs, n),
            inputs.subrange(n as int, inputs.len() as int),
            k,
        ),
    decreases k,
{
    if k > 0 {
        lemma_run_splits(s, inputs, n, (k - 1) as nat);
        assert(inputs.subrange(n as int, inputs.len() as int)[k - 1] == inputs[n + k - 1]);
    }
}

/// A tick emits at most one command.
pub proof fn lemma_at_most_one_command(s: SessionState, input: TickInput)
    ensures
        transition(s, input).commands.len() <= 1,
{
}

/// Confinement is never applied while suspended: a tick that applies a
/// region leaves the session unsuspended and locked to that very region.
pub proof fn lemma_apply_only_when_locked(s: SessionState, input: TickInput, i: int)
    requires
        s.well_formed(),
        0 <= i < transition(s, input).commands.len(),
        transition(s, input).commands[i] is Apply,
    ensures
        !transition(s, input).state.suspended,
        transition(s, input).state.lock matches LockState::Locked { region, .. }
            && transition(s, input).commands[i] == Command::Apply(region),
{
}

/// A tick that confirms the window and region already enforced applies the
/// region again and restores the full grace. Outside a switch gesture the
/// log hears nothing of it.
pub proof fn lemma_reconfirmation_reapplies(
    s: SessionState,
    input: TickInput,
    window: WindowHandle,
    region: DisplayRectangle,
)
    requires
        s.well_formed(),
        s.enforces(window, region),
        confirms(input, window, region),
        !ends_gesture_elsewhere(s, input),
    ensures
        transition(s, input).commands == seq![Command::Apply(region)],
        transition(s, input).state == freshly_locked(window, region),
        !s.switcher_active ==> transition(s, input).events == Seq::<Event>::empty(),
{
    if !s.switcher_active {
        assert(transition(s, input).events =~= Seq::<Event>::empty());
    }
}

/// While the same fullscreen window and region persist, every tick applies
/// the region, and after every tick the session is locked onto them with the
/// full grace: from the second tick on the state no longer changes.
pub proof fn lemma_persisting_fullscreen_is_reapplied(
    s: SessionState,
    inputs: Seq<TickInput>,
    window: WindowHandle,
    region: DisplayRectangle,
    k: nat,
)
    requires
        s.well_formed(),
        k < inputs.len(),
        !ends_gesture_elsewhere(s, inputs[0]),
        forall|j: int| 0 <= j <= k ==> confirms(#[trigger] inputs[j], window, region),
    ensures
        commands_at(s, inputs, k) == seq![Command::Apply(region)],
        state_after(s, inputs, k + 1) == freshly_locked(window, region),
    decreases k,
{
    if k > 0 {
        lemma_persisting_fullscreen_is_reapplied(s, inputs, window, region, (k - 1) as nat);
    }
    assert(confirms(inputs[k as int], window, region));
}

/// A session locked with `grace` ticks of grace, outside a switch gesture,
/// that sees nothing fullscreen tick after tick keeps applying its region
/// for `grace - 1` ticks, counting the grace down by one each time, and
/// releases on tick number `grace`: not before and not after.
pub proof fn lemma_grace_counts_down(
    s: SessionState,
    inputs: Seq<TickInput>,
    window: WindowHandle,
    region: DisplayRectangle,
    grace: u32,
    k: nat,
)
    requires
        s.well_formed(),
        s.lock == (LockState::Locked { window, region, grace_ticks: grace }),
        !s.switcher_active,
        k < grace,
        k < inputs.len(),
        forall|j: int| 0 <= j <= k ==> sees_nothing_fullscreen(#[trigger] inputs[j]),
    ensures
        k + 1 < grace ==> commands_at(s, inputs, k) == seq![Command::Apply(region)],
        k + 1 < grace ==> state_after(s, inputs, k + 1) == (SessionState {
            lock: LockState::Locked { window, region, grace_ticks: (grace - (k + 1)) as u32 },
            ..s
        }),
        k + 1 == grace ==> commands_at(s, inputs, k) == seq![Command::Release],
        k + 1 == grace ==> state_after(s, inputs, k + 1) == (SessionState {
            lock: LockState::Unlocked,
            ..s
        }),
    decreases k,
{
    if k > 0 {
        lemma_grace_counts_down(s, inputs, window, region, grace, (k - 1) as nat);
    }
    assert(sees_nothing_fullscreen(inputs[k as int]));
}

/// After a tick that confirms a fullscreen window, ticks that see nothing
/// fullscreen follow one another. The first `GRACE_MAX - 1` of them apply
/// the region again, each with one tick of grace less; tick number
/// `GRACE_MAX` releases and leaves the session unlocked.
pub proof fn lemma_release_after_full_grace(
    s: SessionState,
    inputs: Seq<TickInput>,
    window: WindowHandle,
    region: DisplayRectangle,
    k: nat,
)
    requires
        s.well_formed(),
        1 <= k <= GRACE_MAX,
        k < inputs.len(),
        confirms(inputs[0], window, region),
        !ends_gesture_elsewhere(s, inputs[0]),
        forall|j: int| 1 <= j <= k ==> sees_nothing_fullscreen(#[trigger] inputs[j]),
    ensures
        k < GRACE_MAX ==> commands_at(s, inputs, k) == seq![Command::Apply(region)],
        k < GRACE_MAX ==> state_after(s, inputs, k + 1).lock == (LockState::Locked {
            window,
            region,
            grace_ticks: (GRACE_MAX - k) as u32,
        }),
        k == GRACE_MAX ==> commands_at(s, inputs, k) == seq![Command::Release],
        k == GRACE_MAX ==> state_after(s, inputs, k + 1).lock is Unlocked,
{
    let locked = state_after(s, inputs, 1);
    assert(locked == freshly_locked(window, region)) by {
        assert(state_after(s, inputs, 0) == s);
    }
    let rest = inputs.subrange(1, inputs.len() as int);
    assert forall|j: int| 0 <= j <= k - 1 implies sees_nothing_fullscreen(#[trigger] rest[j]) by {
        assert(rest[j] == inputs[j + 1]);
    }
    lemma_grace_counts_down(locked, rest, window, region, GRACE_MAX, (k - 1) as nat);
    lemma_run_splits(s, inputs, 1, (k - 1) as nat);
    lemma_run_splits(s, inputs, 1, k);
    assert(rest[k - 1] == inputs[k as int]);
}

/// Once unlocked, a session outside a switch gesture that sees nothing
/// fullscreen stays as it is and emits nothing.
pub proof fn lemma_unlocked_stays_quiet(s: SessionState, input: TickInput)
    requires
        s.lock is Unlocked,
        !s.switcher_active,
        sees_nothing_fullscreen(input),
    ensures
        transition(s, input).state == s,
        transition(s, input).commands == Seq::<Command>::empty(),
{
}

/// The tick on which the switcher takes the foreground releases the
/// confinement, whatever the lock, and remembers the locked window.
pub proof fn lemma_switcher_entry_releases(s: SessionState, input: TickInput)
    requires
        !s.switcher_active,
        sees_switcher(input),
    ensures
        transition(s, input).commands == seq![Command::Release],
        transition(s, input).state == (SessionState {
            switcher_active: true,
            remembered_window: s.locked_window(),
            ..s
        }),
{
}

/// As long as every tick sees the switcher in the foreground, the first
/// tick of the gesture releases and the following ones emit nothing.
pub proof fn lemma_switcher_ticks_are_silent(s: SessionState, inputs: Seq<TickInput>, k: nat)
    requires
        k < inputs.len(),
        forall|j: int| 0 <= j <= k ==> sees_switcher(#[trigger] inputs[j]),
    ensures
        state_after(s, inputs, k + 1).switcher_active,
        k == 0 && !s.switcher_active ==> commands_at(s, inputs, k) == seq![Command::Release],
        k > 0 || s.switcher_active ==> commands_at(s, inputs, k) == Seq::<Command>::empty(),
    decreases k,
{
    if k > 0 {
        lemma_switcher_ticks_are_silent(s, inputs, (k - 1) as nat);
    }
    assert(sees_switcher(inputs[k as int]));
}

/// From the tick on which the switcher takes the foreground until a tick
/// sees another window there, no region is applied. Ticks without a
/// foreground window belong to the gesture; those on which a locked session
/// asserts its region again are left out.
pub proof fn lemma_no_apply_during_gesture(s: SessionState, inputs: Seq<TickInput>, k: nat)
    requires
        k < inputs.len(),
        s.switcher_active || sees_switcher(inputs[0]),
        forall|j: int|
            0 <= j <= k ==> (#[trigger] inputs[j]).foreground is None || inputs[j].is_switcher,
        forall|j: nat|
            j <= k ==> !reasserts_without_foreground(
                #[trigger] state_after(s, inputs, j),
                inputs[j as int],
            ),
    ensures
        state_after(s, inputs, k + 1).switcher_active,
        no_apply(commands_at(s, inputs, k)),
    decreases k,
{
    if k > 0 {
        lemma_no_apply_during_gesture(s, inputs, (k - 1) as nat);
    }
    let before = state_after(s, inputs, k);
    let input = inputs[k as int];
    assert(input.foreground is None || input.is_switcher);
    assert(!reasserts_without_foreground(before, input));
    assert(state_after(s, inputs, k + 1) == transition(before, input).state);
}

/// A tick that sees a foreground window other than the switcher ends any
/// switch gesture and clears the remembered window, whichever way the
/// gesture ends.
pub proof fn lemma_gesture_end_clears_memory(s: SessionState, input: TickInput)
    requires
        s.well_formed(),
        input.foreground is Some,
        !input.is_switcher,
    ensures
        !transition(s, input).state.switcher_active,
        transition(s, input).state.remembered_window is None,
{
}

/// A switch gesture that ends on a window other than the remembered one
/// suspends and unlocks the session and emits no command, even if the new
/// window is judged fullscreen.
pub proof fn lemma_switch_to_other_window_suspends(s: SessionState, input: TickInput)
    requires
        ends_gesture_elsewhere(s, input),
    ensures
        transition(s, input).commands == Seq::<Command>::empty(),
        transition(s, input).state == (SessionState {
            lock: LockState::Unlocked,
            switcher_active: false,
            remembered_window: None,
            suspended: true,
        }),
{
}

/// A suspended session stays suspended and applies no region for as long
/// as no tick sees a foreground window, other than the switcher, that is
/// judged fullscreen.
pub proof fn lemma_suspension_suppresses_apply(s: SessionState, inputs: Seq<TickInput>, k: nat)
    requires
        s.well_formed(),
        s.suspended,
        k < inputs.len(),
        forall|j: int| 0 <= j <= k ==> !qualifies(#[trigger] inputs[j]),
    ensures
        state_after(s, inputs, k + 1).suspended,
        state_after(s, inputs, k + 1).well_formed(),
        no_apply(commands_at(s, inputs, k)),
    decreases k,
{
    if k > 0 {
        lemma_suspension_suppresses_apply(s, inputs, (k - 1) as nat);
    }
    let before = state_after(s, inputs, k);
    assert(before.suspended && before.well_formed());
    assert(!qualifies(inputs[k as int]));
    assert(state_after(s, inputs, k + 1) == transition(before, inputs[k as int]).state);
}

/// From the tick on which a switch gesture ends on a window other than the
/// remembered one, the session is suspended and no region is applied until
/// a tick sees a foreground window, other than the switcher, that is judged
/// fullscreen.
pub proof fn lemma_suspended_until_refocus(s: SessionState, inputs: Seq<TickInput>, k: nat)
    requires
        k < inputs.len(),
        ends_gesture_elsewhere(s, inputs[0]),
        forall|j: int| 1 <= j <= k ==> !qualifies(#[trigger] inputs[j]),
    ensures
        state_after(s, inputs, k + 1).suspended,
        no_apply(commands_at(s, inputs, k)),
{
    lemma_switch_to_other_window_suspends(s, inputs[0]);
    assert(state_after(s, inputs, 1) == transition(s, inputs[0]).state) by {
        assert(state_after(s, inputs, 0) == s);
    }
    if k > 0 {
        let suspended = state_after(s, inputs, 1);
        let rest = inputs.subrange(1, inputs.len() as int);
        assert forall|j: int| 0 <= j <= k - 1 implies !qualifies(#[trigger] rest[j]) by {
            assert(rest[j] == inputs[j + 1]);
        }
        lemma_suspension_suppresses_apply(suspended, rest, (k - 1) as nat);
        lemma_run_splits(s, inputs, 1, (k - 1) as nat);
        lemma_run_splits(s, inputs, 1, k);
        assert(rest[k - 1] == inputs[k as int]);
    } else {
        assert(state_after(s, inputs, 0) == s);
    }
}

/// A tick that sees a foreground window, other than the switcher, that is
/// judged fullscreen lifts the suspension: the session locks onto that
/// window and region with the full grace and applies the region.
pub proof fn lemma_refocus_lifts_suspension(
    s: SessionState,
    input: TickInput,
    window: WindowHandle,
    region: DisplayRectangle,
)
    requires
        s.well_formed(),
        s.suspended,
        confirms(input, window, region),
    ensures
        transition(s, input).commands == seq![Command::Apply(region)],
        transition(s, input).state == freshly_locked(window, region),
{
}

} // verus!
