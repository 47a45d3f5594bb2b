use vstd::prelude::*;

use crate::geometry::{dist_sq, distance_sq, floor_sqrt, is_floor_sqrt, Vec2i};

verus! {

/// Longest press, in milliseconds, that can still count as a tap.
pub const DEFAULT_AIM_CANCEL_TIME: u128 = 300;

/// Shortest drag, in screen units, that no longer counts as a tap.
pub const DEFAULT_AIM_CANCEL_DISTANCE: u32 = 30;

/// The tap heuristic's time bound, in milliseconds.
#[derive(Clone, Copy, Debug, PartialEq, Eq, Structural)]
pub struct AimCancelTime(pub u128);

/// The tap heuristic's distance bound, in screen units.
#[derive(Clone, Copy, Debug, PartialEq, Eq, Structural)]
pub struct AimCancelDistance(pub u32);

impl Default for AimCancelTime {
    fn default() -> (r: AimCancelTime)
        ensures
            r.0 == DEFAULT_AIM_CANCEL_TIME,
    {
        AimCancelTime(DEFAULT_AIM_CANCEL_TIME)
    }
}

impl Default for AimCancelDistance {
    fn default() -> (r: AimCancelDistance)
        ensures
            r.0 == DEFAULT_AIM_CANCEL_DISTANCE,
    {
        AimCancelDistance(DEFAULT_AIM_CANCEL_DISTANCE)
    }
}

/// The drag of an entity that is currently aiming, in screen coordinates.
/// Its presence is what "aiming" means.
#[derive(Clone, Copy, Debug, PartialEq, Eq, Structural)]
pub struct FrogAimState {
    pub start_pos: Vec2i,
    pub end_pos: Vec2i,
}

/// The named input channels of an aimable entity.
#[derive(Clone, Copy, Debug, PartialEq, Eq, Structural, Hash)]
pub enum FrogActions {
    Aim,
    AimPositionWorld,
    AimPositionScreen,
    AimCancel,
    AimRelease,
}

impl FrogAimState {
    pub open spec fn drag_len_sq(self) -> int {
        dist_sq(self.start_pos, self.end_pos)
    }

    /// A fresh drag that starts and ends where the pointer is.
    pub fn new(start_pos: Vec2i) -> (r: FrogAimState)
        ensures
            r.start_pos == start_pos,
            r.end_pos == start_pos,
    {
        FrogAimState { start_pos, end_pos: start_pos }
    }

    /// Length of the drag, rounded down to a whole screen unit.
    pub fn length(&self) -> (r: u64)
        ensures
            is_floor_sqrt(r as int, self.drag_len_sq()),
    {
        floor_sqrt(distance_sq(self.start_pos, self.end_pos))
    }
}

/// What the input layer reports for one entity in one tick.
///
/// `aim_held_ms` is how long the `Aim` press that ended this tick was held;
/// it is read only on the tick where `aim_just_released` holds.
#[derive(Clone, Copy, Debug, PartialEq, Eq, Structural)]
pub struct AimSignals {
    pub aim_pressed: bool,
    pub aim_just_pressed: bool,
    pub aim_just_released: bool,
    pub aim_held_ms: u128,
    pub cancel_pressed: bool,
    pub cancel_just_pressed: bool,
    pub cursor_screen: Option<Vec2i>,
}

impl AimSignals {
    /// The edges agree with the levels, as a button's state always does.
    pub open spec fn wf(self) -> bool {
        &&& self.aim_just_pressed ==> self.aim_pressed
        &&& self.aim_just_released ==> !self.aim_pressed
        &&& self.cancel_just_pressed ==> self.cancel_pressed
    }
}

/// How a gesture ended.
#[derive(Clone, Copy, Debug, PartialEq, Eq, Structural)]
pub enum AimResolution {
    Cancel,
    Release,
}

/// The tap heuristic: a press that was both short and small.
pub open spec fn is_tap(
    aim: FrogAimState,
    held_ms: int,
    time: AimCancelTime,
    distance: AimCancelDistance,
) -> bool {
    held_ms < time.0 && aim.drag_len_sq() < distance.0 * distance.0
}

/// How the gesture of an aiming entity resolves this tick, if it does.
///
/// An explicit cancel press wins. Otherwise the release of `Aim`, with the
/// cancel button up, is classified as a tap (cancel) or a committed release.
pub open spec fn resolution_of(
    aim: FrogAimState,
    sig: AimSignals,
    time: AimCancelTime,
    distance: AimCancelDistance,
) -> Option<AimResolution> {
    if sig.cancel_just_pressed {
        Some(AimResolution::Cancel)
    } else if sig.aim_just_released && !sig.cancel_pressed {
        if is_tap(aim, sig.aim_held_ms as int, time, distance) {
            Some(AimResolution::Cancel)
        } else {
            Some(AimResolution::Release)
        }
    } else {
        None
    }
}

/// The decision taken for an aiming entity before its drag is updated.
#[derive(Clone, Copy, Debug, PartialEq, Eq, Structural)]
pub struct AimVerdict {
    /// The cancel button is down: the `Aim` press is consumed, so that its
    /// later release is not seen as a launch.
    pub consume_aim: bool,
    pub resolution: Option<AimResolution>,
}

/// Tap classification for an entity that is aiming.
pub fn update_aiming(
    aim_state: &FrogAimState,
    signals: &AimSignals,
    aim_cancel_time: &AimCancelTime,
    aim_cancel_distance: &AimCancelDistance,
) -> (r: AimVerdict)
    ensures
        r.consume_aim == signals.cancel_pressed,
        r.resolution == resolution_of(*aim_state, *signals, *aim_cancel_time, *aim_cancel_distance),
{
    let resolution = if signals.cancel_just_pressed {
        Some(AimResolution::Cancel)
    } else if signals.aim_just_released && !signals.cancel_pressed {
        let len = aim_state.length();
        let d = aim_cancel_distance.0 as u64;
        // For a whole-unit bound, the rounded-down length is below it
        // exactly when the length itself is.
        assert(len < d <==> aim_state.drag_len_sq() < d * d) by (nonlinear_arith)
            requires
                is_floor_sqrt(len as int, aim_state.drag_len_sq()),
        ;
        if signals.aim_held_ms < aim_cancel_time.0 && len < d {
            Some(AimResolution::Cancel)
        } else {
            Some(AimResolution::Release)
        }
    } else {
        None
    };
    AimVerdict { consume_aim: signals.cancel_pressed, resolution }
}

/// Where a held `Aim` drags the end of the aim: to the cursor, when the
/// press is live (not consumed by the cancel button) and the cursor is known.
pub open spec fn dragged(aim: FrogAimState, sig: AimSignals) -> FrogAimState {
    if sig.aim_pressed && !sig.cancel_pressed && sig.cursor_screen is Some {
        FrogAimState { start_pos: aim.start_pos, end_pos: sig.cursor_screen->0 }
    } else {
        aim
    }
}

/// What happened to an entity's gesture in one tick.
#[derive(Clone, Copy, Debug, PartialEq, Eq, Structural)]
pub enum AimEvent {
    /// No transition: still idle, or still aiming.
    Continue,
    /// An aim began this tick.
    Started,
    /// The gesture was aborted (tap or cancel button).
    Cancelled,
    /// The gesture was committed, with this drag.
    Released(FrogAimState),
}

/// The outcome of one tick for one entity.
#[derive(Clone, Copy, Debug, PartialEq, Eq, Structural)]
pub struct AimStep {
    /// The aim afterwards; `None` is idle.
    pub state: Option<FrogAimState>,
    /// The host consumes the `Aim` press.
    pub consume_aim: bool,
    pub event: AimEvent,
}

/// The aim an idle entity takes up: on a fresh `Aim` press over a known
/// cursor, a drag that starts and ends at the cursor.
pub open spec fn started(sig: AimSignals) -> Option<FrogAimState> {
    if sig.aim_just_pressed && sig.cursor_screen is Some {
        let p = sig.cursor_screen->0;
        Some(FrogAimState { start_pos: p, end_pos: p })
    } else {
        None
    }
}

/// The gesture state machine: the phase of an entity after one tick.
pub open spec fn aim_step(
    phase: Option<FrogAimState>,
    sig: AimSignals,
    time: AimCancelTime,
    distance: AimCancelDistance,
) -> AimStep {
    match phase {
        None => match started(sig) {
            Some(aim) => AimStep { state: Some(aim), consume_aim: false, event: AimEvent::Started },
            None => AimStep { state: None, consume_aim: false, event: AimEvent::Continue },
        },
        Some(aim) => {
            let moved = dragged(aim, sig);
            match resolution_of(aim, sig, time, distance) {
                Some(AimResolution::Cancel) => AimStep {
                    state: None,
                    consume_aim: sig.cancel_pressed,
                    event: AimEvent::Cancelled,
                },
                Some(AimResolution::Release) => AimStep {
                    state: None,
                    consume_aim: sig.cancel_pressed,
                    event: AimEvent::Released(moved),
                },
                None => AimStep {
                    state: Some(moved),
                    consume_aim: sig.cancel_pressed,
                    event: AimEvent::Continue,
                },
            }
        },
    }
}

/// Begins an aim for an idle entity on a fresh `Aim` press over a known cursor.
pub fn start_aim(signals: &AimSignals) -> (r: Option<FrogAimState>)
    ensures
        r == started(*signals),
{
    if signals.aim_just_pressed {
        match signals.cursor_screen {
            Some(cursor_pos) => Some(FrogAimState::new(cursor_pos)),
            None => None,
        }
    } else {
        None
    }
}

/// Moves the end of the drag to the cursor while `Aim` is held.
pub fn update_aim(aim_state: &mut FrogAimState, signals: &AimSignals)
    ensures
        *final(aim_state) == dragged(*old(aim_state), *signals),
{
    if signals.aim_pressed && !signals.cancel_pressed {
        if let Some(cursor_pos) = signals.cursor_screen {
            aim_state.end_pos = cursor_pos;
        }
    }
}

/// Runs one tick of the gesture state machine for one entity: start, then
/// classification, then the drag update, then the resolution.
pub fn advance_aim(
    phase: Option<FrogAimState>,
    signals: &AimSignals,
    aim_cancel_time: &AimCancelTime,
    aim_cancel_distance: &AimCancelDistance,
) -> (r: AimStep)
    ensures
        r == aim_step(phase, *signals, *aim_cancel_time, *aim_cancel_distance),
{
    match phase {
        None => {
            let state = start_aim(signals);
            let event = if state.is_some() {
                AimEvent::Started
            } else {
                AimEvent::Continue
            };
            AimStep { state, consume_aim: false, event }
        },
        Some(aim) => {
            let verdict = update_aiming(&aim, signals, aim_cancel_time, aim_cancel_distance);
            let mut moved = aim;
            update_aim(&mut moved, signals);
            match verdict.resolution {
                Some(AimResolution::Cancel) => AimStep {
                    state: None,
                    consume_aim: verdict.consume_aim,
                    event: AimEvent::Cancelled,
                },
                Some(AimResolution::Release) => AimStep {
                    state: None,
                    consume_aim: verdict.consume_aim,
                    event: AimEvent::Released(moved),
                },
                None => AimStep {
                    state: Some(moved),
                    consume_aim: verdict.consume_aim,
                    event: AimEvent::Continue,
                },
            }
        },
    }
}

/// A release of `Aim` with the cancel button up, after a press held at least
/// the tap time or dragged at least the tap distance, launches: it never
/// cancels.
pub proof fn lemma_long_or_far_release_launches(
    aim: FrogAimState,
    sig: AimSignals,
    time: AimCancelTime,
    distance: AimCancelDistance,
)
    requires
        sig.wf(),
        sig.aim_just_released,
        !sig.cancel_pressed,
        sig.aim_held_ms >= time.0 || aim.drag_len_sq() >= distance.0 * distance.0,
    ensures
        aim_step(Some(aim), sig, time, distance).event == AimEvent::Released(aim),
        aim_step(Some(aim), sig, time, distance).state is None,
{
}

/// A release of `Aim` with the cancel button up, after a press both shorter
/// than the tap time and dragged less than the tap distance, is a tap: it
/// cancels, never launches.
pub proof fn lemma_tap_cancels(
    aim: FrogAimState,
    sig: AimSignals,
    time: AimCancelTime,
    distance: AimCancelDistance,
)
    requires
        sig.wf(),
        sig.aim_just_released,
        !sig.cancel_pressed,
        sig.aim_held_ms < time.0,
        aim.drag_len_sq() < distance.0 * distance.0,
    ensures
        aim_step(Some(aim), sig, time, distance).event == AimEvent::Cancelled,
        aim_step(Some(aim), sig, time, distance).state is None,
{
}

/// While idle, the cancel button has no effect: the tick comes out the same
/// whatever it does. Without a fresh `Aim` press no aim is created, nothing
/// is consumed, and a repeated tick comes out the same again.
pub proof fn lemma_cancel_while_idle_is_inert(
    sig: AimSignals,
    cancel_pressed: bool,
    cancel_just_pressed: bool,
    time: AimCancelTime,
    distance: AimCancelDistance,
)
    ensures
        aim_step(None, sig, time, distance) == aim_step(
            None,
            AimSignals { cancel_pressed, cancel_just_pressed, ..sig },
            time,
            distance,
        ),
        !sig.aim_just_pressed ==> aim_step(None, sig, time, distance) == (AimStep {
            state: None,
            consume_aim: false,
            event: AimEvent::Continue,
        }),
        !sig.aim_just_pressed ==> aim_step(
            aim_step(None, sig, time, distance).state,
            sig,
            time,
            distance,
        ) == aim_step(None, sig, time, distance),
{
}

/// An aiming entity never starts a second aim, and its drag keeps the point
/// where it started for as long as it lasts.
pub proof fn lemma_aiming_keeps_its_start(
    aim: FrogAimState,
    sig: AimSignals,
    time: AimCancelTime,
    distance: AimCancelDistance,
)
    ensures
        aim_step(Some(aim), sig, time, distance).event !is Started,
        aim_step(Some(aim), sig, time, distance).state matches Some(next) ==> next.start_pos
            == aim.start_pos,
        aim_step(Some(aim), sig, time, distance).event matches AimEvent::Released(done)
            ==> done.start_pos == aim.start_pos,
{
}

/// Every resolved gesture, cancelled or released, leaves the entity idle.
pub proof fn lemma_resolved_gesture_is_idle(
    phase: Option<FrogAimState>,
    sig: AimSignals,
    time: AimCancelTime,
    distance: AimCancelDistance,
)
    requires
        aim_step(phase, sig, time, distance).event is Cancelled || aim_step(
            phase,
            sig,
            time,
            distance,
        ).event is Released,
    ensures
        aim_step(phase, sig, time, distance).state is None,
{
}

} // verus!
