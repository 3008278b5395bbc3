//! The closed-loop controller that moves the desk to a requested height.
//!
//! The controller is a pure state machine: the caller hands it each target
//! request and each desk event, sends the commands it returns, and asks it
//! before each wait whether to poll the height.
use vstd::prelude::*;

use crate::codec::DeskCommand;
use crate::decoder::{decoded_event, frame_height, DeskEvent};

verus! {

/// The direction of a seek.
#[derive(Clone, Copy, Debug, PartialEq, Eq, Structural)]
pub enum Direction {
    Up,
    Down,
}

/// The controller's state. Heights are in ticks (see `codec`); a target of
/// zero means that no seek is pending. `stop_requested` marks a seek that has
/// passed its target and been told to stop, while the desk has yet to report
/// that it stands still.
#[derive(Clone, Copy, Debug, PartialEq, Eq, Structural)]
pub struct Controller {
    pub current_height: u32,
    pub target_height: u32,
    pub move_direction: Option<Direction>,
    pub is_moving: bool,
    pub stop_requested: bool,
}

impl Controller {
    /// The target is meaningful only while a seek is in progress, and only a
    /// seek can be waiting for its stop.
    pub open spec fn wf(self) -> bool {
        &&& self.move_direction is None ==> self.target_height == 0
        &&& self.stop_requested ==> self.move_direction is Some
    }
}

/// The direction that brings the desk from `current` to `target`; a tie goes up.
pub open spec fn direction_for(current: u32, target: u32) -> Direction {
    if current <= target {
        Direction::Up
    } else {
        Direction::Down
    }
}

/// The command that starts a move in a direction.
pub open spec fn move_command(d: Direction) -> DeskCommand {
    match d {
        Direction::Up => DeskCommand::MoveUp,
        Direction::Down => DeskCommand::MoveDown,
    }
}

/// The state after a target request: a new seek, with no stop requested yet.
pub open spec fn step_target(s: Controller, target: u32) -> Controller {
    Controller {
        target_height: target,
        move_direction: Some(direction_for(s.current_height, target)),
        stop_requested: false,
        ..s
    }
}

/// The commands sent for a target request: a stop first if the desk is moving.
pub open spec fn target_output(s: Controller, target: u32) -> Seq<DeskCommand> {
    let mv = move_command(direction_for(s.current_height, target));
    if s.is_moving {
        seq![DeskCommand::Stop, mv]
    } else {
        seq![mv]
    }
}

/// Whether a height sample lies past the target of the seek in progress.
pub open spec fn overshoots(s: Controller, h: u32) -> bool {
    match s.move_direction {
        Some(Direction::Up) => h > s.target_height,
        Some(Direction::Down) => h < s.target_height,
        None => false,
    }
}

/// The state after a desk event.
pub open spec fn step_event(s: Controller, e: DeskEvent) -> Controller {
    match e {
        DeskEvent::StartMoving | DeskEvent::StartMovingUp | DeskEvent::StartMovingDown => Controller {
            is_moving: true,
            ..s
        },
        DeskEvent::HeightMoving(h) => Controller {
            current_height: h,
            is_moving: true,
            stop_requested: s.stop_requested || overshoots(s, h),
            ..s
        },
        DeskEvent::HeightStatic(h) => Controller {
            current_height: h,
            is_moving: false,
            stop_requested: false,
            ..s
        },
        DeskEvent::MovingEnd(h) => Controller {
            current_height: h,
            target_height: 0,
            move_direction: None,
            is_moving: false,
            stop_requested: false,
        },
    }
}

/// The command sent for a desk event: a stop on the first moving sample that
/// overshoots; later samples of the same seek wait for the desk to settle.
pub open spec fn event_output(s: Controller, e: DeskEvent) -> Option<DeskCommand> {
    match e {
        DeskEvent::HeightMoving(h) => if overshoots(s, h) && !s.stop_requested {
            Some(DeskCommand::Stop)
        } else {
            None
        },
        _ => None,
    }
}

/// The state after a run of desk events.
pub open spec fn run_events(s: Controller, es: Seq<DeskEvent>) -> Controller
    decreases es.len(),
{
    if es.len() == 0 {
        s
    } else {
        step_event(run_events(s, es.drop_last()), es.last())
    }
}

/// What the controller sends for each event of a run.
pub open spec fn run_outputs(s: Controller, es: Seq<DeskEvent>) -> Seq<Option<DeskCommand>>
    decreases es.len(),
{
    if es.len() == 0 {
        seq![]
    } else {
        run_outputs(s, es.drop_last()).push(event_output(run_events(s, es.drop_last()), es.last()))
    }
}

/// A run of height samples taken while moving.
pub open spec fn moving_samples(hs: Seq<u32>) -> Seq<DeskEvent> {
    hs.map_values(|h: u32| DeskEvent::HeightMoving(h))
}

proof fn lemma_samples_keep_seek(s: Controller, hs: Seq<u32>)
    ensures
        run_events(s, moving_samples(hs)).move_direction == s.move_direction,
        run_events(s, moving_samples(hs)).target_height == s.target_height,
        run_events(s, moving_samples(hs)).stop_requested == (s.stop_requested || exists|j: int|
            0 <= j < hs.len() && overshoots(s, #[trigger] hs[j])),
        run_outputs(s, moving_samples(hs)).len() == hs.len(),
    decreases hs.len(),
{
    if hs.len() > 0 {
        let pre = hs.drop_last();
        assert(moving_samples(hs).drop_last() =~= moving_samples(pre));
        lemma_samples_keep_seek(s, pre);
        if exists|j: int| 0 <= j < hs.len() && overshoots(s, #[trigger] hs[j]) {
            let j = choose|j: int| 0 <= j < hs.len() && overshoots(s, #[trigger] hs[j]);
            if j < hs.len() - 1 {
                assert(overshoots(s, pre[j]));
            }
        }
        if exists|j: int| 0 <= j < pre.len() && overshoots(s, #[trigger] pre[j]) {
            let j = choose|j: int| 0 <= j < pre.len() && overshoots(s, #[trigger] pre[j]);
            assert(overshoots(s, hs[j]));
        }
    }
}

/// While moving and with no stop yet requested, the controller answers a
/// height sample with a stop exactly when it is the first sample of the run
/// to lie past the target; every other sample gets no command.
pub proof fn lemma_stop_on_first_overshoot_only(s: Controller, hs: Seq<u32>)
    requires
        !s.stop_requested,
    ensures
        run_outputs(s, moving_samples(hs)).len() == hs.len(),
        forall|i: int|
            0 <= i < hs.len() ==> run_outputs(s, moving_samples(hs))[i] == (if overshoots(s, hs[i])
                && forall|j: int| 0 <= j < i ==> !overshoots(s, #[trigger] hs[j]) {
                Some(DeskCommand::Stop)
            } else {
                None
            }),
    decreases hs.len(),
{
    lemma_samples_keep_seek(s, hs);
    if hs.len() > 0 {
        let ms = moving_samples(hs);
        let pre = hs.drop_last();
        assert(ms.drop_last() =~= moving_samples(pre));
        lemma_stop_on_first_overshoot_only(s, pre);
        lemma_samples_keep_seek(s, pre);
        assert forall|i: int| 0 <= i < hs.len() implies run_outputs(s, ms)[i] == (if overshoots(
            s,
            hs[i],
        ) && forall|j: int| 0 <= j < i ==> !overshoots(s, #[trigger] hs[j]) {
            Some(DeskCommand::Stop)
        } else {
            None
        }) by {
            if i < hs.len() - 1 {
                assert(pre[i] == hs[i]);
                assert forall|j: int| 0 <= j < i implies pre[j] == hs[j] by {}
            } else {
                if exists|j: int| 0 <= j < pre.len() && overshoots(s, #[trigger] pre[j]) {
                    let j = choose|j: int| 0 <= j < pre.len() && overshoots(s, #[trigger] pre[j]);
                    assert(overshoots(s, hs[j]));
                }
                if exists|j: int| 0 <= j < i && overshoots(s, #[trigger] hs[j]) {
                    let j = choose|j: int| 0 <= j < i && overshoots(s, #[trigger] hs[j]);
                    assert(overshoots(s, pre[j]));
                }
            }
        }
    }
}

/// Seeking upwards through rising samples, the controller sends exactly one
/// stop over the whole run: on the first sample above the target, and no
/// command on any sample before or after it.
pub proof fn lemma_single_stop_on_first_overshoot(s: Controller, hs: Seq<u32>, k: int)
    requires
        s.move_direction == Some(Direction::Up),
        !s.stop_requested,
        forall|i: int, j: int| 0 <= i < j < hs.len() ==> hs[i] < hs[j],
        0 <= k < hs.len(),
        hs[k] > s.target_height,
        forall|i: int| 0 <= i < k ==> hs[i] <= s.target_height,
    ensures
        run_outputs(s, moving_samples(hs)).len() == hs.len(),
        forall|i: int|
            0 <= i < hs.len() ==> run_outputs(s, moving_samples(hs))[i] == (if i == k {
                Some(DeskCommand::Stop)
            } else {
                None
            }),
{
    lemma_stop_on_first_overshoot_only(s, hs);
    assert forall|i: int| 0 <= i < hs.len() implies run_outputs(s, moving_samples(hs))[i] == (
    if i == k {
        Some(DeskCommand::Stop)
    } else {
        None
    }) by {
        if i > k {
            assert(overshoots(s, hs[k]));
        }
    }
}

/// A target request made before the previous one completes replaces it:
/// the state and the commands are those of the latest request alone,
/// taken against the height known when it is handled.
pub proof fn lemma_latest_request_wins(s: Controller, h1: u32, h2: u32)
    ensures
        step_target(step_target(s, h1), h2) == step_target(s, h2),
        target_output(step_target(s, h1), h2) == target_output(s, h2),
        step_target(step_target(s, h1), h2).move_direction == Some(
            direction_for(s.current_height, h2),
        ),
        step_target(step_target(s, h1), h2).target_height == h2,
{
}

/// An end-of-move frame yields its final height, and the controller that
/// receives it is left idle with no seek pending.
pub proof fn lemma_moving_end_frame_settles(s: Controller, frame: Seq<u8>)
    requires
        frame.len() >= 4,
        frame[0] == 0x09,
    ensures
        decoded_event(frame) == Some(DeskEvent::MovingEnd(frame_height(frame))),
        !step_event(s, DeskEvent::MovingEnd(frame_height(frame))).is_moving,
        step_event(s, DeskEvent::MovingEnd(frame_height(frame))).move_direction is None,
        step_event(s, DeskEvent::MovingEnd(frame_height(frame))).current_height == frame_height(
            frame,
        ),
{
}

impl Controller {
    /// The state at startup: height unknown, idle.
    pub fn new() -> (r: Controller)
        ensures
            r.current_height == 0,
            r.target_height == 0,
            r.move_direction is None,
            !r.is_moving,
            !r.stop_requested,
            r.wf(),
    {
        Controller {
            current_height: 0,
            target_height: 0,
            move_direction: None,
            is_moving: false,
            stop_requested: false,
        }
    }

    /// The command sent once at startup, to learn the desk's height.
    pub fn initial_command() -> (r: DeskCommand)
        ensures
            r == DeskCommand::GetHeight,
    {
        DeskCommand::GetHeight
    }

    /// The command to send before waiting for the next input: a height poll
    /// while the desk moves.
    pub fn poll_command(&self) -> (r: Option<DeskCommand>)
        ensures
            r == (if self.is_moving {
                Some(DeskCommand::GetHeight)
            } else {
                None
            }),
    {
        if self.is_moving {
            Some(DeskCommand::GetHeight)
        } else {
            None
        }
    }

    /// Handles a new target height; the latest request supersedes any seek.
    pub fn on_target_request(&mut self, target: u32) -> (r: Vec<DeskCommand>)
        ensures
            *final(self) == step_target(*old(self), target),
            r@ == target_output(*old(self), target),
            old(self).wf() ==> final(self).wf(),
    {
        let mut r: Vec<DeskCommand> = Vec::new();
        if self.is_moving {
            r.push(DeskCommand::Stop);
        }
        self.target_height = target;
        self.stop_requested = false;
        if self.current_height <= self.target_height {
            self.move_direction = Some(Direction::Up);
            r.push(DeskCommand::MoveUp);
        } else {
            self.move_direction = Some(Direction::Down);
            r.push(DeskCommand::MoveDown);
        }
        assert(r@ =~= target_output(*old(self), target));
        r
    }

    /// Handles a desk event.
    pub fn on_event(&mut self, event: DeskEvent) -> (r: Option<DeskCommand>)
        ensures
            *final(self) == step_event(*old(self), event),
            r == event_output(*old(self), event),
            old(self).wf() ==> final(self).wf(),
    {
        match event {
            DeskEvent::StartMoving | DeskEvent::StartMovingUp | DeskEvent::StartMovingDown => {
                self.is_moving = true;
                None
            },
            DeskEvent::HeightMoving(h) => {
                self.current_height = h;
                self.is_moving = true;
                let over = match self.move_direction {
                    Some(Direction::Up) => h > self.target_height,
                    Some(Direction::Down) => h < self.target_height,
                    None => false,
                };
                if over && !self.stop_requested {
                    self.stop_requested = true;
                    Some(DeskCommand::Stop)
                } else {
                    None
                }
            },
            DeskEvent::HeightStatic(h) => {
                self.current_height = h;
                self.is_moving = false;
                self.stop_requested = false;
                None
            },
            DeskEvent::MovingEnd(h) => {
                self.current_height = h;
                self.is_moving = false;
                self.move_direction = None;
                self.target_height = 0;
                self.stop_requested = false;
                None
            },
        }
    }
}

} // verus!
