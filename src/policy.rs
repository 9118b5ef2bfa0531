use vstd::prelude::*;

verus! {

/// The host timer's phase, as the host reports it.
#[derive(Clone, Copy, Debug, PartialEq, Eq, Structural)]
pub enum TimerPhase {
    NotRunning,
    Running,
    Paused,
    Ended,
}

/// A game time to hand to the host, as whole seconds plus nanoseconds.
#[derive(Clone, Copy, Debug, PartialEq, Eq, Structural)]
pub struct GameTime {
    pub seconds: i64,
    pub nanoseconds: i32,
}

/// A command for the host timer.
#[derive(Clone, Copy, Debug, PartialEq, Eq, Structural)]
pub enum TimerCommand {
    Start,
    Split,
    Reset,
    PauseGameTime,
    ResumeGameTime,
    SetGameTime(GameTime),
}

/// What the decision predicates said in one tick.
#[derive(Clone, Copy, Debug, PartialEq, Eq, Structural)]
pub struct Decisions {
    pub is_loading: Option<bool>,
    pub game_time: Option<GameTime>,
    pub start: bool,
    pub split: bool,
    pub reset: bool,
}

/// Pause while loading, resume otherwise; nothing when there is no opinion.
pub open spec fn load_commands(is_loading: Option<bool>) -> Seq<TimerCommand> {
    match is_loading {
        Some(true) => seq![TimerCommand::PauseGameTime],
        Some(false) => seq![TimerCommand::ResumeGameTime],
        None => seq![],
    }
}

/// The commands owed in one tick: a running or paused timer gets the loading
/// state, the game time if any, then a reset or else a split; a timer that is
/// not running gets a start followed by the loading state, if a start is due.
pub open spec fn planned(phase: TimerPhase, d: Decisions) -> Seq<TimerCommand> {
    match phase {
        TimerPhase::Running | TimerPhase::Paused => {
            let time = match d.game_time {
                Some(t) => seq![TimerCommand::SetGameTime(t)],
                None => seq![],
            };
            let ending = if d.reset {
                seq![TimerCommand::Reset]
            } else if d.split {
                seq![TimerCommand::Split]
            } else {
                seq![]
            };
            load_commands(d.is_loading) + time + ending
        },
        TimerPhase::NotRunning => {
            if d.start {
                seq![TimerCommand::Start] + load_commands(d.is_loading)
            } else {
                seq![]
            }
        },
        TimerPhase::Ended => seq![],
    }
}

fn push_load_command(cmds: &mut Vec<TimerCommand>, is_loading: Option<bool>)
    ensures
        final(cmds)@ == old(cmds)@ + load_commands(is_loading),
{
    match is_loading {
        Some(true) => cmds.push(TimerCommand::PauseGameTime),
        Some(false) => cmds.push(TimerCommand::ResumeGameTime),
        None => {},
    }
    assert(final(cmds)@ =~= old(cmds)@ + load_commands(is_loading));
}

/// The timer commands to issue in a tick, in order, given the timer's phase
/// and what the decision predicates said.
pub fn plan(phase: TimerPhase, d: Decisions) -> (cmds: Vec<TimerCommand>)
    ensures
        cmds@ == planned(phase, d),
{
    let mut cmds: Vec<TimerCommand> = Vec::new();
    match phase {
        TimerPhase::Running | TimerPhase::Paused => {
            push_load_command(&mut cmds, d.is_loading);
            if let Some(t) = d.game_time {
                cmds.push(TimerCommand::SetGameTime(t));
            }
            if d.reset {
                cmds.push(TimerCommand::Reset);
            } else if d.split {
                cmds.push(TimerCommand::Split);
            }
        },
        TimerPhase::NotRunning => {
            if d.start {
                cmds.push(TimerCommand::Start);
                push_load_command(&mut cmds, d.is_loading);
            }
        },
        TimerPhase::Ended => {},
    }
    assert(cmds@ =~= planned(phase, d));
    cmds
}

/// While the timer runs or is paused, a due reset is issued and the split that
/// would also be due is not.
pub proof fn lemma_reset_suppresses_split(phase: TimerPhase, d: Decisions)
    requires
        phase is Running || phase is Paused,
        d.reset,
    ensures
        planned(phase, d).contains(TimerCommand::Reset),
        !planned(phase, d).contains(TimerCommand::Split),
{
    let p = planned(phase, d);
    assert(p.last() == TimerCommand::Reset);
    assert(p[p.len() - 1] == TimerCommand::Reset);
    assert forall|i: int| 0 <= i < p.len() implies p[i] != TimerCommand::Split by {
    }
}

} // verus!
