use mugen_autosplitter::policy::{plan, Decisions, GameTime, TimerCommand, TimerPhase};

fn decisions(is_loading: Option<bool>, start: bool, split: bool, reset: bool) -> Decisions {
    Decisions { is_loading, game_time: None, start, split, reset }
}

#[test]
fn reset_wins_over_split() {
    for phase in [TimerPhase::Running, TimerPhase::Paused] {
        let cmds = plan(phase, decisions(Some(false), false, true, true));
        assert_eq!(cmds, vec![TimerCommand::ResumeGameTime, TimerCommand::Reset]);
    }
}

#[test]
fn split_when_no_reset() {
    let cmds = plan(TimerPhase::Running, decisions(Some(true), false, true, false));
    assert_eq!(cmds, vec![TimerCommand::PauseGameTime, TimerCommand::Split]);
}

#[test]
fn start_then_loading_state_in_same_tick() {
    let cmds = plan(TimerPhase::NotRunning, decisions(Some(true), true, false, false));
    assert_eq!(cmds, vec![TimerCommand::Start, TimerCommand::PauseGameTime]);
    let cmds = plan(TimerPhase::NotRunning, decisions(Some(false), true, false, false));
    assert_eq!(cmds, vec![TimerCommand::Start, TimerCommand::ResumeGameTime]);
}

#[test]
fn not_running_without_start_does_nothing() {
    let cmds = plan(TimerPhase::NotRunning, decisions(Some(true), false, true, true));
    assert!(cmds.is_empty());
}

#[test]
fn ended_timer_gets_nothing() {
    let cmds = plan(TimerPhase::Ended, decisions(Some(true), true, true, true));
    assert!(cmds.is_empty());
}

#[test]
fn game_time_is_set_after_loading_state() {
    let t = GameTime { seconds: 12, nanoseconds: 500 };
    let d = Decisions { is_loading: None, game_time: Some(t), start: false, split: false, reset: false };
    assert_eq!(plan(TimerPhase::Paused, d), vec![TimerCommand::SetGameTime(t)]);
}
