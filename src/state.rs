use vstd::prelude::*;
use crate::policy::{plan, planned, Decisions, GameTime, TimerCommand, TimerPhase};
use crate::resolver::{
    displacement_target, loading_signature_spec, locate_operand, ModuleRange, ResolvedAddresses,
    DISPLACEMENT_LEN, SIGNATURE_LEN,
};
use crate::scanner::is_first_match;
use crate::watcher::{updated_pair, Watcher};

verus! {

/// How far the autosplitter has got with the game process.
#[derive(Clone, Copy, Debug, PartialEq, Eq, Structural)]
pub enum Attachment {
    /// No process is held.
    Unattached,
    /// A process is held and its main module located; the flag is not found yet.
    AttachedNoAddresses { module: ModuleRange },
    /// A process is held and the flag's address is known.
    Ready { module: ModuleRange, addresses: ResolvedAddresses },
}

/// Which answer the autosplitter waits for within the current tick.
#[derive(Clone, Copy, Debug, PartialEq, Eq, Structural)]
pub enum Awaiting {
    Nothing,
    Attach,
    Liveness,
    ModuleBytes,
    Displacement { operand_at: u64 },
    Flag,
    Phase,
}

/// What the embedder reports back: the start of a tick, or the answer to the
/// last action.
#[derive(Clone, Debug, PartialEq, Eq)]
pub enum Event {
    /// The host polls; a new tick begins.
    Tick,
    /// Answer to `Action::Attach`: the main module of the process attached to,
    /// or `None` when no candidate process could be attached or its module
    /// could not be located.
    Attached(Option<ModuleRange>),
    /// Answer to `Action::CheckOpen`.
    OpenChecked(bool),
    /// Answer to `Action::ReadModule`: the module's bytes, or `None` when the
    /// range could not be read.
    ModuleRead(Option<Vec<u8>>),
    /// Answer to `Action::ReadDisplacement`: the little-endian signed 32-bit
    /// value read, or `None` when the read failed.
    DisplacementRead(Option<i32>),
    /// Answer to `Action::ReadFlag`: the byte read, or `None` when the read failed.
    FlagRead(Option<u8>),
    /// Answer to `Action::QueryPhase`.
    PhaseRead(TimerPhase),
}

/// What the embedder is asked to do next.
#[derive(Clone, Debug, PartialEq, Eq)]
pub enum Action {
    /// Attach to the first candidate process that can be attached and locate
    /// its main module; answer with `Event::Attached`.
    Attach,
    /// Ask whether the held process is still open; answer with `Event::OpenChecked`.
    CheckOpen,
    /// Read the module's bytes; answer with `Event::ModuleRead`.
    ReadModule { base: u64, size: u64 },
    /// Read a signed 32-bit little-endian value; answer with `Event::DisplacementRead`.
    ReadDisplacement { at: u64 },
    /// Read one byte; answer with `Event::FlagRead`.
    ReadFlag { at: u64 },
    /// Ask the host timer's phase; answer with `Event::PhaseRead`.
    QueryPhase,
    /// Drop the process handle. The tick is over.
    Release,
    /// Issue these timer commands in order. The tick is over.
    Finish(Vec<TimerCommand>),
}

/// Candidate executable names of the game, tried in order.
pub fn process_names() -> (names: Vec<&'static str>)
    ensures
        names@.len() == 1,
        names@[0]@ == "MugenEngine-Win64-Shipping.exe"@,
{
    vec!["MugenEngine-Win64-Shipping.exe"]
}

/// The autosplitter's whole state: the process it holds, the loading flag's
/// samples, and where it stands in the current tick.
#[derive(Clone, Copy, Debug, PartialEq, Eq)]
pub struct Autosplitter {
    pub game: Attachment,
    pub is_loading: Watcher<bool>,
    pub awaiting: Awaiting,
}

/// The current sample of the loading flag, `false` before any sample.
pub open spec fn loading_now(w: Watcher<bool>) -> bool {
    match w.pair {
        Some(p) => p.current,
        None => false,
    }
}

impl Autosplitter {
    /// A fresh autosplitter holding no process.
    pub fn new() -> (s: Self)
        ensures
            s.game is Unattached,
            s.is_loading.pair is None,
            s.awaiting is Nothing,
    {
        Autosplitter { game: Attachment::Unattached, is_loading: Watcher::new(), awaiting: Awaiting::Nothing }
    }

    /// Whether the flag's address is known.
    pub fn is_ready(&self) -> (r: bool)
        ensures
            r == self.game is Ready,
    {
        matches!(self.game, Attachment::Ready { .. })
    }

    /// Whether the game is loading: the latest sample, `false` before any.
    pub fn is_loading(&self) -> (r: Option<bool>)
        ensures
            r == Some(loading_now(self.is_loading)),
    {
        match self.is_loading.pair {
            Some(p) => Some(p.current),
            None => Some(false),
        }
    }

    /// Whether to start the timer: never, for this game.
    pub fn start(&self) -> (r: bool)
        ensures
            !r,
    {
        false
    }

    /// Whether to split: never, for this game.
    pub fn split(&self) -> (r: bool)
        ensures
            !r,
    {
        false
    }

    /// Whether to reset: never, for this game.
    pub fn reset(&self) -> (r: bool)
        ensures
            !r,
    {
        false
    }

    /// The game time to report: none, so the host keeps its own.
    pub fn game_time(&self) -> (r: Option<GameTime>)
        ensures
            r is None,
    {
        None
    }

    /// What the decision predicates say now.
    pub fn decisions(&self) -> (d: Decisions)
        ensures
            d == decisions_of(*self),
    {
        Decisions {
            is_loading: self.is_loading(),
            game_time: self.game_time(),
            start: self.start(),
            split: self.split(),
            reset: self.reset(),
        }
    }
}

/// What the decision predicates say in state `s`.
pub open spec fn decisions_of(s: Autosplitter) -> Decisions {
    Decisions {
        is_loading: Some(loading_now(s.is_loading)),
        game_time: None,
        start: false,
        split: false,
        reset: false,
    }
}

/// The loading flag as a byte read gives it: non-zero means loading, and a
/// failed read counts as not loading.
pub open spec fn flag_value(b: Option<u8>) -> bool {
    match b {
        Some(x) => x != 0,
        None => false,
    }
}

/// Whether `e` is the event that state `s` waits for.
pub open spec fn expects(s: Autosplitter, e: Event) -> bool {
    match e {
        Event::Tick => true,
        Event::Attached(_) => s.awaiting is Attach && s.game is Unattached,
        Event::OpenChecked(_) => s.awaiting is Liveness && !(s.game is Unattached),
        Event::ModuleRead(_) => s.awaiting is ModuleBytes && s.game is AttachedNoAddresses,
        Event::DisplacementRead(_) => s.awaiting is Displacement && s.game is AttachedNoAddresses,
        Event::FlagRead(_) => s.awaiting is Flag && s.game is Ready,
        Event::PhaseRead(_) => s.awaiting is Phase && s.game is Ready,
    }
}

/// The action ends the tick with exactly these timer commands.
pub open spec fn finishes_with(a: Action, cmds: Seq<TimerCommand>) -> bool {
    a matches Action::Finish(c) && c@ == cmds
}

/// The action ends the tick without touching the timer, and the state keeps
/// its process and samples.
pub open spec fn quiet_end(o: Autosplitter, f: Autosplitter, a: Action) -> bool {
    &&& finishes_with(a, seq![])
    &&& f.game == o.game
    &&& f.is_loading == o.is_loading
    &&& f.awaiting is Nothing
}

impl Autosplitter {
    /// Takes one event and returns the next action. A tick starts with
    /// `Event::Tick` and ends with `Action::Release` or `Action::Finish`; in
    /// between, each action is answered by its event. An event that does not
    /// answer the pending action ends the tick quietly.
    pub fn step(&mut self, event: Event) -> (a: Action)
        ensures
            !expects(*old(self), event) ==> quiet_end(*old(self), *final(self), a),
            expects(*old(self), event) ==> match event {
                Event::Tick => {
                    &&& final(self).game == old(self).game
                    &&& final(self).is_loading == old(self).is_loading
                    &&& if old(self).game is Unattached {
                        a == Action::Attach && final(self).awaiting is Attach
                    } else {
                        a == Action::CheckOpen && final(self).awaiting is Liveness
                    }
                },
                Event::Attached(found) => match found {
                    None => quiet_end(*old(self), *final(self), a),
                    Some(m) => {
                        &&& final(self).game == Attachment::AttachedNoAddresses { module: m }
                        &&& final(self).is_loading == old(self).is_loading
                        &&& a == Action::CheckOpen
                        &&& final(self).awaiting is Liveness
                    },
                },
                Event::OpenChecked(open) => {
                    &&& final(self).is_loading == old(self).is_loading
                    &&& if !open {
                        &&& final(self).game is Unattached
                        &&& a == Action::Release
                        &&& final(self).awaiting is Nothing
                    } else {
                        &&& final(self).game == old(self).game
                        &&& match old(self).game {
                            Attachment::AttachedNoAddresses { module } => a == (Action::ReadModule {
                                base: module.base,
                                size: module.size,
                            }) && final(self).awaiting is ModuleBytes,
                            Attachment::Ready { module, addresses } => a == (Action::ReadFlag {
                                at: addresses.is_loading,
                            }) && final(self).awaiting is Flag,
                            Attachment::Unattached => false,
                        }
                    }
                },
                Event::ModuleRead(bytes) => match bytes {
                    None => quiet_end(*old(self), *final(self), a),
                    Some(bytes) => {
                        let module = old(self).game->AttachedNoAddresses_module;
                        if exists|i: int|
                            is_first_match(loading_signature_spec(), bytes@, i) && module.base + i
                                + SIGNATURE_LEN <= u64::MAX {
                            exists|i: int|
                                {
                                    &&& is_first_match(loading_signature_spec(), bytes@, i)
                                    &&& a == Action::ReadDisplacement {
                                        at: (module.base + i + SIGNATURE_LEN) as u64,
                                    }
                                    &&& final(self).awaiting == Awaiting::Displacement {
                                        operand_at: (module.base + i + SIGNATURE_LEN) as u64,
                                    }
                                    &&& final(self).game == old(self).game
                                    &&& final(self).is_loading == old(self).is_loading
                                }
                        } else {
                            quiet_end(*old(self), *final(self), a)
                        }
                    },
                },
                Event::DisplacementRead(d) => {
                    let operand_at = old(self).awaiting->operand_at;
                    let module = old(self).game->AttachedNoAddresses_module;
                    match d {
                        Some(d) if 0 <= operand_at + DISPLACEMENT_LEN + d <= u64::MAX => {
                            let target = (operand_at + DISPLACEMENT_LEN + d) as u64;
                            &&& final(self).game == Attachment::Ready {
                                module,
                                addresses: ResolvedAddresses { is_loading: target },
                            }
                            &&& final(self).is_loading == old(self).is_loading
                            &&& a == Action::ReadFlag { at: target }
                            &&& final(self).awaiting is Flag
                        },
                        _ => quiet_end(*old(self), *final(self), a),
                    }
                },
                Event::FlagRead(b) => {
                    &&& final(self).game == old(self).game
                    &&& final(self).is_loading.pair == updated_pair(
                        old(self).is_loading.pair,
                        Some(flag_value(b)),
                    )
                    &&& a == Action::QueryPhase
                    &&& final(self).awaiting is Phase
                },
                Event::PhaseRead(phase) => {
                    &&& final(self).game == old(self).game
                    &&& final(self).is_loading == old(self).is_loading
                    &&& finishes_with(a, planned(phase, decisions_of(*old(self))))
                    &&& final(self).awaiting is Nothing
                },
            },
            // Once the flag is found it is kept until the process is lost,
            // and the module is never scanned again meanwhile.
            old(self).game is Ready ==> final(self).game == old(self).game
                || final(self).game is Unattached,
            old(self).game is Ready ==> !(a is ReadModule),
    {
        if !self.expects(&event) {
            return panic(self);
        }
        match event {
            Event::Tick => {
                if matches!(self.game, Attachment::Unattached) {
                    self.awaiting = Awaiting::Attach;
                    Action::Attach
                } else {
                    self.awaiting = Awaiting::Liveness;
                    Action::CheckOpen
                }
            },
            Event::Attached(found) => match found {
                None => {
                    self.awaiting = Awaiting::Nothing;
                    Action::Finish(Vec::new())
                },
                Some(m) => {
                    self.game = Attachment::AttachedNoAddresses { module: m };
                    self.awaiting = Awaiting::Liveness;
                    Action::CheckOpen
                },
            },
            Event::OpenChecked(open) => {
                if !open {
                    self.game = Attachment::Unattached;
                    self.awaiting = Awaiting::Nothing;
                    Action::Release
                } else {
                    match self.game {
                        Attachment::AttachedNoAddresses { module } => {
                            self.awaiting = Awaiting::ModuleBytes;
                            Action::ReadModule { base: module.base, size: module.size }
                        },
                        Attachment::Ready { module, addresses } => {
                            self.awaiting = Awaiting::Flag;
                            Action::ReadFlag { at: addresses.is_loading }
                        },
                        Attachment::Unattached => {
                            self.awaiting = Awaiting::Nothing;
                            Action::Finish(Vec::new())
                        },
                    }
                }
            },
            Event::ModuleRead(bytes) => {
                let module = match self.game {
                    Attachment::AttachedNoAddresses { module } => module,
                    _ => ModuleRange { base: 0, size: 0 },
                };
                self.awaiting = Awaiting::Nothing;
                match bytes {
                    None => Action::Finish(Vec::new()),
                    Some(bytes) => match locate_operand(module, bytes.as_slice()) {
                        None => {
                            Action::Finish(Vec::new())
                        },
                        Some(at) => {
                            self.awaiting = Awaiting::Displacement { operand_at: at };
                            Action::ReadDisplacement { at }
                        },
                    },
                }
            },
            Event::DisplacementRead(d) => {
                let (module, operand_at) = match (self.game, self.awaiting) {
                    (
                        Attachment::AttachedNoAddresses { module },
                        Awaiting::Displacement { operand_at },
                    ) => (module, operand_at),
                    _ => (ModuleRange { base: 0, size: 0 }, 0),
                };
                self.awaiting = Awaiting::Nothing;
                match d {
                    None => Action::Finish(Vec::new()),
                    Some(d) => match displacement_target(operand_at, d) {
                        None => Action::Finish(Vec::new()),
                        Some(target) => {
                            self.game = Attachment::Ready {
                                module,
                                addresses: ResolvedAddresses { is_loading: target },
                            };
                            self.awaiting = Awaiting::Flag;
                            Action::ReadFlag { at: target }
                        },
                    },
                }
            },
            Event::FlagRead(b) => {
                let loading = match b {
                    Some(x) => x != 0,
                    None => false,
                };
                self.is_loading.update(Some(loading));
                self.awaiting = Awaiting::Phase;
                Action::QueryPhase
            },
            Event::PhaseRead(phase) => {
                let d = self.decisions();
                self.awaiting = Awaiting::Nothing;
                Action::Finish(plan(phase, d))
            },
        }
    }

    /// Whether `event` answers what this state waits for.
    pub fn expects(&self, event: &Event) -> (r: bool)
        ensures
            r == expects(*self, *event),
    {
        match event {
            Event::Tick => true,
            Event::Attached(_) => matches!(self.awaiting, Awaiting::Attach) && matches!(
                self.game,
                Attachment::Unattached
            ),
            Event::OpenChecked(_) => matches!(self.awaiting, Awaiting::Liveness) && !matches!(
                self.game,
                Attachment::Unattached
            ),
            Event::ModuleRead(_) => matches!(self.awaiting, Awaiting::ModuleBytes) && matches!(
                self.game,
                Attachment::AttachedNoAddresses { .. }
            ),
            Event::DisplacementRead(_) => matches!(self.awaiting, Awaiting::Displacement { .. })
                && matches!(self.game, Attachment::AttachedNoAddresses { .. }),
            Event::FlagRead(_) => matches!(self.awaiting, Awaiting::Flag) && matches!(
                self.game,
                Attachment::Ready { .. }
            ),
            Event::PhaseRead(_) => matches!(self.awaiting, Awaiting::Phase) && matches!(
                self.game,
                Attachment::Ready { .. }
            ),
        }
    }
}

/// Abandons the tick in progress, as a trap in the host would: nothing more
/// is asked of the embedder and no timer command is issued, while the held
/// process, the flag's address and the samples are kept for the next tick.
pub fn panic(s: &mut Autosplitter) -> (a: Action)
    ensures
        quiet_end(*old(s), *final(s), a),
{
    s.awaiting = Awaiting::Nothing;
    Action::Finish(Vec::new())
}

} // verus!
