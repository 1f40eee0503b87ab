use vstd::prelude::*;
use crate::bank::{Reads, Watchers, bank_refreshed, is_fresh};
use crate::layout::{Layout, resolved_from};
use crate::predicates::{is_loading, is_loading_spec, split, split_spec, start, start_spec};

verus! {

/// The run state that the timer reports.
#[derive(Clone, Copy, Debug, PartialEq, Eq, Structural)]
pub enum TimerState {
    NotRunning,
    Running,
    Paused,
    Ended,
}

/// A command for the timer.
#[derive(Clone, Copy, Debug, PartialEq, Eq, Structural)]
pub enum Command {
    Start,
    Split,
    PauseGameTime,
    ResumeGameTime,
}

/// The commands of one tick, in the order they are issued: while a run is
/// going on, the game-time command that the loading state asks for and then
/// a split if one is due; before a run, a start if one is due.
pub open spec fn tick_commands_spec(timer: TimerState, w: Watchers) -> Seq<Command> {
    if timer == TimerState::Running || timer == TimerState::Paused {
        let game_time = match is_loading_spec(w) {
            Some(true) => seq![Command::PauseGameTime],
            Some(false) => seq![Command::ResumeGameTime],
            None => Seq::<Command>::empty(),
        };
        if split_spec(w) {
            game_time.push(Command::Split)
        } else {
            game_time
        }
    } else if timer == TimerState::NotRunning && start_spec(w) {
        seq![Command::Start]
    } else {
        Seq::<Command>::empty()
    }
}

/// Decides the commands of one tick from the timer's state and the cells as
/// the previous tick left them.
pub fn tick_commands(timer: TimerState, w: &Watchers) -> (r: Vec<Command>)
    ensures
        r@ == tick_commands_spec(timer, *w),
{
    let mut commands: Vec<Command> = Vec::new();
    if timer == TimerState::Running || timer == TimerState::Paused {
        match is_loading(w) {
            Some(true) => commands.push(Command::PauseGameTime),
            Some(false) => commands.push(Command::ResumeGameTime),
            None => {},
        }
        if split(w) {
            commands.push(Command::Split);
        }
    } else if timer == TimerState::NotRunning && start(w) {
        commands.push(Command::Start);
    }
    proof {
        assert(commands@ =~= tick_commands_spec(timer, *w));
    }
    commands
}

/// Ticks per second in the normal poll mode.
pub const NORMAL_TICK_RATE: u64 = 60;

/// Ticks per second in the slow-machine poll mode.
pub const SLOW_TICK_RATE: u64 = 30;

/// The poll cadence currently in force.
#[derive(Clone, Copy, Debug)]
pub struct Cadence {
    pub slow: bool,
}

/// The tick rate of a poll mode.
pub open spec fn rate_of(slow: bool) -> u64 {
    if slow {
        SLOW_TICK_RATE
    } else {
        NORMAL_TICK_RATE
    }
}

impl Cadence {
    /// The normal cadence, in force when polling begins.
    pub fn new() -> (r: Self)
        ensures
            !r.slow,
    {
        Cadence { slow: false }
    }

    /// The tick rate in force.
    pub fn rate(&self) -> (r: u64)
        ensures
            r == rate_of(self.slow),
    {
        if self.slow {
            SLOW_TICK_RATE
        } else {
            NORMAL_TICK_RATE
        }
    }

    /// Follows the configured mode; returns the new tick rate when it
    /// changes, and `None` when the rate in force stays.
    pub fn apply(&mut self, slow_mode: bool) -> (r: Option<u64>)
        ensures
            final(self).slow == slow_mode,
            r == (if slow_mode != old(self).slow {
                Some(rate_of(slow_mode))
            } else {
                None
            }),
    {
        if slow_mode != self.slow {
            self.slow = slow_mode;
            Some(self.rate())
        } else {
            None
        }
    }
}

/// Where a session stands.
#[derive(Clone, Debug)]
pub enum Phase {
    /// No game process is attached; waiting for one to appear.
    Disconnected,
    /// A process was found; its main module is being looked up.
    Attaching,
    /// The main module is known; waiting for the client library to load.
    ResolvingLayout { game: u64 },
    /// Ticking over the layout of the attached process.
    Running { layout: Layout, watchers: Watchers },
    /// The main module was missing: the session cannot go on.
    Aborted,
}

/// What the outside world reports to a session.
#[derive(Clone, Copy, Debug)]
pub enum Event {
    /// A process with the game's name is attached.
    ProcessFound,
    /// The base of the main module, or `None` when it is missing.
    GameModule(Option<u64>),
    /// The base of the client library, or `None` when it is not loaded yet.
    ClientModule(Option<u64>),
    /// The attached process has exited.
    ProcessExited,
}

/// What a session asks of the outside world next.
#[derive(Clone, Copy, Debug, PartialEq, Eq, Structural)]
pub enum Action {
    /// Wait until a process with the game's name can be attached.
    WaitForProcess,
    /// Look up the base of the main module.
    FindGameModule,
    /// Suspend, then look up the base of the client library again.
    RetryClientModule,
    /// Tick: decide commands, then read the cells.
    Tick,
    /// Give up on the session.
    Abort,
}

/// Whether `next` is the phase that follows `phase` on `event`. Exit of
/// the process ends any live phase; a missing main module aborts; a loaded
/// client library completes the layout and starts ticking over a bank in
/// which nothing is observed; an event that does not fit the phase leaves
/// it as it is.
pub open spec fn steps_to(phase: Phase, event: Event, next: Phase) -> bool {
    match (phase, event) {
        (Phase::Aborted, _) => next == Phase::Aborted,
        (_, Event::ProcessExited) => next == Phase::Disconnected,
        (Phase::Disconnected, Event::ProcessFound) => next == Phase::Attaching,
        (Phase::Attaching, Event::GameModule(None)) => next == Phase::Aborted,
        (Phase::Attaching, Event::GameModule(Some(game))) => next == (Phase::ResolvingLayout {
            game,
        }),
        (Phase::ResolvingLayout { game }, Event::ClientModule(Some(client))) => {
            &&& next matches Phase::Running { layout, watchers }
            &&& resolved_from(layout, game, client)
            &&& is_fresh(watchers)
        },
        _ => next == phase,
    }
}

/// What a session in `phase` asks for.
pub open spec fn action_of(phase: Phase) -> Action {
    match phase {
        Phase::Disconnected => Action::WaitForProcess,
        Phase::Attaching => Action::FindGameModule,
        Phase::ResolvingLayout { .. } => Action::RetryClientModule,
        Phase::Running { .. } => Action::Tick,
        Phase::Aborted => Action::Abort,
    }
}

/// One attach cycle after another, with the cadence that outlives them.
#[derive(Clone, Debug)]
pub struct Session {
    pub phase: Phase,
    pub cadence: Cadence,
}

impl Session {
    /// A session waiting for its first process, at the normal cadence.
    pub fn new() -> (r: Self)
        ensures
            r.phase == Phase::Disconnected,
            !r.cadence.slow,
    {
        Session { phase: Phase::Disconnected, cadence: Cadence::new() }
    }

    /// What the session asks for in its current phase.
    pub fn action(&self) -> (r: Action)
        ensures
            r == action_of(self.phase),
    {
        match self.phase {
            Phase::Disconnected => Action::WaitForProcess,
            Phase::Attaching => Action::FindGameModule,
            Phase::ResolvingLayout { .. } => Action::RetryClientModule,
            Phase::Running { .. } => Action::Tick,
            Phase::Aborted => Action::Abort,
        }
    }

    /// Moves the session on by one outside event and says what it asks
    /// for next.
    pub fn on_event(&mut self, event: Event) -> (r: Action)
        ensures
            steps_to(old(self).phase, event, final(self).phase),
            final(self).cadence == old(self).cadence,
            r == action_of(final(self).phase),
    {
        let next = match (&self.phase, event) {
            (Phase::Aborted, _) => None,
            (_, Event::ProcessExited) => Some(Phase::Disconnected),
            (Phase::Disconnected, Event::ProcessFound) => Some(Phase::Attaching),
            (Phase::Attaching, Event::GameModule(None)) => Some(Phase::Aborted),
            (Phase::Attaching, Event::GameModule(Some(game))) => Some(
                Phase::ResolvingLayout { game },
            ),
            (Phase::ResolvingLayout { game }, Event::ClientModule(Some(client))) => Some(
                Phase::Running { layout: Layout::resolve(*game, client), watchers: Watchers::new() },
            ),
            _ => None,
        };
        if let Some(phase) = next {
            self.phase = phase;
        }
        self.action()
    }

    /// The first part of a tick: follows the configured poll mode and
    /// decides the commands from the cells as the last refresh left them.
    /// Outside a running phase there is nothing to decide.
    pub fn tick(&mut self, timer: TimerState, slow_mode: bool) -> (r: TickPlan)
        ensures
            final(self).phase == old(self).phase,
            old(self).phase matches Phase::Running { watchers, .. } ==> {
                &&& final(self).cadence.slow == slow_mode
                &&& r.new_rate == (if slow_mode != old(self).cadence.slow {
                    Some(rate_of(slow_mode))
                } else {
                    None
                })
                &&& r.commands@ == tick_commands_spec(timer, watchers)
            },
            !(old(self).phase is Running) ==> {
                &&& final(self).cadence == old(self).cadence
                &&& r.new_rate is None
                &&& r.commands@.len() == 0
            },
    {
        match &self.phase {
            Phase::Running { watchers, .. } => {
                let new_rate = self.cadence.apply(slow_mode);
                let commands = tick_commands(timer, watchers);
                TickPlan { new_rate, commands }
            },
            _ => TickPlan { new_rate: None, commands: Vec::new() },
        }
    }

    /// The second part of a tick: refreshes the cells from this tick's
    /// reads. Outside a running phase there are no cells.
    pub fn refresh(&mut self, reads: Reads)
        ensures
            final(self).cadence == old(self).cadence,
            old(self).phase matches Phase::Running { layout, watchers } ==> final(self).phase
                == (Phase::Running { layout, watchers: bank_refreshed(watchers, reads) }),
            !(old(self).phase is Running) ==> final(self).phase == old(self).phase,
    {
        match &mut self.phase {
            Phase::Running { watchers, .. } => watchers.refresh(reads),
            _ => {},
        }
    }
}

/// What the first part of a tick hands out: the tick rate to switch to, if
/// it changes, and the commands to issue in order.
#[derive(Clone, Debug)]
pub struct TickPlan {
    pub new_rate: Option<u64>,
    pub commands: Vec<Command>,
}

} // verus!
