//! The decisions of the interactive loop: what an input event means, and how
//! one tick changes the grid and the mode.

use vstd::prelude::*;
use crate::board::Board;
use crate::grid::GameOfLife;

verus! {

/// How long one tick waits for input unless told otherwise, in milliseconds.
/// The wait is also what paces the generations while the simulation runs.
pub const DEFAULT_POLL_MS: u64 = 50;

/// Whether generations advance by themselves.
#[derive(Clone, Copy, Debug, PartialEq, Eq, Structural)]
pub enum Mode {
    Paused,
    Running,
}

impl Mode {
    /// The other mode.
    pub open spec fn flipped(self) -> Mode {
        match self {
            Mode::Paused => Mode::Running,
            Mode::Running => Mode::Paused,
        }
    }

    /// The other mode.
    pub fn flip(self) -> (mode: Mode)
        ensures
            mode == self.flipped(),
    {
        match self {
            Mode::Paused => Mode::Running,
            Mode::Running => Mode::Paused,
        }
    }
}

/// A key, as far as the controller tells keys apart.
#[derive(Clone, Copy, Debug, PartialEq, Eq, Structural)]
pub enum Key {
    Esc,
    Char(char),
    Other,
}

/// A pointer button, as far as the controller tells buttons apart.
#[derive(Clone, Copy, Debug, PartialEq, Eq, Structural)]
pub enum Button {
    Left,
    Other,
}

/// What one bounded wait for input came back with.
#[derive(Clone, Copy, Debug, PartialEq, Eq, Structural)]
pub enum Event {
    /// A key was pressed.
    Key(Key),
    /// A pointer button was pressed over the terminal cell `(x, y)`.
    Mouse(Button, i32, i32),
    /// The wait ran out, or something arrived that is neither of the above.
    Nothing,
}

/// What the user asked for.
#[derive(Clone, Copy, Debug, PartialEq, Eq, Structural)]
pub enum Command {
    /// Leave the program.
    Quit,
    /// Kill every cell.
    Clear,
    /// Start the simulation if it is paused, pause it if it runs.
    ToggleRun,
    /// Flip the cell under the pointer.
    Click(i32, i32),
    /// Nothing.
    Ignore,
}

/// What the loop does once the tick's decisions are made.
#[derive(Clone, Copy, Debug, PartialEq, Eq, Structural)]
pub enum Outcome {
    /// Draw the grid and go on to the next tick.
    Render,
    /// Release the terminal and leave with success.
    Quit,
}

/// The command that an event stands for: Escape quits, the space bar starts
/// and pauses, `c` clears, a click of the left button flips a cell.
/// Everything else is ignored.
pub open spec fn command_of(event: Event) -> Command {
    match event {
        Event::Key(Key::Esc) => Command::Quit,
        Event::Key(Key::Char(c)) => if c == ' ' {
            Command::ToggleRun
        } else if c == 'c' {
            Command::Clear
        } else {
            Command::Ignore
        },
        Event::Mouse(Button::Left, x, y) => Command::Click(x, y),
        _ => Command::Ignore,
    }
}

/// The state of an interactive session, as contracts speak of it.
pub struct Session {
    /// The generation on the grid.
    pub board: Board,
    /// Whether generations advance by themselves.
    pub mode: Mode,
    /// How long each tick waits for input, in milliseconds.
    pub poll_ms: u64,
}

/// The session after a command other than `Quit` has been carried out,
/// before any generation is computed. `Quit` itself changes nothing here.
pub open spec fn applied(session: Session, command: Command) -> Session {
    match command {
        Command::Clear => Session {
            board: Board::empty(session.board.width, session.board.height),
            ..session
        },
        Command::ToggleRun => Session { mode: session.mode.flipped(), ..session },
        Command::Click(x, y) => Session {
            board: session.board.toggle(x as int, y as int),
            ..session
        },
        _ => session,
    }
}

/// The session after one whole tick. `Quit` ends it on the spot and changes
/// nothing. Any other command is carried out first; then, if the mode is
/// `Running`, the grid advances by one generation.
pub open spec fn ticked(session: Session, command: Command) -> Session {
    if command is Quit {
        session
    } else {
        let acted = applied(session, command);
        if acted.mode is Running {
            Session { board: acted.board.step(), ..acted }
        } else {
            acted
        }
    }
}

/// The mode changes on `ToggleRun`, which flips it, and on nothing else. No
/// command changes the wait or the dimensions of the grid.
pub proof fn lemma_only_toggle_run_changes_mode(session: Session, command: Command)
    ensures
        ticked(session, command).mode != session.mode <==> command is ToggleRun,
        command is ToggleRun ==> ticked(session, command).mode == session.mode.flipped(),
        session.mode.flipped().flipped() == session.mode,
        ticked(session, command).poll_ms == session.poll_ms,
        ticked(session, command).board.width == session.board.width,
        ticked(session, command).board.height == session.board.height,
{
}

/// While the session is paused, the grid changes only by what the user does
/// to it: a tick without a command leaves it as it was. While the session
/// runs, such a tick advances the grid by one generation. `Quit` changes
/// nothing in either mode.
pub proof fn lemma_idle_tick(session: Session)
    ensures
        ticked(session, Command::Quit) == session,
        session.mode is Paused ==> ticked(session, Command::Ignore) == session,
        session.mode is Running ==> ticked(session, Command::Ignore) == (Session {
            board: session.board.step(),
            ..session
        }),
{
}

/// A click outside the grid, to either side, is absorbed: the tick goes on
/// as if nothing had been clicked.
pub proof fn lemma_click_outside_is_absorbed(session: Session, x: i32, y: i32)
    requires
        x < 0 || x >= session.board.width || y < 0 || y >= session.board.height,
    ensures
        ticked(session, Command::Click(x, y)) == ticked(session, Command::Ignore),
{
}

/// Classifies an input event.
pub fn classify(event: Event) -> (command: Command)
    ensures
        command == command_of(event),
{
    match event {
        Event::Key(key) => match key {
            Key::Esc => Command::Quit,
            Key::Char(' ') => Command::ToggleRun,
            Key::Char('c') => Command::Clear,
            _ => Command::Ignore,
        },
        Event::Mouse(Button::Left, x, y) => Command::Click(x, y),
        _ => Command::Ignore,
    }
}

/// An interactive session: it owns the grid and the mode, and decides what
/// each tick of the loop does to them. The loop itself, which waits for
/// input and draws, is the caller's.
pub struct Controller {
    game: GameOfLife,
    mode: Mode,
    poll_ms: u64,
}

impl View for Controller {
    type V = Session;

    closed spec fn view(&self) -> Session {
        Session { board: self.game@, mode: self.mode, poll_ms: self.poll_ms }
    }
}

impl Controller {
    /// A paused session on the given grid, with the default wait.
    pub fn new(game: GameOfLife) -> (controller: Controller)
        ensures
            controller@ == (Session {
                board: game@,
                mode: Mode::Paused,
                poll_ms: DEFAULT_POLL_MS,
            }),
    {
        Controller::with_poll_interval(game, DEFAULT_POLL_MS)
    }

    /// A paused session on the given grid that waits `poll_ms` milliseconds
    /// for input in each tick.
    pub fn with_poll_interval(game: GameOfLife, poll_ms: u64) -> (controller: Controller)
        ensures
            controller@ == (Session { board: game@, mode: Mode::Paused, poll_ms }),
    {
        Controller { game, mode: Mode::Paused, poll_ms }
    }

    /// The grid, for reading.
    pub fn game(&self) -> (game: &GameOfLife)
        ensures
            game@ == self@.board,
    {
        &self.game
    }

    /// The mode.
    pub fn mode(&self) -> (mode: Mode)
        ensures
            mode == self@.mode,
    {
        self.mode
    }

    /// How long a tick waits for input, in milliseconds.
    pub fn poll_ms(&self) -> (poll_ms: u64)
        ensures
            poll_ms == self@.poll_ms,
    {
        self.poll_ms
    }

    /// Carries out a command other than `Quit`; `Quit` itself changes
    /// nothing here.
    pub fn apply(&mut self, command: Command)
        ensures
            final(self)@ == applied(old(self)@, command),
    {
        match command {
            Command::Clear => self.game.clear(),
            Command::ToggleRun => {
                self.mode = self.mode.flip();
            },
            Command::Click(x, y) => {
                if x >= 0 && y >= 0 {
                    self.game.toggle(x as usize, y as usize);
                }
            },
            _ => {},
        }
    }

    /// One tick of the loop, from the event that the wait for input came
    /// back with to the decision what to do next.
    pub fn tick(&mut self, event: Event) -> (outcome: Outcome)
        ensures
            final(self)@ == ticked(old(self)@, command_of(event)),
            outcome is Quit <==> command_of(event) is Quit,
    {
        let command = classify(event);
        if command == Command::Quit {
            return Outcome::Quit;
        }
        self.apply(command);
        if self.mode == Mode::Running {
            self.game.step();
        }
        Outcome::Render
    }
}

} // verus!
