//! One run of the updater as a state machine. The machine decides; its
//! driver acts. The driver starts by probing the repository path, hands each
//! outcome to [`step`] as an event, and carries out the action that comes
//! back, until that action is to exit.

use crate::error::Error;
use crate::freshness::{is_recent, recent};
use crate::instant::Instant;
use crate::name::{get_name, name_of, path_file_name};
use crate::table::StateMapping;
use vstd::prelude::*;

verus! {

/// What one run is asked to do.
#[derive(Clone, Debug)]
pub struct Options {
    /// The path of the repository to update.
    pub repository: String,
    /// The hours that may pass after an update before the next one is due.
    pub max_age: i32,
    /// Update even where the last update is recent.
    pub force: bool,
    /// Show what the update command prints.
    pub verbose: bool,
}

/// The command that updates a repository, run inside its directory.
#[derive(Clone, Debug)]
pub struct UpdateCommand {
    pub program: String,
    pub argument: String,
}

/// The update command: `git pull`, with no remote and no branch named, so
/// that git picks the ones the repository is set up with.
pub fn build_update_command() -> (command: UpdateCommand)
    ensures
        command.program@ == "git"@,
        command.argument@ == "pull"@,
{
    UpdateCommand { program: "git".to_owned(), argument: "pull".to_owned() }
}

/// How far a run has come.
#[derive(Debug)]
pub enum State {
    /// Nothing is known yet.
    Start,
    /// The repository has its name, and the table is being loaded.
    Loading { name: String },
    /// The update command is running. `table` is the table as it was loaded.
    Updating { name: String, table: StateMapping },
    /// The table is being stored with the new instant in it.
    Storing,
    /// The run is over.
    Finished,
}

/// What the driver reports back.
#[derive(Debug)]
pub enum Event {
    /// The repository path was probed.
    Probed { is_directory: bool },
    /// The table was loaded, and the clock read after it.
    Loaded { table: StateMapping, now: Instant },
    /// The update command has ended, and the clock was read after it.
    Updated { succeeded: bool, now: Instant },
    /// The table was stored.
    Stored,
    /// The table could not be loaded, or could not be stored.
    StorageFailed,
}

/// What the driver is to do next.
#[derive(Debug)]
pub enum Action {
    /// Load the table and read the clock.
    Load,
    /// Run the update command in the repository, showing what it prints only
    /// where `show_output` says so. Its error stream is never cut off.
    Update { show_output: bool },
    /// Store `table` in place of what was stored before.
    Store { table: StateMapping },
    /// End the run with `outcome`.
    Exit { outcome: Result<(), Error> },
}

/// A state of the run, with names as text and the table as a mapping.
pub enum StateView {
    Start,
    Loading { name: Seq<char> },
    Updating { name: Seq<char>, table: Map<Seq<char>, Instant> },
    Storing,
    Finished,
}

/// An event, with the table as a mapping.
pub enum EventView {
    Probed { is_directory: bool },
    Loaded { table: Map<Seq<char>, Instant>, now: Instant },
    Updated { succeeded: bool, now: Instant },
    Stored,
    StorageFailed,
}

/// An action, with the table as a mapping.
pub enum ActionView {
    Load,
    Update { show_output: bool },
    Store { table: Map<Seq<char>, Instant> },
    Exit { outcome: Result<(), Error> },
}

impl View for State {
    type V = StateView;

    open spec fn view(&self) -> StateView {
        match *self {
            State::Start => StateView::Start,
            State::Loading { name } => StateView::Loading { name: name@ },
            State::Updating { name, table } => StateView::Updating { name: name@, table: table@ },
            State::Storing => StateView::Storing,
            State::Finished => StateView::Finished,
        }
    }
}

impl View for Event {
    type V = EventView;

    open spec fn view(&self) -> EventView {
        match *self {
            Event::Probed { is_directory } => EventView::Probed { is_directory },
            Event::Loaded { table, now } => EventView::Loaded { table: table@, now },
            Event::Updated { succeeded, now } => EventView::Updated { succeeded, now },
            Event::Stored => EventView::Stored,
            Event::StorageFailed => EventView::StorageFailed,
        }
    }
}

impl View for Action {
    type V = ActionView;

    open spec fn view(&self) -> ActionView {
        match *self {
            Action::Load => ActionView::Load,
            Action::Update { show_output } => ActionView::Update { show_output },
            Action::Store { table } => ActionView::Store { table: table@ },
            Action::Exit { outcome } => ActionView::Exit { outcome },
        }
    }
}

/// The step that a run takes from `state` on `event`: the state it goes to
/// and the action it asks for, or `None` where `event` is not what `state`
/// waits for.
///
/// - A run starts by naming the repository. A path that names none ends it
///   with `NotFound`.
/// - Once the table is loaded, the run ends in success without an update
///   where the repository is recent and no update is forced. Otherwise the
///   update command is run, with its output shown exactly where `verbose`
///   asks for it.
/// - An update command that fails ends the run with `UpdateFailed`, and
///   nothing is stored. One that succeeds has its instant recorded under the
///   repository's name, and the table stored.
/// - A table that cannot be loaded or stored ends the run with
///   `StorageError`.
pub open spec fn step_spec(options: Options, state: StateView, event: EventView) -> Option<
    (StateView, ActionView),
> {
    match (state, event) {
        (StateView::Start, EventView::Probed { is_directory }) => Some(
            match name_of(is_directory, path_file_name(options.repository@)) {
                Ok(name) => (StateView::Loading { name }, ActionView::Load),
                Err(error) => (StateView::Finished, ActionView::Exit { outcome: Err(error) }),
            },
        ),
        (StateView::Loading { name }, EventView::Loaded { table, now }) => Some(
            if recent(table, name, options.max_age, now) && !options.force {
                (StateView::Finished, ActionView::Exit { outcome: Ok(()) })
            } else {
                (
                    StateView::Updating { name, table },
                    ActionView::Update { show_output: options.verbose },
                )
            },
        ),
        (StateView::Loading { .. }, EventView::StorageFailed) => Some(
            (StateView::Finished, ActionView::Exit { outcome: Err(Error::StorageError) }),
        ),
        (StateView::Updating { name, table }, EventView::Updated { succeeded, now }) => Some(
            if succeeded {
                (StateView::Storing, ActionView::Store { table: table.insert(name, now) })
            } else {
                (StateView::Finished, ActionView::Exit { outcome: Err(Error::UpdateFailed) })
            },
        ),
        (StateView::Storing, EventView::Stored) => Some(
            (StateView::Finished, ActionView::Exit { outcome: Ok(()) }),
        ),
        (StateView::Storing, EventView::StorageFailed) => Some(
            (StateView::Finished, ActionView::Exit { outcome: Err(Error::StorageError) }),
        ),
        _ => None,
    }
}

/// `event` is a report on how `action` went.
pub open spec fn answers(event: EventView, action: ActionView) -> bool {
    match action {
        ActionView::Load => event is Loaded || event is StorageFailed,
        ActionView::Update { .. } => event is Updated,
        ActionView::Store { .. } => event is Stored || event is StorageFailed,
        ActionView::Exit { .. } => false,
    }
}

/// The steps that a run can still take from `state`, at most.
pub open spec fn steps_left(state: StateView) -> nat {
    match state {
        StateView::Start => 4,
        StateView::Loading { .. } => 3,
        StateView::Updating { .. } => 2,
        StateView::Storing => 1,
        StateView::Finished => 0,
    }
}

/// The table is stored only after an update that succeeded, and what is
/// stored is the table as it was loaded with the instant of that update put
/// in under the repository's name. No other step stores anything: not a
/// skipped update, and not a failed one.
pub proof fn lemma_only_a_successful_update_is_stored(
    options: Options,
    state: StateView,
    event: EventView,
)
    ensures
        step_spec(options, state, event) matches Some((after, ActionView::Store { table })) ==> {
            &&& state matches StateView::Updating { name, table: loaded }
            &&& event matches EventView::Updated { succeeded, now }
            &&& succeeded
            &&& table == loaded.insert(name, now)
            &&& after is Storing
        },
        state is Updating && event is Updated && !event->succeeded ==> step_spec(
            options,
            state,
            event,
        ) == Some((StateView::Finished, ActionView::Exit { outcome: Err(Error::UpdateFailed) })),
{
}

/// Once the table is loaded, the update runs exactly where it is forced or
/// the repository is not recent; otherwise the run ends in success at once.
/// With `force` set the update runs whatever the table says.
pub proof fn lemma_update_runs_when_forced_or_due(
    options: Options,
    name: Seq<char>,
    table: Map<Seq<char>, Instant>,
    now: Instant,
)
    ensures
        ({
            let next = step_spec(
                options,
                StateView::Loading { name },
                EventView::Loaded { table, now },
            );
            let update = options.force || !recent(table, name, options.max_age, now);
            &&& update ==> next == Some(
                (
                    StateView::Updating { name, table },
                    ActionView::Update { show_output: options.verbose },
                ),
            )
            &&& !update ==> next == Some(
                (StateView::Finished, ActionView::Exit { outcome: Ok(()) }),
            )
        }),
{
}

/// A run cannot get stuck and cannot go on for ever. Whatever the driver
/// reports on the action that a step asked for, the next step accepts it;
/// each step leaves fewer steps to take; a step asks to exit exactly when it
/// finishes the run; and a finished run accepts nothing.
pub proof fn lemma_run_goes_on_until_it_exits(
    options: Options,
    state: StateView,
    event: EventView,
    report: EventView,
)
    ensures
        step_spec(options, state, event) matches Some((after, action)) ==> {
            &&& steps_left(after) < steps_left(state)
            &&& action is Exit <==> after is Finished
            &&& answers(report, action) ==> step_spec(options, after, report) is Some
        },
        state is Finished ==> step_spec(options, state, event) is None,
        state is Start && event is Probed ==> step_spec(options, state, event) is Some,
{
}

/// Takes one step of a run: from `state`, on `event`, to the next state and
/// the action that the driver is to carry out. `None` where `event` is not
/// what `state` waits for.
pub fn step(options: &Options, state: State, event: Event) -> (next: Option<(State, Action)>)
    ensures
        match next {
            Some((after, action)) => step_spec(*options, state@, event@) == Some(
                (after@, action@),
            ),
            None => step_spec(*options, state@, event@) is None,
        },
{
    match (state, event) {
        (State::Start, Event::Probed { is_directory }) => {
            match get_name(options.repository.as_str(), is_directory) {
                Ok(name) => Some((State::Loading { name }, Action::Load)),
                Err(error) => Some((State::Finished, Action::Exit { outcome: Err(error) })),
            }
        },
        (State::Loading { name }, Event::Loaded { table, now }) => {
            if is_recent(&table, name.as_str(), options.max_age, now) && !options.force {
                Some((State::Finished, Action::Exit { outcome: Ok(()) }))
            } else {
                Some(
                    (
                        State::Updating { name, table },
                        Action::Update { show_output: options.verbose },
                    ),
                )
            }
        },
        (State::Loading { .. }, Event::StorageFailed) => Some(
            (State::Finished, Action::Exit { outcome: Err(Error::StorageError) }),
        ),
        (State::Updating { name, table }, Event::Updated { succeeded, now }) => {
            if succeeded {
                let mut table = table;
                table.insert(name, now);
                Some((State::Storing, Action::Store { table }))
            } else {
                Some((State::Finished, Action::Exit { outcome: Err(Error::UpdateFailed) }))
            }
        },
        (State::Storing, Event::Stored) => Some(
            (State::Finished, Action::Exit { outcome: Ok(()) }),
        ),
        (State::Storing, Event::StorageFailed) => Some(
            (State::Finished, Action::Exit { outcome: Err(Error::StorageError) }),
        ),
        _ => None,
    }
}

} // verus!
