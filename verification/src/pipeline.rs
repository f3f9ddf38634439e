use crate::archive::select_spec;
use crate::archive::SelectionError;
use crate::ces::extract_spec;
use crate::ces::MICRODATA_PREFIX;
use crate::digest::md5_digest;
use crate::digest::VerificationFailure;
use crate::text::hex_lower;
use crate::ces::path_spec;
use crate::ces::url_spec;
use crate::ces::Ces;
use crate::digest::Microdata;
use crate::error::FetchError;
use crate::error::IoError;
use crate::error::PipelineError;
use crate::error::PipelineFailure;
use vstd::prelude::*;

verus! {

/// The steps of a year's pipeline in which something can go wrong.
#[derive(Debug, Clone, Copy, PartialEq, Eq, Structural)]
pub enum Stage {
    Checking,
    Fetching,
    Extracting,
    Verifying,
    Persisting,
}

/// Where the pipeline of one year stands. Every state but the first and the
/// two final ones waits for the answer to the action that led to it.
#[derive(Debug, PartialEq, Eq)]
pub enum PipelineState {
    NotChecked,
    Checking,
    Fetching,
    Extracting,
    Persisting,
    Done,
    Failed { stage: Stage, cause: PipelineError },
}

/// What the caller reports back to the pipeline.
#[derive(Debug, PartialEq, Eq)]
pub enum PipelineEvent {
    /// The pipeline is to begin.
    Start,
    /// Whether the extract is already stored, or why that cannot be told.
    Existence(Result<bool, String>),
    /// The bytes of the archive, or why they did not come.
    Fetched(Result<Vec<u8>, String>),
    /// What [`Ces::extract_cursos_microdata`] made of the archive.
    Extracted(Result<String, PipelineError>),
    /// Whether the extract was stored.
    Written(Result<(), String>),
}

/// What the pipeline asks its caller to do next.
#[derive(Debug, PartialEq, Eq)]
pub enum PipelineAction {
    /// Tell whether a file exists at `path`.
    CheckExists { path: String },
    /// Fetch the bytes behind `url`.
    Fetch { url: String },
    /// Run [`Ces::extract_cursos_microdata`] on `archive`.
    Extract { archive: Vec<u8> },
    /// Store `text` at `path`.
    Write { path: String, text: String },
    /// Nothing is left to do.
    Stop,
}

/// A [`PipelineState`] with its error as plain text.
pub ghost enum StateView {
    NotChecked,
    Checking,
    Fetching,
    Extracting,
    Persisting,
    Done,
    Failed { stage: Stage, cause: PipelineFailure },
}

/// A [`PipelineEvent`] with its payload as plain values.
pub ghost enum EventView {
    Start,
    Existence(Result<bool, Seq<char>>),
    Fetched(Result<Seq<u8>, Seq<char>>),
    Extracted(Result<Seq<char>, PipelineFailure>),
    Written(Result<(), Seq<char>>),
}

/// A [`PipelineAction`] with its payload as plain values.
pub ghost enum ActionView {
    CheckExists { path: Seq<char> },
    Fetch { url: Seq<char> },
    Extract { archive: Seq<u8> },
    Write { path: Seq<char>, text: Seq<char> },
    Stop,
}

impl View for PipelineState {
    type V = StateView;

    open spec fn view(&self) -> StateView {
        match self {
            PipelineState::NotChecked => StateView::NotChecked,
            PipelineState::Checking => StateView::Checking,
            PipelineState::Fetching => StateView::Fetching,
            PipelineState::Extracting => StateView::Extracting,
            PipelineState::Persisting => StateView::Persisting,
            PipelineState::Done => StateView::Done,
            PipelineState::Failed { stage, cause } => StateView::Failed {
                stage: *stage,
                cause: cause@,
            },
        }
    }
}

impl View for PipelineEvent {
    type V = EventView;

    open spec fn view(&self) -> EventView {
        match self {
            PipelineEvent::Start => EventView::Start,
            PipelineEvent::Existence(Ok(present)) => EventView::Existence(Ok(*present)),
            PipelineEvent::Existence(Err(cause)) => EventView::Existence(Err(cause@)),
            PipelineEvent::Fetched(Ok(bytes)) => EventView::Fetched(Ok(bytes@)),
            PipelineEvent::Fetched(Err(cause)) => EventView::Fetched(Err(cause@)),
            PipelineEvent::Extracted(Ok(text)) => EventView::Extracted(Ok(text@)),
            PipelineEvent::Extracted(Err(cause)) => EventView::Extracted(Err(cause@)),
            PipelineEvent::Written(Ok(_)) => EventView::Written(Ok(())),
            PipelineEvent::Written(Err(cause)) => EventView::Written(Err(cause@)),
        }
    }
}

impl View for PipelineAction {
    type V = ActionView;

    open spec fn view(&self) -> ActionView {
        match self {
            PipelineAction::CheckExists { path } => ActionView::CheckExists { path: path@ },
            PipelineAction::Fetch { url } => ActionView::Fetch { url: url@ },
            PipelineAction::Extract { archive } => ActionView::Extract { archive: archive@ },
            PipelineAction::Write { path, text } => ActionView::Write { path: path@, text: text@ },
            PipelineAction::Stop => ActionView::Stop,
        }
    }
}

/// The stage in which an extraction that ended in `cause` went wrong.
pub open spec fn stage_of_extraction(cause: PipelineFailure) -> Stage {
    if cause is Verification {
        Stage::Verifying
    } else {
        Stage::Extracting
    }
}

/// The transitions of the pipeline of `year`: the state and the action that
/// follow when `event` arrives in `state`; `None` where `state` does not wait
/// for `event`.
pub open spec fn step_spec(year: u16, state: StateView, event: EventView) -> Option<
    (StateView, ActionView),
> {
    match (state, event) {
        (StateView::NotChecked, EventView::Start) => Some(
            (
                StateView::Checking,
                ActionView::CheckExists { path: path_spec(Microdata::Cursos, year) },
            ),
        ),
        (StateView::Checking, EventView::Existence(Ok(present))) => if present {
            Some((StateView::Done, ActionView::Stop))
        } else {
            Some((StateView::Fetching, ActionView::Fetch { url: url_spec(year) }))
        },
        (StateView::Checking, EventView::Existence(Err(cause))) => Some(
            (
                StateView::Failed { stage: Stage::Checking, cause: PipelineFailure::Io { cause } },
                ActionView::Stop,
            ),
        ),
        (StateView::Fetching, EventView::Fetched(Ok(archive))) => Some(
            (StateView::Extracting, ActionView::Extract { archive }),
        ),
        (StateView::Fetching, EventView::Fetched(Err(cause))) => Some(
            (
                StateView::Failed {
                    stage: Stage::Fetching,
                    cause: PipelineFailure::Fetch { year, cause },
                },
                ActionView::Stop,
            ),
        ),
        (StateView::Extracting, EventView::Extracted(Ok(text))) => Some(
            (
                StateView::Persisting,
                ActionView::Write { path: path_spec(Microdata::Cursos, year), text },
            ),
        ),
        (StateView::Extracting, EventView::Extracted(Err(cause))) => Some(
            (StateView::Failed { stage: stage_of_extraction(cause), cause }, ActionView::Stop),
        ),
        (StateView::Persisting, EventView::Written(Ok(_))) => Some(
            (StateView::Done, ActionView::Stop),
        ),
        (StateView::Persisting, EventView::Written(Err(cause))) => Some(
            (
                StateView::Failed { stage: Stage::Persisting, cause: PipelineFailure::Io { cause } },
                ActionView::Stop,
            ),
        ),
        _ => None,
    }
}

/// The result of a step with state and action as plain values.
pub open spec fn step_view(r: Option<(PipelineState, PipelineAction)>) -> Option<
    (StateView, ActionView),
> {
    match r {
        Some((state, action)) => Some((state@, action@)),
        None => None,
    }
}

/// The result of a finished pipeline with its error as plain text.
pub open spec fn outcome_view(r: Option<Result<(), PipelineError>>) -> Option<
    Result<(), PipelineFailure>,
> {
    match r {
        Some(Ok(_)) => Some(Ok(())),
        Some(Err(cause)) => Some(Err(cause@)),
        None => None,
    }
}

impl StateView {
    /// How the pipeline ended: `None` while it is still under way.
    pub open spec fn outcome(self) -> Option<Result<(), PipelineFailure>> {
        match self {
            StateView::Done => Some(Ok(())),
            StateView::Failed { stage, cause } => Some(Err(cause)),
            _ => None,
        }
    }
}

impl PipelineState {
    /// How the pipeline ended: `None` while it is still under way.
    pub fn outcome(self) -> (r: Option<Result<(), PipelineError>>)
        ensures
            outcome_view(r) == self@.outcome(),
    {
        match self {
            PipelineState::Done => Some(Ok(())),
            PipelineState::Failed { stage, cause } => Some(Err(cause)),
            _ => None,
        }
    }
}

impl Ces {
    /// Advances this year's pipeline by one event: the state that follows and
    /// what the caller is to do next, whose answer is the next event.
    pub fn step(&self, state: PipelineState, event: PipelineEvent) -> (r: Option<
        (PipelineState, PipelineAction),
    >)
        ensures
            step_view(r) == step_spec(self.spec_year(), state@, event@),
    {
        match state {
            PipelineState::NotChecked => match event {
                PipelineEvent::Start => Some(
                    (
                        PipelineState::Checking,
                        PipelineAction::CheckExists { path: self.path(Microdata::Cursos) },
                    ),
                ),
                _ => None,
            },
            PipelineState::Checking => match event {
                PipelineEvent::Existence(Ok(present)) => if present {
                    Some((PipelineState::Done, PipelineAction::Stop))
                } else {
                    Some((PipelineState::Fetching, PipelineAction::Fetch { url: self.url() }))
                },
                PipelineEvent::Existence(Err(cause)) => Some(
                    (
                        PipelineState::Failed {
                            stage: Stage::Checking,
                            cause: PipelineError::Io(IoError { cause }),
                        },
                        PipelineAction::Stop,
                    ),
                ),
                _ => None,
            },
            PipelineState::Fetching => match event {
                PipelineEvent::Fetched(Ok(archive)) => Some(
                    (PipelineState::Extracting, PipelineAction::Extract { archive }),
                ),
                PipelineEvent::Fetched(Err(cause)) => Some(
                    (
                        PipelineState::Failed {
                            stage: Stage::Fetching,
                            cause: PipelineError::Fetch(FetchError { year: self.year(), cause }),
                        },
                        PipelineAction::Stop,
                    ),
                ),
                _ => None,
            },
            PipelineState::Extracting => match event {
                PipelineEvent::Extracted(Ok(text)) => Some(
                    (
                        PipelineState::Persisting,
                        PipelineAction::Write { path: self.path(Microdata::Cursos), text },
                    ),
                ),
                PipelineEvent::Extracted(Err(cause)) => {
                    let stage = match cause {
                        PipelineError::Verification(_) => Stage::Verifying,
                        _ => Stage::Extracting,
                    };
                    Some((PipelineState::Failed { stage, cause }, PipelineAction::Stop))
                },
                _ => None,
            },
            PipelineState::Persisting => match event {
                PipelineEvent::Written(Ok(_)) => Some((PipelineState::Done, PipelineAction::Stop)),
                PipelineEvent::Written(Err(cause)) => Some(
                    (
                        PipelineState::Failed {
                            stage: Stage::Persisting,
                            cause: PipelineError::Io(IoError { cause }),
                        },
                        PipelineAction::Stop,
                    ),
                ),
                _ => None,
            },
            PipelineState::Done => None,
            PipelineState::Failed { stage, cause } => None,
        }
    }
}

/// What surrounds the pipeline of one year, as far as the pipeline can tell.
pub ghost struct World {
    /// The year's extract is stored.
    pub present: bool,
    /// What fetching the year's archive brings.
    pub remote: Result<Seq<u8>, Seq<char>>,
    /// What storing the year's extract brings.
    pub storage: Result<(), Seq<char>>,
}

/// How `world` answers `action`, and the world after that; `None` for the
/// action that asks for nothing. Only a write that succeeds changes the
/// world, by making the extract present.
pub open spec fn respond(year: u16, world: World, action: ActionView) -> Option<
    (EventView, World),
> {
    match action {
        ActionView::CheckExists { path } => Some((EventView::Existence(Ok(world.present)), world)),
        ActionView::Fetch { url } => Some((EventView::Fetched(world.remote), world)),
        ActionView::Extract { archive } => Some(
            (EventView::Extracted(extract_spec(year, archive)), world),
        ),
        ActionView::Write { path, text } => Some(
            (
                EventView::Written(world.storage),
                World { present: world.present || world.storage is Ok, ..world },
            ),
        ),
        ActionView::Stop => None,
    }
}

/// A pipeline that has run: what it asked for, in order, where it ended, and
/// the world it left.
pub ghost struct Run {
    pub actions: Seq<ActionView>,
    pub state: StateView,
    pub world: World,
}

/// The pipeline of `year` driven from `state` with `event` in `world`, every
/// action answered by [`respond`], for at most `limit` steps.
pub open spec fn run_from(
    year: u16,
    state: StateView,
    event: EventView,
    world: World,
    limit: nat,
) -> Run
    decreases limit,
{
    if limit == 0 {
        Run { actions: Seq::empty(), state, world }
    } else {
        match step_spec(year, state, event) {
            None => Run { actions: Seq::empty(), state, world },
            Some((next, action)) => match respond(year, world, action) {
                None => Run { actions: seq![action], state: next, world },
                Some((answer, after)) => {
                    let rest = run_from(year, next, answer, after, (limit - 1) as nat);
                    Run {
                        actions: seq![action] + rest.actions,
                        state: rest.state,
                        world: rest.world,
                    }
                },
            },
        }
    }
}

/// The length of the longest way through the pipeline: check, fetch,
/// extract, write, stop.
pub open spec fn full_run() -> nat {
    5
}

/// One whole run of the pipeline of `year` in `world`.
pub open spec fn run(year: u16, world: World) -> Run {
    run_from(year, StateView::NotChecked, EventView::Start, world, full_run())
}

/// Every run comes to an end, done or failed, and its last action is the one
/// that asks for nothing. A run that is done leaves the extract present; a
/// run that failed leaves the world as it found it.
pub proof fn law_every_run_ends(year: u16, world: World)
    ensures
        run(year, world).state is Done || run(year, world).state is Failed,
        run(year, world).actions.len() > 0,
        run(year, world).actions.last() is Stop,
        run(year, world).state is Done ==> run(year, world).world.present,
        run(year, world).state is Failed ==> run(year, world).world == world,
{
    reveal_with_fuel(run_from, 6);
}

/// Where the extract is already stored, a run only checks that and is done:
/// it asks for no fetch and no write, whatever a fetch would bring.
pub proof fn law_stored_extract_is_not_fetched_again(year: u16, world: World)
    requires
        world.present,
    ensures
        run(year, world).actions == seq![
            ActionView::CheckExists { path: path_spec(Microdata::Cursos, year) },
            ActionView::Stop,
        ],
        run(year, world).state == StateView::Done,
        run(year, world).world == world,
{
    reveal_with_fuel(run_from, 3);
    assert(run(year, world).actions =~= seq![
        ActionView::CheckExists { path: path_spec(Microdata::Cursos, year) },
        ActionView::Stop,
    ]);
}

/// Running the pipeline twice, where at first the extract is missing and the
/// fetch, the extraction and the write all succeed: the first run fetches
/// once and writes once, the second fetches and writes nothing.
pub proof fn law_second_run_does_nothing(year: u16, world: World)
    requires
        !world.present,
        world.remote is Ok,
        extract_spec(year, world.remote->Ok_0) is Ok,
        world.storage is Ok,
    ensures
        run(year, world).actions == seq![
            ActionView::CheckExists { path: path_spec(Microdata::Cursos, year) },
            ActionView::Fetch { url: url_spec(year) },
            ActionView::Extract { archive: world.remote->Ok_0 },
            ActionView::Write {
                path: path_spec(Microdata::Cursos, year),
                text: extract_spec(year, world.remote->Ok_0)->Ok_0,
            },
            ActionView::Stop,
        ],
        run(year, world).state == StateView::Done,
        run(year, world).world.present,
        run(year, run(year, world).world).actions == seq![
            ActionView::CheckExists { path: path_spec(Microdata::Cursos, year) },
            ActionView::Stop,
        ],
        run(year, run(year, world).world).state == StateView::Done,
{
    reveal_with_fuel(run_from, 6);
    let first = run(year, world);
    assert(first.actions =~= seq![
        ActionView::CheckExists { path: path_spec(Microdata::Cursos, year) },
        ActionView::Fetch { url: url_spec(year) },
        ActionView::Extract { archive: world.remote->Ok_0 },
        ActionView::Write {
            path: path_spec(Microdata::Cursos, year),
            text: extract_spec(year, world.remote->Ok_0)->Ok_0,
        },
        ActionView::Stop,
    ]);
    law_stored_extract_is_not_fetched_again(year, first.world);
}

/// Where the selected entry does not hash to the digest pinned for the
/// year, extraction fails with the mismatch, and a run that fetched such an
/// archive ends as failed in verification without asking for a write: the
/// extract stays missing.
pub proof fn law_mismatch_is_never_stored(year: u16, world: World, entry: Seq<u8>)
    requires
        !world.present,
        world.remote is Ok,
        select_spec(world.remote->Ok_0, MICRODATA_PREFIX@, Microdata::Cursos.name_spec()) == Ok::<
            Seq<u8>,
            SelectionError,
        >(entry),
        Microdata::Cursos.pinned_digest(year) is Some,
        Microdata::Cursos.pinned_digest(year)->Some_0 != hex_lower(md5_digest(entry)),
    ensures
        extract_spec(year, world.remote->Ok_0) == Err::<Seq<char>, PipelineFailure>(
            PipelineFailure::Verification(
                VerificationFailure::DigestMismatch {
                    expected: Microdata::Cursos.pinned_digest(year)->Some_0,
                    actual: hex_lower(md5_digest(entry)),
                },
            ),
        ),
        run(year, world).actions == seq![
            ActionView::CheckExists { path: path_spec(Microdata::Cursos, year) },
            ActionView::Fetch { url: url_spec(year) },
            ActionView::Extract { archive: world.remote->Ok_0 },
            ActionView::Stop,
        ],
        run(year, world).state == (StateView::Failed {
            stage: Stage::Verifying,
            cause: extract_spec(year, world.remote->Ok_0)->Err_0,
        }),
        !run(year, world).world.present,
{
    reveal_with_fuel(run_from, 5);
    assert(run(year, world).actions =~= seq![
        ActionView::CheckExists { path: path_spec(Microdata::Cursos, year) },
        ActionView::Fetch { url: url_spec(year) },
        ActionView::Extract { archive: world.remote->Ok_0 },
        ActionView::Stop,
    ]);
}

/// A write is asked for in one place only: after an extraction that
/// succeeded, and with exactly the text that it produced.
pub proof fn law_only_extracted_text_is_written(year: u16, state: StateView, event: EventView)
    requires
        step_spec(year, state, event) is Some,
        step_spec(year, state, event)->Some_0.1 is Write,
    ensures
        state == StateView::Extracting,
        event is Extracted,
        event->Extracted_0 == Ok::<Seq<char>, PipelineFailure>(
            step_spec(year, state, event)->Some_0.1->Write_text,
        ),
{
}

} // verus!
