//! Staging a tool on disk, as a state machine.
//!
//! The machine decides; its host performs. Each action names one piece of
//! outside work (create a directory, look for a file, fetch a URL, write
//! bytes), and the host answers with the event that says how it went.

use crate::archive::{is_plan_for, plan_zip_extraction, steps_view, ExtractStep, StepView};
use crate::cache::{classify, kind_of, ArchiveKind};
use crate::error::{CacheError, ErrorView};
use crate::platform::Platform;
use vstd::prelude::*;

verus! {

/// The permission bits of a staged binary: read, write and execute for the
/// owner, read and execute for everyone else.
pub const EXECUTABLE_MODE: u32 = 0o755;

/// Where staging stands.
#[derive(Clone, Copy, Debug, PartialEq, Eq, Structural)]
pub enum Phase {
    /// The staging directory is being created.
    CreatingDir,
    /// The host is looking for an already staged binary.
    Probing,
    /// The artifact is being fetched.
    Downloading,
    /// The fetched archive is being unpacked.
    Extracting,
    /// The fetched binary is being written.
    Writing,
    /// The host is looking for the binary that the archive should have held.
    Checking,
    /// The binary is being made executable.
    SettingPermissions,
    /// The binary is staged. Nothing more happens.
    Cached,
    /// Staging has failed. Nothing more happens.
    Failed,
}

/// What the host reports back.
#[derive(Debug)]
pub enum Event {
    /// The requested work was done.
    Completed,
    /// The answer to a probe: whether the path exists.
    Exists(bool),
    /// The answer to a fetch: the full response body.
    Fetched(Vec<u8>),
    /// The requested work failed; the text says why.
    Failed(String),
}

/// The mathematical content of an `Event`.
pub enum EventView {
    Completed,
    Exists(bool),
    Fetched(Seq<u8>),
    Failed(Seq<char>),
}

impl View for Event {
    type V = EventView;

    open spec fn view(&self) -> EventView {
        match self {
            Event::Completed => EventView::Completed,
            Event::Exists(found) => EventView::Exists(*found),
            Event::Fetched(body) => EventView::Fetched(body@),
            Event::Failed(detail) => EventView::Failed(detail@),
        }
    }
}

/// What the host is asked to do next.
#[derive(Debug)]
pub enum Action {
    /// Create the directory and all its ancestors; an existing one is fine.
    CreateDirAll { path: String },
    /// Report whether the path exists.
    Probe { path: String },
    /// Fetch the full response body of the URL.
    Fetch { url: String },
    /// Perform the steps in order.
    Extract { steps: Vec<ExtractStep> },
    /// Unpack the gzip-compressed tar archive into the directory.
    UnpackTarGz { bytes: Vec<u8>, target: String },
    /// Write the bytes to the path.
    WriteFile { path: String, data: Vec<u8> },
    /// Set the permission bits of the path.
    SetMode { path: String, mode: u32 },
    /// Staging is complete: the binary is in place.
    Done,
    /// Staging has failed with this error.
    Fail { error: CacheError },
}

/// The mathematical content of an `Action`.
pub enum ActionView {
    CreateDirAll { path: Seq<char> },
    Probe { path: Seq<char> },
    Fetch { url: Seq<char> },
    Extract { steps: Seq<StepView> },
    UnpackTarGz { bytes: Seq<u8>, target: Seq<char> },
    WriteFile { path: Seq<char>, data: Seq<u8> },
    SetMode { path: Seq<char>, mode: u32 },
    Done,
    Fail { error: ErrorView },
}

impl View for Action {
    type V = ActionView;

    open spec fn view(&self) -> ActionView {
        match self {
            Action::CreateDirAll { path } => ActionView::CreateDirAll { path: path@ },
            Action::Probe { path } => ActionView::Probe { path: path@ },
            Action::Fetch { url } => ActionView::Fetch { url: url@ },
            Action::Extract { steps } => ActionView::Extract { steps: steps_view(steps@) },
            Action::UnpackTarGz { bytes, target } => ActionView::UnpackTarGz {
                bytes: bytes@,
                target: target@,
            },
            Action::WriteFile { path, data } => ActionView::WriteFile { path: path@, data: data@ },
            Action::SetMode { path, mode } => ActionView::SetMode { path: path@, mode: *mode },
            Action::Done => ActionView::Done,
            Action::Fail { error } => ActionView::Fail { error: error@ },
        }
    }
}

/// Where staging stands, with what that phase holds on to.
enum State {
    CreatingDir,
    Probing,
    Downloading,
    /// `pending` is the error that the extraction plan ended in, if any.
    Extracting { pending: Option<CacheError> },
    Writing,
    Checking,
    SettingPermissions,
    Cached,
    Failed { error: CacheError },
}

impl State {
    spec fn phase(self) -> Phase {
        match self {
            State::CreatingDir => Phase::CreatingDir,
            State::Probing => Phase::Probing,
            State::Downloading => Phase::Downloading,
            State::Extracting { .. } => Phase::Extracting,
            State::Writing => Phase::Writing,
            State::Checking => Phase::Checking,
            State::SettingPermissions => Phase::SettingPermissions,
            State::Cached => Phase::Cached,
            State::Failed { .. } => Phase::Failed,
        }
    }

    spec fn failure(self) -> Option<ErrorView> {
        match self {
            State::Extracting { pending: Some(error) } => Some(error@),
            State::Failed { error } => Some(error@),
            _ => None,
        }
    }
}

/// The staging of one tool: what is to be staged where, and how far it got.
pub struct Materializer {
    url: String,
    binary_path: String,
    base_dir: String,
    force: bool,
    kind: ArchiveKind,
    platform: Platform,
    state: State,
}

/// The mathematical content of a `Materializer`.
pub struct MachineView {
    pub url: Seq<char>,
    pub binary_path: Seq<char>,
    pub base_dir: Seq<char>,
    pub force: bool,
    pub kind: ArchiveKind,
    pub platform: Platform,
    pub phase: Phase,
    /// The error of a failed staging; while extracting, the error that the
    /// extraction plan ends in, if it ends in one.
    pub failure: Option<ErrorView>,
}

impl View for Materializer {
    type V = MachineView;

    closed spec fn view(&self) -> MachineView {
        MachineView {
            url: self.url@,
            binary_path: self.binary_path@,
            base_dir: self.base_dir@,
            force: self.force,
            kind: self.kind,
            platform: self.platform,
            phase: self.state.phase(),
            failure: self.state.failure(),
        }
    }
}

impl MachineView {
    /// The machine as it starts out.
    pub open spec fn initial(
        url: Seq<char>,
        binary_path: Seq<char>,
        base_dir: Seq<char>,
        force: bool,
        platform: Platform,
    ) -> MachineView {
        MachineView {
            url,
            binary_path,
            base_dir,
            force,
            kind: kind_of(url),
            platform,
            phase: Phase::CreatingDir,
            failure: None,
        }
    }

    /// The same staging in another phase, with no error held.
    pub open spec fn moved_to(self, phase: Phase) -> MachineView {
        MachineView { phase, failure: None, ..self }
    }

    /// The same staging, failed with `error`.
    pub open spec fn failed_with(self, error: ErrorView) -> MachineView {
        MachineView { phase: Phase::Failed, failure: Some(error), ..self }
    }

    /// A failed machine holds its error; only a failed or an extracting
    /// machine holds one.
    pub open spec fn wf(self) -> bool {
        &&& self.phase == Phase::Failed ==> self.failure is Some
        &&& self.failure is Some ==> self.phase == Phase::Failed || self.phase == Phase::Extracting
    }

    /// The request that either makes the binary executable, where the
    /// platform has permission bits, or ends the staging.
    pub open spec fn finishing(self) -> (MachineView, ActionView) {
        if self.platform.sets_permissions() {
            (
                self.moved_to(Phase::SettingPermissions),
                ActionView::SetMode { path: self.binary_path, mode: EXECUTABLE_MODE },
            )
        } else {
            (self.moved_to(Phase::Cached), ActionView::Done)
        }
    }
}

/// The text that an event gives for a failure: its own where it reports
/// one, else a fixed sentence for an event that does not answer the request.
pub open spec fn failure_text(event: EventView) -> Seq<char> {
    match event {
        EventView::Failed(detail) => detail,
        _ => "unexpected event"@,
    }
}

/// The error that a step failing in `phase` is reported as: a failed fetch
/// is a download error, a failed unpacking an extraction error, any other
/// failed step a filesystem error.
pub open spec fn error_in(phase: Phase, detail: Seq<char>) -> ErrorView {
    match phase {
        Phase::Downloading => ErrorView::Download(detail),
        Phase::Extracting => ErrorView::Extraction(detail),
        _ => ErrorView::Filesystem(detail),
    }
}

/// Whether `event` is the answer that the request of `phase` waits for.
pub open spec fn answers(phase: Phase, event: EventView) -> bool {
    match phase {
        Phase::CreatingDir | Phase::Extracting | Phase::Writing | Phase::SettingPermissions => event
            is Completed,
        Phase::Probing | Phase::Checking => event is Exists,
        Phase::Downloading => event is Fetched,
        Phase::Cached | Phase::Failed => true,
    }
}

/// One move of the machine: in state `pre`, `event` leads to state `post`
/// and request `action`.
///
/// An event that is not the awaited answer fails the staging, with the error
/// kind of the step that was awaited. Otherwise:
/// - once the directory is there, the binary is looked for;
/// - a binary that exists is kept unless a refresh is forced, and then
///   nothing is fetched; else the URL is fetched;
/// - the fetched bytes are unpacked, for an archive, or written as they are;
/// - an unpacked archive whose plan ended in an error fails with it; one
///   that held the binary has it made executable;
/// - a written binary is made executable;
/// - a staged or failed machine stays as it is and repeats its answer.
pub open spec fn step_holds(
    pre: MachineView,
    event: EventView,
    post: MachineView,
    action: ActionView,
) -> bool {
    if !answers(pre.phase, event) {
        let error = error_in(pre.phase, failure_text(event));
        post == pre.failed_with(error) && action == (ActionView::Fail { error })
    } else {
        match pre.phase {
            Phase::CreatingDir => {
                &&& post == pre.moved_to(Phase::Probing)
                &&& action == ActionView::Probe { path: pre.binary_path }
            },
            Phase::Probing => {
                if event->Exists_0 && !pre.force {
                    post == pre.moved_to(Phase::Cached) && action == ActionView::Done
                } else {
                    &&& post == pre.moved_to(Phase::Downloading)
                    &&& action == ActionView::Fetch { url: pre.url }
                }
            },
            Phase::Downloading => {
                let body = event->Fetched_0;
                match pre.kind {
                    ArchiveKind::Zip => {
                        &&& post == MachineView { phase: Phase::Extracting, failure: post.failure, ..pre }
                        &&& post.failure matches Some(error) ==> error is Extraction
                        &&& action matches ActionView::Extract { steps }
                        &&& is_plan_for(
                            body,
                            pre.base_dir,
                            pre.platform,
                            action->Extract_steps,
                            post.failure is Some,
                        )
                    },
                    ArchiveKind::TarGz => {
                        &&& post == pre.moved_to(Phase::Extracting)
                        &&& action == ActionView::UnpackTarGz { bytes: body, target: pre.base_dir }
                    },
                    ArchiveKind::Raw => {
                        &&& post == pre.moved_to(Phase::Writing)
                        &&& action == ActionView::WriteFile { path: pre.binary_path, data: body }
                    },
                }
            },
            Phase::Extracting => {
                match pre.failure {
                    Some(error) => {
                        &&& post == pre.failed_with(error)
                        &&& action == ActionView::Fail { error }
                    },
                    None => {
                        if pre.platform.sets_permissions() {
                            &&& post == pre.moved_to(Phase::Checking)
                            &&& action == ActionView::Probe { path: pre.binary_path }
                        } else {
                            post == pre.moved_to(Phase::Cached) && action == ActionView::Done
                        }
                    },
                }
            },
            Phase::Checking => {
                if event->Exists_0 {
                    &&& post == pre.moved_to(Phase::SettingPermissions)
                    &&& action == ActionView::SetMode {
                        path: pre.binary_path,
                        mode: EXECUTABLE_MODE,
                    }
                } else {
                    post == pre.moved_to(Phase::Cached) && action == ActionView::Done
                }
            },
            Phase::Writing => post == pre.finishing().0 && action == pre.finishing().1,
            Phase::SettingPermissions => {
                post == pre.moved_to(Phase::Cached) && action == ActionView::Done
            },
            Phase::Cached => post == pre && action == ActionView::Done,
            Phase::Failed => {
                &&& post == pre
                &&& pre.failure matches Some(error) ==> action == ActionView::Fail { error }
            },
        }
    }
}

/// A run of the machine: each state and event lead to the next state and
/// to the request made of the host.
pub open spec fn is_run(
    states: Seq<MachineView>,
    events: Seq<EventView>,
    actions: Seq<ActionView>,
) -> bool {
    &&& states.len() == events.len() + 1
    &&& actions.len() == events.len()
    &&& forall|i: int|
        0 <= i < events.len() ==> step_holds(
            states[i],
            #[trigger] events[i],
            states[i + 1],
            actions[i],
        )
}

/// The phases of a staging that has asked for nothing but the directory and
/// a look at the binary.
pub open spec fn before_fetch(phase: Phase) -> bool {
    phase == Phase::CreatingDir || phase == Phase::Probing || phase == Phase::Cached || phase
        == Phase::Failed
}

/// A request that neither reaches the network nor writes a file.
pub open spec fn is_passive(action: ActionView) -> bool {
    action is Probe || action is Done || action is Fail
}

proof fn lemma_cache_hit_stays_before_fetch(
    states: Seq<MachineView>,
    events: Seq<EventView>,
    actions: Seq<ActionView>,
    upto: int,
)
    requires
        is_run(states, events, actions),
        states[0].wf(),
        states[0].phase == Phase::CreatingDir,
        !states[0].force,
        forall|i: int| 0 <= i < events.len() ==> (#[trigger] events[i] matches EventView::Exists(
            found,
        ) ==> found),
        0 <= upto <= events.len(),
    ensures
        states[upto].wf(),
        before_fetch(states[upto].phase),
        !states[upto].force,
        upto > 0 ==> is_passive(actions[upto - 1]),
    decreases upto,
{
    if upto > 0 {
        lemma_cache_hit_stays_before_fetch(states, events, actions, upto - 1);
        let _ = events[upto - 1];
    }
}

/// With no refresh forced and the binary in place whenever the host looks,
/// a staging never fetches: every request is a probe, the final word or a
/// failure, whatever events arrive.
pub proof fn lemma_cache_hit_never_fetches(
    states: Seq<MachineView>,
    events: Seq<EventView>,
    actions: Seq<ActionView>,
)
    requires
        is_run(states, events, actions),
        states[0].wf(),
        states[0].phase == Phase::CreatingDir,
        !states[0].force,
        forall|i: int| 0 <= i < events.len() ==> (#[trigger] events[i] matches EventView::Exists(
            found,
        ) ==> found),
    ensures
        forall|i: int| 0 <= i < actions.len() ==> is_passive(#[trigger] actions[i]),
        forall|i: int| 0 <= i < actions.len() ==> !(#[trigger] actions[i] is Fetch),
{
    assert forall|i: int| 0 <= i < actions.len() implies is_passive(#[trigger] actions[i]) by {
        lemma_cache_hit_stays_before_fetch(states, events, actions, i + 1);
    }
}

/// Once the directory is there and the binary is found with no refresh
/// forced, the staging is complete at once.
pub proof fn lemma_cache_hit_completes(
    start: MachineView,
    probing: MachineView,
    probe: ActionView,
    end: MachineView,
    last: ActionView,
)
    requires
        start.phase == Phase::CreatingDir,
        !start.force,
        step_holds(start, EventView::Completed, probing, probe),
        step_holds(probing, EventView::Exists(true), end, last),
    ensures
        probe == (ActionView::Probe { path: start.binary_path }),
        last == ActionView::Done,
        end.phase == Phase::Cached,
{
}

/// With a refresh forced, the answer to the first probe is always followed
/// by a fetch of the URL, whether or not the binary exists.
pub proof fn lemma_forced_refresh_fetches(
    start: MachineView,
    probing: MachineView,
    probe: ActionView,
    found: bool,
    end: MachineView,
    next: ActionView,
)
    requires
        start.phase == Phase::CreatingDir,
        start.force,
        step_holds(start, EventView::Completed, probing, probe),
        step_holds(probing, EventView::Exists(found), end, next),
    ensures
        probe == (ActionView::Probe { path: start.binary_path }),
        next == (ActionView::Fetch { url: start.url }),
        end.phase == Phase::Downloading,
{
}

/// A binary that does not exist is fetched, forced or not.
pub proof fn lemma_missing_binary_is_fetched(pre: MachineView, post: MachineView, action: ActionView)
    requires
        pre.phase == Phase::Probing,
        step_holds(pre, EventView::Exists(false), post, action),
    ensures
        action == (ActionView::Fetch { url: pre.url }),
{
}

/// A fetch that fails ends the staging with a download error that carries
/// the host's text, and a failed staging asks for nothing more.
pub proof fn lemma_failed_fetch_is_download_error(
    pre: MachineView,
    detail: Seq<char>,
    post: MachineView,
    action: ActionView,
    later: EventView,
    end: MachineView,
    last: ActionView,
)
    requires
        pre.phase == Phase::Downloading,
        step_holds(pre, EventView::Failed(detail), post, action),
        step_holds(post, later, end, last),
    ensures
        action == (ActionView::Fail { error: ErrorView::Download(detail) }),
        post.phase == Phase::Failed,
        last == action,
        end == post,
{
}

/// Every move keeps what is staged and where, and leads from a well-formed
/// state to a well-formed state.
pub proof fn lemma_step_keeps_target(
    pre: MachineView,
    event: EventView,
    post: MachineView,
    action: ActionView,
)
    requires
        pre.wf(),
        step_holds(pre, event, post, action),
    ensures
        post.wf(),
        post.url == pre.url,
        post.binary_path == pre.binary_path,
        post.base_dir == pre.base_dir,
        post.force == pre.force,
        post.kind == pre.kind,
        post.platform == pre.platform,
{
}

/// A staged binary stays staged: only a new staging, begun with a refresh
/// forced, fetches again.
pub proof fn lemma_cached_is_final(
    pre: MachineView,
    event: EventView,
    post: MachineView,
    action: ActionView,
)
    requires
        pre.phase == Phase::Cached,
        step_holds(pre, event, post, action),
    ensures
        post == pre,
        action == ActionView::Done,
{
}

impl Materializer {
    /// Every machine is well-formed.
    pub proof fn lemma_wf(&self)
        ensures
            self@.wf(),
    {
    }

    /// Begins the staging of `url` at `binary_path` inside `base_dir`. The
    /// first request is for the staging directory.
    pub fn new(url: &str, binary_path: &str, base_dir: &str, force: bool, platform: Platform) -> (started:
        (Materializer, Action))
        ensures
            started.0@ == MachineView::initial(url@, binary_path@, base_dir@, force, platform),
            started.1@ == (ActionView::CreateDirAll { path: base_dir@ }),
    {
        let machine = Materializer {
            url: url.to_owned(),
            binary_path: binary_path.to_owned(),
            base_dir: base_dir.to_owned(),
            force,
            kind: classify(url),
            platform,
            state: State::CreatingDir,
        };
        (machine, Action::CreateDirAll { path: base_dir.to_owned() })
    }

    /// Where the staging stands.
    pub fn phase(&self) -> (phase: Phase)
        ensures
            phase == self@.phase,
    {
        match self.state {
            State::CreatingDir => Phase::CreatingDir,
            State::Probing => Phase::Probing,
            State::Downloading => Phase::Downloading,
            State::Extracting { .. } => Phase::Extracting,
            State::Writing => Phase::Writing,
            State::Checking => Phase::Checking,
            State::SettingPermissions => Phase::SettingPermissions,
            State::Cached => Phase::Cached,
            State::Failed { .. } => Phase::Failed,
        }
    }

    /// What the URL was classified as.
    pub fn kind(&self) -> (kind: ArchiveKind)
        ensures
            kind == self@.kind,
    {
        self.kind
    }

    /// Whether the staging has ended, in success or failure.
    pub fn is_finished(&self) -> (finished: bool)
        ensures
            finished == (self@.phase == Phase::Cached || self@.phase == Phase::Failed),
    {
        match self.state {
            State::Cached => true,
            State::Failed { .. } => true,
            _ => false,
        }
    }

    fn goto(self, state: State) -> (moved: Materializer)
        requires
            state.failure() is None,
        ensures
            moved@ == self@.moved_to(state.phase()),
    {
        Materializer { state, ..self }
    }

    fn fail(self, error: CacheError) -> (next: (Materializer, Action))
        ensures
            next.0@ == self@.failed_with(error@),
            next.1@ == (ActionView::Fail { error: error@ }),
    {
        let copy = error.clone();
        (Materializer { state: State::Failed { error }, ..self }, Action::Fail { error: copy })
    }

    fn reject(self, event: Event) -> (next: (Materializer, Action))
        ensures
            next.0@ == self@.failed_with(error_in(self@.phase, failure_text(event@))),
            next.1@ == (ActionView::Fail { error: error_in(self@.phase, failure_text(event@)) }),
    {
        let detail = match event {
            Event::Failed(detail) => detail,
            _ => "unexpected event".to_owned(),
        };
        let error = match self.state {
            State::Downloading => CacheError::Download(detail),
            State::Extracting { .. } => CacheError::Extraction(detail),
            _ => CacheError::Filesystem(detail),
        };
        self.fail(error)
    }

    fn finish(self) -> (next: (Materializer, Action))
        ensures
            next.0@ == self@.finishing().0,
            next.1@ == self@.finishing().1,
    {
        if self.platform.sets_permissions() {
            let path = self.binary_path.clone();
            (self.goto(State::SettingPermissions), Action::SetMode { path, mode: EXECUTABLE_MODE })
        } else {
            (self.goto(State::Cached), Action::Done)
        }
    }

    fn unpack_or_write(self, body: Vec<u8>) -> (next: (Materializer, Action))
        requires
            self@.phase == Phase::Downloading,
        ensures
            step_holds(self@, EventView::Fetched(body@), next.0@, next.1@),
    {
        match self.kind {
            ArchiveKind::Zip => {
                let plan = plan_zip_extraction(body, self.base_dir.as_str(), self.platform);
                let state = State::Extracting { pending: plan.failure };
                (Materializer { state, ..self }, Action::Extract { steps: plan.steps })
            },
            ArchiveKind::TarGz => {
                let target = self.base_dir.clone();
                (
                    self.goto(State::Extracting { pending: None }),
                    Action::UnpackTarGz { bytes: body, target },
                )
            },
            ArchiveKind::Raw => {
                let path = self.binary_path.clone();
                (self.goto(State::Writing), Action::WriteFile { path, data: body })
            },
        }
    }

    /// Takes the host's answer to the last request and gives the next
    /// state and the next request.
    pub fn step(self, event: Event) -> (next: (Materializer, Action))
        ensures
            step_holds(self@, event@, next.0@, next.1@),
    {
        match (&self.state, event) {
            (State::Cached, _) => (self, Action::Done),
            (State::Failed { error }, _) => {
                let copy = error.clone();
                (self, Action::Fail { error: copy })
            },
            (State::CreatingDir, Event::Completed) => {
                let path = self.binary_path.clone();
                (self.goto(State::Probing), Action::Probe { path })
            },
            (State::Probing, Event::Exists(found)) => {
                if found && !self.force {
                    (self.goto(State::Cached), Action::Done)
                } else {
                    let url = self.url.clone();
                    (self.goto(State::Downloading), Action::Fetch { url })
                }
            },
            (State::Downloading, Event::Fetched(body)) => self.unpack_or_write(body),
            (State::Extracting { pending: Some(error) }, Event::Completed) => {
                let copy = error.clone();
                self.fail(copy)
            },
            (State::Extracting { pending: None }, Event::Completed) => {
                if self.platform.sets_permissions() {
                    let path = self.binary_path.clone();
                    (self.goto(State::Checking), Action::Probe { path })
                } else {
                    (self.goto(State::Cached), Action::Done)
                }
            },
            (State::Checking, Event::Exists(found)) => {
                if found {
                    let path = self.binary_path.clone();
                    (
                        self.goto(State::SettingPermissions),
                        Action::SetMode { path, mode: EXECUTABLE_MODE },
                    )
                } else {
                    (self.goto(State::Cached), Action::Done)
                }
            },
            (State::Writing, Event::Completed) => self.finish(),
            (State::SettingPermissions, Event::Completed) => (self.goto(State::Cached), Action::Done),
            (_, other) => self.reject(other),
        }
    }
}

} // verus!
