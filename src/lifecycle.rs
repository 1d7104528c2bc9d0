use vstd::prelude::*;
use crate::staging::{file_name_of, path_file_name, staged_file_name, staged_name};

verus! {

/// An operation asked of the lifecycle manager. `S` is the type of paths:
/// `String` when running, `Seq<char>` in specifications.
#[derive(Debug)]
pub enum Request<S> {
    /// Load the module at this path, unloading the current one first.
    Load(S),
    /// Unload the current module, if any.
    Unload,
    /// Stage a fresh copy of the module at `source` and load that copy.
    Reload { source: S, timestamp: u64 },
}

/// What the caller reports to the manager: a new request, or the outcome of
/// the action the manager asked for last.
#[derive(Debug)]
pub enum Event<S> {
    Begin(Request<S>),
    /// The last action (cleanup, release, initialize, scheduling a deletion,
    /// settling) has been carried out.
    Done,
    /// Whether the file named by the last `CheckFile` exists.
    FileChecked(bool),
    /// Whether the module named by the last `Open` could be opened.
    Opened(bool),
    /// The absolute path of the staged copy, or `None` when copying failed.
    Staged(Option<S>),
}

/// Why an operation failed.
#[derive(Debug, Clone, Copy, PartialEq, Eq, Structural)]
pub enum LifecycleError {
    /// The source path of a reload has no file name.
    InvalidFileName,
    /// The module file could not be copied to its staged name.
    CopyFailed,
    /// No file exists at the path to load.
    FileNotFound,
    /// The platform loader refused the module.
    OpenFailed,
}

/// What the manager asks its caller to do next.
#[derive(Debug)]
pub enum Action<S> {
    /// Call the loaded module's `cleanup` entry point, if it has one.
    Cleanup,
    /// Release the loaded module's handle.
    Release,
    /// Test whether a file exists at the path.
    CheckFile(S),
    /// Open the module at the path.
    Open(S),
    /// Call the newly opened module's `initialize` entry point, if it has one.
    Initialize,
    /// Copy `source` to `staged` in the working directory and report the copy's
    /// absolute path.
    Stage { source: S, staged: S },
    /// Delete the staged copy at the path once the grace period has passed.
    ScheduleDelete(S),
    /// Pause briefly so that the previous module's teardown can finish.
    Settle,
    /// The operation is over, with this outcome.
    Finished(Result<(), LifecycleError>),
    /// The event does not fit the operation in flight; nothing changed.
    Ignored,
}

/// What follows the release of the current module.
#[derive(Debug)]
pub enum After<S> {
    Finish,
    Load { path: S, reload: bool },
}

/// Where the manager stands inside an operation.
#[derive(Debug)]
pub enum Phase<S> {
    Idle,
    CleaningUp(After<S>),
    Releasing(After<S>),
    Checking { path: S, reload: bool },
    Opening { path: S, reload: bool },
    Initializing { path: S, reload: bool },
    Staging,
    Scheduling(S),
    Settling,
}

/// The manager as specifications see it.
pub struct ManagerView {
    pub phase: Phase<Seq<char>>,
    /// The path of the loaded module; `None` when the slot is unloaded.
    pub loaded: Option<Seq<char>>,
}

pub open spec fn opt_view(o: Option<String>) -> Option<Seq<char>> {
    match o {
        Some(s) => Some(s@),
        None => None,
    }
}

impl View for Request<String> {
    type V = Request<Seq<char>>;

    open spec fn view(&self) -> Request<Seq<char>> {
        match self {
            Request::Load(p) => Request::Load(p@),
            Request::Unload => Request::Unload,
            Request::Reload { source, timestamp } => Request::Reload {
                source: source@,
                timestamp: *timestamp,
            },
        }
    }
}

impl View for Event<String> {
    type V = Event<Seq<char>>;

    open spec fn view(&self) -> Event<Seq<char>> {
        match self {
            Event::Begin(r) => Event::Begin(r@),
            Event::Done => Event::Done,
            Event::FileChecked(b) => Event::FileChecked(*b),
            Event::Opened(b) => Event::Opened(*b),
            Event::Staged(p) => Event::Staged(opt_view(*p)),
        }
    }
}

impl View for Action<String> {
    type V = Action<Seq<char>>;

    open spec fn view(&self) -> Action<Seq<char>> {
        match self {
            Action::Cleanup => Action::Cleanup,
            Action::Release => Action::Release,
            Action::CheckFile(p) => Action::CheckFile(p@),
            Action::Open(p) => Action::Open(p@),
            Action::Initialize => Action::Initialize,
            Action::Stage { source, staged } => Action::Stage {
                source: source@,
                staged: staged@,
            },
            Action::ScheduleDelete(p) => Action::ScheduleDelete(p@),
            Action::Settle => Action::Settle,
            Action::Finished(r) => Action::Finished(*r),
            Action::Ignored => Action::Ignored,
        }
    }
}

impl View for After<String> {
    type V = After<Seq<char>>;

    open spec fn view(&self) -> After<Seq<char>> {
        match self {
            After::Finish => After::Finish,
            After::Load { path, reload } => After::Load { path: path@, reload: *reload },
        }
    }
}

impl View for Phase<String> {
    type V = Phase<Seq<char>>;

    open spec fn view(&self) -> Phase<Seq<char>> {
        match self {
            Phase::Idle => Phase::Idle,
            Phase::CleaningUp(a) => Phase::CleaningUp(a@),
            Phase::Releasing(a) => Phase::Releasing(a@),
            Phase::Checking { path, reload } => Phase::Checking { path: path@, reload: *reload },
            Phase::Opening { path, reload } => Phase::Opening { path: path@, reload: *reload },
            Phase::Initializing { path, reload } => Phase::Initializing {
                path: path@,
                reload: *reload,
            },
            Phase::Staging => Phase::Staging,
            Phase::Scheduling(p) => Phase::Scheduling(p@),
            Phase::Settling => Phase::Settling,
        }
    }
}

/// Starts loading `path`: the loaded module, if any, is cleaned up first;
/// otherwise the file is checked at once.
pub open spec fn begin_load(loaded: Option<Seq<char>>, path: Seq<char>, reload: bool) -> (
    ManagerView,
    Action<Seq<char>>,
) {
    match loaded {
        Some(_) => (
            ManagerView { phase: Phase::CleaningUp(After::Load { path, reload }), loaded },
            Action::Cleanup,
        ),
        None => (
            ManagerView { phase: Phase::Checking { path, reload }, loaded: None },
            Action::CheckFile(path),
        ),
    }
}

/// No operation in flight, with `loaded` in the slot.
pub open spec fn idle(loaded: Option<Seq<char>>) -> ManagerView {
    ManagerView { phase: Phase::Idle, loaded }
}

/// The manager's transition: from a state and an event, the next state and
/// the action asked of the caller.
pub open spec fn next(m: ManagerView, e: Event<Seq<char>>) -> (ManagerView, Action<Seq<char>>) {
    match (m.phase, e) {
        (Phase::Idle, Event::Begin(Request::Load(p))) => begin_load(m.loaded, p, false),
        (Phase::Idle, Event::Begin(Request::Unload)) => match m.loaded {
            Some(_) => (
                ManagerView { phase: Phase::CleaningUp(After::Finish), loaded: m.loaded },
                Action::Cleanup,
            ),
            None => (m, Action::Finished(Ok(()))),
        },
        (Phase::Idle, Event::Begin(Request::Reload { source, timestamp })) => match file_name_of(
            source,
        ) {
            Some(f) => (
                ManagerView { phase: Phase::Staging, loaded: m.loaded },
                Action::Stage { source, staged: staged_name(timestamp as nat, f) },
            ),
            None => (m, Action::Finished(Err(LifecycleError::InvalidFileName))),
        },
        (Phase::CleaningUp(a), Event::Done) => (
            ManagerView { phase: Phase::Releasing(a), loaded: m.loaded },
            Action::Release,
        ),
        (Phase::Releasing(After::Finish), Event::Done) => (idle(None), Action::Finished(Ok(()))),
        (Phase::Releasing(After::Load { path, reload }), Event::Done) => (
            ManagerView { phase: Phase::Checking { path, reload }, loaded: None },
            Action::CheckFile(path),
        ),
        (Phase::Checking { path, reload }, Event::FileChecked(exists)) => if exists {
            (ManagerView { phase: Phase::Opening { path, reload }, loaded: m.loaded }, Action::Open(path))
        } else {
            (idle(m.loaded), Action::Finished(Err(LifecycleError::FileNotFound)))
        },
        (Phase::Opening { path, reload }, Event::Opened(opened)) => if opened {
            (
                ManagerView { phase: Phase::Initializing { path, reload }, loaded: m.loaded },
                Action::Initialize,
            )
        } else {
            (idle(m.loaded), Action::Finished(Err(LifecycleError::OpenFailed)))
        },
        (Phase::Initializing { path, reload }, Event::Done) => if reload {
            (ManagerView { phase: Phase::Settling, loaded: Some(path) }, Action::Settle)
        } else {
            (idle(Some(path)), Action::Finished(Ok(())))
        },
        (Phase::Staging, Event::Staged(staged)) => match staged {
            Some(p) => (
                ManagerView { phase: Phase::Scheduling(p), loaded: m.loaded },
                Action::ScheduleDelete(p),
            ),
            None => (idle(m.loaded), Action::Finished(Err(LifecycleError::CopyFailed))),
        },
        (Phase::Scheduling(p), Event::Done) => begin_load(m.loaded, p, true),
        (Phase::Settling, Event::Done) => (idle(m.loaded), Action::Finished(Ok(()))),
        _ => (m, Action::Ignored),
    }
}

/// The state and the actions that a sequence of events leads to.
pub open spec fn run(m: ManagerView, events: Seq<Event<Seq<char>>>) -> (
    ManagerView,
    Seq<Action<Seq<char>>>,
)
    decreases events.len(),
{
    if events.len() == 0 {
        (m, Seq::empty())
    } else {
        let (m1, a) = next(m, events[0]);
        let (m2, rest) = run(m1, events.drop_first());
        (m2, seq![a] + rest)
    }
}

/// The states the manager can be in: the slot is full while the old module is
/// being cleaned up and released and after a reload's load, and empty while a
/// new module is being checked, opened and initialized.
pub open spec fn wf(m: ManagerView) -> bool {
    match m.phase {
        Phase::CleaningUp(_) | Phase::Releasing(_) | Phase::Settling => m.loaded is Some,
        Phase::Checking { .. } | Phase::Opening { .. } | Phase::Initializing { .. } => m.loaded
            is None,
        _ => true,
    }
}

/// How many modules the process holds open in state `m`: the loaded one, or
/// the one being initialized.
pub open spec fn open_modules(m: ManagerView) -> nat {
    match m.phase {
        Phase::Checking { .. } | Phase::Opening { .. } => 0,
        Phase::Initializing { .. } => 1,
        _ => if m.loaded is Some {
            1
        } else {
            0
        },
    }
}

/// At most one module is loaded at any instant: from a well-formed state every
/// event leads to a well-formed state with at most one open module, and a
/// module is only opened when none is open.
pub proof fn lemma_at_most_one_open(m: ManagerView, e: Event<Seq<char>>)
    requires
        wf(m),
    ensures
        wf(next(m, e).0),
        open_modules(next(m, e).0) <= 1,
        next(m, e).1 is Open ==> open_modules(m) == 0 && m.loaded is None,
{
}

/// Any sequence of events, from a well-formed state, keeps at most one module
/// open.
pub proof fn lemma_run_at_most_one_open(m: ManagerView, events: Seq<Event<Seq<char>>>)
    requires
        wf(m),
    ensures
        wf(run(m, events).0),
        open_modules(run(m, events).0) <= 1,
    decreases events.len(),
{
    if events.len() > 0 {
        lemma_at_most_one_open(m, events[0]);
        lemma_run_at_most_one_open(next(m, events[0]).0, events.drop_first());
    } else {
        lemma_at_most_one_open(m, Event::Done);
    }
}

/// Unloading an unloaded manager changes nothing and succeeds.
pub proof fn lemma_unload_when_unloaded()
    ensures
        next(idle(None), Event::Begin(Request::Unload)) == (idle(None), Action::<Seq<char>>::Finished(
            Ok(()),
        )),
{
}

/// Loading a valid module twice in a row: each load initializes the module
/// once, and the second load cleans up and releases the first copy exactly
/// once, before it opens the file again.
pub proof fn lemma_load_twice(p: Seq<char>)
    ensures
        run(
            idle(None),
            seq![
                Event::Begin(Request::Load(p)),
                Event::FileChecked(true),
                Event::Opened(true),
                Event::Done,
            ],
        ) == (
            idle(Some(p)),
            seq![
                Action::CheckFile(p),
                Action::Open(p),
                Action::Initialize,
                Action::Finished(Ok(())),
            ],
        ),
        run(
            idle(Some(p)),
            seq![
                Event::Begin(Request::Load(p)),
                Event::Done,
                Event::Done,
                Event::FileChecked(true),
                Event::Opened(true),
                Event::Done,
            ],
        ) == (
            idle(Some(p)),
            seq![
                Action::Cleanup,
                Action::Release,
                Action::CheckFile(p),
                Action::Open(p),
                Action::Initialize,
                Action::Finished(Ok(())),
            ],
        ),
{
    reveal_with_fuel(run, 7);
    let first = seq![
        Event::Begin(Request::Load(p)),
        Event::FileChecked(true),
        Event::Opened(true),
        Event::Done,
    ];
    assert(run(idle(None), first).1 =~= seq![
        Action::CheckFile(p),
        Action::Open(p),
        Action::Initialize,
        Action::Finished(Ok(())),
    ]);
    let second = seq![
        Event::Begin(Request::Load(p)),
        Event::Done,
        Event::Done,
        Event::FileChecked(true),
        Event::Opened(true),
        Event::Done,
    ];
    assert(run(idle(Some(p)), second).1 =~= seq![
        Action::Cleanup,
        Action::Release,
        Action::CheckFile(p),
        Action::Open(p),
        Action::Initialize,
        Action::Finished(Ok(())),
    ]);
}

/// Two reloads in a row from an empty slot: the first copy is initialized
/// once, then cleaned up and released once before the second copy is opened
/// and initialized once; the second copy is the one module left loaded.
pub proof fn lemma_reload_twice(
    s1: Seq<char>,
    t1: u64,
    c1: Seq<char>,
    s2: Seq<char>,
    t2: u64,
    c2: Seq<char>,
)
    requires
        file_name_of(s1) is Some,
        file_name_of(s2) is Some,
    ensures
        run(
            idle(None),
            seq![
                Event::Begin(Request::Reload { source: s1, timestamp: t1 }),
                Event::Staged(Some(c1)),
                Event::Done,
                Event::FileChecked(true),
                Event::Opened(true),
                Event::Done,
                Event::Done,
            ],
        ) == (
            idle(Some(c1)),
            seq![
                Action::Stage { source: s1, staged: staged_name(t1 as nat, file_name_of(s1)->0) },
                Action::ScheduleDelete(c1),
                Action::CheckFile(c1),
                Action::Open(c1),
                Action::Initialize,
                Action::Settle,
                Action::Finished(Ok(())),
            ],
        ),
        run(
            idle(Some(c1)),
            seq![
                Event::Begin(Request::Reload { source: s2, timestamp: t2 }),
                Event::Staged(Some(c2)),
                Event::Done,
                Event::Done,
                Event::Done,
                Event::FileChecked(true),
                Event::Opened(true),
                Event::Done,
                Event::Done,
            ],
        ) == (
            idle(Some(c2)),
            seq![
                Action::Stage { source: s2, staged: staged_name(t2 as nat, file_name_of(s2)->0) },
                Action::ScheduleDelete(c2),
                Action::Cleanup,
                Action::Release,
                Action::CheckFile(c2),
                Action::Open(c2),
                Action::Initialize,
                Action::Settle,
                Action::Finished(Ok(())),
            ],
        ),
{
    reveal_with_fuel(run, 10);
    let first = seq![
        Event::Begin(Request::Reload { source: s1, timestamp: t1 }),
        Event::Staged(Some(c1)),
        Event::Done,
        Event::FileChecked(true),
        Event::Opened(true),
        Event::Done,
        Event::Done,
    ];
    assert(run(idle(None), first).1 =~= seq![
        Action::Stage { source: s1, staged: staged_name(t1 as nat, file_name_of(s1)->0) },
        Action::ScheduleDelete(c1),
        Action::CheckFile(c1),
        Action::Open(c1),
        Action::Initialize,
        Action::Settle,
        Action::Finished(Ok(())),
    ]);
    let second = seq![
        Event::Begin(Request::Reload { source: s2, timestamp: t2 }),
        Event::Staged(Some(c2)),
        Event::Done,
        Event::Done,
        Event::Done,
        Event::FileChecked(true),
        Event::Opened(true),
        Event::Done,
        Event::Done,
    ];
    assert(run(idle(Some(c1)), second).1 =~= seq![
        Action::Stage { source: s2, staged: staged_name(t2 as nat, file_name_of(s2)->0) },
        Action::ScheduleDelete(c2),
        Action::Cleanup,
        Action::Release,
        Action::CheckFile(c2),
        Action::Open(c2),
        Action::Initialize,
        Action::Settle,
        Action::Finished(Ok(())),
    ]);
}

/// Operations never interleave: a request that arrives while another is in
/// flight is ignored and changes nothing.
pub proof fn lemma_one_operation_at_a_time(m: ManagerView, r: Request<Seq<char>>)
    requires
        !(m.phase is Idle),
    ensures
        next(m, Event::Begin(r)) == (m, Action::<Seq<char>>::Ignored),
{
}

/// Every staged copy is handed over for deferred deletion as soon as it exists,
/// before the module is loaded from it; the slot is untouched meanwhile.
pub proof fn lemma_staged_copy_scheduled_for_deletion(m: ManagerView, p: Seq<char>)
    requires
        m.phase is Staging,
    ensures
        next(m, Event::Staged(Some(p))) == (
            ManagerView { phase: Phase::Scheduling(p), loaded: m.loaded },
            Action::ScheduleDelete(p),
        ),
        next(next(m, Event::Staged(Some(p))).0, Event::Done) == begin_load(m.loaded, p, true),
{
}

/// A reload whose copy fails leaves the slot as it was: the loaded module, if
/// any, stays loaded and is neither cleaned up nor released.
pub proof fn lemma_failed_copy_keeps_module(
    loaded: Option<Seq<char>>,
    source: Seq<char>,
    timestamp: u64,
)
    ensures
        file_name_of(source) is None ==> next(
            idle(loaded),
            Event::Begin(Request::Reload { source, timestamp }),
        ) == (idle(loaded), Action::<Seq<char>>::Finished(Err(LifecycleError::InvalidFileName))),
        file_name_of(source) is Some ==> run(
            idle(loaded),
            seq![Event::Begin(Request::Reload { source, timestamp }), Event::Staged(None)],
        ) == (
            idle(loaded),
            seq![
                Action::Stage {
                    source,
                    staged: staged_name(timestamp as nat, file_name_of(source)->0),
                },
                Action::Finished(Err(LifecycleError::CopyFailed)),
            ],
        ),
{
    reveal_with_fuel(run, 3);
    if file_name_of(source) is None {
        return;
    }
    let events = seq![Event::Begin(Request::Reload { source, timestamp }), Event::Staged(None)];
    assert(run(idle(loaded), events).1 =~= seq![
        Action::Stage { source, staged: staged_name(timestamp as nat, file_name_of(source)->0) },
        Action::Finished(Err(LifecycleError::CopyFailed)),
    ]);
}

/// Owns the single module slot of the process and decides, one event at a
/// time, how a load, an unload or a reload proceeds. The caller holds the
/// manager under one exclusive lock for a whole operation and carries out the
/// actions it asks for.
pub struct ModuleLifecycleManager {
    phase: Phase<String>,
    loaded: Option<String>,
}

impl View for ModuleLifecycleManager {
    type V = ManagerView;

    closed spec fn view(&self) -> ManagerView {
        ManagerView { phase: self.phase@, loaded: opt_view(self.loaded) }
    }
}

impl ModuleLifecycleManager {
    /// A manager with nothing loaded and no operation in flight.
    pub fn new() -> (r: ModuleLifecycleManager)
        ensures
            r@ == idle(None),
            wf(r@),
    {
        ModuleLifecycleManager { phase: Phase::Idle, loaded: None }
    }

    /// Whether a module is loaded.
    pub fn is_loaded(&self) -> (r: bool)
        ensures
            r == (self@.loaded is Some),
    {
        self.loaded.is_some()
    }

    /// The path the loaded module was opened from.
    pub fn loaded_path(&self) -> (r: Option<String>)
        ensures
            opt_view(r) == self@.loaded,
    {
        match &self.loaded {
            Some(p) => Some(p.clone()),
            None => None,
        }
    }

    /// Whether no operation is in flight.
    pub fn is_idle(&self) -> (r: bool)
        ensures
            r == (self@.phase is Idle),
    {
        match self.phase {
            Phase::Idle => true,
            _ => false,
        }
    }

    fn begin_load_exec(&mut self, path: String, reload: bool) -> (r: Action<String>)
        ensures
            (final(self)@, r@) == begin_load(old(self)@.loaded, path@, reload),
    {
        if self.loaded.is_some() {
            self.phase = Phase::CleaningUp(After::Load { path, reload });
            Action::Cleanup
        } else {
            self.phase = Phase::Checking { path: path.clone(), reload };
            Action::CheckFile(path)
        }
    }

    /// Takes one event and returns the next action, as `next` says.
    pub fn step(&mut self, event: Event<String>) -> (r: Action<String>)
        ensures
            (final(self)@, r@) == next(old(self)@, event@),
    {
        let mut phase = Phase::Idle;
        std::mem::swap(&mut self.phase, &mut phase);
        match phase {
            Phase::Idle => match event {
                Event::Begin(Request::Load(p)) => self.begin_load_exec(p, false),
                Event::Begin(Request::Unload) => {
                    if self.loaded.is_some() {
                        self.phase = Phase::CleaningUp(After::Finish);
                        Action::Cleanup
                    } else {
                        Action::Finished(Ok(()))
                    }
                },
                Event::Begin(Request::Reload { source, timestamp }) => {
                    match path_file_name(source.as_str()) {
                        Some(f) => {
                            let staged = staged_file_name(timestamp, f.as_str());
                            self.phase = Phase::Staging;
                            Action::Stage { source, staged }
                        },
                        None => Action::Finished(Err(LifecycleError::InvalidFileName)),
                    }
                },
                _ => Action::Ignored,
            },
            Phase::CleaningUp(a) => match event {
                Event::Done => {
                    self.phase = Phase::Releasing(a);
                    Action::Release
                },
                _ => {
                    self.phase = Phase::CleaningUp(a);
                    Action::Ignored
                },
            },
            Phase::Releasing(a) => match event {
                Event::Done => {
                    self.loaded = None;
                    match a {
                        After::Finish => Action::Finished(Ok(())),
                        After::Load { path, reload } => {
                            self.phase = Phase::Checking { path: path.clone(), reload };
                            Action::CheckFile(path)
                        },
                    }
                },
                _ => {
                    self.phase = Phase::Releasing(a);
                    Action::Ignored
                },
            },
            Phase::Checking { path, reload } => match event {
                Event::FileChecked(exists) => {
                    if exists {
                        self.phase = Phase::Opening { path: path.clone(), reload };
                        Action::Open(path)
                    } else {
                        Action::Finished(Err(LifecycleError::FileNotFound))
                    }
                },
                _ => {
                    self.phase = Phase::Checking { path, reload };
                    Action::Ignored
                },
            },
            Phase::Opening { path, reload } => match event {
                Event::Opened(opened) => {
                    if opened {
                        self.phase = Phase::Initializing { path, reload };
                        Action::Initialize
                    } else {
                        Action::Finished(Err(LifecycleError::OpenFailed))
                    }
                },
                _ => {
                    self.phase = Phase::Opening { path, reload };
                    Action::Ignored
                },
            },
            Phase::Initializing { path, reload } => match event {
                Event::Done => {
                    self.loaded = Some(path);
                    if reload {
                        self.phase = Phase::Settling;
                        Action::Settle
                    } else {
                        Action::Finished(Ok(()))
                    }
                },
                _ => {
                    self.phase = Phase::Initializing { path, reload };
                    Action::Ignored
                },
            },
            Phase::Staging => match event {
                Event::Staged(staged) => match staged {
                    Some(p) => {
                        self.phase = Phase::Scheduling(p.clone());
                        Action::ScheduleDelete(p)
                    },
                    None => Action::Finished(Err(LifecycleError::CopyFailed)),
                },
                _ => {
                    self.phase = Phase::Staging;
                    Action::Ignored
                },
            },
            Phase::Scheduling(p) => match event {
                Event::Done => self.begin_load_exec(p, true),
                _ => {
                    self.phase = Phase::Scheduling(p);
                    Action::Ignored
                },
            },
            Phase::Settling => match event {
                Event::Done => Action::Finished(Ok(())),
                _ => {
                    self.phase = Phase::Settling;
                    Action::Ignored
                },
            },
        }
    }
}

} // verus!
