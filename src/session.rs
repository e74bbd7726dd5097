use vstd::prelude::*;
use crate::layout::{
    chart_state_file, chart_state_location, drawings_dir, drawings_segments, segments_view,
    sticky_notes_dir, sticky_notes_file, sticky_notes_location, sticky_notes_segments, Location,
    LocationModel,
};

verus! {

/// A command of the store, as the front end issues it. The notes themselves
/// of `SaveStickyNotes` stay with the caller, who encodes them on request.
pub enum Request {
    SaveChartState { source_id: String, state: String },
    SaveStickyNotes,
    LoadStickyNotes,
}

pub enum RequestModel {
    SaveChartState { source_id: Seq<char>, state: Seq<char> },
    SaveStickyNotes,
    LoadStickyNotes,
}

impl View for Request {
    type V = RequestModel;

    open spec fn view(&self) -> RequestModel {
        match self {
            Request::SaveChartState { source_id, state } => RequestModel::SaveChartState {
                source_id: source_id@,
                state: state@,
            },
            Request::SaveStickyNotes => RequestModel::SaveStickyNotes,
            Request::LoadStickyNotes => RequestModel::LoadStickyNotes,
        }
    }
}

/// How far a command has got: each stage waits for the outcome of one action.
pub enum Session {
    ResolvingRoot(Request),
    CheckingDir(Request),
    CreatingDir(Request),
    Encoding,
    Writing,
    CheckingFile,
    Reading,
    Finished,
}

pub enum SessionModel {
    ResolvingRoot(RequestModel),
    CheckingDir(RequestModel),
    CreatingDir(RequestModel),
    Encoding,
    Writing,
    CheckingFile,
    Reading,
    Finished,
}

impl View for Session {
    type V = SessionModel;

    open spec fn view(&self) -> SessionModel {
        match self {
            Session::ResolvingRoot(r) => SessionModel::ResolvingRoot(r@),
            Session::CheckingDir(r) => SessionModel::CheckingDir(r@),
            Session::CreatingDir(r) => SessionModel::CreatingDir(r@),
            Session::Encoding => SessionModel::Encoding,
            Session::Writing => SessionModel::Writing,
            Session::CheckingFile => SessionModel::CheckingFile,
            Session::Reading => SessionModel::Reading,
            Session::Finished => SessionModel::Finished,
        }
    }
}

/// The outcome of an action, as the caller reports it; errors are the
/// host's messages.
pub enum Event {
    RootResolved(Result<(), String>),
    DirExists(bool),
    DirCreated(Result<(), String>),
    Encoded(Result<String, String>),
    Written(Result<(), String>),
    FileExists(bool),
    FileRead(Result<String, String>),
}

pub enum EventModel {
    RootResolved(Result<(), Seq<char>>),
    DirExists(bool),
    DirCreated(Result<(), Seq<char>>),
    Encoded(Result<Seq<char>, Seq<char>>),
    Written(Result<(), Seq<char>>),
    FileExists(bool),
    FileRead(Result<Seq<char>, Seq<char>>),
}

pub open spec fn unit_view(r: Result<(), String>) -> Result<(), Seq<char>> {
    match r {
        Ok(()) => Ok(()),
        Err(m) => Err(m@),
    }
}

pub open spec fn text_view(r: Result<String, String>) -> Result<Seq<char>, Seq<char>> {
    match r {
        Ok(t) => Ok(t@),
        Err(m) => Err(m@),
    }
}

impl View for Event {
    type V = EventModel;

    open spec fn view(&self) -> EventModel {
        match self {
            Event::RootResolved(r) => EventModel::RootResolved(unit_view(*r)),
            Event::DirExists(b) => EventModel::DirExists(*b),
            Event::DirCreated(r) => EventModel::DirCreated(unit_view(*r)),
            Event::Encoded(r) => EventModel::Encoded(text_view(*r)),
            Event::Written(r) => EventModel::Written(unit_view(*r)),
            Event::FileExists(b) => EventModel::FileExists(*b),
            Event::FileRead(r) => EventModel::FileRead(text_view(*r)),
        }
    }
}

/// What the caller is to do next. Directories and files are relative to the
/// per-user application-data directory. The last five end the command.
pub enum Action {
    /// Find the application-data directory.
    ResolveRoot,
    /// Tell whether the directory exists.
    CheckDir(Vec<String>),
    /// Create the directory and its missing parents.
    CreateDir(Vec<String>),
    /// Encode the notes to save as pretty-printed JSON.
    EncodeNotes,
    /// Write the text to the file, replacing all it held.
    WriteFile(Location, String),
    /// Tell whether the file exists.
    CheckFile(Location),
    /// Read the whole file as UTF-8 text.
    ReadFile(Location),
    /// Answer with the notes that this JSON text holds.
    DecodeNotes(String),
    /// Answer with no notes.
    ReturnEmpty,
    /// Answer with success.
    Succeed,
    /// Answer with this error message.
    Fail(String),
}

pub enum ActionModel {
    ResolveRoot,
    CheckDir(Seq<Seq<char>>),
    CreateDir(Seq<Seq<char>>),
    EncodeNotes,
    WriteFile(LocationModel, Seq<char>),
    CheckFile(LocationModel),
    ReadFile(LocationModel),
    DecodeNotes(Seq<char>),
    ReturnEmpty,
    Succeed,
    Fail(Seq<char>),
}

impl View for Action {
    type V = ActionModel;

    open spec fn view(&self) -> ActionModel {
        match self {
            Action::ResolveRoot => ActionModel::ResolveRoot,
            Action::CheckDir(d) => ActionModel::CheckDir(segments_view(d@)),
            Action::CreateDir(d) => ActionModel::CreateDir(segments_view(d@)),
            Action::EncodeNotes => ActionModel::EncodeNotes,
            Action::WriteFile(l, t) => ActionModel::WriteFile(l@, t@),
            Action::CheckFile(l) => ActionModel::CheckFile(l@),
            Action::ReadFile(l) => ActionModel::ReadFile(l@),
            Action::DecodeNotes(t) => ActionModel::DecodeNotes(t@),
            Action::ReturnEmpty => ActionModel::ReturnEmpty,
            Action::Succeed => ActionModel::Succeed,
            Action::Fail(m) => ActionModel::Fail(m@),
        }
    }
}

/// The directory that a saving command writes into.
pub open spec fn target_dir(r: RequestModel) -> Seq<Seq<char>> {
    match r {
        RequestModel::SaveChartState { .. } => drawings_dir(),
        _ => sticky_notes_dir(),
    }
}

/// The request that a session still carries.
pub open spec fn pending_request(s: SessionModel) -> RequestModel {
    match s {
        SessionModel::ResolvingRoot(r) => r,
        SessionModel::CheckingDir(r) => r,
        SessionModel::CreatingDir(r) => r,
        _ => RequestModel::LoadStickyNotes,
    }
}

/// The first step of a command.
pub open spec fn initial(r: RequestModel) -> (SessionModel, ActionModel) {
    (SessionModel::ResolvingRoot(r), ActionModel::ResolveRoot)
}

/// Once the data root is known: a load looks for the notes file; a save
/// looks for its directory.
pub open spec fn after_root(r: RequestModel) -> (SessionModel, ActionModel) {
    match r {
        RequestModel::LoadStickyNotes => (
            SessionModel::CheckingFile,
            ActionModel::CheckFile(sticky_notes_location()),
        ),
        _ => (SessionModel::CheckingDir(r), ActionModel::CheckDir(target_dir(r))),
    }
}

/// Once a save's directory exists: a chart state is written as it came;
/// notes are first encoded.
pub open spec fn after_dir(r: RequestModel) -> (SessionModel, ActionModel) {
    match r {
        RequestModel::SaveChartState { source_id, state } => (
            SessionModel::Writing,
            ActionModel::WriteFile(chart_state_location(source_id), state),
        ),
        _ => (SessionModel::Encoding, ActionModel::EncodeNotes),
    }
}

/// Whether `e` is the outcome of the action that session `s` waits for.
pub open spec fn expects(s: SessionModel, e: EventModel) -> bool {
    match s {
        SessionModel::ResolvingRoot(_) => e is RootResolved,
        SessionModel::CheckingDir(r) => e is DirExists && !(r is LoadStickyNotes),
        SessionModel::CreatingDir(r) => e is DirCreated && !(r is LoadStickyNotes),
        SessionModel::Encoding => e is Encoded,
        SessionModel::Writing => e is Written,
        SessionModel::CheckingFile => e is FileExists,
        SessionModel::Reading => e is FileRead,
        SessionModel::Finished => false,
    }
}

/// The next session and action once `e` came in. Any failure ends the
/// command with the host's message; nothing is retried or rolled back.
pub open spec fn transition(s: SessionModel, e: EventModel) -> (SessionModel, ActionModel) {
    let r = pending_request(s);
    match e {
        EventModel::RootResolved(Err(m)) => (SessionModel::Finished, ActionModel::Fail(m)),
        EventModel::RootResolved(Ok(())) => after_root(r),
        EventModel::DirExists(true) => after_dir(r),
        EventModel::DirExists(false) => (
            SessionModel::CreatingDir(r),
            ActionModel::CreateDir(target_dir(r)),
        ),
        EventModel::DirCreated(Err(m)) => (SessionModel::Finished, ActionModel::Fail(m)),
        EventModel::DirCreated(Ok(())) => after_dir(r),
        EventModel::Encoded(Err(m)) => (SessionModel::Finished, ActionModel::Fail(m)),
        EventModel::Encoded(Ok(t)) => (
            SessionModel::Writing,
            ActionModel::WriteFile(sticky_notes_location(), t),
        ),
        EventModel::Written(Err(m)) => (SessionModel::Finished, ActionModel::Fail(m)),
        EventModel::Written(Ok(())) => (SessionModel::Finished, ActionModel::Succeed),
        EventModel::FileExists(false) => (SessionModel::Finished, ActionModel::ReturnEmpty),
        EventModel::FileExists(true) => (
            SessionModel::Reading,
            ActionModel::ReadFile(sticky_notes_location()),
        ),
        EventModel::FileRead(Err(m)) => (SessionModel::Finished, ActionModel::Fail(m)),
        EventModel::FileRead(Ok(t)) => (SessionModel::Finished, ActionModel::DecodeNotes(t)),
    }
}

/// Feeds `events` to a session one by one: the session reached, and the
/// actions asked for on the way.
pub open spec fn run(s: SessionModel, events: Seq<EventModel>) -> (SessionModel, Seq<ActionModel>)
    decreases events.len(),
{
    if events.len() == 0 {
        (s, Seq::empty())
    } else {
        let (next, a) = transition(s, events[0]);
        let (last, rest) = run(next, events.drop_first());
        (last, seq![a] + rest)
    }
}

/// Whether each of `events` is an outcome the session waits for when it comes.
pub open spec fn accepted(s: SessionModel, events: Seq<EventModel>) -> bool
    decreases events.len(),
{
    events.len() == 0 || (expects(s, events[0]) && accepted(
        transition(s, events[0]).0,
        events.drop_first(),
    ))
}

/// The outcomes up to the point where a save's directory is ready, each a
/// success; `dir_exists` tells whether it was there before.
pub open spec fn dir_ready_events(dir_exists: bool) -> Seq<EventModel> {
    if dir_exists {
        seq![EventModel::RootResolved(Ok(())), EventModel::DirExists(true)]
    } else {
        seq![
            EventModel::RootResolved(Ok(())),
            EventModel::DirExists(false),
            EventModel::DirCreated(Ok(())),
        ]
    }
}

pub open spec fn chart_request(source_id: Seq<char>, state: Seq<char>) -> RequestModel {
    RequestModel::SaveChartState { source_id, state }
}

/// A chart state is written whole, as it came, to the one file of its
/// identifier: two saves under the same identifier, whatever the directory
/// held before each, write to the same file, each with its own state, and
/// succeed once written.
pub proof fn lemma_chart_saves_share_one_file(
    source_id: Seq<char>,
    first: Seq<char>,
    second: Seq<char>,
    first_dir_exists: bool,
    second_dir_exists: bool,
)
    ensures
        ({
            let s1 = initial(chart_request(source_id, first)).0;
            let s2 = initial(chart_request(source_id, second)).0;
            let e1 = dir_ready_events(first_dir_exists).push(EventModel::Written(Ok(())));
            let e2 = dir_ready_events(second_dir_exists).push(EventModel::Written(Ok(())));
            let (f1, a1) = run(s1, e1);
            let (f2, a2) = run(s2, e2);
            &&& accepted(s1, e1)
            &&& accepted(s2, e2)
            &&& a1[a1.len() - 2] == ActionModel::WriteFile(chart_state_location(source_id), first)
            &&& a2[a2.len() - 2] == ActionModel::WriteFile(chart_state_location(source_id), second)
            &&& a2.last() == ActionModel::Succeed
            &&& f2 is Finished
        }),
{
    reveal_with_fuel(run, 5);
    reveal_with_fuel(accepted, 5);
}

/// Loading before any notes were saved answers with no notes, not an
/// error: once the data root is found, a missing notes file ends the load.
pub proof fn lemma_load_without_file_is_empty()
    ensures
        ({
            let s = initial(RequestModel::LoadStickyNotes).0;
            let e = seq![EventModel::RootResolved(Ok(())), EventModel::FileExists(false)];
            let (f, a) = run(s, e);
            &&& accepted(s, e)
            &&& a == seq![ActionModel::CheckFile(sticky_notes_location()), ActionModel::ReturnEmpty]
            &&& f is Finished
        }),
{
    reveal_with_fuel(run, 3);
    reveal_with_fuel(accepted, 3);
    let s = initial(RequestModel::LoadStickyNotes).0;
    let e = seq![EventModel::RootResolved(Ok(())), EventModel::FileExists(false)];
    assert(e.drop_first().drop_first() =~= Seq::<EventModel>::empty());
    assert(run(s, e).1 =~= seq![ActionModel::CheckFile(sticky_notes_location()), ActionModel::ReturnEmpty]);
}

/// Saved notes are read back from where they were written: the encoded
/// text of a save goes, unchanged, to the notes file, and a load reads that
/// same file and hands the text it read, unchanged, to decoding.
pub proof fn lemma_notes_read_back_where_written(text: Seq<char>, dir_exists: bool)
    ensures
        ({
            let s = initial(RequestModel::SaveStickyNotes).0;
            let e = dir_ready_events(dir_exists).push(EventModel::Encoded(Ok(text)));
            let l = initial(RequestModel::LoadStickyNotes).0;
            let le = seq![
                EventModel::RootResolved(Ok(())),
                EventModel::FileExists(true),
                EventModel::FileRead(Ok(text)),
            ];
            let (_, a) = run(s, e);
            let (lf, la) = run(l, le);
            &&& accepted(s, e)
            &&& accepted(l, le)
            &&& a.last() == ActionModel::WriteFile(sticky_notes_location(), text)
            &&& la == seq![
                ActionModel::CheckFile(sticky_notes_location()),
                ActionModel::ReadFile(sticky_notes_location()),
                ActionModel::DecodeNotes(text),
            ]
            &&& lf is Finished
        }),
{
    reveal_with_fuel(run, 5);
    reveal_with_fuel(accepted, 5);
    let l = initial(RequestModel::LoadStickyNotes).0;
    let le = seq![
        EventModel::RootResolved(Ok(())),
        EventModel::FileExists(true),
        EventModel::FileRead(Ok(text)),
    ];
    assert(le.drop_first().drop_first().drop_first() =~= Seq::<EventModel>::empty());
    assert(run(l, le).1 =~= seq![
        ActionModel::CheckFile(sticky_notes_location()),
        ActionModel::ReadFile(sticky_notes_location()),
        ActionModel::DecodeNotes(text),
    ]);
}

fn target_segments(r: &Request) -> (d: Vec<String>)
    ensures
        segments_view(d@) == target_dir(r@),
{
    match r {
        Request::SaveChartState { .. } => drawings_segments(),
        _ => sticky_notes_segments(),
    }
}

fn after_root_exec(r: Request) -> (o: (Session, Action))
    ensures
        (o.0@, o.1@) == after_root(r@),
{
    match r {
        Request::LoadStickyNotes => (Session::CheckingFile, Action::CheckFile(sticky_notes_file())),
        _ => {
            let d = target_segments(&r);
            (Session::CheckingDir(r), Action::CheckDir(d))
        },
    }
}

fn after_dir_exec(r: Request) -> (o: (Session, Action))
    ensures
        (o.0@, o.1@) == after_dir(r@),
{
    match r {
        Request::SaveChartState { source_id, state } => {
            let l = chart_state_file(source_id.as_str());
            (Session::Writing, Action::WriteFile(l, state))
        },
        _ => (Session::Encoding, Action::EncodeNotes),
    }
}

impl Session {
    /// Begins `request`: the first thing to do is find the data root.
    pub fn start(request: Request) -> (o: (Session, Action))
        ensures
            (o.0@, o.1@) == initial(request@),
    {
        (Session::ResolvingRoot(request), Action::ResolveRoot)
    }

    /// Whether the command has given its answer.
    pub fn is_finished(&self) -> (r: bool)
        ensures
            r == (self@ is Finished),
    {
        match self {
            Session::Finished => true,
            _ => false,
        }
    }

    /// Whether `e` is an outcome of the action this session waits for.
    pub fn expects_event(&self, e: &Event) -> (r: bool)
        ensures
            r == expects(self@, e@),
    {
        match self {
            Session::ResolvingRoot(_) => matches!(e, Event::RootResolved(_)),
            Session::CheckingDir(r) => matches!(e, Event::DirExists(_)) && !matches!(
                r,
                Request::LoadStickyNotes
            ),
            Session::CreatingDir(r) => matches!(e, Event::DirCreated(_)) && !matches!(
                r,
                Request::LoadStickyNotes
            ),
            Session::Encoding => matches!(e, Event::Encoded(_)),
            Session::Writing => matches!(e, Event::Written(_)),
            Session::CheckingFile => matches!(e, Event::FileExists(_)),
            Session::Reading => matches!(e, Event::FileRead(_)),
            Session::Finished => false,
        }
    }

    /// Takes in the outcome of the last action and says what to do next.
    pub fn step(self, e: Event) -> (o: (Session, Action))
        requires
            expects(self@, e@),
        ensures
            (o.0@, o.1@) == transition(self@, e@),
    {
        match e {
            Event::RootResolved(Err(m)) => (Session::Finished, Action::Fail(m)),
            Event::DirCreated(Err(m)) => (Session::Finished, Action::Fail(m)),
            Event::Encoded(Err(m)) => (Session::Finished, Action::Fail(m)),
            Event::Written(Err(m)) => (Session::Finished, Action::Fail(m)),
            Event::FileRead(Err(m)) => (Session::Finished, Action::Fail(m)),
            Event::RootResolved(Ok(())) => match self {
                Session::ResolvingRoot(r) => after_root_exec(r),
                _ => (Session::Finished, Action::Succeed),
            },
            Event::DirExists(exists) => match self {
                Session::CheckingDir(r) => {
                    if exists {
                        after_dir_exec(r)
                    } else {
                        let d = target_segments(&r);
                        (Session::CreatingDir(r), Action::CreateDir(d))
                    }
                },
                _ => (Session::Finished, Action::Succeed),
            },
            Event::DirCreated(Ok(())) => match self {
                Session::CreatingDir(r) => after_dir_exec(r),
                _ => (Session::Finished, Action::Succeed),
            },
            Event::Encoded(Ok(t)) => (Session::Writing, Action::WriteFile(sticky_notes_file(), t)),
            Event::Written(Ok(())) => (Session::Finished, Action::Succeed),
            Event::FileExists(exists) => {
                if exists {
                    (Session::Reading, Action::ReadFile(sticky_notes_file()))
                } else {
                    (Session::Finished, Action::ReturnEmpty)
                }
            },
            Event::FileRead(Ok(t)) => (Session::Finished, Action::DecodeNotes(t)),
        }
    }
}

} // verus!
