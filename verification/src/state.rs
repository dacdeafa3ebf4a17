//! The session state store: three independently guarded pieces of advisory
//! session metadata, with a getter and a setter for each.
//!
//! A guard that cannot be acquired never surfaces as a failure. A getter behind
//! such a guard answers with the field's fallback and a setter leaves the field
//! as it was.

use vstd::prelude::*;
use vstd::string::StringExecFns;

verus! {

/// Where the backend listens until a caller says otherwise.
pub const DEFAULT_BACKEND_URL: &'static str = "http://127.0.0.1:8765";

/// One field of session state together with the condition of the guard in
/// front of it.
///
/// A poisoned guard can no longer be acquired: the value behind it is out of
/// reach for readers and writers alike. Nothing in this library poisons a
/// guard; the flag is set by whoever keeps the state behind a lock and finds
/// that lock poisoned.
#[derive(Debug)]
pub struct Guarded<T> {
    pub value: T,
    pub poisoned: bool,
}

impl<T> Guarded<T> {
    /// What a reader obtains: the value, or `fallback` behind a poisoned guard.
    pub open spec fn read(self, fallback: T) -> T {
        if self.poisoned {
            fallback
        } else {
            self.value
        }
    }

    /// The cell after a writer stored `value`: unchanged behind a poisoned
    /// guard.
    pub open spec fn written(self, value: T) -> Self {
        if self.poisoned {
            self
        } else {
            Guarded { value, poisoned: false }
        }
    }

    /// The cell after writers stored `values` one after the other.
    pub open spec fn written_all(self, values: Seq<T>) -> Self
        decreases values.len(),
    {
        if values.len() == 0 {
            self
        } else {
            self.written_all(values.drop_last()).written(values.last())
        }
    }

    /// Puts `value` behind a fresh guard.
    pub fn new(value: T) -> (cell: Self)
        ensures
            cell == (Guarded { value, poisoned: false }),
    {
        Guarded { value, poisoned: false }
    }

    /// Acquires the guard for reading: the value, or nothing when the guard is
    /// poisoned.
    pub fn get(&self) -> (held: Option<&T>)
        ensures
            held == if self.poisoned {
                None
            } else {
                Some(&self.value)
            },
    {
        if self.poisoned {
            None
        } else {
            Some(&self.value)
        }
    }

    /// Acquires the guard for writing and stores `value`. Behind a poisoned
    /// guard the value is dropped and the cell stays as it was.
    pub fn store(&mut self, value: T)
        ensures
            *final(self) == old(self).written(value),
    {
        if !self.poisoned {
            self.value = value;
        }
    }
}

/// The mathematical content of an optional path.
pub open spec fn path_view(path: Option<String>) -> Option<Seq<char>> {
    match path {
        Some(p) => Some(p@),
        None => None,
    }
}

/// The session state as plain mathematical values.
pub struct SessionModel {
    pub backend_url: Guarded<Seq<char>>,
    pub backend_running: Guarded<bool>,
    pub last_project_path: Guarded<Option<Seq<char>>>,
}

impl SessionModel {
    /// The state every session starts from.
    pub open spec fn initial() -> Self {
        SessionModel {
            backend_url: Guarded { value: DEFAULT_BACKEND_URL@, poisoned: false },
            backend_running: Guarded { value: false, poisoned: false },
            last_project_path: Guarded { value: None, poisoned: false },
        }
    }

    /// The backend URL a reader obtains.
    pub open spec fn get_backend_url(self) -> Seq<char> {
        self.backend_url.read(DEFAULT_BACKEND_URL@)
    }

    /// The session after a writer stored the backend URL `url`.
    pub open spec fn set_backend_url(self, url: Seq<char>) -> Self {
        SessionModel { backend_url: self.backend_url.written(url), ..self }
    }

    /// The liveness flag a reader obtains.
    pub open spec fn is_backend_running(self) -> bool {
        self.backend_running.read(false)
    }

    /// The session after a writer stored the liveness flag `running`.
    pub open spec fn set_backend_running(self, running: bool) -> Self {
        SessionModel { backend_running: self.backend_running.written(running), ..self }
    }

    /// The last project path a reader obtains.
    pub open spec fn get_last_project_path(self) -> Option<Seq<char>> {
        self.last_project_path.read(None)
    }

    /// The session after a writer stored the last project path `path`.
    pub open spec fn set_last_project_path(self, path: Option<Seq<char>>) -> Self {
        SessionModel { last_project_path: self.last_project_path.written(path), ..self }
    }
}

/// The session state shared by all commands: the backend's base URL, the last
/// known liveness of the backend, and the path of the last saved project.
///
/// The three fields are independent of one another: each has a guard of its
/// own, and no operation touches more than one field.
#[derive(Debug)]
pub struct AppState {
    pub backend_url: Guarded<String>,
    pub backend_running: Guarded<bool>,
    pub last_project_path: Guarded<Option<String>>,
}

impl View for AppState {
    type V = SessionModel;

    open spec fn view(&self) -> SessionModel {
        SessionModel {
            backend_url: Guarded {
                value: self.backend_url.value@,
                poisoned: self.backend_url.poisoned,
            },
            backend_running: self.backend_running,
            last_project_path: Guarded {
                value: path_view(self.last_project_path.value),
                poisoned: self.last_project_path.poisoned,
            },
        }
    }
}

impl AppState {
    /// The state at application startup: the default backend URL, a backend
    /// not known to run, no project saved yet, and every guard sound.
    pub fn new() -> (state: Self)
        ensures
            state@ == SessionModel::initial(),
    {
        AppState {
            backend_url: Guarded::new(String::from_str(DEFAULT_BACKEND_URL)),
            backend_running: Guarded::new(false),
            last_project_path: Guarded::new(None),
        }
    }

    /// Replaces the backend's base URL. Behind a poisoned guard nothing
    /// changes.
    pub fn set_backend_url(&mut self, url: String)
        ensures
            final(self)@ == old(self)@.set_backend_url(url@),
    {
        self.backend_url.store(url);
    }

    /// The backend's base URL, or the default behind a poisoned guard.
    pub fn get_backend_url(&self) -> (url: String)
        ensures
            url@ == self@.get_backend_url(),
    {
        match self.backend_url.get() {
            Some(url) => url.clone(),
            None => String::from_str(DEFAULT_BACKEND_URL),
        }
    }

    /// Records whether the backend was last seen running. Behind a poisoned
    /// guard nothing changes.
    pub fn set_backend_running(&mut self, running: bool)
        ensures
            final(self)@ == old(self)@.set_backend_running(running),
    {
        self.backend_running.store(running);
    }

    /// Whether the backend was last seen running; `false` behind a poisoned
    /// guard.
    pub fn is_backend_running(&self) -> (running: bool)
        ensures
            running == self@.is_backend_running(),
    {
        match self.backend_running.get() {
            Some(running) => *running,
            None => false,
        }
    }

    /// Replaces the path of the last saved project. Behind a poisoned guard
    /// nothing changes.
    pub fn set_last_project_path(&mut self, path: Option<String>)
        ensures
            final(self)@ == old(self)@.set_last_project_path(path_view(path)),
    {
        self.last_project_path.store(path);
    }

    /// The path of the last saved project; absent while none was saved and
    /// behind a poisoned guard.
    pub fn get_last_project_path(&self) -> (path: Option<String>)
        ensures
            path_view(path) == self@.get_last_project_path(),
    {
        match self.last_project_path.get() {
            Some(Some(path)) => Some(path.clone()),
            _ => None,
        }
    }
}

impl Default for AppState {
    /// The same state as [`AppState::new`].
    fn default() -> (state: Self)
        ensures
            state@ == SessionModel::initial(),
    {
        AppState::new()
    }
}

/// After any run of writes to one cell, a read returns a single one of the
/// written values, whole: the last one. With nothing written it returns the
/// value from before, and behind a poisoned guard always the fallback.
pub proof fn lemma_read_sees_last_write<T>(cell: Guarded<T>, values: Seq<T>, fallback: T)
    ensures
        cell.written_all(values).poisoned == cell.poisoned,
        cell.written_all(values).read(fallback) == if cell.poisoned {
            fallback
        } else if values.len() == 0 {
            cell.value
        } else {
            values.last()
        },
    decreases values.len(),
{
    if values.len() > 0 {
        lemma_read_sees_last_write(cell, values.drop_last(), fallback);
    }
}

/// A backend URL stored behind a sound guard is the URL that the next read
/// returns.
pub proof fn lemma_backend_url_round_trip(session: SessionModel, url: Seq<char>)
    requires
        !session.backend_url.poisoned,
    ensures
        session.set_backend_url(url).get_backend_url() == url,
{
}

/// A liveness flag stored behind a sound guard is the flag that the next read
/// returns.
pub proof fn lemma_backend_running_round_trip(session: SessionModel, running: bool)
    requires
        !session.backend_running.poisoned,
    ensures
        session.set_backend_running(running).is_backend_running() == running,
{
}

/// A project path stored behind a sound guard, present or absent, is what the
/// next read returns.
pub proof fn lemma_last_project_path_round_trip(session: SessionModel, path: Option<Seq<char>>)
    requires
        !session.last_project_path.poisoned,
    ensures
        session.set_last_project_path(path).get_last_project_path() == path,
{
}

/// Each setter leaves the two fields that are not its own exactly as they
/// were, so what a getter returns stays the same until its own field is
/// overwritten.
pub proof fn lemma_setters_touch_one_field(
    session: SessionModel,
    url: Seq<char>,
    running: bool,
    path: Option<Seq<char>>,
)
    ensures
        session.set_backend_url(url).backend_running == session.backend_running,
        session.set_backend_url(url).last_project_path == session.last_project_path,
        session.set_backend_running(running).backend_url == session.backend_url,
        session.set_backend_running(running).last_project_path == session.last_project_path,
        session.set_last_project_path(path).backend_url == session.backend_url,
        session.set_last_project_path(path).backend_running == session.backend_running,
        session.set_backend_running(running).get_backend_url() == session.get_backend_url(),
        session.set_last_project_path(path).get_backend_url() == session.get_backend_url(),
        session.set_backend_url(url).is_backend_running() == session.is_backend_running(),
        session.set_last_project_path(path).is_backend_running() == session.is_backend_running(),
        session.set_backend_url(url).get_last_project_path() == session.get_last_project_path(),
        session.set_backend_running(running).get_last_project_path()
            == session.get_last_project_path(),
{
}

/// Behind a poisoned guard a write changes nothing and a read yields the
/// field's fallback: the default URL, `false`, and no path.
pub proof fn lemma_poisoned_guard_falls_back(
    session: SessionModel,
    url: Seq<char>,
    running: bool,
    path: Option<Seq<char>>,
)
    ensures
        session.backend_url.poisoned ==> {
            &&& session.set_backend_url(url) == session
            &&& session.get_backend_url() == DEFAULT_BACKEND_URL@
        },
        session.backend_running.poisoned ==> {
            &&& session.set_backend_running(running) == session
            &&& !session.is_backend_running()
        },
        session.last_project_path.poisoned ==> {
            &&& session.set_last_project_path(path) == session
            &&& session.get_last_project_path() is None
        },
{
}

} // verus!
