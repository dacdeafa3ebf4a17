//! The command surface: what each operation the UI layer may invoke asks of the
//! outside world, and what it answers once the outside world has responded.
//!
//! No command here touches a file, a socket or a window. A command that needs
//! one says what is to be done (a URL to fetch, a file to write, a window call
//! to make), and turns the outcome into the command's reply. Every failure
//! reaches the caller as a plain message.

use vstd::prelude::*;
use vstd::string::StringExecFns;
use vstd::string::StrSliceExecFns;
use vstd::string::StringSliceAdditionalSpecFns;
use crate::state::AppState;
use crate::state::SessionModel;

verus! {

/// How long a probe of the backend may take before it counts as unanswered.
pub const HEALTH_PROBE_TIMEOUT_SECS: u64 = 3;

/// The path under the backend's base URL that answers liveness probes.
pub const HEALTH_PATH: &'static str = "/health";

/// What precedes the cause in the message of a failed project save.
pub const SAVE_FAILURE_PREFIX: &'static str = "Failed to save project file: ";

/// What precedes the cause in the message of a failed audio export.
pub const EXPORT_FAILURE_PREFIX: &'static str = "Failed to export audio: ";

/// A snapshot of what the application is and where it runs.
#[derive(Debug, PartialEq, Eq)]
pub struct AppInfo {
    pub version: String,
    pub name: String,
    pub platform: String,
    pub arch: String,
}

/// How one probe of the backend's health endpoint ended.
#[derive(Debug, Clone, Copy, PartialEq, Eq)]
pub enum HealthProbe {
    /// The backend answered with this HTTP status code.
    Answered { status: u16 },
    /// No response arrived: connection refused, timeout, or any other failure.
    Unreachable,
}

/// One file to be overwritten with exactly these bytes.
#[derive(Debug, PartialEq, Eq)]
pub struct FileWrite {
    pub path: String,
    pub bytes: Vec<u8>,
}

/// A call on the main window.
#[derive(Debug, Clone, Copy, PartialEq, Eq)]
pub enum WindowCall {
    Show,
    SetFocus,
}

/// What has happened so far while the main window is being brought up.
#[derive(Debug, PartialEq, Eq)]
pub enum WindowEvent {
    /// The command was invoked and no window call was made yet.
    Invoked,
    /// The window call `call` returned `outcome`; a failure carries its cause.
    Returned { call: WindowCall, outcome: Result<(), String> },
}

/// What is to happen next while the main window is being brought up.
#[derive(Debug, PartialEq, Eq)]
pub enum WindowStep {
    /// Make this window call and report how it went.
    Perform(WindowCall),
    /// The command is over, with this reply.
    Reply(Result<(), String>),
}

/// Whether a status code is one of the success codes, 200 to 299.
pub open spec fn is_success_status(status: u16) -> bool {
    200 <= status < 300
}

/// Whether a probe shows a running backend: it was answered, and with a
/// success status.
pub open spec fn backend_is_healthy(probe: HealthProbe) -> bool {
    probe matches HealthProbe::Answered { status } && is_success_status(status)
}

/// The step that follows `event`: the window is shown first and focused
/// second, and the first failure ends the command with its cause.
pub open spec fn window_step_after(event: WindowEvent) -> WindowStep {
    match event {
        WindowEvent::Invoked => WindowStep::Perform(WindowCall::Show),
        WindowEvent::Returned { call, outcome: Err(cause) } => WindowStep::Reply(Err(cause)),
        WindowEvent::Returned { call: WindowCall::Show, outcome: Ok(_) } => WindowStep::Perform(
            WindowCall::SetFocus,
        ),
        WindowEvent::Returned { call: WindowCall::SetFocus, outcome: Ok(_) } => WindowStep::Reply(
            Ok(()),
        ),
    }
}

/// Classifies a status code with `reqwest::StatusCode`.
///
/// `StatusCode::from_u16` accepts the codes from 100 to 999 and rejects every
/// other; `StatusCode::is_success` holds of exactly the codes from 200 to 299.
/// The verdict is absent for a code that `from_u16` rejects.
#[verifier::external_body]
fn success_verdict(status: u16) -> (verdict: Option<bool>)
    ensures
        verdict == if 100 <= status <= 999 {
            Some(is_success_status(status))
        } else {
            None::<bool>
        },
{
    match reqwest::StatusCode::from_u16(status) {
        Ok(code) => Some(code.is_success()),
        Err(_) => None,
    }
}

/// Answers a liveness probe from the UI with the fixed reply `"pong"`.
pub fn ping() -> (reply: String)
    ensures
        reply@ == "pong"@,
{
    String::from_str("pong")
}

/// The URL to fetch in order to probe the backend: the session's backend URL
/// followed by the health path.
pub fn health_check_url(state: &AppState) -> (url: String)
    ensures
        url@ == state@.get_backend_url() + HEALTH_PATH@,
{
    state.get_backend_url().concat(HEALTH_PATH)
}

/// Whether the backend runs, judged from one probe of its health endpoint.
///
/// An unreachable backend is an ordinary state of affairs and no fault: the
/// reply is always `Ok`, and `Ok(true)` exactly when the probe was answered
/// with a success status.
pub fn check_backend_health(probe: HealthProbe) -> (reply: Result<bool, String>)
    ensures
        reply == Ok::<bool, String>(backend_is_healthy(probe)),
{
    match probe {
        HealthProbe::Answered { status } => match success_verdict(status) {
            Some(success) => Ok(success),
            None => Ok(false),
        },
        HealthProbe::Unreachable => Ok(false),
    }
}

/// Opening a project is left to the UI's own file picker: the reply is always
/// the empty path.
pub fn open_project_file() -> (reply: Result<String, String>)
    ensures
        reply matches Ok(path) && path@ == Seq::<char>::empty(),
{
    Ok(String::new())
}

/// The write that saves a project: the text's UTF-8 bytes, unchanged, to
/// `path`.
pub fn project_file_write(path: &str, content: &str) -> (write: FileWrite)
    ensures
        write.path@ == path@,
        write.bytes@ == content.spec_bytes(),
{
    FileWrite { path: String::from_str(path), bytes: content.as_bytes_vec() }
}

/// Concludes a project save once the write to `path` has returned.
///
/// After a successful write the session remembers `path` as the last saved
/// project. After a failed one the session is left exactly as it was and the
/// reply names the cause.
pub fn save_project_file(
    path: String,
    write_outcome: Result<(), String>,
    state: &mut AppState,
) -> (reply: Result<(), String>)
    ensures
        match write_outcome {
            Ok(_) => {
                &&& reply is Ok
                &&& final(state)@ == old(state)@.set_last_project_path(Some(path@))
            },
            Err(cause) => {
                &&& reply matches Err(message) && message@ == SAVE_FAILURE_PREFIX@ + cause@
                &&& *final(state) == *old(state)
            },
        },
{
    match write_outcome {
        Ok(_) => {
            state.set_last_project_path(Some(path));
            Ok(())
        },
        Err(cause) => Err(String::from_str(SAVE_FAILURE_PREFIX).concat(cause.as_str())),
    }
}

/// The write that exports audio: the payload, unchanged, to `path`.
///
/// The format tag has no bearing on what is written.
pub fn audio_file_write(format: &str, path: &str, audio_data: Vec<u8>) -> (write: FileWrite)
    ensures
        write.path@ == path@,
        write.bytes@ == audio_data@,
{
    FileWrite { path: String::from_str(path), bytes: audio_data }
}

/// Concludes an audio export once the write has returned: a failed write is
/// reported with its cause.
pub fn export_audio(write_outcome: Result<(), String>) -> (reply: Result<(), String>)
    ensures
        match write_outcome {
            Ok(_) => reply is Ok,
            Err(cause) => reply matches Err(message) && message@ == EXPORT_FAILURE_PREFIX@
                + cause@,
        },
{
    match write_outcome {
        Ok(_) => Ok(()),
        Err(cause) => Err(String::from_str(EXPORT_FAILURE_PREFIX).concat(cause.as_str())),
    }
}

/// Assembles the application snapshot from the build's version and name and
/// the host's operating system and CPU architecture.
pub fn get_app_info(version: &str, name: &str, platform: &str, arch: &str) -> (info: AppInfo)
    ensures
        info.version@ == version@,
        info.name@ == name@,
        info.platform@ == platform@,
        info.arch@ == arch@,
{
    AppInfo {
        version: String::from_str(version),
        name: String::from_str(name),
        platform: String::from_str(platform),
        arch: String::from_str(arch),
    }
}

/// Brings up the main window one call at a time: given what has happened so
/// far, says what is to happen next.
pub fn show_main_window(event: WindowEvent) -> (step: WindowStep)
    ensures
        step == window_step_after(event),
{
    match event {
        WindowEvent::Invoked => WindowStep::Perform(WindowCall::Show),
        WindowEvent::Returned { call, outcome } => match outcome {
            Err(cause) => WindowStep::Reply(Err(cause)),
            Ok(_) => match call {
                WindowCall::Show => WindowStep::Perform(WindowCall::SetFocus),
                WindowCall::SetFocus => WindowStep::Reply(Ok(())),
            },
        },
    }
}

/// The reply of the whole command, given how showing and focusing the window
/// would go: the first failure, or success when both calls succeed.
pub open spec fn window_reply(show: Result<(), String>, focus: Result<(), String>) -> Result<
    (),
    String,
> {
    match show {
        Err(cause) => Err(cause),
        Ok(_) => match focus {
            Err(cause) => Err(cause),
            Ok(_) => Ok(()),
        },
    }
}

/// Followed from the invocation on, the steps show the window, focus it only
/// once it is shown, and end with the reply of the whole command.
pub proof fn lemma_window_steps_reach_reply(show: Result<(), String>, focus: Result<(), String>)
    ensures
        window_step_after(WindowEvent::Invoked) == WindowStep::Perform(WindowCall::Show),
        show is Err ==> window_step_after(
            WindowEvent::Returned { call: WindowCall::Show, outcome: show },
        ) == WindowStep::Reply(window_reply(show, focus)),
        show is Ok ==> window_step_after(
            WindowEvent::Returned { call: WindowCall::Show, outcome: show },
        ) == WindowStep::Perform(WindowCall::SetFocus),
        show is Ok ==> window_step_after(
            WindowEvent::Returned { call: WindowCall::SetFocus, outcome: focus },
        ) == WindowStep::Reply(window_reply(show, focus)),
{
}

/// A project saved while the guard of the last project path is sound is the
/// project that the session names afterwards.
pub proof fn lemma_saved_path_is_remembered(session: SessionModel, path: Seq<char>)
    requires
        !session.last_project_path.poisoned,
    ensures
        session.set_last_project_path(Some(path)).get_last_project_path() == Some(path),
{
}

} // verus!
