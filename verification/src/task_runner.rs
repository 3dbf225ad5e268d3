//! Task execution: resolving which script source a task runs, dispatching it
//! to the selected runtime, and normalizing the heterogeneous success and
//! failure signals into one error taxonomy.

use vstd::prelude::*;
use crate::types::{Runner, Runtime, Task};

verus! {

/// How running a task failed.
#[derive(Debug)]
pub enum Error {
    /// The subprocess could not be launched; the payload is the underlying
    /// error's message.
    ShellError(String),
    /// A file read failed during script-source resolution.
    IoError(String),
    /// The script ran but exited with a non-zero code.
    RuntimeError,
    /// No script source resolved for the task.
    NoFileFound,
}

/// The platform a task runs on, as far as script selection cares.
#[derive(Clone, Copy, Debug, PartialEq, Eq, Structural)]
pub enum Platform {
    Windows,
    Linux,
    Darwin,
    Other,
}

/// The one script source a task resolved to: an inline body, or the name of
/// a file whose text the caller reads.
#[derive(Debug)]
pub enum ScriptSource {
    Inline(String),
    File(String),
}

/// What dispatching a task produced: the shell's exit code and captured
/// streams, or nothing, because the embedded-language runtime is a stub.
#[derive(Debug)]
pub enum RunOutcome {
    ShellCompleted { code: i32, output: String, errout: String },
    LuaUnimplemented,
}

/// The task's inline override for the given platform, if it declares one.
pub open spec fn platform_override(task: Task, platform: Platform) -> Option<String> {
    match platform {
        Platform::Windows => task.script_windows,
        Platform::Linux => task.script_linux,
        Platform::Darwin => task.script_darwin,
        Platform::Other => None,
    }
}

/// Script-source resolution, first match wins: the platform-specific inline
/// override, else the generic inline script, else the stored file; with none
/// of the three, resolution fails.
pub open spec fn resolved_source(task: Task, platform: Platform) -> Result<ScriptSource, Error> {
    match platform_override(task, platform) {
        Some(s) => Ok(ScriptSource::Inline(s)),
        None => match task.script {
            Some(s) => Ok(ScriptSource::Inline(s)),
            None => match task.file {
                Some(f) => Ok(ScriptSource::File(f)),
                None => Err(Error::NoFileFound),
            },
        },
    }
}

/// Resolve the script source of a task for the given platform.
pub fn resolve_source(task: &Task, platform: Platform) -> (r: Result<ScriptSource, Error>)
    ensures
        r == resolved_source(*task, platform),
{
    let over: &Option<String> = match platform {
        Platform::Windows => &task.script_windows,
        Platform::Linux => &task.script_linux,
        Platform::Darwin => &task.script_darwin,
        Platform::Other => &None,
    };
    match over {
        Some(s) => Ok(ScriptSource::Inline(s.clone())),
        None => match &task.script {
            Some(s) => Ok(ScriptSource::Inline(s.clone())),
            None => match &task.file {
                Some(f) => Ok(ScriptSource::File(f.clone())),
                None => Err(Error::NoFileFound),
            },
        },
    }
}

/// Script-source resolution is a strict priority order: the platform
/// override is chosen whenever it is present; the generic inline script
/// whenever the override is absent; the stored file only with both absent;
/// and with no source at all, resolution fails with `NoFileFound`.
pub proof fn lemma_resolution_priority(task: Task, platform: Platform)
    ensures
        platform_override(task, platform) matches Some(s) ==> resolved_source(task, platform)
            == Ok::<ScriptSource, Error>(ScriptSource::Inline(s)),
        platform_override(task, platform) is None ==> (task.script matches Some(s)
            ==> resolved_source(task, platform) == Ok::<ScriptSource, Error>(
            ScriptSource::Inline(s),
        )),
        (platform_override(task, platform) is None && task.script is None) ==> (task.file
            matches Some(f) ==> resolved_source(task, platform) == Ok::<ScriptSource, Error>(
            ScriptSource::File(f),
        )),
        (platform_override(task, platform) is None && task.script is None && task.file is None)
            ==> resolved_source(task, platform) == Err::<ScriptSource, Error>(Error::NoFileFound),
{
}

/// Relies on `hlua::Lua::new`: creates a fresh interpreter handle. It panics
/// only if the underlying allocation of the interpreter state fails.
pub assume_specification<'a>[ hlua::Lua::<'a>::new ]() -> hlua::Lua<'a>;

/// Relies on `run_script::types::ScriptOptions::new`: the default
/// shell-execution options.
pub assume_specification[ run_script::types::ScriptOptions::new ]() -> run_script::types::ScriptOptions;

/// Relies on `run_script::run`: runs the script text through the platform
/// shell with no extra arguments and returns its exit code, captured stdout
/// and captured stderr, or the launch error's message. The outcome depends
/// on the subprocess, so nothing is promised of it.
#[verifier::external_body]
fn shell_run(script: &String, options: &run_script::types::ScriptOptions) -> Result<
    (i32, String, String),
    String,
> {
    match run_script::run(script.as_str(), &vec![], options) {
        Ok(t) => Ok(t),
        Err(e) => Err(format!("{}", e)),
    }
}

/// Turn what the shell hands back into a dispatch outcome: a completed run
/// keeps its exit code and both captured streams unchanged, and a launch
/// failure keeps its message, as a `ShellError`.
pub fn shell_outcome(r: Result<(i32, String, String), String>) -> (out: Result<
    RunOutcome,
    Error,
>)
    ensures
        r matches Ok(t) ==> (out matches Ok(o) && o == (RunOutcome::ShellCompleted {
            code: t.0,
            output: t.1,
            errout: t.2,
        })),
        r matches Err(m) ==> (out matches Err(e) && e == Error::ShellError(m)),
{
    match r {
        Ok(t) => Ok(RunOutcome::ShellCompleted { code: t.0, output: t.1, errout: t.2 }),
        Err(message) => Err(Error::ShellError(message)),
    }
}

/// Dispatch an already-resolved script text to the task's runtime. The
/// interpreter handle and the shell options are created on first use and
/// kept for the rest of the session. The shell runtime reports the exit code
/// and both captured streams; the embedded-language runtime is a stub that
/// completes without running anything. Only a failure to launch the shell is
/// an error here; a non-zero exit code is judged by [`task_result`].
pub fn run_task<'a>(runner: &mut Runner<'a>, runtime: &Runtime, script: &String) -> (r: Result<
    RunOutcome,
    Error,
>)
    ensures
        final(runner).tasks == old(runner).tasks,
        final(runner).lua is Some,
        final(runner).options is Some,
        old(runner).lua is Some ==> final(runner).lua == old(runner).lua,
        old(runner).options is Some ==> final(runner).options == old(runner).options,
        runtime is Lua ==> (r matches Ok(o) && o is LuaUnimplemented),
        runtime is Shell ==> ((r matches Ok(o) && o is ShellCompleted) || (r matches Err(e)
            && e is ShellError)),
{
    if runner.lua.is_none() {
        runner.lua = Some(hlua::Lua::new());
    }
    if runner.options.is_none() {
        runner.options = Some(run_script::types::ScriptOptions::new());
    }
    match runtime {
        Runtime::Shell => {
            let options: &run_script::types::ScriptOptions = runner.options.as_ref().unwrap();
            shell_outcome(shell_run(script, options))
        },
        Runtime::Lua => Ok(RunOutcome::LuaUnimplemented),
    }
}

/// Judge a dispatch outcome: a shell exit code of zero succeeds, a non-zero
/// one is a runtime error, and the embedded-language stub completes without
/// raising an error.
pub fn task_result(outcome: &RunOutcome) -> (r: Result<(), Error>)
    ensures
        (outcome matches RunOutcome::ShellCompleted { code, .. } && code == 0) ==> r is Ok,
        (outcome matches RunOutcome::ShellCompleted { code, .. } && code != 0) ==> (r matches
            Err(e) && e is RuntimeError),
        outcome is LuaUnimplemented ==> r is Ok,
{
    match outcome {
        RunOutcome::ShellCompleted { code, .. } => {
            if *code != 0 {
                Err(Error::RuntimeError)
            } else {
                Ok(())
            }
        },
        RunOutcome::LuaUnimplemented => Ok(()),
    }
}

} // verus!
