//! Configuration model: package metadata, dependency declarations and task
//! declarations, together with the validation that makes a `Config` hold a
//! `main` task from the moment it is constructed.

use vstd::prelude::*;
use vstd::string::StringExecFns;

verus! {

/// The runtime a task is dispatched to.
#[derive(Clone, Copy, Debug, PartialEq, Eq, Structural)]
pub enum Runtime {
    Lua,
    Shell,
}

/// A named unit of work. At execution time exactly one script source must
/// resolve: a platform-specific inline override, else `script`, else `file`.
#[derive(Debug)]
pub struct Task {
    /// What runtime to use
    pub runtime: Runtime,
    /// To load script from file?
    pub file: Option<String>,
    /// To have an inline script?
    pub script: Option<String>,
    /// Have a Windows only script?
    pub script_windows: Option<String>,
    /// Have a Linux only script?
    pub script_linux: Option<String>,
    /// Have a MacOs only script?
    pub script_darwin: Option<String>,
}

/// Package metadata, immutable after construction.
#[derive(Debug)]
pub struct Package {
    /// Name of the package
    pub name: String,
    /// Version of the package
    pub version: String,
    /// Description of the package?
    pub description: Option<String>,
    /// The authors of the package?
    pub authors: Option<Vec<String>>,
}

/// A dependency materialized by cloning a remote repository.
#[derive(Debug)]
pub struct GitDependency {
    /// The git url
    pub source: String,
    /// Where to save the working tree, overriding the location key
    pub path: Option<String>,
}

/// A dependency delegated to the external package manager.
#[derive(Debug)]
pub struct LitDependency {
    /// The author of the package
    pub author: String,
    /// The version of the package; absent means the latest
    pub version: Option<String>,
}

/// What this package relies on. Every absent field is treated as empty.
/// The entries of `git` and `lit` are keyed by their first component: the
/// install location for `git`, the package name for `lit`.
#[derive(Debug)]
pub struct Dependencies {
    /// Something that has to exist within the executable search path
    pub bin: Option<Vec<String>>,
    /// Modules to download by cloning
    pub git: Option<Vec<(String, GitDependency)>>,
    /// Modules to install through the external package manager
    pub lit: Option<Vec<(String, LitDependency)>>,
}

/// A validated configuration: a `Config` always holds a task named `main`.
#[derive(Debug)]
pub struct Config {
    /// Package metadata
    pub package: Package,
    /// Dependency metadata
    pub dependencies: Option<Dependencies>,
    /// Tasks to run, keyed by task name
    pub tasks: Vec<(String, Task)>,
}

/// Why a configuration was rejected.
#[derive(Debug)]
pub enum Error {
    /// The document did not parse; the payload is the parser's message.
    InvalidConfig(String),
    /// The document holds no task named `main`.
    MissingMain,
}

#[verifier::external_type_specification]
#[verifier::external_body]
pub struct ExScriptOptions(run_script::types::ScriptOptions);

#[verifier::external_type_specification]
#[verifier::external_body]
pub struct ExLua<'a>(hlua::Lua<'a>);

/// The transient per-run context: a reference to the task list and
/// lazily-created handles to the embedded-language interpreter and the
/// shell-execution options, each created at most once per session.
pub struct Runner<'a> {
    /// The tasks the runner needs to hold
    pub tasks: &'a Vec<(String, Task)>,
    /// Stores the Lua vm if one has been created
    pub lua: Option<hlua::Lua<'a>>,
    /// The options for running scripts if the shell is used
    pub options: Option<run_script::types::ScriptOptions>,
}

impl<'a> Runner<'a> {
    /// Create a new script runner over the given task list; the interpreter
    /// and the shell options are created lazily, on first use.
    pub fn new(tasks: &'a Vec<(String, Task)>) -> (r: Runner<'a>)
        ensures
            r.tasks == tasks,
            r.lua is None,
            r.options is None,
    {
        Runner { tasks, lua: None, options: None }
    }
}

/// Whether the task list holds an entry whose name is `name`.
pub open spec fn has_task(tasks: Seq<(String, Task)>, name: Seq<char>) -> bool {
    exists|i: int| 0 <= i < tasks.len() && #[trigger] tasks[i].0@ == name
}

impl Config {
    /// A well-formed configuration holds a task named `main`.
    pub open spec fn wf(self) -> bool {
        has_task(self.tasks@, "main"@)
    }

    /// Create a new configuration from its already-parsed parts.
    /// Fails if and only if no task is named `main`; a parse failure is
    /// reported by the caller as `Error::InvalidConfig`.
    pub fn new(
        package: Package,
        dependencies: Option<Dependencies>,
        tasks: Vec<(String, Task)>,
    ) -> (r: Result<Config, Error>)
        ensures
            has_task(tasks@, "main"@) ==> (r matches Ok(c) && c.package == package
                && c.dependencies == dependencies && c.tasks == tasks && c.wf()),
            !has_task(tasks@, "main"@) ==> (r matches Err(e) && e is MissingMain),
    {
        let main_name: String = String::from_str("main");
        let mut i: usize = 0;
        let mut found: bool = false;
        while i < tasks.len()
            invariant
                0 <= i <= tasks.len(),
                main_name@ == "main"@,
                found <==> exists|j: int| 0 <= j < i && #[trigger] tasks@[j].0@ == "main"@,
            decreases tasks.len() - i,
        {
            if tasks[i].0 == main_name {
                found = true;
            }
            i += 1;
        }
        if found {
            Ok(Config { package, dependencies, tasks })
        } else {
            Err(Error::MissingMain)
        }
    }

    /// Whether some task of the configuration uses the given runtime.
    pub fn uses(&self, runtime: Runtime) -> (r: bool)
        ensures
            r <==> exists|i: int| 0 <= i < self.tasks@.len()
                && #[trigger] self.tasks@[i].1.runtime == runtime,
    {
        let mut i: usize = 0;
        while i < self.tasks.len()
            invariant
                0 <= i <= self.tasks.len(),
                forall|j: int| 0 <= j < i ==> #[trigger] self.tasks@[j].1.runtime != runtime,
            decreases self.tasks.len() - i,
        {
            if self.tasks[i].1.runtime == runtime {
                return true;
            }
            i += 1;
        }
        false
    }

    /// Look a task up by name; the first entry of that name answers.
    pub fn get_task<'a>(&'a self, name: &String) -> (r: Option<&'a Task>)
        ensures
            r is Some <==> has_task(self.tasks@, name@),
            r matches Some(t) ==> exists|i: int| 0 <= i < self.tasks@.len()
                && #[trigger] self.tasks@[i].0@ == name@ && *t == self.tasks@[i].1
                && (forall|j: int| 0 <= j < i ==> #[trigger] self.tasks@[j].0@ != name@),
    {
        let mut i: usize = 0;
        while i < self.tasks.len()
            invariant
                0 <= i <= self.tasks.len(),
                forall|j: int| 0 <= j < i ==> #[trigger] self.tasks@[j].0@ != name@,
            decreases self.tasks.len() - i,
        {
            if self.tasks[i].0 == *name {
                return Some(&self.tasks[i].1);
            }
            i += 1;
        }
        None
    }
}

} // verus!
