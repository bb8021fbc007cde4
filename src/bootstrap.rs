use vstd::prelude::*;

verus! {

/// Variable read by the input-method layer of macOS; setting it silences a
/// known noisy diagnostic.
pub const INPUT_METHOD_VAR: &'static str = "OS_ACTIVITY_MODE";

/// Value of [`INPUT_METHOD_VAR`] that switches the diagnostic off.
pub const INPUT_METHOD_OFF: &'static str = "disable";

/// Message with which the process is stopped when the run loop cannot start.
pub const START_FAILURE: &'static str = "error while running tauri application";

/// Operating system the shell is compiled for, as far as start-up cares.
#[derive(Clone, Copy, Debug, PartialEq, Eq, Structural)]
pub enum Target {
    MacOs,
    Other,
}

/// Build profile the shell is compiled in.
#[derive(Clone, Copy, Debug, PartialEq, Eq, Structural)]
pub enum Profile {
    Debug,
    Release,
}

/// Minimum severity that the logging plugin lets through.
#[derive(Clone, Copy, Debug, PartialEq, Eq, Structural)]
pub enum LogLevel {
    Off,
    Error,
    Warn,
    Info,
    Debug,
    Trace,
}

/// A capability plugin attached to the host, with its configuration.
#[derive(Clone, Copy, Debug, PartialEq, Eq, Structural)]
pub enum Plugin {
    /// Log output, at or above the given severity.
    Log { level: LogLevel },
    /// Filesystem access for the frontend, default scope.
    Filesystem,
    /// Native file and message dialogs for the frontend.
    Dialog,
}

/// One process-wide environment variable to set before the host starts.
pub struct EnvAssignment {
    pub name: String,
    pub value: String,
}

/// Everything the bootstrap does before it hands the thread to the run loop.
pub struct BootPlan {
    /// Variable to set first, if any.
    pub env: Option<EnvAssignment>,
    /// Plugins attached from the setup hook, once the application exists.
    pub setup_plugins: Vec<Plugin>,
    /// Plugins registered on the builder, in this order.
    pub plugins: Vec<Plugin>,
}

/// How the bootstrap ends once the run loop has returned or failed to start.
pub enum Exit<E> {
    /// The run loop ran and returned: the process exits normally.
    Finished,
    /// The run loop could not start: the process stops with `message`.
    Abort { message: String, cause: E },
}

/// The start-up plan for a build on `target` in `profile`.
///
/// The input-method variable is set on macOS only; the logging plugin, at
/// informational level, is attached in debug builds only; the filesystem and
/// dialog plugins are registered in every build, and nothing else.
pub fn plan(target: Target, profile: Profile) -> (r: BootPlan)
    ensures
        r.env is Some <==> target == Target::MacOs,
        r.env matches Some(e) ==> e.name@ == INPUT_METHOD_VAR@ && e.value@ == INPUT_METHOD_OFF@,
        profile == Profile::Debug ==> r.setup_plugins@ == seq![Plugin::Log { level: LogLevel::Info }],
        profile == Profile::Release ==> r.setup_plugins@ == Seq::<Plugin>::empty(),
        r.plugins@ == seq![Plugin::Filesystem, Plugin::Dialog],
{
    let env = match target {
        Target::MacOs => Some(
            EnvAssignment { name: INPUT_METHOD_VAR.to_owned(), value: INPUT_METHOD_OFF.to_owned() },
        ),
        Target::Other => None,
    };
    let mut setup_plugins: Vec<Plugin> = Vec::new();
    if profile == Profile::Debug {
        setup_plugins.push(Plugin::Log { level: LogLevel::Info });
    }
    let mut plugins: Vec<Plugin> = Vec::new();
    plugins.push(Plugin::Filesystem);
    plugins.push(Plugin::Dialog);
    assert(setup_plugins@ =~= if profile == Profile::Debug {
        seq![Plugin::Log { level: LogLevel::Info }]
    } else {
        Seq::<Plugin>::empty()
    });
    assert(plugins@ =~= seq![Plugin::Filesystem, Plugin::Dialog]);
    BootPlan { env, setup_plugins, plugins }
}

/// What to do with the result of starting the run loop.
///
/// A failure to start is fatal: there is no retry and no degraded mode, the
/// process stops with [`START_FAILURE`] and the cause.
pub fn run_outcome<E>(result: Result<(), E>) -> (r: Exit<E>)
    ensures
        result is Ok <==> r is Finished,
        result matches Err(e) ==> (r matches Exit::Abort { message, cause } && message@
            == START_FAILURE@ && cause == e),
{
    match result {
        Ok(()) => Exit::Finished,
        Err(e) => Exit::Abort { message: START_FAILURE.to_owned(), cause: e },
    }
}

} // verus!
