use vstd::prelude::*;

verus! {

/// The states of the process orchestrator.
#[derive(PartialEq, Eq, Structural, Clone, Copy, Debug)]
pub enum ProcessState {
    /// Nothing has happened yet; the configuration is not loaded.
    Starting,
    /// The settings are loaded; the subsystems may now be launched.
    SettingsLoaded,
    /// The gateway subsystem runs in the background, the HTTP subsystem in
    /// the foreground.
    Serving,
    /// The process has terminated with this exit code.
    Exited { code: i32 },
}

/// What the orchestrator is told.
#[derive(PartialEq, Eq, Structural, Clone, Copy, Debug)]
pub enum ProcessEvent {
    /// The configuration source was read; `ok` says whether it yielded a
    /// well-formed record.
    SettingsLoad { ok: bool },
    /// The gateway task was spawned and the HTTP listener bound.
    SubsystemsLaunched,
    /// The HTTP listener could not bind; the raw error code.
    HttpBindFailed { code: i32 },
    /// The foreground HTTP subsystem finished with this code (0 is a clean
    /// shutdown).
    HttpFinished { code: i32 },
    /// The background gateway task failed.
    GatewayTaskFailed,
}

/// What the caller carries out after a step of the orchestrator.
#[derive(PartialEq, Eq, Structural, Clone, Copy, Debug)]
pub enum ProcessAction {
    /// Nothing.
    Idle,
    /// Spawn the gateway subsystem in the background and run the HTTP
    /// subsystem in the foreground. Emitted only by the successful settings
    /// load: neither subsystem ever starts before the settings are loaded.
    LaunchSubsystems,
    /// Terminate the process with this exit code.
    Terminate { code: i32 },
}

/// The exit code of an aborted background task.
pub open spec fn abort_code() -> i32 {
    101
}

/// One step of the process orchestrator. Exit is absorbing: once the
/// process has terminated, no further event does anything. A settings
/// failure, a bind failure and a gateway task failure each terminate with a
/// nonzero code; the foreground HTTP subsystem's completion code becomes
/// the process exit code as it is.
pub open spec fn spec_process_step(s: ProcessState, e: ProcessEvent) -> (ProcessState,
    ProcessAction) {
    if s is Exited {
        (s, ProcessAction::Idle)
    } else {
        match e {
            ProcessEvent::SettingsLoad { ok } => if s is Starting {
                if ok {
                    (ProcessState::SettingsLoaded, ProcessAction::LaunchSubsystems)
                } else {
                    (ProcessState::Exited { code: 1 }, ProcessAction::Terminate { code: 1 })
                }
            } else {
                (s, ProcessAction::Idle)
            },
            ProcessEvent::SubsystemsLaunched => if s is SettingsLoaded {
                (ProcessState::Serving, ProcessAction::Idle)
            } else {
                (s, ProcessAction::Idle)
            },
            ProcessEvent::HttpBindFailed { code } => if s is SettingsLoaded || s is Serving {
                let c = if code != 0 {
                    code
                } else {
                    1
                };
                (ProcessState::Exited { code: c }, ProcessAction::Terminate { code: c })
            } else {
                (s, ProcessAction::Idle)
            },
            ProcessEvent::HttpFinished { code } => if s is Serving {
                (ProcessState::Exited { code }, ProcessAction::Terminate { code })
            } else {
                (s, ProcessAction::Idle)
            },
            ProcessEvent::GatewayTaskFailed => if s is SettingsLoaded || s is Serving {
                (
                    ProcessState::Exited { code: abort_code() },
                    ProcessAction::Terminate { code: abort_code() },
                )
            } else {
                (s, ProcessAction::Idle)
            },
        }
    }
}

/// Runs one step of the orchestrator.
pub fn process_step(s: ProcessState, e: ProcessEvent) -> (r: (ProcessState, ProcessAction))
    ensures
        r == spec_process_step(s, e),
{
    if matches!(s, ProcessState::Exited { .. }) {
        return (s, ProcessAction::Idle);
    }
    match e {
        ProcessEvent::SettingsLoad { ok } => {
            if matches!(s, ProcessState::Starting) {
                if ok {
                    (ProcessState::SettingsLoaded, ProcessAction::LaunchSubsystems)
                } else {
                    (ProcessState::Exited { code: 1 }, ProcessAction::Terminate { code: 1 })
                }
            } else {
                (s, ProcessAction::Idle)
            }
        },
        ProcessEvent::SubsystemsLaunched => {
            if matches!(s, ProcessState::SettingsLoaded) {
                (ProcessState::Serving, ProcessAction::Idle)
            } else {
                (s, ProcessAction::Idle)
            }
        },
        ProcessEvent::HttpBindFailed { code } => {
            if matches!(s, ProcessState::SettingsLoaded) || matches!(s, ProcessState::Serving) {
                let c: i32 = if code != 0 {
                    code
                } else {
                    1
                };
                (ProcessState::Exited { code: c }, ProcessAction::Terminate { code: c })
            } else {
                (s, ProcessAction::Idle)
            }
        },
        ProcessEvent::HttpFinished { code } => {
            if matches!(s, ProcessState::Serving) {
                (ProcessState::Exited { code }, ProcessAction::Terminate { code })
            } else {
                (s, ProcessAction::Idle)
            }
        },
        ProcessEvent::GatewayTaskFailed => {
            if matches!(s, ProcessState::SettingsLoaded) || matches!(s, ProcessState::Serving) {
                (
                    ProcessState::Exited { code: 101 },
                    ProcessAction::Terminate { code: 101 },
                )
            } else {
                (s, ProcessAction::Idle)
            }
        },
    }
}

/// Maps the foreground HTTP subsystem's result to the process exit code: 0
/// exactly on a clean shutdown, else the propagated error code, made
/// nonzero where the error carried code 0.
pub fn exit_code_for(http: Result<(), i32>) -> (c: i32)
    ensures
        c == 0 <==> http is Ok,
        http matches Err(e) ==> c == (if e != 0 {
            e
        } else {
            1
        }),
{
    match http {
        Ok(()) => 0,
        Err(e) => if e != 0 {
            e
        } else {
            1
        },
    }
}

/// Termination is final: an exited process steps to itself and performs no
/// further action, whatever event arrives — in particular, no gateway
/// event is processed after the process has exited.
pub proof fn lemma_exit_absorbing(code: i32, e: ProcessEvent)
    ensures
        spec_process_step(ProcessState::Exited { code }, e) == (
            ProcessState::Exited { code },
            ProcessAction::Idle,
        ),
{
}

/// The settings come first: the one step that launches the subsystems is
/// the successful settings load out of the starting state.
pub proof fn lemma_launch_needs_settings(s: ProcessState, e: ProcessEvent)
    ensures
        spec_process_step(s, e).1 is LaunchSubsystems ==> (s is Starting && e == (
        ProcessEvent::SettingsLoad { ok: true })),
{
}

/// Every failure exits nonzero: a malformed configuration, a bind failure
/// and a gateway task failure each leave the process exited with a nonzero
/// code, and a bind failure terminates on the spot.
pub proof fn lemma_failures_exit_nonzero(s: ProcessState, code: i32)
    requires
        !(s is Exited),
    ensures
        s is Starting ==> (spec_process_step(s, ProcessEvent::SettingsLoad { ok: false })
            matches (ProcessState::Exited { code: c }, ProcessAction::Terminate { code: c2 })
            && c != 0 && c2 == c),
        (s is SettingsLoaded || s is Serving) ==> (spec_process_step(
            s,
            ProcessEvent::HttpBindFailed { code },
        ) matches (ProcessState::Exited { code: c }, ProcessAction::Terminate { code: c2 })
            && c != 0 && c2 == c),
        (s is SettingsLoaded || s is Serving) ==> (spec_process_step(
            s,
            ProcessEvent::GatewayTaskFailed,
        ) matches (ProcessState::Exited { code: c }, ProcessAction::Terminate { code: c2 })
            && c != 0 && c2 == c),
{
}

} // verus!
