use vstd::prelude::*;
use crate::text::{decimal, decimal_of};

verus! {

/// The signal number that an interactive cancellation stands for.
pub const SIGINT: i32 = 2;

/// The exit code reported after the third cancellation request.
pub const ABORT_EXIT_CODE: i32 = 32;

/// The exit code reported for a signal outside the usual POSIX range.
pub const UNKNOWN_SIGNAL_EXIT_CODE: i32 = 125;

/// What a terminal status sample reported about how the remote process ended.
#[derive(Clone, Copy, Debug, PartialEq, Eq)]
pub struct Termination {
    pub exited: bool,
    pub exitcode: Option<i64>,
    pub signal: Option<i64>,
}

/// The exit code that the controller reports for a termination, given how
/// many cancellation requests were seen. Rules apply in order: an exit code
/// reported together with a signal; any cancellation, as 128 + SIGINT; an
/// exit code alone; a signal alone, as 128 + signal inside 1..127 and 125
/// outside; 0 when nothing was reported. A loop that ends without a terminal
/// status reports 1.
pub open spec fn exit_code_spec(t: Termination, cancellations: nat) -> int {
    if !t.exited {
        1
    } else if t.exitcode is Some && t.signal is Some {
        t.exitcode->0 as i32 as int
    } else if cancellations > 0 {
        128 + SIGINT
    } else {
        match (t.exitcode, t.signal) {
            (Some(code), _) => code as i32 as int,
            (None, Some(s)) => if 0 < s < 128 { 128 + s } else { UNKNOWN_SIGNAL_EXIT_CODE as int },
            (None, None) => 0,
        }
    }
}

/// Maps a termination and the number of cancellations seen to the exit code.
pub fn exit_code(t: Termination, cancellations: u8) -> (r: i32)
    ensures
        r == exit_code_spec(t, cancellations as nat),
{
    if !t.exited {
        1
    } else {
        match (t.exitcode, t.signal) {
            (Some(code), Some(_)) => code as i32,
            _ => if cancellations > 0 {
                128 + SIGINT
            } else {
                match (t.exitcode, t.signal) {
                    (Some(code), _) => code as i32,
                    (None, Some(s)) => if s > 0 && s < 128 { 128 + s as i32 } else { UNKNOWN_SIGNAL_EXIT_CODE },
                    (None, None) => 0,
                }
            },
        }
    }
}

/// The guest OS families that the termination commands tell apart.
#[derive(Clone, Copy, Debug, PartialEq, Eq)]
pub enum OsFamily {
    Windows,
    Other,
}

/// The family of a guest, from the identity that the guest agent reports.
pub open spec fn os_family_spec(id: Option<Seq<char>>) -> OsFamily {
    match id {
        Some(s) => if s == "mswindows"@ { OsFamily::Windows } else { OsFamily::Other },
        None => OsFamily::Other,
    }
}

/// Classifies the OS identity reported by the guest agent.
pub fn os_family(id: &Option<String>) -> (r: OsFamily)
    ensures
        r == os_family_spec(
            match id {
                Some(s) => Some(s@),
                None => None,
            },
        ),
{
    match id {
        Some(s) => {
            let windows = String::from_str("mswindows");
            if *s == windows {
                OsFamily::Windows
            } else {
                OsFamily::Other
            }
        },
        None => OsFamily::Other,
    }
}

/// A command to run inside the guest, without input and without capturing output.
#[derive(Debug)]
pub struct GuestCommand {
    pub path: String,
    pub args: Vec<String>,
}

impl GuestCommand {
    pub open spec fn args_view(&self) -> Seq<Seq<char>> {
        self.args@.map_values(|a: String| a@)
    }
}

/// The program that stops a process inside a guest of the given family.
pub open spec fn kill_path(os: OsFamily) -> Seq<char> {
    match os {
        OsFamily::Windows => "powershell.exe"@,
        OsFamily::Other => "kill"@,
    }
}

/// The arguments of the command that stops process `pid`.
pub open spec fn kill_args(pid: int, os: OsFamily, force: bool) -> Seq<Seq<char>> {
    match os {
        OsFamily::Windows => seq![
            "-Command"@,
            "Stop-Process -Id "@ + decimal_of(pid) + if force { " -Force"@ } else { Seq::empty() },
        ],
        OsFamily::Other => if force {
            seq!["-KILL"@, decimal_of(pid)]
        } else {
            seq![decimal_of(pid)]
        },
    }
}

/// Builds the command that stops process `pid` inside the guest, forcefully
/// or not.
pub fn kill_command(pid: i64, os: OsFamily, force: bool) -> (r: GuestCommand)
    ensures
        r.path@ == kill_path(os),
        r.args_view() == kill_args(pid as int, os, force),
{
    let id = decimal(pid);
    match os {
        OsFamily::Windows => {
            let mut script = String::from_str("Stop-Process -Id ");
            script.append(id.as_str());
            if force {
                script.append(" -Force");
            }
            let args = vec![String::from_str("-Command"), script];
            let r = GuestCommand { path: String::from_str("powershell.exe"), args };
            proof {
                reveal_strlit(" -Force");
            }
            assert(r.args_view() =~= kill_args(pid as int, os, force));
            r
        },
        OsFamily::Other => {
            let args = if force {
                vec![String::from_str("-KILL"), id]
            } else {
                vec![id]
            };
            let r = GuestCommand { path: String::from_str("kill"), args };
            assert(r.args_view() =~= kill_args(pid as int, os, force));
            r
        },
    }
}

/// Delay before the first status poll, in milliseconds.
pub const FIRST_POLL_DELAY_MS: u64 = 0;

/// Delay between a status sample and the next poll, in milliseconds.
pub const POLL_INTERVAL_MS: u64 = 5;

/// Delay between a termination command and the next poll, in milliseconds.
pub const AFTER_KILL_DELAY_MS: u64 = 1;

/// One status sample of a remote process.
#[derive(Clone, Copy, Debug, PartialEq, Eq)]
pub struct StatusSample {
    pub termination: Termination,
    pub err_truncated: bool,
    pub out_truncated: bool,
}

/// What the waiting loop observed.
#[derive(Clone, Copy, Debug, PartialEq, Eq)]
pub enum ExecEvent {
    /// The user asked for cancellation.
    Cancel,
    /// The poll timer elapsed.
    TimerElapsed,
    /// The status poll in flight resolved.
    Status(StatusSample),
}

/// What the waiting loop must do next.
#[derive(Clone, Copy, Debug, PartialEq, Eq)]
pub enum ExecAction {
    /// Arm the poll timer to elapse after `delay_ms`.
    Wait { delay_ms: u64 },
    /// Ask the guest for its OS identity, run the matching `kill_command`,
    /// then arm the poll timer to elapse after `delay_ms`.
    Terminate { force: bool, delay_ms: u64 },
    /// Issue a status poll; none is in flight.
    Poll,
    /// A status poll is in flight: wait for its reply, which arms the timer
    /// again, and issue nothing.
    AwaitStatus,
    /// Write the sample's captured stderr, then its stdout, then arm the
    /// poll timer to elapse after `delay_ms`.
    Output { delay_ms: u64 },
    /// Write the sample's captured stderr, then its stdout, warn of each
    /// truncated stream, and finish with `code`.
    Finished { code: i32, err_truncated: bool, out_truncated: bool },
    /// Stop waiting at once, with no further host call, and finish with `code`.
    Abort { code: i32 },
    /// Nothing: the controller has already finished.
    Idle,
}

/// How one event moves controller `c` to `n` and what it asks for.
pub open spec fn step_post(c: ExecController, event: ExecEvent, n: ExecController, r: ExecAction) -> bool {
    &&& c.done_spec() ==> r == ExecAction::Idle && n == c
    &&& !c.done_spec() ==> match event {
        ExecEvent::Cancel => {
            &&& n.cancellations_spec() == c.cancellations_spec() + 1
            &&& n.polling_spec() == c.polling_spec()
            &&& if c.cancellations_spec() == 0 {
                r == (ExecAction::Terminate { force: false, delay_ms: AFTER_KILL_DELAY_MS })
                    && !n.done_spec()
            } else if c.cancellations_spec() == 1 {
                r == (ExecAction::Terminate { force: true, delay_ms: AFTER_KILL_DELAY_MS })
                    && !n.done_spec()
            } else {
                r == (ExecAction::Abort { code: ABORT_EXIT_CODE }) && n.done_spec()
            }
        },
        ExecEvent::TimerElapsed => {
            &&& n.cancellations_spec() == c.cancellations_spec()
            &&& !n.done_spec()
            &&& n.polling_spec()
            &&& if c.polling_spec() { r == ExecAction::AwaitStatus } else { r == ExecAction::Poll }
        },
        ExecEvent::Status(s) => {
            &&& n.cancellations_spec() == c.cancellations_spec()
            &&& !n.polling_spec()
            &&& if s.termination.exited {
                r == (ExecAction::Finished {
                    code: exit_code_spec(s.termination, c.cancellations_spec()) as i32,
                    err_truncated: s.err_truncated,
                    out_truncated: s.out_truncated,
                }) && n.done_spec()
            } else {
                r == (ExecAction::Output { delay_ms: POLL_INTERVAL_MS }) && !n.done_spec()
            }
        },
    }
}

/// The decisions of an interactive remote process wait: cancellation
/// escalation, poll scheduling and the final exit code.
#[derive(Clone, Copy, Debug)]
pub struct ExecController {
    cancellations: u8,
    done: bool,
    polling: bool,
}

impl ExecController {
    /// How many cancellation requests were seen.
    pub closed spec fn cancellations_spec(&self) -> nat {
        self.cancellations as nat
    }

    /// Whether the controller has finished.
    pub closed spec fn done_spec(&self) -> bool {
        self.done
    }

    /// Whether a status poll is in flight.
    pub closed spec fn polling_spec(&self) -> bool {
        self.polling
    }

    pub closed spec fn wf(&self) -> bool {
        self.cancellations <= 3 && (self.cancellations == 3 ==> self.done)
    }

    /// A controller that has seen nothing yet.
    pub fn new() -> (r: ExecController)
        ensures
            r.wf(),
            r.cancellations_spec() == 0,
            !r.done_spec(),
            !r.polling_spec(),
    {
        ExecController { cancellations: 0, done: false, polling: false }
    }

    /// How many cancellation requests were seen.
    pub fn cancellations(&self) -> (r: u8)
        ensures
            r as nat == self.cancellations_spec(),
    {
        self.cancellations
    }

    /// Whether the controller has finished.
    pub fn is_done(&self) -> (r: bool)
        ensures
            r == self.done_spec(),
    {
        self.done
    }

    /// The first action once the process was started: finish at once with
    /// exit code 0 when no waiting was asked for, else arm the first poll.
    pub fn start(&mut self, no_wait: bool) -> (r: ExecAction)
        requires
            old(self).wf(),
            !old(self).done_spec(),
            old(self).cancellations_spec() == 0,
            !old(self).polling_spec(),
        ensures
            final(self).wf(),
            final(self).cancellations_spec() == 0,
            !final(self).polling_spec(),
            no_wait ==> r == (ExecAction::Finished { code: 0, err_truncated: false, out_truncated: false })
                && final(self).done_spec(),
            !no_wait ==> r == (ExecAction::Wait { delay_ms: FIRST_POLL_DELAY_MS })
                && !final(self).done_spec(),
    {
        if no_wait {
            self.done = true;
            ExecAction::Finished { code: 0, err_truncated: false, out_truncated: false }
        } else {
            ExecAction::Wait { delay_ms: FIRST_POLL_DELAY_MS }
        }
    }

    /// Decides what to do on one event of the waiting loop.
    pub fn step(&mut self, event: ExecEvent) -> (r: ExecAction)
        requires
            old(self).wf(),
        ensures
            final(self).wf(),
            step_post(*old(self), event, *final(self), r),
    {
        if self.done {
            return ExecAction::Idle;
        }
        match event {
            ExecEvent::Cancel => {
                self.cancellations = self.cancellations + 1;
                if self.cancellations == 1 {
                    ExecAction::Terminate { force: false, delay_ms: AFTER_KILL_DELAY_MS }
                } else if self.cancellations == 2 {
                    ExecAction::Terminate { force: true, delay_ms: AFTER_KILL_DELAY_MS }
                } else {
                    self.done = true;
                    ExecAction::Abort { code: ABORT_EXIT_CODE }
                }
            },
            ExecEvent::TimerElapsed => {
                if self.polling {
                    ExecAction::AwaitStatus
                } else {
                    self.polling = true;
                    ExecAction::Poll
                }
            },
            ExecEvent::Status(s) => {
                self.polling = false;
                if s.termination.exited {
                    self.done = true;
                    ExecAction::Finished {
                        code: exit_code(s.termination, self.cancellations),
                        err_truncated: s.err_truncated,
                        out_truncated: s.out_truncated,
                    }
                } else {
                    ExecAction::Output { delay_ms: POLL_INTERVAL_MS }
                }
            },
        }
    }
}

/// Once a third cancellation request arrives the controller finishes with
/// the abort exit code, and whatever happens afterwards it asks for no
/// further host call.
pub proof fn lemma_third_cancel_aborts(
    c: ExecController,
    n: ExecController,
    r: ExecAction,
    later: ExecEvent,
    m: ExecController,
    r2: ExecAction,
)
    requires
        c.wf(),
        c.cancellations_spec() == 2,
        !c.done_spec(),
        step_post(c, ExecEvent::Cancel, n, r),
        step_post(n, later, m, r2),
    ensures
        r == (ExecAction::Abort { code: 32 }),
        r2 == ExecAction::Idle,
        m == n,
{
}

/// After any cancellation the exit code is 128 + SIGINT, whatever the remote
/// process reported, unless it reported both an exit code and a signal.
pub proof fn lemma_cancellation_exit_code(t: Termination, cancellations: nat)
    requires
        t.exited,
        !(t.exitcode is Some && t.signal is Some),
        cancellations > 0,
    ensures
        exit_code_spec(t, cancellations) == 130,
{
}

/// Where the input handed to a remote process comes from.
#[derive(Debug, PartialEq, Eq)]
pub enum InputSource {
    /// No input.
    Nothing,
    /// The caller's own standard input.
    Stdin,
    /// The named local file.
    File(String),
}

/// The input source named by an optional path, where `-` stands for the
/// caller's standard input.
pub fn input_source(path: Option<String>) -> (r: InputSource)
    ensures
        match path {
            None => r == InputSource::Nothing,
            Some(p) => if p@ == "-"@ { r == InputSource::Stdin } else { r == InputSource::File(p) },
        },
{
    match path {
        None => InputSource::Nothing,
        Some(p) => {
            let dash = String::from_str("-");
            if p == dash {
                InputSource::Stdin
            } else {
                InputSource::File(p)
            }
        },
    }
}

} // verus!
