use vstd::prelude::*;

verus! {

/// How to reach the host's socket.
#[derive(Debug)]
pub struct ConnectionArgs {
    pub socket: String,
    /// Wait for the socket to appear before connecting.
    pub wait: bool,
    /// Bound on that wait, in seconds; none means wait indefinitely.
    pub timeout_seconds: Option<u64>,
}

impl ConnectionArgs {
    /// The wait for the socket: `None` when no wait was asked for, else its
    /// bound in seconds, if any.
    pub fn timeout(&self) -> (r: Option<Option<u64>>)
        ensures
            r == if self.wait { Some(self.timeout_seconds) } else { None::<Option<u64>> },
    {
        if self.wait {
            Some(self.timeout_seconds)
        } else {
            None
        }
    }
}

/// How the guest is asked to shut down.
#[derive(Clone, Copy, Debug, PartialEq, Eq)]
pub enum Mode {
    Powerdown,
    /// Halt immediately.
    Halt,
    Reboot,
}

/// A liveness probe of the guest agent.
#[derive(Clone, Copy, Debug, PartialEq, Eq)]
pub struct Ping {
    /// Keep trying until the agent answers.
    pub repeat: bool,
    /// Bound on the whole probe, in seconds; none means wait indefinitely.
    pub timeout_seconds: Option<u64>,
}

/// How long one ping attempt may take before the channel is resynchronised.
pub const PING_ATTEMPT_SECONDS: u64 = 1;

/// How one ping attempt ended.
#[derive(Clone, Copy, Debug, PartialEq, Eq)]
pub enum PingAttempt {
    Answered,
    Failed,
    TimedOut,
}

/// What a repeated ping does next.
#[derive(Clone, Copy, Debug, PartialEq, Eq)]
pub enum PingStep {
    /// Send a synchronisation request with `value`, bounded by
    /// `PING_ATTEMPT_SECONDS`, then ping again.
    Resync { value: i32 },
    /// The agent answered.
    Done,
    /// The ping failed; pass its error on.
    Fail,
}

impl Ping {
    /// The bound on the whole probe, in seconds.
    pub fn timeout(&self) -> (r: Option<u64>)
        ensures
            r == self.timeout_seconds,
    {
        self.timeout_seconds
    }

    /// Decides what a repeated ping does after one attempt; `sync_value`
    /// is the next synchronisation value, which a resync consumes.
    pub fn after_attempt(&self, attempt: PingAttempt, sync_value: &mut i32) -> (r: PingStep)
        ensures
            match attempt {
                PingAttempt::Answered => r == PingStep::Done && *final(sync_value) == *old(sync_value),
                PingAttempt::Failed => r == PingStep::Fail && *final(sync_value) == *old(sync_value),
                PingAttempt::TimedOut => r == (PingStep::Resync { value: *old(sync_value) })
                    && *final(sync_value) as int == if *old(sync_value) == i32::MAX {
                        i32::MIN as int
                    } else {
                        *old(sync_value) + 1
                    },
            },
    {
        match attempt {
            PingAttempt::Answered => PingStep::Done,
            PingAttempt::Failed => PingStep::Fail,
            PingAttempt::TimedOut => {
                let value = *sync_value;
                *sync_value = if value == i32::MAX {
                    i32::MIN
                } else {
                    value + 1
                };
                PingStep::Resync { value }
            },
        }
    }
}

} // verus!
