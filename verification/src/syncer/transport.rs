//! The transfer of a table's directory to the remote server: the command to
//! run, and what to do when it fails.

use vstd::prelude::*;
use vstd::string::StringExecFns;
use crate::common::text::{decimal, push_decimal};
use crate::syncer::config::RemoteServerConfig;

verus! {

/// Two to the power of `n`.
pub open spec fn pow2(n: nat) -> nat
    decreases n,
{
    if n == 0 {
        1
    } else {
        2 * pow2((n - 1) as nat)
    }
}

/// The seconds to wait before retry number `attempt`, counted from 1: the
/// first delay, doubled for each retry before it.
pub open spec fn backoff(initial: nat, attempt: nat) -> nat {
    initial * pow2((attempt - 1) as nat)
}

pub proof fn lemma_pow2_positive(n: nat)
    ensures
        pow2(n) >= 1,
    decreases n,
{
    if n > 0 {
        lemma_pow2_positive((n - 1) as nat);
    }
}

/// Each retry waits twice as long as the one before it.
pub proof fn lemma_backoff_doubles(initial: nat, attempt: nat)
    requires
        attempt >= 1,
    ensures
        backoff(initial, attempt + 1) == 2 * backoff(initial, attempt),
        backoff(initial, 1) == initial,
{
    assert(pow2(attempt) == 2 * pow2((attempt - 1) as nat));
    assert(initial * (2 * pow2((attempt - 1) as nat)) == 2 * (initial * pow2(
        (attempt - 1) as nat,
    ))) by (nonlinear_arith);
    assert(pow2(0) == 1);
    assert(initial * 1 == initial) by (nonlinear_arith);
    assert(backoff(initial, 1) == initial * pow2(0));
}

/// What follows an attempt to transfer.
#[derive(Debug, Clone, Copy, PartialEq, Eq, Structural)]
pub enum NextStep {
    /// The attempt succeeded: the transfer is done.
    Done,
    /// The attempt failed: wait, then make retry number `attempt`.
    Retry { attempt: usize, delay_seconds: u64 },
    /// The attempt failed and no retry is left: the transfer has failed with
    /// the error of this attempt.
    GiveUp,
}

/// The command of one attempt.
#[derive(Debug, Clone, PartialEq, Eq)]
pub struct SyncCommand {
    pub program: String,
    pub arguments: Vec<String>,
}

/// The remote shell of a transfer: `ssh` with the port, the key and the
/// options that keep the connection alive.
pub open spec fn ssh_options_text(port: u16, key: Seq<char>) -> Seq<char> {
    "ssh -p "@ + decimal(port as nat) + " -i "@ + key
        + " -o ConnectTimeout=30 -o ServerAliveInterval=60 -o ServerAliveCountMax=3 -o TCPKeepAlive=yes"@
}

/// The source of a transfer: the directory with a `/` after it, so that what
/// it holds is transferred and not the directory itself.
pub open spec fn source_text(local_dir: Seq<char>) -> Seq<char> {
    local_dir + "/"@
}

/// The destination of a transfer: `<user>@<host>:<path>`.
pub open spec fn destination_text(config: RemoteServerConfig) -> Seq<char> {
    config.username@ + "@"@ + config.address@ + ":"@ + config.remote_path@
}

/// The arguments of one attempt.
pub open spec fn arguments_text(local_dir: Seq<char>, config: RemoteServerConfig) -> Seq<
    Seq<char>,
> {
    seq![
        "-avz"@,
        "--progress"@,
        "--partial"@,
        "--timeout=3000"@,
        "--bwlimit=2048"@,
        "-e"@,
        ssh_options_text(config.port, config.private_key_path@),
        source_text(local_dir),
        destination_text(config),
    ]
}

/// Transfers directories with `rsync`, and tries again when that fails.
#[derive(Debug, Clone, Copy, PartialEq, Eq, Structural)]
pub struct RsyncTransport {
    /// How often a failed transfer is tried again.
    pub max_retries: usize,
    /// The seconds to wait before the first retry.
    pub initial_retry_delay: u64,
}

impl RsyncTransport {
    /// A transport that tries again five times, first after five seconds.
    pub fn new() -> (transport: RsyncTransport)
        ensures
            transport.max_retries == 5,
            transport.initial_retry_delay == 5,
    {
        RsyncTransport { max_retries: 5, initial_retry_delay: 5 }
    }

    pub fn with_retry_config(max_retries: usize, initial_retry_delay: u64) -> (transport:
        RsyncTransport)
        ensures
            transport.max_retries == max_retries,
            transport.initial_retry_delay == initial_retry_delay,
    {
        RsyncTransport { max_retries, initial_retry_delay }
    }

    /// The seconds to wait before retry number `attempt`, counted from 1, or
    /// nothing where they are more than 64 bits can hold.
    pub fn retry_delay(&self, attempt: usize) -> (delay: Option<u64>)
        requires
            attempt >= 1,
        ensures
            match delay {
                Some(seconds) => seconds == backoff(self.initial_retry_delay as nat,
                    attempt as nat),
                None => backoff(self.initial_retry_delay as nat, attempt as nat) > u64::MAX,
            },
    {
        let mut delay: u64 = self.initial_retry_delay;
        let mut done: usize = 1;
        proof {
            lemma_backoff_doubles(self.initial_retry_delay as nat, 1);
        }
        while done < attempt
            invariant
                1 <= done <= attempt,
                delay == backoff(self.initial_retry_delay as nat, done as nat),
            decreases attempt - done,
        {
            proof {
                lemma_backoff_doubles(self.initial_retry_delay as nat, done as nat);
            }
            if delay > u64::MAX / 2 {
                proof {
                    lemma_backoff_grows(
                        self.initial_retry_delay as nat,
                        (done + 1) as nat,
                        attempt as nat,
                    );
                }
                return None;
            }
            delay = delay * 2;
            done = done + 1;
        }
        Some(delay)
    }

    /// What follows attempt number `attempt`, the first attempt being number
    /// 0: nothing after a success; after a failure the next retry, with its
    /// delay, as long as fewer than `max_retries` retries have been made.
    pub fn after_attempt(&self, attempt: usize, succeeded: bool) -> (next: NextStep)
        requires
            !succeeded && attempt < self.max_retries ==> backoff(
                self.initial_retry_delay as nat,
                (attempt + 1) as nat,
            ) <= u64::MAX,
        ensures
            succeeded ==> next == NextStep::Done,
            !succeeded && attempt >= self.max_retries ==> next == NextStep::GiveUp,
            !succeeded && attempt < self.max_retries ==> next == (NextStep::Retry {
                attempt: (attempt + 1) as usize,
                delay_seconds: backoff(self.initial_retry_delay as nat,
                    (attempt + 1) as nat) as u64,
            }),
    {
        if succeeded {
            NextStep::Done
        } else if attempt >= self.max_retries {
            NextStep::GiveUp
        } else {
            match self.retry_delay(attempt + 1) {
                Some(delay_seconds) => NextStep::Retry { attempt: attempt + 1, delay_seconds },
                None => NextStep::GiveUp,
            }
        }
    }

    /// The remote shell of a transfer.
    pub fn ssh_options(port: u16, private_key_path: &str) -> (text: String)
        ensures
            text@ == ssh_options_text(port, private_key_path@),
    {
        let mut text = String::from_str("ssh -p ");
        push_decimal(&mut text, port as u64);
        text.append(" -i ");
        text.append(private_key_path);
        text.append(
            " -o ConnectTimeout=30 -o ServerAliveInterval=60 -o ServerAliveCountMax=3 -o TCPKeepAlive=yes",
        );
        text
    }

    /// The command that transfers what `local_dir` holds to the place that
    /// `remote_config` names.
    pub fn sync_command(&self, local_dir: &str, remote_config: &RemoteServerConfig) -> (command:
        SyncCommand)
        ensures
            command.program@ == "rsync"@,
            command.arguments@.len() == 9,
            forall|i: int|
                0 <= i < 9 ==> (#[trigger] command.arguments@[i])@ == arguments_text(
                    local_dir@,
                    *remote_config,
                )[i],
    {
        let source = String::from_str(local_dir).concat("/");
        let destination = String::from_str(remote_config.username.as_str()).concat("@").concat(
            remote_config.address.as_str(),
        ).concat(":").concat(remote_config.remote_path.as_str());
        let mut arguments: Vec<String> = Vec::new();
        arguments.push(String::from_str("-avz"));
        arguments.push(String::from_str("--progress"));
        arguments.push(String::from_str("--partial"));
        arguments.push(String::from_str("--timeout=3000"));
        arguments.push(String::from_str("--bwlimit=2048"));
        arguments.push(String::from_str("-e"));
        arguments.push(
            Self::ssh_options(remote_config.port, remote_config.private_key_path.as_str()),
        );
        arguments.push(source);
        arguments.push(destination);
        SyncCommand { program: String::from_str("rsync"), arguments }
    }
}

impl Default for RsyncTransport {
    fn default() -> (transport: RsyncTransport)
        ensures
            transport.max_retries == 5,
            transport.initial_retry_delay == 5,
    {
        RsyncTransport::new()
    }
}

/// A later retry waits at least as long as an earlier one.
pub proof fn lemma_backoff_grows(initial: nat, earlier: nat, later: nat)
    requires
        1 <= earlier <= later,
    ensures
        backoff(initial, earlier) <= backoff(initial, later),
    decreases later - earlier,
{
    if earlier < later {
        lemma_backoff_grows(initial, earlier + 1, later);
        lemma_backoff_doubles(initial, earlier);
    }
}

} // verus!
