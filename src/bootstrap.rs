//! The bootstrap of a fresh machine as a state machine: package
//! installation (retried), kernel and network tuning, fetching the tools
//! (cloning, or updating a checkout already there) and building them.
use vstd::prelude::*;
use crate::provision::{retry_decision, retry_spec, RetryDecision, INSTALL_ATTEMPTS};
use crate::topology::Endpoint;

verus! {

pub const APT_UPDATE: &'static str = "sudo apt update";

pub const APT_INSTALL: &'static str = "sudo apt update && sudo DEBIAN_FRONTEND=noninteractive apt install -y build-essential bmon iperf coreutils git automake autoconf libtool";

pub const TOOLS_CLONE: &'static str = "git clone --recursive https://github.com/bundler-project/tools";

pub const TOOLS_PULL: &'static str = "cd tools && git pull origin master && git submodule update --init --recursive";

pub const SYSCTL_IP_FORWARD: &'static str = "sudo sysctl -w net.ipv4.ip_forward=1";

pub const SYSCTL_TCP_WMEM: &'static str = "sudo sysctl -w net.ipv4.tcp_wmem=\"4096000 50331648 50331648\"";

pub const SYSCTL_TCP_RMEM: &'static str = "sudo sysctl -w net.ipv4.tcp_rmem=\"4096000 50331648 50331648\"";

pub const SYSCTL_TCP_LIMIT_OUTPUT: &'static str = "sudo sysctl -w net.ipv4.tcp_limit_output_bytes=\"250000000\"";

pub const TOOLS_CHECKOUT: &'static str = "cd ~/tools/bundler && git checkout no_dst_ip";

pub const TOOLS_BUILD: &'static str = "make -C tools";

pub const UDPING_BUILD: &'static str = "make -C tools udping/target/debug/udping_server udping/target/debug/udping_client";

/// Which bootstrap a machine gets.
#[derive(PartialEq, Eq, Structural, Clone, Copy, Debug)]
pub enum Flavor {
    /// A cloud instance: forwarding and buffer tuning, the full tool build.
    Cloud,
    /// A bare-metal host: receive buffers and output limit, the probe only.
    Bare,
}

/// A command of the bootstrap.
#[derive(PartialEq, Eq, Structural, Clone, Copy, Debug)]
pub enum Command {
    AptUpdate,
    AptInstall,
    Tune(usize),
    Clone,
    Pull,
    Build(usize),
}

/// Why a bootstrap failed.
#[derive(PartialEq, Eq, Structural, Clone, Copy, Debug)]
pub enum ProvisionError {
    /// Package installation failed on each of this many attempts.
    Install { attempts: u32 },
    /// This command failed.
    Command(Command),
}

/// Where a bootstrap stands.
#[derive(PartialEq, Eq, Structural, Clone, Copy, Debug)]
pub enum SetupState {
    /// Attempt `attempt` of installation; `second` once the package lists
    /// are updated.
    Install { attempt: u32, second: bool },
    /// Waiting after the failed attempt `attempt`.
    Backoff(u32),
    Tune(usize),
    Cloning,
    Pulling,
    Build(usize),
    Ready,
    Failed(ProvisionError),
}

/// What the driver of a bootstrap does next.
#[derive(PartialEq, Eq, Structural, Clone, Copy, Debug)]
pub enum SetupAction {
    /// Run the command and report whether it succeeded.
    Run(Command),
    /// Wait this many milliseconds, then report.
    Pause(u64),
    /// The machine is ready.
    Ready,
    /// The bootstrap failed.
    Fail(ProvisionError),
}

pub open spec fn tuning_len(f: Flavor) -> nat {
    match f {
        Flavor::Cloud => 3,
        Flavor::Bare => 2,
    }
}

pub open spec fn build_len(f: Flavor) -> nat {
    match f {
        Flavor::Cloud => 2,
        Flavor::Bare => 1,
    }
}

/// The text of a bootstrap command.
pub open spec fn command_spec(f: Flavor, c: Command) -> Option<Seq<char>> {
    match (f, c) {
        (_, Command::AptUpdate) => Some(APT_UPDATE@),
        (_, Command::AptInstall) => Some(APT_INSTALL@),
        (_, Command::Clone) => Some(TOOLS_CLONE@),
        (_, Command::Pull) => Some(TOOLS_PULL@),
        (Flavor::Cloud, Command::Tune(0)) => Some(SYSCTL_IP_FORWARD@),
        (Flavor::Cloud, Command::Tune(1)) => Some(SYSCTL_TCP_WMEM@),
        (Flavor::Cloud, Command::Tune(2)) => Some(SYSCTL_TCP_RMEM@),
        (Flavor::Bare, Command::Tune(0)) => Some(SYSCTL_TCP_RMEM@),
        (Flavor::Bare, Command::Tune(1)) => Some(SYSCTL_TCP_LIMIT_OUTPUT@),
        (Flavor::Cloud, Command::Build(0)) => Some(TOOLS_CHECKOUT@),
        (Flavor::Cloud, Command::Build(1)) => Some(TOOLS_BUILD@),
        (Flavor::Bare, Command::Build(0)) => Some(UDPING_BUILD@),
        _ => None,
    }
}

/// The text of a bootstrap command; `None` for a command the flavor lacks.
pub fn command_text(f: Flavor, c: Command) -> (r: Option<String>)
    ensures
        r matches Some(t) ==> command_spec(f, c) == Some(t@),
        r is None ==> command_spec(f, c) is None,
{
    let t: Option<&str> = match (f, c) {
        (_, Command::AptUpdate) => Some(APT_UPDATE),
        (_, Command::AptInstall) => Some(APT_INSTALL),
        (_, Command::Clone) => Some(TOOLS_CLONE),
        (_, Command::Pull) => Some(TOOLS_PULL),
        (Flavor::Cloud, Command::Tune(0)) => Some(SYSCTL_IP_FORWARD),
        (Flavor::Cloud, Command::Tune(1)) => Some(SYSCTL_TCP_WMEM),
        (Flavor::Cloud, Command::Tune(2)) => Some(SYSCTL_TCP_RMEM),
        (Flavor::Bare, Command::Tune(0)) => Some(SYSCTL_TCP_RMEM),
        (Flavor::Bare, Command::Tune(1)) => Some(SYSCTL_TCP_LIMIT_OUTPUT),
        (Flavor::Cloud, Command::Build(0)) => Some(TOOLS_CHECKOUT),
        (Flavor::Cloud, Command::Build(1)) => Some(TOOLS_BUILD),
        (Flavor::Bare, Command::Build(0)) => Some(UDPING_BUILD),
        _ => None,
    };
    match t {
        Some(s) => Some(String::from_str(s)),
        None => None,
    }
}

/// A state the machine can be in.
pub open spec fn setup_valid(f: Flavor, st: SetupState) -> bool {
    match st {
        SetupState::Install { attempt, .. } => 1 <= attempt <= INSTALL_ATTEMPTS,
        SetupState::Backoff(a) => 1 <= a < INSTALL_ATTEMPTS,
        SetupState::Tune(i) => i < tuning_len(f),
        SetupState::Build(i) => i < build_len(f),
        _ => true,
    }
}

/// The first state and action of a bootstrap.
pub open spec fn begin_spec() -> (SetupState, SetupAction) {
    (SetupState::Install { attempt: 1, second: false }, SetupAction::Run(Command::AptUpdate))
}

pub fn install_basic_packages() -> (r: (SetupState, SetupAction))
    ensures
        r == begin_spec(),
{
    (SetupState::Install { attempt: 1, second: false }, SetupAction::Run(Command::AptUpdate))
}

/// The transition taken when the last action reported `ok`.
pub open spec fn setup_step_spec(f: Flavor, st: SetupState, ok: bool) -> (SetupState, SetupAction) {
    match st {
        SetupState::Install { attempt, second } => if ok && !second {
            (SetupState::Install { attempt, second: true }, SetupAction::Run(Command::AptInstall))
        } else {
            match retry_spec(attempt as nat, ok) {
                RetryDecision::Succeeded => (SetupState::Tune(0), SetupAction::Run(Command::Tune(0))),
                RetryDecision::RetryAfter(ms) => (SetupState::Backoff(attempt), SetupAction::Pause(ms)),
                RetryDecision::GaveUp => (
                    SetupState::Failed(ProvisionError::Install { attempts: attempt }),
                    SetupAction::Fail(ProvisionError::Install { attempts: attempt }),
                ),
            }
        },
        SetupState::Backoff(a) => (
            SetupState::Install { attempt: (a + 1) as u32, second: false },
            SetupAction::Run(Command::AptUpdate),
        ),
        SetupState::Tune(i) => if !ok {
            fail_spec(Command::Tune(i))
        } else if i + 1 < tuning_len(f) {
            (SetupState::Tune((i + 1) as usize), SetupAction::Run(Command::Tune((i + 1) as usize)))
        } else {
            (SetupState::Cloning, SetupAction::Run(Command::Clone))
        },
        SetupState::Cloning => if ok {
            (SetupState::Build(0), SetupAction::Run(Command::Build(0)))
        } else {
            (SetupState::Pulling, SetupAction::Run(Command::Pull))
        },
        SetupState::Pulling => if ok {
            (SetupState::Build(0), SetupAction::Run(Command::Build(0)))
        } else {
            fail_spec(Command::Pull)
        },
        SetupState::Build(i) => if !ok {
            fail_spec(Command::Build(i))
        } else if i + 1 < build_len(f) {
            (SetupState::Build((i + 1) as usize), SetupAction::Run(Command::Build((i + 1) as usize)))
        } else {
            (SetupState::Ready, SetupAction::Ready)
        },
        SetupState::Ready => (SetupState::Ready, SetupAction::Ready),
        SetupState::Failed(e) => (SetupState::Failed(e), SetupAction::Fail(e)),
    }
}

pub open spec fn fail_spec(c: Command) -> (SetupState, SetupAction) {
    (SetupState::Failed(ProvisionError::Command(c)), SetupAction::Fail(ProvisionError::Command(c)))
}

fn tuning_count(f: Flavor) -> (r: usize)
    ensures
        r == tuning_len(f),
{
    match f {
        Flavor::Cloud => 3,
        Flavor::Bare => 2,
    }
}

fn build_count(f: Flavor) -> (r: usize)
    ensures
        r == build_len(f),
{
    match f {
        Flavor::Cloud => 2,
        Flavor::Bare => 1,
    }
}

/// Advances a bootstrap once the last action reported `ok`. A failed
/// clone means the tools are already there: the checkout is updated instead.
pub fn get_tools(f: Flavor, st: SetupState, ok: bool) -> (r: (SetupState, SetupAction))
    requires
        setup_valid(f, st),
    ensures
        r == setup_step_spec(f, st, ok),
        setup_valid(f, r.0),
{
    match st {
        SetupState::Install { attempt, second } => if ok && !second {
            (SetupState::Install { attempt, second: true }, SetupAction::Run(Command::AptInstall))
        } else {
            match retry_decision(attempt, ok) {
                RetryDecision::Succeeded => (SetupState::Tune(0), SetupAction::Run(Command::Tune(0))),
                RetryDecision::RetryAfter(ms) => (SetupState::Backoff(attempt), SetupAction::Pause(ms)),
                RetryDecision::GaveUp => (
                    SetupState::Failed(ProvisionError::Install { attempts: attempt }),
                    SetupAction::Fail(ProvisionError::Install { attempts: attempt }),
                ),
            }
        },
        SetupState::Backoff(a) => (
            SetupState::Install { attempt: a + 1, second: false },
            SetupAction::Run(Command::AptUpdate),
        ),
        SetupState::Tune(i) => if !ok {
            (SetupState::Failed(ProvisionError::Command(Command::Tune(i))), SetupAction::Fail(ProvisionError::Command(Command::Tune(i))))
        } else if i + 1 < tuning_count(f) {
            (SetupState::Tune(i + 1), SetupAction::Run(Command::Tune(i + 1)))
        } else {
            (SetupState::Cloning, SetupAction::Run(Command::Clone))
        },
        SetupState::Cloning => if ok {
            (SetupState::Build(0), SetupAction::Run(Command::Build(0)))
        } else {
            (SetupState::Pulling, SetupAction::Run(Command::Pull))
        },
        SetupState::Pulling => if ok {
            (SetupState::Build(0), SetupAction::Run(Command::Build(0)))
        } else {
            (SetupState::Failed(ProvisionError::Command(Command::Pull)), SetupAction::Fail(ProvisionError::Command(Command::Pull)))
        },
        SetupState::Build(i) => if !ok {
            (SetupState::Failed(ProvisionError::Command(Command::Build(i))), SetupAction::Fail(ProvisionError::Command(Command::Build(i))))
        } else if i + 1 < build_count(f) {
            (SetupState::Build(i + 1), SetupAction::Run(Command::Build(i + 1)))
        } else {
            (SetupState::Ready, SetupAction::Ready)
        },
        SetupState::Ready => (SetupState::Ready, SetupAction::Ready),
        SetupState::Failed(e) => (SetupState::Failed(e), SetupAction::Fail(e)),
    }
}

/// The bootstrap an endpoint gets: bare-metal hosts their own, cloud
/// machines the other.
pub fn flavor_of(e: &Endpoint) -> (r: Flavor)
    ensures
        r == (if e is Baremetal { Flavor::Bare } else { Flavor::Cloud }),
{
    match e {
        Endpoint::Baremetal { .. } => Flavor::Bare,
        _ => Flavor::Cloud,
    }
}

/// In the bootstrap, a failed installation attempt before the last is
/// followed by a pause and a fresh attempt; a failure on the last attempt
/// ends the bootstrap with the installation error, so no attempt past the
/// allowed number is ever made; a good attempt moves on to the tuning.
pub proof fn lemma_setup_install_retries(f: Flavor, attempt: u32, second: bool)
    requires
        1 <= attempt <= INSTALL_ATTEMPTS,
    ensures
        attempt < INSTALL_ATTEMPTS ==> setup_step_spec(f, SetupState::Install { attempt, second }, false) == (
            SetupState::Backoff(attempt),
            SetupAction::Pause(crate::provision::RETRY_DELAY_MS),
        ),
        attempt < INSTALL_ATTEMPTS ==> setup_step_spec(f, SetupState::Backoff(attempt), true) == (
            SetupState::Install { attempt: (attempt + 1) as u32, second: false },
            SetupAction::Run(Command::AptUpdate),
        ),
        attempt == INSTALL_ATTEMPTS ==> setup_step_spec(f, SetupState::Install { attempt, second }, false) == (
            SetupState::Failed(ProvisionError::Install { attempts: attempt }),
            SetupAction::Fail(ProvisionError::Install { attempts: attempt }),
        ),
        setup_step_spec(f, SetupState::Install { attempt, second: true }, true) == (
            SetupState::Tune(0),
            SetupAction::Run(Command::Tune(0)),
        ),
        forall|st: SetupState, ok: bool| setup_valid(f, st) ==> setup_valid(f, #[trigger] setup_step_spec(f, st, ok).0),
{
}

} // verus!
