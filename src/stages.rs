//! What each measurement stage does on the two machines of a pair, as a
//! plan of remote commands, waits and file transfers.
use vstd::prelude::*;
use crate::layout::{artifact_path, artifact_path_spec, completion_markers_spec, stage_complete_on, stage_dir_spec, Stage};
use crate::template::{fill, fill_spec};
use crate::topology::Node;

verus! {

/// Starts the outbox daemon on the receiver: interface, inbox address, home.
pub const OUTBOX_START: &'static str = "cd ~/tools/bundler && sudo screen -d -m bash -c \"./target/debug/outbox --filter=\\\"dst portrange 5000-6000\\\" --iface={} --inbox {}:28316 --sample_rate=64 > {}/outbox.out 2> {}/outbox.out\"";

/// Starts the inbox daemon on the sender: interface, queue type, queue
/// length, home.
pub const INBOX_START: &'static str = "cd ~/tools/bundler && sudo screen -d -m bash -c \"./target/debug/inbox --iface={} --port 28316 --sample_rate=128 --qtype={} --buffer={} > {}/inbox.out 2> {}/inbox.out\"";

/// Starts the congestion-control daemon on the sender: home.
pub const NIMBUS_START: &'static str = "cd ~/tools/nimbus && sudo screen -d -m bash -c \"./target/debug/nimbus --ipc=unix --use_switching=true --loss_mode=Bundle --delay_mode=Nimbus --flow_mode=XTCP --bw_est_mode=true --bundler_qlen_alpha=100 --bundler_qlen_beta=10000 --bundler_qlen=100 > {}/ccp.out 2> {}/ccp.out\"";

/// Starts the throughput server on the receiver.
pub const IPERF_SERVER_START: &'static str = "screen -d -m bash -c \"iperf -s -p 5001 > ~/iperf_server.out 2> ~/iperf_server.out\"";

/// Starts the latency-probe server on the receiver.
pub const UDPING_SERVER_START: &'static str = "cd ~/tools/udping && screen -d -m ./target/debug/udping_server -p 5999";

/// Starts the latency probe on the sender: receiver address, home.
pub const UDPING_CLIENT_START: &'static str = "cd ~/tools/udping && screen -d -m bash -c \"./target/debug/udping_client -c {} -p 5999 > {}/udping_receiver.out 2> {}/udping_receiver.out\"";

/// Starts the bandwidth monitor on the receiver: interface, home.
pub const BMON_START: &'static str = "screen -d -m bash -c \"stdbuf -o0 bmon -p {} -b -o format:fmt='\\$(element:name) \\$(attr:rxrate:bytes)\n' > {}/bmon.out\"";

/// Starts the bandwidth monitor of the control stage, which also keeps its
/// errors: interface, home.
pub const BMON_CONTROL_START: &'static str = "screen -d -m bash -c \"stdbuf -o0 bmon -p {} -b -o format:fmt='\\$(element:name) \\$(attr:rxrate:bytes)\n' > {}/bmon.out 2> {}/bmon.out\"";

/// Starts the first throughput generator on the sender: receiver address, home.
pub const IPERF_CLIENT_1_START: &'static str = "screen -d -m bash -c \"iperf -c {} -p 5001 -t 60 -i 1 -P 10 > {}/iperf_client_1.out 2> {}/iperf_client_1.out\"";

/// Starts the second throughput generator on the sender: receiver address, home.
pub const IPERF_CLIENT_START: &'static str = "screen -d -m bash -c \"iperf -c {} -p 5001 -t 60 -i 1 -P 10 > {}/iperf_client.out 2> {}/iperf_client.out\"";

/// Seconds the daemons are given to come up.
pub const SETTLE_SECS: u64 = 5;

/// Seconds the throughput generators run before logs are collected.
pub const RUN_SECS: u64 = 90;

/// Seconds the control stage measures.
pub const CONTROL_SECS: u64 = 60;

/// The machine of a pair that a step addresses.
#[derive(PartialEq, Eq, Structural, Clone, Copy, Debug)]
pub enum Role {
    Sender,
    Receiver,
}

/// One step of a stage.
#[derive(Clone, Debug)]
pub enum Step {
    /// Runs a shell command on one machine.
    Run { on: Role, command: String },
    /// Waits for a fixed time.
    Sleep { secs: u64 },
    /// Copies a remote file to a local path, overwriting it.
    Fetch { on: Role, remote: String, local: String },
}

/// A step with its strings as sequences.
pub enum StepView {
    Run { on: Role, command: Seq<char> },
    Sleep { secs: u64 },
    Fetch { on: Role, remote: Seq<char>, local: Seq<char> },
}

impl View for Step {
    type V = StepView;

    open spec fn view(&self) -> StepView {
        match self {
            Step::Run { on, command } => StepView::Run { on: *on, command: command@ },
            Step::Sleep { secs } => StepView::Sleep { secs: *secs },
            Step::Fetch { on, remote, local } => StepView::Fetch {
                on: *on,
                remote: remote@,
                local: local@,
            },
        }
    }
}

pub open spec fn plan_view(p: Seq<Step>) -> Seq<StepView> {
    p.map_values(|s: Step| s@)
}

pub open spec fn run_v(on: Role, t: &str, args: Seq<Seq<char>>) -> StepView {
    StepView::Run { on, command: fill_spec(t@, args) }
}

/// Fetches `<home>/<remote>` into `<out_dir>/<local>`.
pub open spec fn fetch_v(on: Role, home: Seq<char>, remote: &str, out_dir: Seq<char>, local: &str) -> StepView {
    StepView::Fetch {
        on,
        remote: artifact_path_spec(home, remote@),
        local: artifact_path_spec(out_dir, local@),
    }
}

/// The control stage: latency probe and bandwidth monitor only, measured for
/// a minute, then their logs are fetched.
pub open spec fn control_plan(out_dir: Seq<char>, s: Node, r: Node, s_home: Seq<char>, r_home: Seq<char>) -> Seq<StepView> {
    seq![
        run_v(Role::Receiver, UDPING_SERVER_START, seq![]),
        run_v(Role::Sender, UDPING_CLIENT_START, seq![r.ip@, s_home, s_home]),
        run_v(Role::Receiver, BMON_CONTROL_START, seq![r.iface@, r_home, r_home]),
        StepView::Sleep { secs: CONTROL_SECS },
        fetch_v(Role::Sender, s_home, "udping_receiver.out", out_dir, "udping.log"),
        fetch_v(Role::Receiver, r_home, "bmon.out", out_dir, "bmon.log"),
    ]
}

/// The traffic part of the iperf and bundler stages: servers, probe and
/// monitor, a warm-up, two throughput generators, the run, then the logs.
pub open spec fn iperf_plan(out_dir: Seq<char>, s: Node, r: Node, s_home: Seq<char>, r_home: Seq<char>) -> Seq<StepView> {
    seq![
        run_v(Role::Receiver, IPERF_SERVER_START, seq![]),
        run_v(Role::Receiver, UDPING_SERVER_START, seq![]),
        run_v(Role::Sender, UDPING_CLIENT_START, seq![r.ip@, s_home, s_home]),
        run_v(Role::Receiver, BMON_START, seq![r.iface@, r_home]),
        StepView::Sleep { secs: SETTLE_SECS },
        run_v(Role::Sender, IPERF_CLIENT_1_START, seq![r.ip@, s_home, s_home]),
        run_v(Role::Sender, IPERF_CLIENT_START, seq![r.ip@, s_home, s_home]),
        StepView::Sleep { secs: RUN_SECS },
        fetch_v(Role::Sender, s_home, "iperf_client.out", out_dir, "iperf_client.log"),
        fetch_v(Role::Sender, s_home, "iperf_client_1.out", out_dir, "iperf_client_1.log"),
        fetch_v(Role::Sender, s_home, "udping_receiver.out", out_dir, "udping.log"),
        fetch_v(Role::Receiver, r_home, "iperf_server.out", out_dir, "iperf_server.log"),
        fetch_v(Role::Receiver, r_home, "bmon.out", out_dir, "bmon.log"),
    ]
}

/// The bundler stage: the queue-management pair and the congestion-control
/// daemon come up first, the traffic part follows, and the daemons' logs are
/// fetched with the rest.
pub open spec fn bundler_plan(
    out_dir: Seq<char>,
    s: Node,
    r: Node,
    s_home: Seq<char>,
    r_home: Seq<char>,
    qtype: Seq<char>,
    qlen: Seq<char>,
) -> Seq<StepView> {
    seq![
        run_v(Role::Receiver, OUTBOX_START, seq![r.iface@, s.ip@, r_home, r_home]),
        run_v(Role::Sender, INBOX_START, seq![s.iface@, qtype, qlen, s_home, s_home]),
        StepView::Sleep { secs: SETTLE_SECS },
        run_v(Role::Sender, NIMBUS_START, seq![s_home, s_home]),
        StepView::Sleep { secs: SETTLE_SECS },
    ] + iperf_plan(out_dir, s, r, s_home, r_home) + seq![
        fetch_v(Role::Sender, s_home, "inbox.out", out_dir, "inbox.log"),
        fetch_v(Role::Sender, s_home, "ccp.out", out_dir, "nimbus.log"),
        fetch_v(Role::Receiver, r_home, "outbox.out", out_dir, "outbox.log"),
    ]
}

fn run_step(on: Role, t: &str, args: &Vec<&str>) -> (r: Step)
    ensures
        r@ == run_v(on, t, crate::template::views_of(args@)),
{
    Step::Run { on, command: fill(t, args) }
}

fn fetch_step(on: Role, home: &str, remote: &str, out_dir: &str, local: &str) -> (r: Step)
    ensures
        r@ == fetch_v(on, home@, remote, out_dir@, local),
{
    Step::Fetch { on, remote: artifact_path(home, remote), local: artifact_path(out_dir, local) }
}

/// The steps of the control stage, writing into `out_dir`.
pub fn nobundler_exp_control(out_dir: &str, sender: &Node, receiver: &Node, sender_home: &str, receiver_home: &str) -> (r: Vec<Step>)
    ensures
        plan_view(r@) == control_plan(out_dir@, *sender, *receiver, sender_home@, receiver_home@),
{
    let none: Vec<&str> = Vec::new();
    let client_args = vec![receiver.ip.as_str(), sender_home, sender_home];
    let bmon_args = vec![receiver.iface.as_str(), receiver_home, receiver_home];
    assert(crate::template::views_of(none@) =~= seq![]);
    assert(crate::template::views_of(client_args@) =~= seq![receiver.ip@, sender_home@, sender_home@]);
    assert(crate::template::views_of(bmon_args@) =~= seq![receiver.iface@, receiver_home@, receiver_home@]);
    let mut r: Vec<Step> = Vec::new();
    r.push(run_step(Role::Receiver, UDPING_SERVER_START, &none));
    r.push(run_step(Role::Sender, UDPING_CLIENT_START, &client_args));
    r.push(run_step(Role::Receiver, BMON_CONTROL_START, &bmon_args));
    r.push(Step::Sleep { secs: CONTROL_SECS });
    r.push(fetch_step(Role::Sender, sender_home, "udping_receiver.out", out_dir, "udping.log"));
    r.push(fetch_step(Role::Receiver, receiver_home, "bmon.out", out_dir, "bmon.log"));
    assert(plan_view(r@) =~= control_plan(out_dir@, *sender, *receiver, sender_home@, receiver_home@));
    r
}

/// The steps of the iperf stage, writing into `out_dir`.
pub fn nobundler_exp_iperf(out_dir: &str, sender: &Node, receiver: &Node, sender_home: &str, receiver_home: &str) -> (r: Vec<Step>)
    ensures
        plan_view(r@) == iperf_plan(out_dir@, *sender, *receiver, sender_home@, receiver_home@),
{
    let none: Vec<&str> = Vec::new();
    let client_args = vec![receiver.ip.as_str(), sender_home, sender_home];
    let bmon_args = vec![receiver.iface.as_str(), receiver_home];
    assert(crate::template::views_of(none@) =~= seq![]);
    assert(crate::template::views_of(client_args@) =~= seq![receiver.ip@, sender_home@, sender_home@]);
    assert(crate::template::views_of(bmon_args@) =~= seq![receiver.iface@, receiver_home@]);
    let mut r: Vec<Step> = Vec::new();
    r.push(run_step(Role::Receiver, IPERF_SERVER_START, &none));
    r.push(run_step(Role::Receiver, UDPING_SERVER_START, &none));
    r.push(run_step(Role::Sender, UDPING_CLIENT_START, &client_args));
    r.push(run_step(Role::Receiver, BMON_START, &bmon_args));
    r.push(Step::Sleep { secs: SETTLE_SECS });
    r.push(run_step(Role::Sender, IPERF_CLIENT_1_START, &client_args));
    r.push(run_step(Role::Sender, IPERF_CLIENT_START, &client_args));
    r.push(Step::Sleep { secs: RUN_SECS });
    r.push(fetch_step(Role::Sender, sender_home, "iperf_client.out", out_dir, "iperf_client.log"));
    r.push(fetch_step(Role::Sender, sender_home, "iperf_client_1.out", out_dir, "iperf_client_1.log"));
    r.push(fetch_step(Role::Sender, sender_home, "udping_receiver.out", out_dir, "udping.log"));
    r.push(fetch_step(Role::Receiver, receiver_home, "iperf_server.out", out_dir, "iperf_server.log"));
    r.push(fetch_step(Role::Receiver, receiver_home, "bmon.out", out_dir, "bmon.log"));
    assert(plan_view(r@) =~= iperf_plan(out_dir@, *sender, *receiver, sender_home@, receiver_home@));
    r
}

/// The steps of the bundler stage, writing into `out_dir`, with the inbox
/// queue of type `inbox_qtype` and length `inbox_qlen`.
pub fn bundler_exp_iperf(
    out_dir: &str,
    sender: &Node,
    receiver: &Node,
    sender_home: &str,
    receiver_home: &str,
    inbox_qtype: &str,
    inbox_qlen: &str,
) -> (r: Vec<Step>)
    ensures
        plan_view(r@) == bundler_plan(
            out_dir@,
            *sender,
            *receiver,
            sender_home@,
            receiver_home@,
            inbox_qtype@,
            inbox_qlen@,
        ),
{
    let outbox_args = vec![receiver.iface.as_str(), sender.ip.as_str(), receiver_home, receiver_home];
    let inbox_args = vec![sender.iface.as_str(), inbox_qtype, inbox_qlen, sender_home, sender_home];
    let nimbus_args = vec![sender_home, sender_home];
    assert(crate::template::views_of(outbox_args@) =~= seq![receiver.iface@, sender.ip@, receiver_home@, receiver_home@]);
    assert(crate::template::views_of(inbox_args@) =~= seq![sender.iface@, inbox_qtype@, inbox_qlen@, sender_home@, sender_home@]);
    assert(crate::template::views_of(nimbus_args@) =~= seq![sender_home@, sender_home@]);
    let mut r: Vec<Step> = Vec::new();
    r.push(run_step(Role::Receiver, OUTBOX_START, &outbox_args));
    r.push(run_step(Role::Sender, INBOX_START, &inbox_args));
    r.push(Step::Sleep { secs: SETTLE_SECS });
    r.push(run_step(Role::Sender, NIMBUS_START, &nimbus_args));
    r.push(Step::Sleep { secs: SETTLE_SECS });
    let mut traffic = nobundler_exp_iperf(out_dir, sender, receiver, sender_home, receiver_home);
    r.append(&mut traffic);
    r.push(fetch_step(Role::Sender, sender_home, "inbox.out", out_dir, "inbox.log"));
    r.push(fetch_step(Role::Sender, sender_home, "ccp.out", out_dir, "nimbus.log"));
    r.push(fetch_step(Role::Receiver, receiver_home, "outbox.out", out_dir, "outbox.log"));
    assert(plan_view(r@) =~= bundler_plan(
        out_dir@,
        *sender,
        *receiver,
        sender_home@,
        receiver_home@,
        inbox_qtype@,
        inbox_qlen@,
    ));
    r
}

/// The plan fetches some file into `<out_dir>/<file>`.
pub open spec fn collects(plan: Seq<StepView>, out_dir: Seq<char>, file: Seq<char>) -> bool {
    exists|i: int| 0 <= i < plan.len() && #[trigger] fetches_to(plan[i], artifact_path_spec(out_dir, file))
}

/// The step fetches a file into `path`.
pub open spec fn fetches_to(step: StepView, path: Seq<char>) -> bool {
    step matches StepView::Fetch { local, .. } && local == path
}

/// Every stage fetches each of its completion markers into its own
/// directory, so a stage that ran to the end is found complete afterwards.
pub proof fn lemma_stages_collect_markers(
    out_dir: Seq<char>,
    s: Node,
    r: Node,
    s_home: Seq<char>,
    r_home: Seq<char>,
    qtype: Seq<char>,
    qlen: Seq<char>,
    i: int,
)
    requires
        0 <= i < crate::layout::completion_markers_spec().len(),
    ensures
        collects(control_plan(out_dir, s, r, s_home, r_home), out_dir, crate::layout::completion_markers_spec()[i]),
        collects(iperf_plan(out_dir, s, r, s_home, r_home), out_dir, crate::layout::completion_markers_spec()[i]),
        collects(bundler_plan(out_dir, s, r, s_home, r_home, qtype, qlen), out_dir, crate::layout::completion_markers_spec()[i]),
{
    let c = control_plan(out_dir, s, r, s_home, r_home);
    let p = iperf_plan(out_dir, s, r, s_home, r_home);
    let b = bundler_plan(out_dir, s, r, s_home, r_home, qtype, qlen);
    if i == 0 {
        let path = artifact_path_spec(out_dir, "bmon.log"@);
        assert(fetches_to(c[5], path));
        assert(fetches_to(p[12], path));
        assert(b[17] == p[12]);
        assert(fetches_to(b[17], path));
    } else {
        let path = artifact_path_spec(out_dir, "udping.log"@);
        assert(fetches_to(c[4], path));
        assert(fetches_to(p[10], path));
        assert(b[15] == p[10]);
        assert(fetches_to(b[15], path));
    }
}

/// The steps of `stage`, writing into `out_dir`; the bundler stage uses a
/// stochastic fair queue of 1000 mbit.
pub fn stage_plan(stage: Stage, out_dir: &str, sender: &Node, receiver: &Node, sender_home: &str, receiver_home: &str) -> (r: Vec<Step>)
    ensures
        plan_view(r@) == plan_of(stage, out_dir@, *sender, *receiver, sender_home@, receiver_home@),
{
    match stage {
        Stage::Control => nobundler_exp_control(out_dir, sender, receiver, sender_home, receiver_home),
        Stage::Iperf => nobundler_exp_iperf(out_dir, sender, receiver, sender_home, receiver_home),
        Stage::Bundler => bundler_exp_iperf(out_dir, sender, receiver, sender_home, receiver_home, "sfq", "1000mbit"),
    }
}

/// The plan of `stage` as `stage_plan` builds it, into `out_dir`.
pub open spec fn plan_of(stage: Stage, out_dir: Seq<char>, s: Node, r: Node, s_home: Seq<char>, r_home: Seq<char>) -> Seq<StepView> {
    match stage {
        Stage::Control => control_plan(out_dir, s, r, s_home, r_home),
        Stage::Iperf => iperf_plan(out_dir, s, r, s_home, r_home),
        Stage::Bundler => bundler_plan(out_dir, s, r, s_home, r_home, "sfq"@, "1000mbit"@),
    }
}

/// A stage that ran to the end in its directory, every fetch of its plan
/// having landed on disk, is found complete by the next completion check:
/// this is what lets a later run skip it.
pub proof fn lemma_finished_stage_is_complete(
    disk: Set<Seq<char>>,
    from: Seq<char>,
    to: Seq<char>,
    stage: Stage,
    s: Node,
    r: Node,
    s_home: Seq<char>,
    r_home: Seq<char>,
)
    requires
        disk.contains(stage_dir_spec(from, to, stage)),
        forall|i: int, p: Seq<char>|
            0 <= i < plan_of(stage, stage_dir_spec(from, to, stage), s, r, s_home, r_home).len()
                && #[trigger] fetches_to(plan_of(stage, stage_dir_spec(from, to, stage), s, r, s_home, r_home)[i], p)
                ==> disk.contains(p),
    ensures
        stage_complete_on(disk, from, to, stage),
{
    let dir = stage_dir_spec(from, to, stage);
    let plan = plan_of(stage, dir, s, r, s_home, r_home);
    assert forall|k: int| 0 <= k < completion_markers_spec().len() implies disk.contains(
        #[trigger] artifact_path_spec(dir, completion_markers_spec()[k]),
    ) by {
        lemma_stages_collect_markers(dir, s, r, s_home, r_home, "sfq"@, "1000mbit"@, k);
        let path = artifact_path_spec(dir, completion_markers_spec()[k]);
        assert(collects(plan, dir, completion_markers_spec()[k]));
        let i = choose|i: int| 0 <= i < plan.len() && #[trigger] fetches_to(plan[i], path);
        assert(fetches_to(plan[i], path));
    }
}

} // verus!
