use cloud::bootstrap::{command_text, flavor_of, Command, Flavor, ProvisionError, SetupAction, SetupState};
use cloud::layout::{all_stages, artifact_path, check_path, is_stage_complete, pair_dir, probe_paths, stage_dir, Stage};
use cloud::lock_order::{acquisition, lock_order, name_lt, LockOrder};
use cloud::pipeline::{start, step, Action, PairOutcome, PairState};
use cloud::provision::{node_for, retry_decision, Registry, RetryDecision};
use cloud::remote::{home_from_output, pick_iface, reset_commands, split_lines, IfaceError};
use cloud::stages::{stage_plan, Role, Step};
use cloud::summary::summarize;
use cloud::template::fill;
use cloud::topology::{Endpoint, ExperimentPair};
use cloud::{
    bundler_exp_iperf, get_home, get_iface_name, get_tools, iface_name, install_basic_packages, nobundler_exp_control,
    nobundler_exp_iperf, pkill, Node,
};

fn bare(name: &str) -> Endpoint {
    Endpoint::Baremetal {
        name: name.to_string(),
        ip: format!("10.0.0.{}", name.len()),
        user: "exp".to_string(),
        iface: "em1".to_string(),
    }
}

fn node(name: &str, ip: &str, iface: &str, user: &str) -> Node {
    Node { name: name.to_string(), ip: ip.to_string(), iface: iface.to_string(), user: user.to_string() }
}

/// Runs one pair's pipeline to the end: `complete` and `works` answer for each
/// stage. Returns every action taken.
fn drive(from: &str, to: &str, complete: [bool; 3], works: [bool; 3]) -> Vec<Action> {
    let idx = |s: Stage| match s {
        Stage::Control => 0,
        Stage::Iperf => 1,
        Stage::Bundler => 2,
    };
    let (mut st, mut a) = start(from, to);
    let mut actions = vec![a];
    while !matches!(a, Action::Finish(_)) {
        let ok = match st {
            PairState::Checking(s) => complete[idx(s)],
            PairState::Running(s) => works[idx(s)],
            _ => true,
        };
        let (st2, a2) = step(st, ok);
        st = st2;
        a = a2;
        actions.push(a);
        assert!(actions.len() < 100);
    }
    actions
}

/// Drives a bootstrap where installation attempts fail or succeed as
/// `install_ok` says and every other command succeeds; returns the actions.
fn drive_setup(flavor: Flavor, install_ok: &[bool]) -> Vec<SetupAction> {
    let (mut st, mut a) = install_basic_packages();
    let mut actions = vec![a];
    let mut attempt = 0usize;
    loop {
        match a {
            SetupAction::Ready | SetupAction::Fail(_) => break,
            _ => {}
        }
        let ok = match (st, a) {
            (SetupState::Install { .. }, SetupAction::Run(Command::AptUpdate)) => {
                attempt += 1;
                install_ok.get(attempt - 1).copied().unwrap_or(false)
            }
            _ => true,
        };
        let (st2, a2) = get_tools(flavor, st, ok);
        st = st2;
        a = a2;
        actions.push(a);
        assert!(actions.len() < 1000);
    }
    actions
}

#[test]
fn iface() {
    let out = r"1: lo    inet 127.0.0.1/8 scope host lo\       valid_lft forever preferred_lft forever
2: em1    inet 18.26.5.2/23 brd 18.26.5.255 scope global em1\       valid_lft forever preferred_lft forever".to_string();
    assert_eq!(iface_name(&out).unwrap(), "em1");
}

#[test]
fn iface_only_loopback_is_an_error() {
    let out = "1: lo0    inet 127.0.0.1/8 scope host lo\n";
    assert_eq!(iface_name(out), Ok("lo0".to_string()));
    assert_eq!(iface_name("nothing here\n"), Err(IfaceError::NoMatchingInterfaces));
    assert_eq!(iface_name(""), Err(IfaceError::NoMatchingInterfaces));
}

#[test]
fn pick_iface_skips_loopback_and_misses() {
    let caps = vec![None, Some("lo".to_string()), Some("ens5".to_string()), Some("em1".to_string())];
    assert_eq!(pick_iface(&caps), Ok("ens5".to_string()));
    assert_eq!(pick_iface(&vec![Some("lo".to_string()), None]), Err(IfaceError::NoMatchingInterfaces));
    assert_eq!(pick_iface(&vec![]), Err(IfaceError::NoMatchingInterfaces));
}

#[test]
fn split_lines_keeps_order_and_drops_empty_tail() {
    assert_eq!(split_lines("a\nbc\n"), vec!["a".to_string(), "bc".to_string()]);
    assert_eq!(split_lines("a\n\nb"), vec!["a".to_string(), "".to_string(), "b".to_string()]);
    assert!(split_lines("").is_empty());
}

#[test]
fn home_is_trimmed_output() {
    assert_eq!(home_from_output("  /home/exp\n"), "/home/exp");
    assert_eq!(get_home("exp"), "echo ~exp");
}

#[test]
fn simple_commands() {
    assert_eq!(pkill("iperf"), "pkill -9 iperf");
    assert_eq!(get_iface_name(), "bash -c \"ip -o addr | awk '{print $2}'\"");
    let reset = reset_commands();
    assert_eq!(reset.len(), 6);
    assert_eq!(reset[0], "pkill -9 iperf");
    assert_eq!(reset[5], "pkill -9 nimbus");
}

#[test]
fn fill_replaces_placeholders_in_order() {
    assert_eq!(fill("{} and {}", &vec!["a", "b"]), "a and b");
    assert_eq!(fill("x{}y{}", &vec!["1"]), "x1y{}");
    assert_eq!(fill("no holes", &vec!["unused"]), "no holes");
    assert_eq!(fill("{", &vec!["a"]), "{");
}

#[test]
fn canonical_names() {
    let aws = Endpoint::Aws { region: "us-east-1".to_string() };
    let az = Endpoint::Azure { region: "west-us-2".to_string() };
    assert_eq!(aws.get_name(), "aws_useast1");
    assert_eq!(az.get_name(), "az_westus2");
    assert_eq!(bare("h1").get_name(), "h1");
}

#[test]
fn lock_order_is_ascending_by_name() {
    assert_eq!(lock_order("h1", "h2"), LockOrder::FromFirst);
    assert_eq!(lock_order("h2", "h1"), LockOrder::ToFirst);
    assert_eq!(lock_order("h2", "h2"), LockOrder::Skip);
    assert_eq!(lock_order("ab", "a"), LockOrder::ToFirst);
    assert!(name_lt("", "a"));
    assert!(!name_lt("b", "a"));
    assert_eq!(acquisition("h3", "h2"), Some(("h2".to_string(), "h3".to_string())));
    assert_eq!(acquisition("h1", "h1"), None);
}

#[test]
fn shared_endpoint_takes_its_lock_by_one_rule() {
    // (a, b) and (b, c) share b: each takes the smaller name first.
    assert_eq!(acquisition("a", "b"), Some(("a".to_string(), "b".to_string())));
    assert_eq!(acquisition("b", "c"), Some(("b".to_string(), "c".to_string())));
    assert_eq!(acquisition("c", "b"), Some(("b".to_string(), "c".to_string())));
    assert_eq!(acquisition("b", "a"), Some(("a".to_string(), "b".to_string())));
}

#[test]
fn directories_of_a_pair() {
    assert_eq!(pair_dir("h1", "h2"), "./h1-h2");
    assert_eq!(stage_dir("h1", "h2", Stage::Control), "./h1-h2/control");
    assert_eq!(stage_dir("h2", "h3", Stage::Bundler), "./h2-h3/bundler");
    assert_eq!(artifact_path("./h1-h2/iperf", "bmon.log"), "./h1-h2/iperf/bmon.log");
    assert_eq!(
        probe_paths("h1", "h2", Stage::Iperf),
        vec!["./h1-h2/iperf".to_string(), "./h1-h2/iperf/bmon.log".to_string(), "./h1-h2/iperf/udping.log".to_string()]
    );
}

fn listing(paths: &[&str]) -> Vec<String> {
    paths.iter().map(|p| p.to_string()).collect()
}

#[test]
fn completion_needs_directory_and_every_marker() {
    let full = listing(&["./h1-h2/control", "./h1-h2/control/bmon.log", "./h1-h2/control/udping.log"]);
    assert!(is_stage_complete(&full, "h1", "h2", Stage::Control));
    assert!(!is_stage_complete(&full, "h1", "h2", Stage::Iperf));
    let partial = listing(&["./h1-h2/control", "./h1-h2/control/bmon.log"]);
    assert!(!is_stage_complete(&partial, "h1", "h2", Stage::Control));
    let no_dir = listing(&["./h1-h2/control/bmon.log", "./h1-h2/control/udping.log"]);
    assert!(!is_stage_complete(&no_dir, "h1", "h2", Stage::Control));
}

#[test]
fn completion_check_is_idempotent() {
    let full = listing(&["./a-b/bundler", "./a-b/bundler/bmon.log", "./a-b/bundler/udping.log"]);
    for _ in 0..3 {
        assert!(is_stage_complete(&full, "a", "b", Stage::Bundler));
    }
}

#[test]
fn whole_pair_check_agrees_with_stages() {
    let mut all = Vec::new();
    for s in all_stages() {
        all.extend(probe_paths("h1", "h2", s));
    }
    assert!(!check_path(&all, "h1", "h2"));
    all.pop();
    assert!(check_path(&all, "h1", "h2"));
    assert!(check_path(&vec![], "h1", "h2"));
}

#[test]
fn degenerate_pair_is_skipped() {
    let actions = drive("h1", "h1", [false; 3], [true; 3]);
    assert_eq!(actions, vec![Action::Finish(PairOutcome::Skipped)]);
}

#[test]
fn full_pair_run() {
    let actions = drive("h2", "h1", [false; 3], [true; 3]);
    assert_eq!(actions[0], Action::Acquire(LockOrder::ToFirst));
    for s in all_stages() {
        assert!(actions.contains(&Action::Run(s)));
    }
    assert_eq!(actions.iter().filter(|a| **a == Action::Reset).count(), 4);
    assert_eq!(actions[actions.len() - 2], Action::Release);
    assert_eq!(*actions.last().unwrap(), Action::Finish(PairOutcome::Done));
}

#[test]
fn resume_skips_completed_control() {
    // First run: control succeeds, iperf fails.
    let first = drive("h1", "h2", [false; 3], [true, false, true]);
    assert!(first.contains(&Action::Run(Stage::Control)));
    assert_eq!(*first.last().unwrap(), Action::Finish(PairOutcome::Aborted(Stage::Iperf)));
    assert_eq!(first[first.len() - 2], Action::Release);
    // Second run: control's markers are on disk, iperf's are not.
    let second = drive("h1", "h2", [true, false, false], [true; 3]);
    assert!(!second.contains(&Action::Run(Stage::Control)));
    assert!(second.contains(&Action::Run(Stage::Iperf)));
    assert_eq!(*second.last().unwrap(), Action::Finish(PairOutcome::Done));
}

#[test]
fn partial_failure_is_isolated() {
    let outcomes: Vec<PairOutcome> = [
        drive("a", "b", [false; 3], [true; 3]),
        drive("b", "c", [false; 3], [true, true, false]),
        drive("c", "d", [false; 3], [true; 3]),
    ]
    .iter()
    .map(|t| match t.last().unwrap() {
        Action::Finish(o) => *o,
        other => panic!("run ended on {:?}", other),
    })
    .collect();
    assert_eq!(outcomes[0], PairOutcome::Done);
    assert_eq!(outcomes[1], PairOutcome::Aborted(Stage::Bundler));
    assert_eq!(outcomes[2], PairOutcome::Done);
    let s = summarize(&outcomes);
    assert_eq!((s.done, s.skipped, s.failed), (2, 0, 1));
}

#[test]
fn summary_counts_skipped() {
    let s = summarize(&vec![PairOutcome::Skipped, PairOutcome::Done, PairOutcome::Aborted(Stage::Control)]);
    assert_eq!((s.done, s.skipped, s.failed), (1, 1, 1));
    let e = summarize(&vec![]);
    assert_eq!((e.done, e.skipped, e.failed), (0, 0, 0));
}

#[test]
fn two_chained_pairs_scenario() {
    let pairs = vec![
        ExperimentPair { from: bare("h1"), to: bare("h2") },
        ExperimentPair { from: bare("h2"), to: bare("h3") },
    ];
    let mut reg = Registry::new();
    let mut dirs = Vec::new();
    for p in &pairs {
        let f = reg.register_node(p.from.clone());
        let t = reg.register_node(p.to.clone());
        assert_eq!(lock_order(&f, &t), LockOrder::FromFirst);
        let actions = drive(&f, &t, [false; 3], [true; 3]);
        assert_eq!(*actions.last().unwrap(), Action::Finish(PairOutcome::Done));
        for s in all_stages() {
            dirs.push(stage_dir(&f, &t, s));
        }
    }
    assert_eq!(reg.len(), 3);
    assert_eq!(
        dirs,
        vec![
            "./h1-h2/control",
            "./h1-h2/iperf",
            "./h1-h2/bundler",
            "./h2-h3/control",
            "./h2-h3/iperf",
            "./h2-h3/bundler"
        ]
    );
    // Each stage's plan fetches its markers into its directory.
    let s = node("h1", "10.0.0.1", "em1", "exp");
    let r = node("h2", "10.0.0.2", "em2", "exp");
    for st in all_stages() {
        let dir = stage_dir("h1", "h2", st);
        let locals: Vec<String> = stage_plan(st, &dir, &s, &r, "/home/exp", "/home/exp")
            .into_iter()
            .filter_map(|step| match step {
                Step::Fetch { local, .. } => Some(local),
                _ => None,
            })
            .collect();
        assert!(locals.contains(&format!("{}/bmon.log", dir)));
        assert!(locals.contains(&format!("{}/udping.log", dir)));
    }
}

#[test]
fn registry_deduplicates_by_name() {
    let mut reg = Registry::new();
    assert_eq!(reg.register_node(Endpoint::Aws { region: "us-east-1".to_string() }), "aws_useast1");
    assert_eq!(reg.register_node(Endpoint::Aws { region: "useast-1".to_string() }), "aws_useast1");
    assert_eq!(reg.register_node(bare("h1")), "h1");
    assert_eq!(reg.len(), 2);
    assert_eq!(reg.find("h1"), Some(1));
    assert_eq!(reg.find("h9"), None);
    let (name, e) = reg.entry(0);
    assert_eq!(name, "aws_useast1");
    assert_eq!(flavor_of(e), Flavor::Cloud);
}

#[test]
fn node_defaults() {
    let cloud = node_for(&Endpoint::Azure { region: "east-us".to_string() }, "1.2.3.4");
    assert_eq!((cloud.name.as_str(), cloud.ip.as_str(), cloud.user.as_str(), cloud.iface.as_str()), ("az_eastus", "1.2.3.4", "ubuntu", "ens5"));
    let host = node_for(&bare("h1"), "10.0.0.2");
    assert_eq!((host.user.as_str(), host.iface.as_str()), ("exp", "em1"));
    assert_eq!(flavor_of(&bare("h1")), Flavor::Bare);
}

#[test]
fn retry_decisions() {
    assert_eq!(retry_decision(1, true), RetryDecision::Succeeded);
    assert_eq!(retry_decision(1, false), RetryDecision::RetryAfter(100));
    assert_eq!(retry_decision(14, false), RetryDecision::RetryAfter(100));
    assert_eq!(retry_decision(15, false), RetryDecision::GaveUp);
}

#[test]
fn install_succeeds_on_fifteenth_attempt() {
    let mut outcomes = vec![false; 14];
    outcomes.push(true);
    let actions = drive_setup(Flavor::Bare, &outcomes);
    assert_eq!(*actions.last().unwrap(), SetupAction::Ready);
    let updates = actions.iter().filter(|a| **a == SetupAction::Run(Command::AptUpdate)).count();
    assert_eq!(updates, 15);
    assert_eq!(actions.iter().filter(|a| **a == SetupAction::Pause(100)).count(), 14);
}

#[test]
fn install_gives_up_after_fifteen_failures() {
    let actions = drive_setup(Flavor::Cloud, &[false; 20]);
    assert_eq!(*actions.last().unwrap(), SetupAction::Fail(ProvisionError::Install { attempts: 15 }));
    let updates = actions.iter().filter(|a| **a == SetupAction::Run(Command::AptUpdate)).count();
    assert_eq!(updates, 15);
}

#[test]
fn bootstrap_sequence_and_clone_fallback() {
    let actions = drive_setup(Flavor::Cloud, &[true]);
    assert_eq!(
        actions,
        vec![
            SetupAction::Run(Command::AptUpdate),
            SetupAction::Run(Command::AptInstall),
            SetupAction::Run(Command::Tune(0)),
            SetupAction::Run(Command::Tune(1)),
            SetupAction::Run(Command::Tune(2)),
            SetupAction::Run(Command::Clone),
            SetupAction::Run(Command::Build(0)),
            SetupAction::Run(Command::Build(1)),
            SetupAction::Ready,
        ]
    );
    let (st, a) = get_tools(Flavor::Bare, SetupState::Cloning, false);
    assert_eq!((st, a), (SetupState::Pulling, SetupAction::Run(Command::Pull)));
    let (_, a) = get_tools(Flavor::Bare, SetupState::Pulling, false);
    assert_eq!(a, SetupAction::Fail(ProvisionError::Command(Command::Pull)));
    assert_eq!(command_text(Flavor::Bare, Command::Tune(1)).unwrap(), "sudo sysctl -w net.ipv4.tcp_limit_output_bytes=\"250000000\"");
    assert_eq!(command_text(Flavor::Bare, Command::Tune(2)), None);
    assert_eq!(command_text(Flavor::Cloud, Command::Build(1)).unwrap(), "make -C tools");
}

#[test]
fn control_plan_commands() {
    let s = node("h1", "10.0.0.1", "em1", "exp");
    let r = node("h2", "10.0.0.2", "em2", "exp");
    let plan = nobundler_exp_control("./h1-h2/control", &s, &r, "/home/s", "/home/r");
    assert_eq!(plan.len(), 6);
    match &plan[1] {
        Step::Run { on, command } => {
            assert_eq!(*on, Role::Sender);
            assert_eq!(command, &format!("cd ~/tools/udping && screen -d -m bash -c \"./target/debug/udping_client -c {} -p 5999 > {}/udping_receiver.out 2> {}/udping_receiver.out\"", "10.0.0.2", "/home/s", "/home/s"));
        }
        other => panic!("unexpected {:?}", other),
    }
    match &plan[2] {
        Step::Run { on, command } => {
            assert_eq!(*on, Role::Receiver);
            assert_eq!(command, &format!("screen -d -m bash -c \"stdbuf -o0 bmon -p {} -b -o format:fmt='\\$(element:name) \\$(attr:rxrate:bytes)\n' > {}/bmon.out 2> {}/bmon.out\"", "em2", "/home/r", "/home/r"));
        }
        other => panic!("unexpected {:?}", other),
    }
    assert!(matches!(plan[3], Step::Sleep { secs: 60 }));
    match &plan[5] {
        Step::Fetch { on, remote, local } => {
            assert_eq!(*on, Role::Receiver);
            assert_eq!(remote, "/home/r/bmon.out");
            assert_eq!(local, "./h1-h2/control/bmon.log");
        }
        other => panic!("unexpected {:?}", other),
    }
}

#[test]
fn iperf_and_bundler_plans() {
    let s = node("h1", "10.0.0.1", "em1", "exp");
    let r = node("h2", "10.0.0.2", "em2", "exp");
    let iperf = nobundler_exp_iperf("./d", &s, &r, "/hs", "/hr");
    assert_eq!(iperf.len(), 13);
    match &iperf[5] {
        Step::Run { command, .. } => assert_eq!(
            command,
            "screen -d -m bash -c \"iperf -c 10.0.0.2 -p 5001 -t 60 -i 1 -P 10 > /hs/iperf_client_1.out 2> /hs/iperf_client_1.out\""
        ),
        other => panic!("unexpected {:?}", other),
    }
    assert!(matches!(iperf[7], Step::Sleep { secs: 90 }));
    let bundler = bundler_exp_iperf("./d", &s, &r, "/hs", "/hr", "sfq", "1000mbit");
    assert_eq!(bundler.len(), 21);
    match &bundler[0] {
        Step::Run { on, command } => {
            assert_eq!(*on, Role::Receiver);
            assert_eq!(command, &format!("cd ~/tools/bundler && sudo screen -d -m bash -c \"./target/debug/outbox --filter=\\\"dst portrange 5000-6000\\\" --iface={} --inbox {}:28316 --sample_rate=64 > {}/outbox.out 2> {}/outbox.out\"", "em2", "10.0.0.1", "/hr", "/hr"));
        }
        other => panic!("unexpected {:?}", other),
    }
    match &bundler[1] {
        Step::Run { on, command } => {
            assert_eq!(*on, Role::Sender);
            assert_eq!(command, "cd ~/tools/bundler && sudo screen -d -m bash -c \"./target/debug/inbox --iface=em1 --port 28316 --sample_rate=128 --qtype=sfq --buffer=1000mbit > /hs/inbox.out 2> /hs/inbox.out\"");
        }
        other => panic!("unexpected {:?}", other),
    }
    match &bundler[19] {
        Step::Fetch { remote, local, .. } => {
            assert_eq!(remote, "/hs/ccp.out");
            assert_eq!(local, "./d/nimbus.log");
        }
        other => panic!("unexpected {:?}", other),
    }
}
