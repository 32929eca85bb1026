//! The on-disk layout of results and the completion check that makes a run
//! resumable.
use vstd::prelude::*;

verus! {

/// One phase of a pair's experiment.
#[derive(PartialEq, Eq, Structural, Clone, Copy, Debug)]
pub enum Stage {
    /// Baseline latency and bandwidth, with no traffic generated.
    Control,
    /// Two throughput generators from sender to receiver.
    Iperf,
    /// As `Iperf`, behind the queue-management and congestion-control daemons.
    Bundler,
}

pub open spec fn stage_name(s: Stage) -> Seq<char> {
    match s {
        Stage::Control => "control"@,
        Stage::Iperf => "iperf"@,
        Stage::Bundler => "bundler"@,
    }
}

/// `./<from>-<to>`
pub open spec fn pair_dir_spec(from: Seq<char>, to: Seq<char>) -> Seq<char> {
    "./"@ + from + "-"@ + to
}

/// `./<from>-<to>/<stage>`
pub open spec fn stage_dir_spec(from: Seq<char>, to: Seq<char>, s: Stage) -> Seq<char> {
    pair_dir_spec(from, to) + "/"@ + stage_name(s)
}

/// `<dir>/<file>`
pub open spec fn artifact_path_spec(dir: Seq<char>, file: Seq<char>) -> Seq<char> {
    dir + "/"@ + file
}

/// The files whose presence marks a stage as done: the bandwidth-monitor log
/// and the latency-probe log.
pub open spec fn completion_markers_spec() -> Seq<Seq<char>> {
    seq!["bmon.log"@, "udping.log"@]
}

/// A stage is complete on `disk` (the set of paths that exist) when its
/// directory and each of its marker files exist.
pub open spec fn stage_complete_on(disk: Set<Seq<char>>, from: Seq<char>, to: Seq<char>, s: Stage) -> bool {
    &&& disk.contains(stage_dir_spec(from, to, s))
    &&& forall|i: int|
        0 <= i < completion_markers_spec().len() ==> disk.contains(
            #[trigger] artifact_path_spec(stage_dir_spec(from, to, s), completion_markers_spec()[i]),
        )
}

/// All three stages of the pair are complete on `disk`.
pub open spec fn pair_complete_on(disk: Set<Seq<char>>, from: Seq<char>, to: Seq<char>) -> bool {
    &&& stage_complete_on(disk, from, to, Stage::Control)
    &&& stage_complete_on(disk, from, to, Stage::Iperf)
    &&& stage_complete_on(disk, from, to, Stage::Bundler)
}

/// The paths named in a listing.
pub open spec fn listed(existing: Seq<String>) -> Set<Seq<char>> {
    Set::new(|p: Seq<char>| exists|j: int| 0 <= j < existing.len() && existing[j]@ == p)
}

/// What preparing a stage's directory does to the disk: the directory exists
/// afterwards when it could be made, and nothing else changes.
pub open spec fn prepare_on(disk: Set<Seq<char>>, dir: Seq<char>, made: bool) -> Set<Seq<char>> {
    if made {
        disk.insert(dir)
    } else {
        disk
    }
}

impl Stage {
    /// The name of the stage's directory.
    pub fn name(&self) -> (r: String)
        ensures
            r@ == stage_name(*self),
    {
        match self {
            Stage::Control => {
                proof {
                    reveal_strlit("control");
                }
                String::from_str("control")
            },
            Stage::Iperf => {
                proof {
                    reveal_strlit("iperf");
                }
                String::from_str("iperf")
            },
            Stage::Bundler => {
                proof {
                    reveal_strlit("bundler");
                }
                String::from_str("bundler")
            },
        }
    }
}

/// The stages, in the order a pair runs them.
pub fn all_stages() -> (r: Vec<Stage>)
    ensures
        r@ == seq![Stage::Control, Stage::Iperf, Stage::Bundler],
{
    let r = vec![Stage::Control, Stage::Iperf, Stage::Bundler];
    assert(r@ =~= seq![Stage::Control, Stage::Iperf, Stage::Bundler]);
    r
}

/// The directory that holds every stage of a pair.
pub fn pair_dir(from: &str, to: &str) -> (r: String)
    ensures
        r@ == pair_dir_spec(from@, to@),
{
    proof {
        reveal_strlit("./");
        reveal_strlit("-");
    }
    let mut r = String::from_str("./");
    r.append(from);
    r.append("-");
    r.append(to);
    r
}

/// The directory that holds one stage's files.
pub fn stage_dir(from: &str, to: &str, s: Stage) -> (r: String)
    ensures
        r@ == stage_dir_spec(from@, to@, s),
{
    proof {
        reveal_strlit("/");
    }
    let mut r = pair_dir(from, to);
    r.append("/");
    let n = s.name();
    r.append(n.as_str());
    r
}

/// The path of a file inside a directory.
pub fn artifact_path(dir: &str, file: &str) -> (r: String)
    ensures
        r@ == artifact_path_spec(dir@, file@),
{
    proof {
        reveal_strlit("/");
    }
    let mut r = String::from_str(dir);
    r.append("/");
    r.append(file);
    r
}

/// The marker files of a stage.
pub fn completion_markers() -> (r: Vec<String>)
    ensures
        r@.len() == completion_markers_spec().len(),
        forall|i: int| 0 <= i < r@.len() ==> r@[i]@ == completion_markers_spec()[i],
{
    proof {
        reveal_strlit("bmon.log");
        reveal_strlit("udping.log");
    }
    vec![String::from_str("bmon.log"), String::from_str("udping.log")]
}

/// The paths whose existence decides whether a stage is complete: the stage
/// directory first, then each marker file inside it.
pub fn probe_paths(from: &str, to: &str, s: Stage) -> (r: Vec<String>)
    ensures
        r@.len() == 1 + completion_markers_spec().len(),
        r@[0]@ == stage_dir_spec(from@, to@, s),
        forall|i: int|
            0 <= i < completion_markers_spec().len() ==> r@[i + 1]@ == artifact_path_spec(
                stage_dir_spec(from@, to@, s),
                completion_markers_spec()[i],
            ),
{
    let dir = stage_dir(from, to, s);
    let markers = completion_markers();
    let mut r: Vec<String> = Vec::new();
    r.push(dir.clone());
    let mut i: usize = 0;
    while i < markers.len()
        invariant
            dir@ == stage_dir_spec(from@, to@, s),
            markers@.len() == completion_markers_spec().len(),
            forall|k: int| 0 <= k < markers@.len() ==> markers@[k]@ == completion_markers_spec()[k],
            i <= markers@.len(),
            r@.len() == 1 + i,
            r@[0]@ == stage_dir_spec(from@, to@, s),
            forall|k: int|
                0 <= k < i ==> r@[k + 1]@ == artifact_path_spec(
                    stage_dir_spec(from@, to@, s),
                    completion_markers_spec()[k],
                ),
        decreases markers@.len() - i,
    {
        let p = artifact_path(dir.as_str(), markers[i].as_str());
        r.push(p);
        i = i + 1;
    }
    r
}

/// Whether `path` occurs in the listing.
fn is_listed(existing: &Vec<String>, path: &String) -> (r: bool)
    ensures
        r == listed(existing@).contains(path@),
{
    let mut j: usize = 0;
    while j < existing.len()
        invariant
            j <= existing@.len(),
            forall|k: int| 0 <= k < j ==> existing@[k]@ != path@,
        decreases existing@.len() - j,
    {
        if existing[j] == *path {
            assert(listed(existing@).contains(path@));
            return true;
        }
        j = j + 1;
    }
    false
}

/// Whether one stage of a pair is complete, given the paths that exist
/// (`existing`, as found after the stage directory was prepared): true
/// exactly when the stage directory and each marker file are present.
pub fn is_stage_complete(existing: &Vec<String>, from: &str, to: &str, s: Stage) -> (r: bool)
    ensures
        r == stage_complete_on(listed(existing@), from@, to@, s),
{
    let probes = probe_paths(from, to, s);
    let mut i: usize = 0;
    while i < probes.len()
        invariant
            probes@.len() == 1 + completion_markers_spec().len(),
            probes@[0]@ == stage_dir_spec(from@, to@, s),
            forall|k: int|
                0 <= k < completion_markers_spec().len() ==> probes@[k + 1]@ == artifact_path_spec(
                    stage_dir_spec(from@, to@, s),
                    completion_markers_spec()[k],
                ),
            i <= probes@.len(),
            forall|k: int| 0 <= k < i ==> listed(existing@).contains(#[trigger] probes@[k]@),
        decreases probes@.len() - i,
    {
        if !is_listed(existing, &probes[i]) {
            proof {
                if i > 0 {
                    let m = i - 1;
                    assert(probes@[m + 1]@ == artifact_path_spec(
                        stage_dir_spec(from@, to@, s),
                        completion_markers_spec()[m as int],
                    ));
                }
            }
            return false;
        }
        i = i + 1;
    }
    proof {
        assert(listed(existing@).contains(probes@[0]@));
        assert forall|k: int| 0 <= k < completion_markers_spec().len() implies listed(
            existing@,
        ).contains(
            #[trigger] artifact_path_spec(
                stage_dir_spec(from@, to@, s),
                completion_markers_spec()[k],
            ),
        ) by {
            assert(listed(existing@).contains(probes@[k + 1]@));
        }
    }
    true
}

/// Whether a pair still has work to do: false exactly when all three stages
/// are complete. It agrees with the per-stage checks by construction.
pub fn check_path(existing: &Vec<String>, from: &str, to: &str) -> (r: bool)
    ensures
        r == !pair_complete_on(listed(existing@), from@, to@),
        r == !(stage_complete_on(listed(existing@), from@, to@, Stage::Control)
            && stage_complete_on(listed(existing@), from@, to@, Stage::Iperf)
            && stage_complete_on(listed(existing@), from@, to@, Stage::Bundler)),
{
    !(is_stage_complete(existing, from, to, Stage::Control) && is_stage_complete(
        existing,
        from,
        to,
        Stage::Iperf,
    ) && is_stage_complete(existing, from, to, Stage::Bundler))
}

/// The completion check is idempotent: its only effect on the disk is to
/// make stage directories, which removes nothing, so a stage found complete
/// is found complete again by every later check, and preparing a directory
/// twice leaves the disk as preparing it once.
pub proof fn lemma_completion_idempotent(
    disk: Set<Seq<char>>,
    from: Seq<char>,
    to: Seq<char>,
    s: Stage,
    dir: Seq<char>,
    made: bool,
)
    ensures
        stage_complete_on(disk, from, to, s) ==> stage_complete_on(prepare_on(disk, dir, made), from, to, s),
        prepare_on(prepare_on(disk, dir, made), dir, made) == prepare_on(disk, dir, made),
        stage_complete_on(prepare_on(prepare_on(disk, dir, made), dir, made), from, to, s)
            == stage_complete_on(prepare_on(disk, dir, made), from, to, s),
{
    assert(prepare_on(prepare_on(disk, dir, made), dir, made) =~= prepare_on(disk, dir, made));
}

} // verus!
