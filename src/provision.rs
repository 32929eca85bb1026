//! Provisioning decisions: one machine per canonical name, the retried
//! package installation, and the bootstrap that follows it.
use vstd::prelude::*;
use crate::topology::{canonical_name, Endpoint, Node};

verus! {

/// The most times package installation is tried.
pub const INSTALL_ATTEMPTS: u32 = 15;

/// Milliseconds waited between two installation attempts.
pub const RETRY_DELAY_MS: u64 = 100;

/// The login user of a cloud machine.
pub const DEFAULT_USER: &'static str = "ubuntu";

/// The network interface of a cloud machine.
pub const DEFAULT_IFACE: &'static str = "ens5";

/// The endpoints to provision, one per canonical name, in the order they
/// were first named.
pub struct Registry {
    endpoints: Vec<Endpoint>,
    names: Vec<String>,
}

impl Registry {
    /// The endpoints, in registration order.
    pub closed spec fn endpoints_view(&self) -> Seq<Endpoint> {
        self.endpoints@
    }

    pub closed spec fn wf(&self) -> bool {
        &&& self.names@.len() == self.endpoints@.len()
        &&& forall|i: int| 0 <= i < self.names@.len() ==> self.names@[i]@ == canonical_name(#[trigger] self.endpoints@[i])
        &&& forall|i: int, j: int|
            0 <= i < j < self.names@.len() ==> self.names@[i]@ != self.names@[j]@
    }

    /// An empty registry.
    pub fn new() -> (r: Registry)
        ensures
            r.wf(),
            r.endpoints_view().len() == 0,
    {
        Registry { endpoints: Vec::new(), names: Vec::new() }
    }

    /// How many machines are to be provisioned.
    pub fn len(&self) -> (r: usize)
        requires
            self.wf(),
        ensures
            r == self.endpoints_view().len(),
    {
        self.endpoints.len()
    }

    /// The `i`-th endpoint to provision, with its canonical name.
    pub fn entry(&self, i: usize) -> (r: (&String, &Endpoint))
        requires
            self.wf(),
            i < self.endpoints_view().len(),
        ensures
            r.0@ == canonical_name(self.endpoints_view()[i as int]),
            *r.1 == self.endpoints_view()[i as int],
    {
        (&self.names[i], &self.endpoints[i])
    }

    /// The position of the endpoint named `name`, if one is registered.
    pub fn find(&self, name: &str) -> (r: Option<usize>)
        requires
            self.wf(),
        ensures
            r is None ==> forall|i: int| 0 <= i < self.endpoints_view().len() ==> canonical_name(#[trigger] self.endpoints_view()[i]) != name@,
            r matches Some(i) ==> i < self.endpoints_view().len() && canonical_name(self.endpoints_view()[i as int]) == name@,
    {
        let key = String::from_str(name);
        let mut i: usize = 0;
        while i < self.names.len()
            invariant
                self.wf(),
                i <= self.names@.len(),
                key@ == name@,
                forall|k: int| 0 <= k < i ==> self.names@[k]@ != name@,
            decreases self.names@.len() - i,
        {
            if self.names[i] == key {
                return Some(i);
            }
            i = i + 1;
        }
        None
    }

    /// Registers an endpoint and returns its canonical name. An endpoint
    /// whose name is already registered is the same machine and adds
    /// nothing.
    pub fn register_node(&mut self, e: Endpoint) -> (r: String)
        requires
            old(self).wf(),
        ensures
            final(self).wf(),
            r@ == canonical_name(e),
            (exists|i: int| 0 <= i < old(self).endpoints_view().len() && canonical_name(#[trigger] old(self).endpoints_view()[i]) == r@)
                ==> final(self).endpoints_view() == old(self).endpoints_view(),
            (forall|i: int| 0 <= i < old(self).endpoints_view().len() ==> canonical_name(#[trigger] old(self).endpoints_view()[i]) != r@)
                ==> final(self).endpoints_view() == old(self).endpoints_view().push(e),
    {
        let name = e.get_name();
        match self.find(name.as_str()) {
            Some(_) => name,
            None => {
                let ghost prev_names = self.names@;
                let ghost prev_endpoints = self.endpoints@;
                let copy = name.clone();
                self.names.push(copy);
                self.endpoints.push(e);
                proof {
                    assert forall|i: int| 0 <= i < self.names@.len() implies self.names@[i]@
                        == canonical_name(#[trigger] self.endpoints@[i]) by {
                        if i < prev_names.len() {
                            assert(self.names@[i] == prev_names[i]);
                            assert(self.endpoints@[i] == prev_endpoints[i]);
                        }
                    }
                    assert forall|i: int, j: int| 0 <= i < j < self.names@.len() implies self.names@[i]@
                        != self.names@[j]@ by {
                        if j == prev_names.len() {
                            assert(self.names@[i]@ == canonical_name(self.endpoints@[i]));
                            assert(self.endpoints@[i] == prev_endpoints[i]);
                        }
                    }
                }
                name
            },
        }
    }
}

/// The login user of an endpoint's machine.
pub open spec fn login_user(e: Endpoint) -> Seq<char> {
    match e {
        Endpoint::Baremetal { user, .. } => user@,
        _ => DEFAULT_USER@,
    }
}

/// The interface that an endpoint's traffic crosses.
pub open spec fn traffic_iface(e: Endpoint) -> Seq<char> {
    match e {
        Endpoint::Baremetal { iface, .. } => iface@,
        _ => DEFAULT_IFACE@,
    }
}

/// The machine of an endpoint, reached at `ip`: a bare-metal host keeps its
/// own user and interface, a cloud machine has the provider's defaults.
pub fn node_for(e: &Endpoint, ip: &str) -> (r: Node)
    ensures
        r.name@ == canonical_name(*e),
        r.ip@ == ip@,
        r.user@ == login_user(*e),
        r.iface@ == traffic_iface(*e),
{
    let name = e.get_name();
    let (user, iface) = match e {
        Endpoint::Baremetal { user, iface, .. } => (user.clone(), iface.clone()),
        _ => (String::from_str(DEFAULT_USER), String::from_str(DEFAULT_IFACE)),
    };
    Node { name, ip: String::from_str(ip), iface, user }
}

/// What to do after an installation attempt.
#[derive(PartialEq, Eq, Structural, Clone, Copy, Debug)]
pub enum RetryDecision {
    /// The attempt succeeded.
    Succeeded,
    /// Wait this many milliseconds, then try again.
    RetryAfter(u64),
    /// The last allowed attempt failed.
    GaveUp,
}

pub open spec fn retry_spec(attempts_made: nat, succeeded: bool) -> RetryDecision {
    if succeeded {
        RetryDecision::Succeeded
    } else if attempts_made < INSTALL_ATTEMPTS {
        RetryDecision::RetryAfter(RETRY_DELAY_MS)
    } else {
        RetryDecision::GaveUp
    }
}

/// Decides what follows the `attempts_made`-th installation attempt.
pub fn retry_decision(attempts_made: u32, succeeded: bool) -> (r: RetryDecision)
    ensures
        r == retry_spec(attempts_made as nat, succeeded),
{
    if succeeded {
        RetryDecision::Succeeded
    } else if attempts_made < INSTALL_ATTEMPTS {
        RetryDecision::RetryAfter(RETRY_DELAY_MS)
    } else {
        RetryDecision::GaveUp
    }
}

/// Installation driven by `outcomes` (the result of each attempt, in
/// order), `made` attempts in: whether it succeeds, and how many attempts it
/// makes in all.
pub open spec fn install_run(outcomes: Seq<bool>, made: nat) -> (bool, nat)
    decreases INSTALL_ATTEMPTS - made,
{
    let ok = made < outcomes.len() && outcomes[made as int];
    match retry_spec(made + 1, ok) {
        RetryDecision::Succeeded => (true, made + 1),
        RetryDecision::RetryAfter(_) => if made + 1 < INSTALL_ATTEMPTS {
            install_run(outcomes, made + 1)
        } else {
            (false, made + 1)
        },
        RetryDecision::GaveUp => (false, made + 1),
    }
}

proof fn lemma_install_run_from(outcomes: Seq<bool>, made: nat)
    requires
        made < INSTALL_ATTEMPTS,
    ensures
        install_run(outcomes, made).1 <= INSTALL_ATTEMPTS,
        install_run(outcomes, made).1 > made,
        install_run(outcomes, made).0 == exists|k: int| made <= k < INSTALL_ATTEMPTS && k < outcomes.len() && outcomes[k],
        install_run(outcomes, made).0 ==> outcomes[install_run(outcomes, made).1 - 1],
        install_run(outcomes, made).0 ==> forall|k: int| made <= k < install_run(outcomes, made).1 - 1 ==> !(k < outcomes.len() && #[trigger] outcomes[k]),
        !install_run(outcomes, made).0 ==> install_run(outcomes, made).1 == INSTALL_ATTEMPTS,
    decreases INSTALL_ATTEMPTS - made,
{
    let ok = made < outcomes.len() && outcomes[made as int];
    if !ok && made + 1 < INSTALL_ATTEMPTS {
        lemma_install_run_from(outcomes, made + 1);
        if exists|k: int| made <= k < INSTALL_ATTEMPTS && k < outcomes.len() && outcomes[k] {
            let k = choose|k: int| made <= k < INSTALL_ATTEMPTS && k < outcomes.len() && outcomes[k];
            assert(k != made);
        }
    }
}

/// Installation makes at most the allowed number of attempts; it succeeds
/// exactly when one of them succeeds, stopping at the first success, and
/// gives up only after the last allowed attempt.
pub proof fn lemma_install_retry_bound(outcomes: Seq<bool>)
    ensures
        1 <= install_run(outcomes, 0).1 <= INSTALL_ATTEMPTS,
        install_run(outcomes, 0).0 == exists|k: int| 0 <= k < INSTALL_ATTEMPTS && k < outcomes.len() && outcomes[k],
        install_run(outcomes, 0).0 ==> outcomes[install_run(outcomes, 0).1 - 1]
            && forall|k: int| 0 <= k < install_run(outcomes, 0).1 - 1 ==> !(k < outcomes.len() && #[trigger] outcomes[k]),
        !install_run(outcomes, 0).0 ==> install_run(outcomes, 0).1 == INSTALL_ATTEMPTS,
{
    lemma_install_run_from(outcomes, 0);
}

/// Fourteen failed attempts then a good one succeed, on the fifteenth
/// attempt; fifteen failures give up, with no sixteenth attempt.
pub proof fn lemma_install_fifteenth_attempt(outcomes: Seq<bool>)
    requires
        outcomes.len() >= INSTALL_ATTEMPTS,
        forall|k: int| 0 <= k < INSTALL_ATTEMPTS - 1 ==> !#[trigger] outcomes[k],
    ensures
        outcomes[INSTALL_ATTEMPTS - 1] ==> install_run(outcomes, 0) == (true, INSTALL_ATTEMPTS as nat),
        !outcomes[INSTALL_ATTEMPTS - 1] ==> install_run(outcomes, 0) == (false, INSTALL_ATTEMPTS as nat),
{
    lemma_install_retry_bound(outcomes);
    if outcomes[INSTALL_ATTEMPTS - 1] {
        assert(0 <= INSTALL_ATTEMPTS - 1 < INSTALL_ATTEMPTS && INSTALL_ATTEMPTS - 1 < outcomes.len());
        let n = install_run(outcomes, 0).1;
        assert(outcomes[n - 1]);
        assert(n - 1 >= INSTALL_ATTEMPTS - 1);
    } else {
        assert forall|k: int| 0 <= k < INSTALL_ATTEMPTS && k < outcomes.len() implies !outcomes[k] by {
            if k < INSTALL_ATTEMPTS - 1 {
                assert(!outcomes[k]);
            }
        }
    }
}

} // verus!
