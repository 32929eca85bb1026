//! Endpoints of the experiment topology and their canonical names.
use vstd::prelude::*;

verus! {

/// One measurement participant, as the configuration describes it.
#[derive(Clone, Debug)]
pub enum Endpoint {
    /// An instance in an AWS region.
    Aws { region: String },
    /// A virtual machine in an Azure region.
    Azure { region: String },
    /// A host reachable at a fixed address.
    Baremetal { name: String, ip: String, user: String, iface: String },
}

/// `s` with every `-` taken out.
pub open spec fn without_dashes(s: Seq<char>) -> Seq<char>
    decreases s.len(),
{
    if s.len() == 0 {
        Seq::empty()
    } else if s.last() == '-' {
        without_dashes(s.drop_last())
    } else {
        without_dashes(s.drop_last()).push(s.last())
    }
}

/// The canonical name of an endpoint: `aws_` or `az_` followed by the region
/// without dashes for a cloud region, the host's own name for a bare-metal host.
pub open spec fn canonical_name(e: Endpoint) -> Seq<char> {
    match e {
        Endpoint::Aws { region } => "aws_"@ + without_dashes(region@),
        Endpoint::Azure { region } => "az_"@ + without_dashes(region@),
        Endpoint::Baremetal { name, .. } => name@,
    }
}

/// Appends `s` to `out` with every `-` left out.
fn push_without_dashes(out: &mut String, s: &str)
    ensures
        final(out)@ == old(out)@ + without_dashes(s@),
{
    let n = s.unicode_len();
    let mut i: usize = 0;
    assert(without_dashes(s@.subrange(0, 0)) =~= Seq::<char>::empty());
    assert(out@ =~= out@ + without_dashes(s@.subrange(0, 0)));
    while i < n
        invariant
            n == s@.len(),
            i <= n,
            out@ == old(out)@ + without_dashes(s@.subrange(0, i as int)),
        decreases n - i,
    {
        let c = s.get_char(i);
        assert(s@.subrange(0, i + 1).drop_last() =~= s@.subrange(0, i as int));
        assert(s@.subrange(0, i + 1).last() == c);
        if c != '-' {
            let one = s.substring_char(i, i + 1);
            assert(one@ =~= seq![c]);
            out.append(one);
            assert(out@ =~= old(out)@ + without_dashes(s@.subrange(0, i + 1)));
        }
        i = i + 1;
    }
    assert(s@.subrange(0, n as int) =~= s@);
}

impl Endpoint {
    /// The canonical name, used to tell machines apart, to name their locks
    /// and to name the pair's result directories.
    pub fn get_name(&self) -> (r: String)
        ensures
            r@ == canonical_name(*self),
    {
        match self {
            Endpoint::Aws { region } => {
                let mut out = String::from_str("aws_");
                proof {
                    reveal_strlit("aws_");
                }
                push_without_dashes(&mut out, region.as_str());
                out
            },
            Endpoint::Azure { region } => {
                let mut out = String::from_str("az_");
                proof {
                    reveal_strlit("az_");
                }
                push_without_dashes(&mut out, region.as_str());
                out
            },
            Endpoint::Baremetal { name, .. } => name.clone(),
        }
    }
}

/// One experiment: traffic runs from `from` to `to`.
#[derive(Clone, Debug)]
pub struct ExperimentPair {
    pub from: Endpoint,
    pub to: Endpoint,
}

impl ExperimentPair {
    /// A pair whose two ends are the same machine; it is skipped.
    pub open spec fn is_degenerate(self) -> bool {
        canonical_name(self.from) == canonical_name(self.to)
    }
}

/// A provisioned machine as the stages address it.
#[derive(Clone, Debug)]
pub struct Node {
    /// The canonical name of the endpoint.
    pub name: String,
    /// The public address.
    pub ip: String,
    /// The network interface that traffic crosses.
    pub iface: String,
    /// The login user.
    pub user: String,
}

} // verus!
