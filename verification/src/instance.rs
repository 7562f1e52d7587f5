//! What the network instance is made of: its subnets and the suites of system
//! canisters that are installed in it.

use vstd::prelude::*;
use vstd::string::*;
use crate::config::SubnetKind;
use crate::text::{decimal, decimal_text};

verus! {

/// The domain under which the gateway serves the instance.
pub const GATEWAY_DOMAIN: &'static str = "localhost";

/// A subnet of the instance.
#[derive(Clone, Copy, Debug, PartialEq, Eq, Structural)]
pub enum Subnet {
    Application,
    System,
    VerifiedApplication,
    Bitcoin,
    Fiduciary,
    Nns,
    Sns,
    /// The subnet of the identity suite. It cannot be asked for by kind; it
    /// comes with the suites that need it.
    InternetIdentity,
}

/// The suites of system canisters that are installed in the instance.
#[derive(Clone, Copy, Debug, PartialEq, Eq, Structural)]
pub struct Features {
    pub cycles_minting: bool,
    pub icp_token: bool,
    pub cycles_token: bool,
    pub ii: bool,
    pub nns_governance: bool,
    pub nns_ui: bool,
    pub sns: bool,
}

/// The subnet that a kind asks for.
pub open spec fn subnet_of(kind: SubnetKind) -> Subnet {
    match kind {
        SubnetKind::Application => Subnet::Application,
        SubnetKind::System => Subnet::System,
        SubnetKind::VerifiedApplication => Subnet::VerifiedApplication,
        SubnetKind::Bitcoin => Subnet::Bitcoin,
        SubnetKind::Fiduciary => Subnet::Fiduciary,
        SubnetKind::Nns => Subnet::Nns,
        SubnetKind::Sns => Subnet::Sns,
    }
}

/// The subnets of the instance, in the order in which they are added: those
/// asked for, or one application subnet if none was; then the governance
/// subnet, which is always there; then the identity subnet, if either suite is
/// installed; then the subnet of the launchpad, with the governance suite.
pub open spec fn subnets_of(requested: Seq<SubnetKind>, ii: bool, nns: bool) -> Seq<Subnet> {
    let chosen = if requested.len() == 0 {
        seq![Subnet::Application]
    } else {
        Seq::new(requested.len(), |i: int| subnet_of(requested[i]))
    };
    let identity = if nns || ii {
        seq![Subnet::InternetIdentity]
    } else {
        Seq::empty()
    };
    let launchpad = if nns {
        seq![Subnet::Sns]
    } else {
        Seq::empty()
    };
    chosen + seq![Subnet::Nns] + identity + launchpad
}

/// The suites of the instance: the ledgers always, the identity suite if either
/// suite was asked for, and governance with its front end and the launchpad if
/// the governance suite was.
pub open spec fn features_of(ii: bool, nns: bool) -> Features {
    Features {
        cycles_minting: true,
        icp_token: true,
        cycles_token: true,
        ii: nns || ii,
        nns_governance: nns,
        nns_ui: nns,
        sns: nns,
    }
}

/// The address of the server on the machine of the launcher, for the port it chose.
pub open spec fn server_url_of(port: u16) -> Seq<char> {
    "http://127.0.0.1:"@ + decimal(port as nat) + "/"@
}

/// The path, on the server, of the setting that makes an instance progress by itself.
pub open spec fn auto_progress_path_of(instance_id: nat) -> Seq<char> {
    "/instances/"@ + decimal(instance_id) + "/auto_progress"@
}

/// Maps a kind that was asked for to its subnet.
pub fn subnet_for(kind: SubnetKind) -> (s: Subnet)
    ensures
        s == subnet_of(kind),
{
    match kind {
        SubnetKind::Application => Subnet::Application,
        SubnetKind::System => Subnet::System,
        SubnetKind::VerifiedApplication => Subnet::VerifiedApplication,
        SubnetKind::Bitcoin => Subnet::Bitcoin,
        SubnetKind::Fiduciary => Subnet::Fiduciary,
        SubnetKind::Nns => Subnet::Nns,
        SubnetKind::Sns => Subnet::Sns,
    }
}

/// Lists the subnets of the instance in the order in which they are to be added.
pub fn plan_subnets(requested: &Vec<SubnetKind>, ii: bool, nns: bool) -> (subnets: Vec<Subnet>)
    ensures
        subnets@ == subnets_of(requested@, ii, nns),
{
    let mut subnets: Vec<Subnet> = Vec::new();
    if requested.len() == 0 {
        subnets.push(Subnet::Application);
    } else {
        let mut i: usize = 0;
        while i < requested.len()
            invariant
                i <= requested.len(),
                subnets.len() == i,
                forall|k: int| 0 <= k < i ==> subnets[k] == subnet_of(requested[k]),
            decreases requested.len() - i,
        {
            subnets.push(subnet_for(requested[i]));
            i += 1;
        }
    }
    subnets.push(Subnet::Nns);
    if nns || ii {
        subnets.push(Subnet::InternetIdentity);
    }
    if nns {
        subnets.push(Subnet::Sns);
    }
    subnets
}

/// Chooses the suites of the instance.
pub fn plan_features(ii: bool, nns: bool) -> (features: Features)
    ensures
        features == features_of(ii, nns),
{
    Features {
        cycles_minting: true,
        icp_token: true,
        cycles_token: true,
        ii: nns || ii,
        nns_governance: nns,
        nns_ui: nns,
        sns: nns,
    }
}

/// Writes the address of the server for the port that was discovered.
pub fn server_url(port: u16) -> (url: String)
    ensures
        url@ == server_url_of(port),
{
    let mut url = String::from_str("http://127.0.0.1:");
    url.append(decimal_text(port as u64).as_str());
    url.append("/");
    url
}

/// Writes the path of the setting that makes the instance progress by itself.
pub fn auto_progress_path(instance_id: usize) -> (path: String)
    ensures
        path@ == auto_progress_path_of(instance_id as nat),
{
    let mut path = String::from_str("/instances/");
    path.append(decimal_text(instance_id as u64).as_str());
    path.append("/auto_progress");
    path
}

/// The governance subnet is part of every instance, and there is one
/// application subnet where no subnet was asked for.
pub proof fn lemma_every_instance_has_governance(requested: Seq<SubnetKind>, ii: bool, nns: bool)
    ensures
        subnets_of(requested, ii, nns).contains(Subnet::Nns),
        requested.len() == 0 ==> subnets_of(requested, ii, nns).first() == Subnet::Application,
        features_of(ii, nns).ii ==> subnets_of(requested, ii, nns).contains(
            Subnet::InternetIdentity,
        ),
        features_of(ii, nns).sns ==> subnets_of(requested, ii, nns).contains(Subnet::Sns),
{
    let all = subnets_of(requested, ii, nns);
    let chosen_len = if requested.len() == 0 {
        1int
    } else {
        requested.len() as int
    };
    assert(all[chosen_len] == Subnet::Nns);
    if nns || ii {
        assert(all[chosen_len + 1] == Subnet::InternetIdentity);
    }
    if nns {
        assert(all[chosen_len + 2] == Subnet::Sns);
    }
}

} // verus!
