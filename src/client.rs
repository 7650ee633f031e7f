//! The proxy policy of the outbound HTTP client.
//!
//! The proxy setting is `None` (use the system's proxy configuration), an
//! empty list (use no proxy at all), or a list of rules, each scoped to plain
//! HTTP requests, to HTTPS requests, or to both.

use vstd::prelude::*;
use vstd::string::StringExecFns;

verus! {

/// The requests that a proxy rule applies to.
#[derive(Clone, Copy, Debug, PartialEq, Eq, Structural)]
pub enum ProxyProtocol {
    /// Both plain HTTP and HTTPS requests.
    All,
    /// Plain HTTP requests only.
    Http,
    /// HTTPS requests only.
    Https,
}

impl Default for ProxyProtocol {
    fn default() -> (r: ProxyProtocol)
        ensures
            r == ProxyProtocol::All,
    {
        ProxyProtocol::All
    }
}

/// The scheme of an outbound request.
#[derive(Clone, Copy, Debug, PartialEq, Eq, Structural)]
pub enum RequestScheme {
    Http,
    Https,
}

/// Whether a rule scoped to `p` applies to a request of scheme `s`.
pub open spec fn covers(p: ProxyProtocol, s: RequestScheme) -> bool {
    match p {
        ProxyProtocol::All => true,
        ProxyProtocol::Http => s == RequestScheme::Http,
        ProxyProtocol::Https => s == RequestScheme::Https,
    }
}

impl ProxyProtocol {
    /// Whether a rule scoped to this protocol applies to a request of `scheme`.
    pub fn applies_to(&self, scheme: RequestScheme) -> (r: bool)
        ensures
            r == covers(*self, scheme),
    {
        match self {
            ProxyProtocol::All => true,
            ProxyProtocol::Http => scheme == RequestScheme::Http,
            ProxyProtocol::Https => scheme == RequestScheme::Https,
        }
    }
}

/// A rule scoped to one scheme never applies to requests of the other.
pub proof fn lemma_protocol_scoping(s: RequestScheme)
    ensures
        covers(ProxyProtocol::Https, s) ==> s == RequestScheme::Https,
        covers(ProxyProtocol::Http, s) ==> s == RequestScheme::Http,
        !covers(ProxyProtocol::Https, RequestScheme::Http),
        !covers(ProxyProtocol::Http, RequestScheme::Https),
        covers(ProxyProtocol::All, s),
{
}

/// How the client chooses proxies.
#[derive(Clone, Copy, Debug, PartialEq, Eq, Structural)]
pub enum ProxyPlan {
    /// Take the proxies from the system's configuration.
    System,
    /// Send every request directly, whatever the system's configuration says.
    Disabled,
    /// Register one proxy per configured rule, in order, and nothing else.
    Rules,
}

/// The plan for a proxy setting.
pub open spec fn plan_of<T>(proxy: Option<Seq<T>>) -> ProxyPlan {
    match proxy {
        None => ProxyPlan::System,
        Some(rules) => if rules.len() == 0 {
            ProxyPlan::Disabled
        } else {
            ProxyPlan::Rules
        },
    }
}

/// The plan that the client follows for a proxy setting.
pub fn proxy_plan<T>(proxy: &Option<Vec<T>>) -> (r: ProxyPlan)
    ensures
        r == plan_of(
            match proxy {
                Some(v) => Some(v@),
                None => None,
            },
        ),
{
    match proxy {
        None => ProxyPlan::System,
        Some(rules) => if rules.len() == 0 {
            ProxyPlan::Disabled
        } else {
            ProxyPlan::Rules
        },
    }
}

/// An empty list of rules turns proxying off, system configuration included.
pub proof fn lemma_empty_list_disables<T>(rules: Seq<T>)
    requires
        rules.len() == 0,
    ensures
        plan_of(Some(rules)) == ProxyPlan::Disabled,
        plan_of(Some(rules)) != ProxyPlan::System,
{
}

/// The entries joined by commas, as in a `NO_PROXY` list.
pub open spec fn comma_list(entries: Seq<Seq<char>>) -> Seq<char>
    decreases entries.len(),
{
    if entries.len() == 0 {
        Seq::empty()
    } else if entries.len() == 1 {
        entries[0]
    } else {
        comma_list(entries.drop_last()) + seq![','] + entries.last()
    }
}

/// The bypass entries of a rule (addresses, ranges, domain patterns) as one
/// comma-separated `NO_PROXY` list.
pub fn no_proxy_list(entries: &Vec<String>) -> (r: String)
    ensures
        r@ == comma_list(entries@.map_values(|e: String| e@)),
{
    proof {
        reveal_strlit("");
        reveal_strlit(",");
    }
    let mut r = String::from_str("");
    assert(entries@.subrange(0, 0).map_values(|e: String| e@) =~= Seq::<Seq<char>>::empty());
    let mut i: usize = 0;
    while i < entries.len()
        invariant
            i <= entries@.len(),
            r@ == comma_list(entries@.subrange(0, i as int).map_values(|e: String| e@)),
        decreases entries@.len() - i,
    {
        let ghost before = entries@.subrange(0, i as int).map_values(|e: String| e@);
        let ghost after = entries@.subrange(0, i + 1).map_values(|e: String| e@);
        assert(after.drop_last() =~= before);
        assert(after.len() == i + 1 && after.last() == entries@[i as int]@);
        proof {
            reveal_strlit(",");
        }
        assert(",".view() =~= seq![',']);
        if i > 0 {
            r.append(",");
        }
        r.append(entries[i].as_str());
        i = i + 1;
    }
    assert(entries@.subrange(0, entries@.len() as int) =~= entries@);
    r
}

} // verus!
