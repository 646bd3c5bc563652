//! Subscription feeds: the inclusion policy, the per-feed processing
//! step, and the per-subscription status record.
//!
//! Fetching and parsing a feed is network work done by the surrounding
//! application; it hands this module the parsed descriptor list (or the
//! failure).  This module decides which entries are kept — a proxy name
//! must contain one of the configured marker strings — and translates
//! the kept entries into engine outbounds.

use vstd::prelude::*;

use crate::descriptor::{spec_translate, translatable, translate, Outbound, ProxyDescriptor};
use crate::text::{contains_str, str_contains};

verus! {

/// Why a fetch failed.
#[derive(Clone, Copy, Debug, PartialEq, Eq, Structural)]
pub enum FetchFailure {
    /// The HTTP request itself failed or timed out.
    Network,
    /// The response body was empty.
    EmptyBody,
    /// The response body could not be parsed as a proxy list.
    Malformed,
}

/// A fetch error: the failure class plus a human-readable cause.
pub struct FetchError {
    pub failure: FetchFailure,
    pub message: String,
}

/// What one subscription fetch came back with: the parsed descriptor
/// list on success, the error otherwise.
pub enum FetchOutcome {
    Fetched(Vec<ProxyDescriptor>),
    Failed(FetchError),
}

/// The outcome of fetching one subscription URL.
pub struct SubscriptionFetch {
    pub url: String,
    pub outcome: FetchOutcome,
}

/// The status recorded for one subscription after a refresh.
pub struct SubscriptionStatus {
    pub success: bool,
    pub node_count: usize,
    pub error: Option<String>,
}

/// One entry of the subscription status map, keyed by URL.
pub struct SubscriptionRecord {
    pub url: String,
    pub status: SubscriptionStatus,
}

/// The inclusion policy: a name is admitted when it contains at least
/// one of the configured marker strings.
pub open spec fn name_matches(name: Seq<char>, markers: Seq<String>) -> bool {
    exists|i: int| 0 <= i < markers.len() && str_contains(name, markers[i]@)
}

/// A feed entry is kept when its name passes the policy and its kind
/// is one the engine supports.
pub open spec fn kept(d: ProxyDescriptor, markers: Seq<String>) -> bool {
    name_matches(d.name@, markers) && translatable(d)
}

/// The names of the kept entries of a feed, in feed order.
pub open spec fn kept_names(ds: Seq<ProxyDescriptor>, markers: Seq<String>) -> Seq<String>
    decreases ds.len(),
{
    if ds.len() == 0 {
        Seq::empty()
    } else if kept(ds.last(), markers) {
        kept_names(ds.drop_last(), markers).push(ds.last().name)
    } else {
        kept_names(ds.drop_last(), markers)
    }
}

/// The outbounds of the kept entries of a feed, in feed order.
pub open spec fn kept_outbounds(ds: Seq<ProxyDescriptor>, markers: Seq<String>) -> Seq<Outbound>
    decreases ds.len(),
{
    if ds.len() == 0 {
        Seq::empty()
    } else if kept(ds.last(), markers) {
        kept_outbounds(ds.drop_last(), markers).push(spec_translate(ds.last()))
    } else {
        kept_outbounds(ds.drop_last(), markers)
    }
}

/// A feed yields as many names as outbounds, and the name at each
/// position is the tag of the outbound at that position.
pub proof fn lemma_kept_names_tag_outbounds(ds: Seq<ProxyDescriptor>, markers: Seq<String>)
    ensures
        kept_names(ds, markers).len() == kept_outbounds(ds, markers).len(),
        forall|i: int|
            0 <= i < kept_names(ds, markers).len() ==> #[trigger] kept_names(ds, markers)[i]
                == kept_outbounds(ds, markers)[i].tag,
    decreases ds.len(),
{
    if ds.len() > 0 {
        lemma_kept_names_tag_outbounds(ds.drop_last(), markers);
    }
}

/// Whether `name` passes the inclusion policy.
pub fn matches_policy(name: &str, markers: &Vec<String>) -> (r: bool)
    ensures
        r == name_matches(name@, markers@),
{
    let n = markers.len();
    let mut i: usize = 0;
    while i < n
        invariant
            n == markers@.len(),
            0 <= i <= n,
            forall|j: int| 0 <= j < i ==> !str_contains(name@, #[trigger] markers@[j]@),
        decreases n - i,
    {
        if contains_str(name, markers[i].as_str()) {
            return true;
        }
        i += 1;
    }
    false
}

/// Filter a parsed feed by the inclusion policy and translate every
/// kept entry.  Returns the kept names and the matching outbounds, in
/// feed order; entries of unsupported kinds are skipped silently.
pub fn process_feed(ds: &Vec<ProxyDescriptor>, markers: &Vec<String>) -> (r: (
    Vec<String>,
    Vec<Outbound>,
))
    ensures
        r.0@ == kept_names(ds@, markers@),
        r.1@ == kept_outbounds(ds@, markers@),
{
    let mut names: Vec<String> = Vec::new();
    let mut outs: Vec<Outbound> = Vec::new();
    let n = ds.len();
    let mut i: usize = 0;
    while i < n
        invariant
            n == ds@.len(),
            0 <= i <= n,
            names@ == kept_names(ds@.take(i as int), markers@),
            outs@ == kept_outbounds(ds@.take(i as int), markers@),
        decreases n - i,
    {
        let d = &ds[i];
        proof {
            assert(ds@.take(i + 1).drop_last() =~= ds@.take(i as int));
            assert(ds@.take(i + 1).last() == ds@[i as int]);
        }
        if matches_policy(d.name.as_str(), markers) {
            if let Option::Some(o) = translate(d) {
                names.push(d.name.clone());
                outs.push(o);
            }
        }
        i += 1;
    }
    proof {
        assert(ds@.take(n as int) =~= ds@);
    }
    (names, outs)
}

} // verus!
