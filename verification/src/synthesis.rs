//! Config synthesis: merging manual nodes and subscription results
//! into one engine configuration document.
//!
//! The surrounding application fetches every subscription URL and
//! hands the outcomes in here.  Synthesis records a status for every
//! subscription regardless of its outcome — one bad feed never blocks
//! the others — merges the manual outbounds first and the fetched
//! outbounds after them, and refuses to produce a document when the
//! merged set is empty, so the previous configuration on disk stays
//! untouched in that case.

use vstd::prelude::*;

use crate::descriptor::{spec_translate, translatable, translate, Outbound, ProxyDescriptor};
use crate::engine_config::{config_template, template_scaffold, EngineConfig};
use crate::subscription::{
    kept_names, kept_outbounds, lemma_kept_names_tag_outbounds, process_feed, FetchOutcome,
    SubscriptionFetch, SubscriptionRecord, SubscriptionStatus,
};

verus! {

/// Why synthesis failed.
#[derive(Clone, Copy, Debug, PartialEq, Eq, Structural)]
pub enum SynthesisError {
    /// Every subscription failed or yielded nothing and no manual node
    /// is configured: writing a config now would leave the engine with
    /// no outbound at all.
    NoNodesAvailable,
}

/// What one synthesis run produced: a status record per subscription,
/// and the document — or the refusal to write one.
pub struct Synthesis {
    pub records: Vec<SubscriptionRecord>,
    pub outcome: Result<EngineConfig, SynthesisError>,
}

/// The names of the translatable manual nodes, in configured order.
pub open spec fn manual_names(ds: Seq<ProxyDescriptor>) -> Seq<String>
    decreases ds.len(),
{
    if ds.len() == 0 {
        Seq::empty()
    } else if translatable(ds.last()) {
        manual_names(ds.drop_last()).push(ds.last().name)
    } else {
        manual_names(ds.drop_last())
    }
}

/// The outbounds of the translatable manual nodes, in configured order.
pub open spec fn manual_outbounds(ds: Seq<ProxyDescriptor>) -> Seq<Outbound>
    decreases ds.len(),
{
    if ds.len() == 0 {
        Seq::empty()
    } else if translatable(ds.last()) {
        manual_outbounds(ds.drop_last()).push(spec_translate(ds.last()))
    } else {
        manual_outbounds(ds.drop_last())
    }
}

/// The names a fetch outcome contributes: the kept names of a fetched
/// feed, nothing for a failed one.
pub open spec fn outcome_names(f: SubscriptionFetch, markers: Seq<String>) -> Seq<String> {
    match f.outcome {
        FetchOutcome::Fetched(ds) => kept_names(ds@, markers),
        FetchOutcome::Failed(_) => Seq::empty(),
    }
}

/// The outbounds a fetch outcome contributes.
pub open spec fn outcome_outbounds(f: SubscriptionFetch, markers: Seq<String>) -> Seq<Outbound> {
    match f.outcome {
        FetchOutcome::Fetched(ds) => kept_outbounds(ds@, markers),
        FetchOutcome::Failed(_) => Seq::empty(),
    }
}

/// All names the subscriptions contribute, in subscription order.
pub open spec fn fetched_names(fs: Seq<SubscriptionFetch>, markers: Seq<String>) -> Seq<String>
    decreases fs.len(),
{
    if fs.len() == 0 {
        Seq::empty()
    } else {
        fetched_names(fs.drop_last(), markers) + outcome_names(fs.last(), markers)
    }
}

/// All outbounds the subscriptions contribute, in subscription order.
pub open spec fn fetched_outbounds(fs: Seq<SubscriptionFetch>, markers: Seq<String>) -> Seq<
    Outbound,
>
    decreases fs.len(),
{
    if fs.len() == 0 {
        Seq::empty()
    } else {
        fetched_outbounds(fs.drop_last(), markers) + outcome_outbounds(fs.last(), markers)
    }
}

/// The status record a fetch outcome must yield: the URL it was
/// fetched from; on success the number of kept nodes and no error; on
/// failure a zero count and the error's message.
pub open spec fn record_matches(
    f: SubscriptionFetch,
    markers: Seq<String>,
    rec: SubscriptionRecord,
) -> bool {
    &&& rec.url@ == f.url@
    &&& match f.outcome {
        FetchOutcome::Fetched(ds) => {
            &&& rec.status.success
            &&& rec.status.node_count == kept_names(ds@, markers).len()
            &&& rec.status.error is None
        },
        FetchOutcome::Failed(e) => {
            &&& !rec.status.success
            &&& rec.status.node_count == 0
            &&& rec.status.error matches Some(m) && m@ == e.message@
        },
    }
}

/// Manual processing yields as many names as outbounds, and each name
/// is the tag of the outbound at the same position.
pub proof fn lemma_manual_names_tag_outbounds(ds: Seq<ProxyDescriptor>)
    ensures
        manual_names(ds).len() == manual_outbounds(ds).len(),
        forall|i: int|
            0 <= i < manual_names(ds).len() ==> #[trigger] manual_names(ds)[i]
                == manual_outbounds(ds)[i].tag,
    decreases ds.len(),
{
    if ds.len() > 0 {
        lemma_manual_names_tag_outbounds(ds.drop_last());
    }
}

/// Subscription processing yields as many names as outbounds, and each
/// name is the tag of the outbound at the same position.
pub proof fn lemma_fetched_names_tag_outbounds(fs: Seq<SubscriptionFetch>, markers: Seq<String>)
    ensures
        fetched_names(fs, markers).len() == fetched_outbounds(fs, markers).len(),
        forall|i: int|
            0 <= i < fetched_names(fs, markers).len() ==> #[trigger] fetched_names(fs, markers)[i]
                == fetched_outbounds(fs, markers)[i].tag,
    decreases fs.len(),
{
    if fs.len() > 0 {
        lemma_fetched_names_tag_outbounds(fs.drop_last(), markers);
        match fs.last().outcome {
            FetchOutcome::Fetched(ds) => {
                lemma_kept_names_tag_outbounds(ds@, markers);
            },
            FetchOutcome::Failed(_) => {},
        }
    }
}

/// The status records form a map keyed by URL: when the fetched URLs
/// are pairwise distinct — as the persisted configuration keeps them —
/// so are the URLs of the records produced for them, one per
/// subscription, so no stale entry can outlive its subscription.
pub proof fn lemma_records_keyed_by_url(
    fetches: Seq<SubscriptionFetch>,
    markers: Seq<String>,
    records: Seq<SubscriptionRecord>,
)
    requires
        records.len() == fetches.len(),
        forall|i: int|
            0 <= i < fetches.len() ==> record_matches(fetches[i], markers, #[trigger] records[i]),
        forall|i: int, j: int|
            0 <= i < j < fetches.len() ==> #[trigger] fetches[i].url@ != #[trigger] fetches[j].url@,
    ensures
        forall|i: int, j: int|
            0 <= i < j < records.len() ==> #[trigger] records[i].url@ != #[trigger] records[j].url@,
{
}

/// Translate the manual node descriptors, keeping their configured
/// order; descriptors of unsupported kinds are skipped.
fn process_manual(ds: &Vec<ProxyDescriptor>) -> (r: (Vec<String>, Vec<Outbound>))
    ensures
        r.0@ == manual_names(ds@),
        r.1@ == manual_outbounds(ds@),
{
    let mut names: Vec<String> = Vec::new();
    let mut outs: Vec<Outbound> = Vec::new();
    let n = ds.len();
    let mut i: usize = 0;
    while i < n
        invariant
            n == ds@.len(),
            0 <= i <= n,
            names@ == manual_names(ds@.take(i as int)),
            outs@ == manual_outbounds(ds@.take(i as int)),
        decreases n - i,
    {
        let d = &ds[i];
        proof {
            assert(ds@.take(i + 1).drop_last() =~= ds@.take(i as int));
            assert(ds@.take(i + 1).last() == ds@[i as int]);
        }
        if let Option::Some(o) = translate(d) {
            names.push(d.name.clone());
            outs.push(o);
        }
        i += 1;
    }
    proof {
        assert(ds@.take(n as int) =~= ds@);
    }
    (names, outs)
}

/// Merge manual nodes and subscription outcomes into one document.
///
/// A status record is produced for every subscription, in order,
/// whatever its outcome.  On success the document carries the manual
/// outbounds first and the fetched outbounds after them — manual nodes
/// take priority — and its group member list references exactly those
/// outbounds.  When the merged set is empty the outcome is
/// `NoNodesAvailable` and no document is produced.
pub fn synthesize(
    manual: &Vec<ProxyDescriptor>,
    fetches: &Vec<SubscriptionFetch>,
    markers: &Vec<String>,
) -> (r: Synthesis)
    ensures
        r.records@.len() == fetches@.len(),
        forall|i: int|
            0 <= i < fetches@.len() ==> record_matches(
                fetches@[i],
                markers@,
                #[trigger] r.records@[i],
            ),
        r.outcome is Err <==> manual_outbounds(manual@).len() + fetched_outbounds(
            fetches@,
            markers@,
        ).len() == 0,
        r.outcome is Err ==> r.outcome == Result::<EngineConfig, SynthesisError>::Err(
            SynthesisError::NoNodesAvailable,
        ),
        r.outcome matches Ok(c) ==> {
            &&& template_scaffold(c)
            &&& c.group_members@ == manual_names(manual@) + fetched_names(fetches@, markers@)
            &&& c.group_members@.len() == manual_names(manual@).len() + fetched_names(
                fetches@,
                markers@,
            ).len()
            &&& c.node_outbounds@ == manual_outbounds(manual@) + fetched_outbounds(
                fetches@,
                markers@,
            )
            &&& c.wf()
            &&& c.node_outbounds@.len() >= 1
        },
{
    let (mut m_names, mut m_outs) = process_manual(manual);
    let mut f_names: Vec<String> = Vec::new();
    let mut f_outs: Vec<Outbound> = Vec::new();
    let mut records: Vec<SubscriptionRecord> = Vec::new();

    let n = fetches.len();
    let mut i: usize = 0;
    while i < n
        invariant
            n == fetches@.len(),
            0 <= i <= n,
            f_names@ == fetched_names(fetches@.take(i as int), markers@),
            f_outs@ == fetched_outbounds(fetches@.take(i as int), markers@),
            records@.len() == i,
            forall|j: int|
                0 <= j < i ==> record_matches(fetches@[j], markers@, #[trigger] records@[j]),
        decreases n - i,
    {
        let f = &fetches[i];
        proof {
            assert(fetches@.take(i + 1).drop_last() =~= fetches@.take(i as int));
            assert(fetches@.take(i + 1).last() == fetches@[i as int]);
        }
        match &f.outcome {
            FetchOutcome::Fetched(ds) => {
                let (mut ns, mut os) = process_feed(ds, markers);
                let count = ns.len();
                f_names.append(&mut ns);
                f_outs.append(&mut os);
                records.push(
                    SubscriptionRecord {
                        url: f.url.clone(),
                        status: SubscriptionStatus {
                            success: true,
                            node_count: count,
                            error: Option::None,
                        },
                    },
                );
            },
            FetchOutcome::Failed(e) => {
                records.push(
                    SubscriptionRecord {
                        url: f.url.clone(),
                        status: SubscriptionStatus {
                            success: false,
                            node_count: 0,
                            error: Option::Some(e.message.clone()),
                        },
                    },
                );
            },
        }
        i += 1;
    }
    proof {
        assert(fetches@.take(n as int) =~= fetches@);
    }

    if m_outs.len() == 0 && f_outs.len() == 0 {
        return Synthesis { records, outcome: Result::Err(SynthesisError::NoNodesAvailable) };
    }

    proof {
        lemma_manual_names_tag_outbounds(manual@);
        lemma_fetched_names_tag_outbounds(fetches@, markers@);
    }
    let mut config = config_template();
    let mut members = m_names;
    members.append(&mut f_names);
    let mut nodes = m_outs;
    nodes.append(&mut f_outs);
    config.group_members = members;
    config.node_outbounds = nodes;
    Synthesis { records, outcome: Result::Ok(config) }
}

} // verus!
