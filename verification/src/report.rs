//! What a run reports: the totals of its results, and where each product's
//! remote identifier comes from.

use crate::config::{Product, ProductView};
use crate::sync::{
    record_of, Mapping, MappingEntryView, Outcome, OutcomeView, SyncResult, SyncResultView,
};
use crate::text::{decimal, u64_to_string};
use vstd::prelude::*;

verus! {

/// The totals of a run.
#[derive(Debug, Clone, Copy, PartialEq, Eq, Structural)]
pub struct Summary {
    pub created: usize,
    pub updated: usize,
    pub skipped: usize,
    pub failed: usize,
}

/// Whether a result reports a creation.
pub open spec fn is_created(r: SyncResultView) -> bool {
    r.action == "created"@
}

/// Whether a result reports an update.
pub open spec fn is_updated(r: SyncResultView) -> bool {
    r.action == "updated"@
}

/// Whether a result reports a product that was left as it was.
pub open spec fn is_skipped(r: SyncResultView) -> bool {
    r.action == "skipped"@ && r.error is None
}

/// Whether a result reports a failure.
pub open spec fn is_failed(r: SyncResultView) -> bool {
    r.error is Some
}

/// How many of `results` satisfy `p`.
pub open spec fn count(results: Seq<SyncResultView>, p: spec_fn(SyncResultView) -> bool) -> nat
    decreases results.len(),
{
    if results.len() == 0 {
        0
    } else {
        count(results.drop_last(), p) + if p(results.last()) {
            1nat
        } else {
            0nat
        }
    }
}

/// The results, each by its view.
pub open spec fn results_view(results: Seq<SyncResult>) -> Seq<SyncResultView> {
    Seq::new(results.len(), |i: int| results[i]@)
}

/// The report of each outcome, in order.
pub fn results_of(outcomes: &Vec<Outcome>) -> (results: Vec<SyncResult>)
    ensures
        results@.len() == outcomes@.len(),
        forall|i: int|
            0 <= i < outcomes@.len() ==> results@[i]@ == (SyncResultView {
                action: outcomes@[i]@.action(),
                error: outcomes@[i]@.error(),
            }),
{
    let mut results: Vec<SyncResult> = Vec::new();
    let mut i: usize = 0;
    while i < outcomes.len()
        invariant
            i <= outcomes@.len(),
            results@.len() == i,
            forall|j: int|
                0 <= j < i ==> results@[j]@ == (SyncResultView {
                    action: outcomes@[j]@.action(),
                    error: outcomes@[j]@.error(),
                }),
        decreases outcomes@.len() - i,
    {
        results.push(SyncResult::from_outcome(&outcomes[i]));
        i = i + 1;
    }
    results
}

/// A count is at most the number of results.
pub proof fn lemma_count_bounded(results: Seq<SyncResultView>, p: spec_fn(SyncResultView) -> bool)
    ensures
        count(results, p) <= results.len(),
    decreases results.len(),
{
    if results.len() > 0 {
        lemma_count_bounded(results.drop_last(), p);
    }
}

/// Totals the results of a run: how many products were created, updated,
/// left as they were, and how many failed.
pub fn summarize(results: &Vec<SyncResult>) -> (s: Summary)
    ensures
        s.created == count(results_view(results@), |r: SyncResultView| is_created(r)),
        s.updated == count(results_view(results@), |r: SyncResultView| is_updated(r)),
        s.skipped == count(results_view(results@), |r: SyncResultView| is_skipped(r)),
        s.failed == count(results_view(results@), |r: SyncResultView| is_failed(r)),
{
    let ghost all = results_view(results@);
    let ghost created = |r: SyncResultView| is_created(r);
    let ghost updated = |r: SyncResultView| is_updated(r);
    let ghost skipped = |r: SyncResultView| is_skipped(r);
    let ghost failed = |r: SyncResultView| is_failed(r);
    let mut s = Summary { created: 0, updated: 0, skipped: 0, failed: 0 };
    let mut i: usize = 0;
    while i < results.len()
        invariant
            i <= results@.len(),
            all == results_view(results@),
            created == (|r: SyncResultView| is_created(r)),
            updated == (|r: SyncResultView| is_updated(r)),
            skipped == (|r: SyncResultView| is_skipped(r)),
            failed == (|r: SyncResultView| is_failed(r)),
            s.created == count(all.take(i as int), created),
            s.updated == count(all.take(i as int), updated),
            s.skipped == count(all.take(i as int), skipped),
            s.failed == count(all.take(i as int), failed),
        decreases results@.len() - i,
    {
        let r = &results[i];
        proof {
            let next = all.take(i + 1);
            assert(next.drop_last() =~= all.take(i as int));
            assert(next.last() == r@);
            lemma_count_bounded(next, created);
            lemma_count_bounded(next, updated);
            lemma_count_bounded(next, skipped);
            lemma_count_bounded(next, failed);
        }
        if r.action.as_str().eq("created") {
            s.created = s.created + 1;
        }
        if r.action.as_str().eq("updated") {
            s.updated = s.updated + 1;
        }
        if r.action.as_str().eq("skipped") && r.error.is_none() {
            s.skipped = s.skipped + 1;
        }
        if r.error.is_some() {
            s.failed = s.failed + 1;
        }
        i = i + 1;
    }
    assert(all.take(i as int) =~= all);
    s
}

impl Summary {
    /// The exit status of a run with these totals: 1 if any product failed,
    /// else 0.
    pub fn exit_code(&self) -> (code: i32)
        ensures
            code == if self.failed > 0 {
                1i32
            } else {
                0i32
            },
    {
        if self.failed > 0 {
            1
        } else {
            0
        }
    }
}

/// Where the remote identifier of a product comes from.
#[derive(Debug, Clone, Copy, PartialEq, Eq, Structural)]
pub enum IdStatus {
    /// The declaration pins it.
    FromConfig(u64),
    /// It was recorded when the product was last synchronised.
    FromMapping(u64),
    /// The product has none yet.
    NotSynced,
}

/// The status of a product, given its record.
pub open spec fn status_of(product: ProductView, record: Option<MappingEntryView>) -> IdStatus {
    match product.product_id {
        Some(id) => IdStatus::FromConfig(id),
        None => match record {
            Some(r) => IdStatus::FromMapping(r.roblox_id),
            None => IdStatus::NotSynced,
        },
    }
}

/// Where the remote identifier of the product declared under `key` comes
/// from: the declaration first, then the records.
pub fn id_status(key: &str, product: &Product, mapping: &Mapping) -> (status: IdStatus)
    ensures
        status == status_of(product@, record_of(mapping@, key@)),
{
    match product.product_id {
        Some(id) => IdStatus::FromConfig(id),
        None => match mapping.get(key) {
            Some(e) => IdStatus::FromMapping(e.roblox_id),
            None => IdStatus::NotSynced,
        },
    }
}

impl IdStatus {
    /// The line that reports the status.
    pub open spec fn label(self) -> Seq<char> {
        match self {
            IdStatus::FromConfig(id) => "ID: "@ + decimal(id as nat) + " (from config)"@,
            IdStatus::FromMapping(id) => "ID: "@ + decimal(id as nat) + " (from mapping)"@,
            IdStatus::NotSynced => "Not synced"@,
        }
    }

    /// The line that reports the status.
    pub fn to_string(&self) -> (s: String)
        ensures
            s@ == self.label(),
    {
        match self {
            IdStatus::FromConfig(id) => {
                let mut s = "ID: ".to_owned();
                s.append(u64_to_string(*id).as_str());
                s.append(" (from config)");
                s
            },
            IdStatus::FromMapping(id) => {
                let mut s = "ID: ".to_owned();
                s.append(u64_to_string(*id).as_str());
                s.append(" (from mapping)");
                s
            },
            IdStatus::NotSynced => "Not synced".to_owned(),
        }
    }
}

} // verus!
