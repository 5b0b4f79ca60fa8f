//! Merging the orchestrator's view of its executions into the registry.

use crate::argo::{distinct_keys, has_distinct_keys, pair_views, SimpleStatus};
use crate::ids::{parse_job_id, uuid_parsed, Timestamp};
use crate::registry::{clone_opt, map_wf, opt_view, record_wf, FullJobState, FullJobStateView, StateHandler};
use crate::status::{parse_phase, phase_status};
use crate::text::str_eq;
use vstd::prelude::*;

verus! {

broadcast use vstd::std_specs::hash::group_hash_axioms;

/// Why an execution reported by the orchestrator could not be read.
#[derive(Clone, Copy, Debug, PartialEq, Eq, Structural)]
pub enum ItemError {
    /// The execution carries no `jobid` label.
    MissingJobId,
    /// The `jobid` label is no UUID.
    InvalidJobId,
    /// The phase is outside the known vocabulary.
    UnknownPhase,
    /// Two labels share a key.
    DuplicateLabel,
}

/// The value of the first label named `key`.
pub open spec fn label_value(ls: Seq<(String, String)>, key: Seq<char>) -> Option<Seq<char>>
    decreases ls.len(),
{
    if ls.len() == 0 {
        None
    } else if ls[0].0@ == key {
        Some(ls[0].1@)
    } else {
        label_value(ls.drop_first(), key)
    }
}

/// The value of the label named `key`, or `default` when there is none.
pub open spec fn label_or(ls: Seq<(String, String)>, key: Seq<char>, default: Seq<char>) -> Seq<char> {
    match label_value(ls, key) {
        Some(v) => v,
        None => default,
    }
}

/// The record that execution `item` gives for job `id` at time `now`.
pub open spec fn execution_record(item: SimpleStatus, id: u128, now: Timestamp) -> Result<
    FullJobStateView,
    ItemError,
> {
    match phase_status(item.status.phase@) {
        None => Err(ItemError::UnknownPhase),
        Some(st) => Ok(
            FullJobStateView {
                id,
                argo_uid: opt_view(item.metadata.uid),
                argo_ressource_version: opt_view(item.metadata.resource_version),
                name: label_or(item.metadata.labels@, "name"@, "Unknown name"@),
                status: st,
                started: Some(item.status.started_at),
                updated: Some(
                    match item.status.finished_at {
                        Some(f) => f,
                        None => now,
                    },
                ),
                workflowname: Some(item.metadata.name@),
                secret: label_or(item.metadata.labels@, "secret"@, "Unknown"@),
                archived: label_value(
                    item.metadata.labels@,
                    "workflows.argoproj.io/workflow-archiving-status"@,
                ) is Some,
            },
        ),
    }
}

/// The record that execution `item` gives at time `now`, read from its
/// `jobid` label; or why it gives none. Labels form a map, so an item whose
/// labels repeat a key is refused.
pub open spec fn execution_outcome(item: SimpleStatus, now: Timestamp) -> Result<
    FullJobStateView,
    ItemError,
> {
    if !distinct_keys(pair_views(item.metadata.labels@)) {
        Err(ItemError::DuplicateLabel)
    } else {
        match label_value(item.metadata.labels@, "jobid"@) {
        None => Err(ItemError::MissingJobId),
        Some(t) => match uuid_parsed(t) {
            None => Err(ItemError::InvalidJobId),
            Some(id) => execution_record(item, id, now),
        },
        }
    }
}

/// `m` with the record `r` reported by the orchestrator merged in: a new job
/// is added as reported; a known job takes the reported execution data but
/// keeps its name and secret; a job in a terminal state is not moved back
/// to a non-terminal one.
pub open spec fn upsert(m: Map<u128, FullJobStateView>, r: FullJobStateView) -> Map<
    u128,
    FullJobStateView,
> {
    if m.contains_key(r.id) {
        if m[r.id].status.is_terminal() && !r.status.is_terminal() {
            m
        } else {
            m.insert(r.id, FullJobStateView { name: m[r.id].name, secret: m[r.id].secret, ..r })
        }
    } else {
        m.insert(r.id, r)
    }
}

/// `m` after merging every readable item of `items`, in order.
pub open spec fn reconciled(m: Map<u128, FullJobStateView>, items: Seq<SimpleStatus>, now: Timestamp) -> Map<
    u128,
    FullJobStateView,
>
    decreases items.len(),
{
    if items.len() == 0 {
        m
    } else {
        let prev = reconciled(m, items.drop_last(), now);
        match execution_outcome(items.last(), now) {
            Ok(r) => upsert(prev, r),
            Err(_) => prev,
        }
    }
}

/// Why each unreadable item of `items` was skipped, in order.
pub open spec fn skipped(items: Seq<SimpleStatus>, now: Timestamp) -> Seq<ItemError>
    decreases items.len(),
{
    if items.len() == 0 {
        Seq::empty()
    } else {
        let prev = skipped(items.drop_last(), now);
        match execution_outcome(items.last(), now) {
            Ok(_) => prev,
            Err(e) => prev.push(e),
        }
    }
}

fn find_label(labels: &Vec<(String, String)>, key: &str) -> (r: Option<String>)
    ensures
        opt_view(r) == label_value(labels@, key@),
{
    let mut i: usize = 0;
    assert(labels@.subrange(0, labels.len() as int) =~= labels@);
    while i < labels.len()
        invariant
            i <= labels.len(),
            label_value(labels@, key@) == label_value(labels@.subrange(i as int, labels.len() as int), key@),
        decreases labels.len() - i,
    {
        let ghost rest = labels@.subrange(i as int, labels.len() as int);
        assert(rest.drop_first() =~= labels@.subrange(i + 1, labels.len() as int));
        if str_eq(labels[i].0.as_str(), key) {
            return Some(labels[i].1.clone());
        }
        i = i + 1;
    }
    None
}

/// The record that execution `item` gives for job `job_id` at `now`.
pub fn record_from_execution(item: &SimpleStatus, job_id: u128, now: Timestamp) -> (r: Result<
    FullJobState,
    ItemError,
>)
    ensures
        match execution_record(*item, job_id, now) {
            Ok(v) => r matches Ok(s) && s@ == v,
            Err(e) => r matches Err(e2) && e2 == e,
        },
{
    let status = match parse_phase(item.status.phase.as_str()) {
        Some(s) => s,
        None => {
            return Err(ItemError::UnknownPhase);
        },
    };
    let labels = &item.metadata.labels;
    let name = match find_label(labels, "name") {
        Some(v) => v,
        None => String::from_str("Unknown name"),
    };
    let secret = match find_label(labels, "secret") {
        Some(v) => v,
        None => String::from_str("Unknown"),
    };
    let archived = find_label(labels, "workflows.argoproj.io/workflow-archiving-status").is_some();
    let updated = match item.status.finished_at {
        Some(f) => f,
        None => now,
    };
    Ok(
        FullJobState {
            id: job_id,
            argo_uid: clone_opt(&item.metadata.uid),
            argo_ressource_version: clone_opt(&item.metadata.resource_version),
            name,
            status,
            started: Some(item.status.started_at),
            updated: Some(updated),
            workflowname: Some(item.metadata.name.clone()),
            secret,
            archived,
        },
    )
}

/// Reads execution `item` into a job record at time `now`, keyed by the
/// UUID in its `jobid` label.
pub fn parse_execution(item: &SimpleStatus, now: Timestamp) -> (r: Result<FullJobState, ItemError>)
    ensures
        match execution_outcome(*item, now) {
            Ok(v) => r matches Ok(s) && s@ == v,
            Err(e) => r matches Err(e2) && e2 == e,
        },
{
    if !has_distinct_keys(&item.metadata.labels) {
        return Err(ItemError::DuplicateLabel);
    }
    let text = match find_label(&item.metadata.labels, "jobid") {
        Some(t) => t,
        None => {
            return Err(ItemError::MissingJobId);
        },
    };
    match parse_job_id(text.as_str()) {
        Some(id) => record_from_execution(item, id, now),
        None => Err(ItemError::InvalidJobId),
    }
}

impl StateHandler {
    fn upsert_record(&mut self, rec: FullJobState)
        requires
            old(self).wf(),
            record_wf(rec@),
        ensures
            final(self).wf(),
            final(self).records() == upsert(old(self).records(), rec@),
    {
        let ghost before = self.records();
        let ghost rv = rec@;
        let id = rec.id;
        match self.job_state.remove(&id) {
            Some(known) => {
                assert(known@ == before[id]);
                if known.status.is_finished() && !rec.status.is_finished() {
                    self.job_state.insert(id, known);
                    assert(self.records() =~= before);
                } else {
                    let merged = FullJobState { name: known.name, secret: known.secret, ..rec };
                    let ghost mv = merged@;
                    self.job_state.insert(id, merged);
                    assert(self.records() =~= before.insert(id, mv));
                }
            },
            None => {
                self.job_state.insert(id, rec);
                assert(self.records() =~= before.insert(id, rv));
            },
        }
    }

    /// Merges the orchestrator's listing `items` at time `now`: every
    /// readable item updates the registry in order, every unreadable one is
    /// skipped and its reason returned.
    pub fn reconcile(&mut self, items: &Vec<SimpleStatus>, now: Timestamp) -> (r: Vec<ItemError>)
        requires
            old(self).wf(),
        ensures
            final(self).wf(),
            final(self).records() == reconciled(old(self).records(), items@, now),
            r@ == skipped(items@, now),
    {
        let ghost start = self.records();
        let mut errors: Vec<ItemError> = Vec::new();
        let mut i: usize = 0;
        while i < items.len()
            invariant
                i <= items.len(),
                self.wf(),
                self.records() == reconciled(start, items@.subrange(0, i as int), now),
                errors@ == skipped(items@.subrange(0, i as int), now),
            decreases items.len() - i,
        {
            let ghost prefix = items@.subrange(0, i + 1);
            assert(prefix.drop_last() =~= items@.subrange(0, i as int));
            assert(prefix.last() == items@[i as int]);
            match parse_execution(&items[i], now) {
                Ok(rec) => {
                    self.upsert_record(rec);
                },
                Err(e) => {
                    errors.push(e);
                },
            }
            i = i + 1;
        }
        assert(items@.subrange(0, items.len() as int) =~= items@);
        errors
    }

    /// Merges the orchestrator's listing `items` at the current time.
    pub fn update_from_orchestrator(&mut self, items: &Vec<SimpleStatus>) -> (r: Vec<ItemError>)
        requires
            old(self).wf(),
        ensures
            final(self).wf(),
            exists|now: Timestamp|
                final(self).records() == reconciled(old(self).records(), items@, now) && r@
                    == skipped(items@, now),
    {
        let now = crate::ids::now();
        self.reconcile(items, now)
    }
}

/// An item that the reconciliation can read yields a well-formed record.
pub proof fn lemma_execution_record_wf(item: SimpleStatus, now: Timestamp)
    ensures
        execution_outcome(item, now) matches Ok(r) ==> record_wf(r),
{
}

proof fn lemma_upsert_wf(m: Map<u128, FullJobStateView>, r: FullJobStateView)
    requires
        map_wf(m),
        record_wf(r),
    ensures
        map_wf(upsert(m, r)),
        upsert(m, r).dom() == m.dom().insert(r.id),
        forall|k: u128| k != r.id && m.contains_key(k) ==> #[trigger] upsert(m, r)[k] == m[k],
{
    assert(upsert(m, r).dom() =~= m.dom().insert(r.id));
}

/// `o` is a record of job `id`.
pub open spec fn outcome_names(o: Result<FullJobStateView, ItemError>, id: u128) -> bool {
    o matches Ok(r) && r.id == id
}

/// `items` holds a readable item for job `id`.
pub open spec fn names_job(items: Seq<SimpleStatus>, now: Timestamp, id: u128) -> bool {
    exists|k: int|
        0 <= k < items.len() && outcome_names(#[trigger] execution_outcome(items[k], now), id)
}

/// Reconciliation touches only the jobs that readable items name: a job
/// that no readable item names keeps its record, or stays absent; every job
/// a readable item names is present afterwards; the registry stays well
/// formed. Unreadable items are skipped.
pub proof fn lemma_reconcile_isolated(
    m: Map<u128, FullJobStateView>,
    items: Seq<SimpleStatus>,
    now: Timestamp,
)
    requires
        map_wf(m),
    ensures
        map_wf(reconciled(m, items, now)),
        forall|id: u128|
            !names_job(items, now, id) ==> (#[trigger] reconciled(m, items, now).contains_key(id)
                == m.contains_key(id) && (m.contains_key(id) ==> reconciled(m, items, now)[id]
                == m[id])),
        forall|k: int|
            0 <= k < items.len() && (#[trigger] execution_outcome(items[k], now)) is Ok
                ==> reconciled(m, items, now).contains_key(execution_outcome(items[k], now)->Ok_0.id),
    decreases items.len(),
{
    if items.len() > 0 {
        let init = items.drop_last();
        lemma_reconcile_isolated(m, init, now);
        let prev = reconciled(m, init, now);
        assert forall|k: int| 0 <= k < init.len() implies #[trigger] init[k] == items[k] by {}
        assert forall|id: u128| !names_job(items, now, id) implies !names_job(init, now, id) by {
            if names_job(init, now, id) {
                let k = choose|k: int|
                    0 <= k < init.len() && outcome_names(#[trigger] execution_outcome(init[k], now), id);
                assert(init[k] == items[k]);
                assert(outcome_names(execution_outcome(items[k], now), id));
            }
        }
        match execution_outcome(items.last(), now) {
            Ok(r) => {
                lemma_execution_record_wf(items.last(), now);
                lemma_upsert_wf(prev, r);
                assert forall|id: u128| !names_job(items, now, id) implies id != r.id by {
                    assert(outcome_names(execution_outcome(items[items.len() - 1], now), r.id));
                }
                assert forall|k: int|
                    0 <= k < items.len() && (#[trigger] execution_outcome(
                        items[k],
                        now,
                    )) is Ok implies reconciled(m, items, now).contains_key(
                    execution_outcome(items[k], now)->Ok_0.id,
                ) by {
                    if k < items.len() - 1 {
                        assert(init[k] == items[k]);
                        assert(execution_outcome(init[k], now) is Ok);
                    }
                }
            },
            Err(_) => {
                assert forall|k: int|
                    0 <= k < items.len() && (#[trigger] execution_outcome(
                        items[k],
                        now,
                    )) is Ok implies reconciled(m, items, now).contains_key(
                    execution_outcome(items[k], now)->Ok_0.id,
                ) by {
                    if k < items.len() - 1 {
                        assert(init[k] == items[k]);
                        assert(execution_outcome(init[k], now) is Ok);
                    }
                }
            },
        }
    }
}

/// An item that is the only readable one naming its job decides that job's
/// record: it is what merging that item alone into the registry gives.
pub proof fn lemma_reconcile_single_item(
    m: Map<u128, FullJobStateView>,
    items: Seq<SimpleStatus>,
    now: Timestamp,
    k: int,
)
    requires
        map_wf(m),
        0 <= k < items.len(),
        execution_outcome(items[k], now) is Ok,
        forall|j: int|
            0 <= j < items.len() && j != k ==> !outcome_names(
                #[trigger] execution_outcome(items[j], now),
                execution_outcome(items[k], now)->Ok_0.id,
            ),
    ensures
        reconciled(m, items, now).contains_key(execution_outcome(items[k], now)->Ok_0.id),
        reconciled(m, items, now)[execution_outcome(items[k], now)->Ok_0.id] == upsert(
            m,
            execution_outcome(items[k], now)->Ok_0,
        )[execution_outcome(items[k], now)->Ok_0.id],
    decreases items.len(),
{
    let r = execution_outcome(items[k], now)->Ok_0;
    let init = items.drop_last();
    let prev = reconciled(m, init, now);
    assert forall|j: int| 0 <= j < init.len() implies #[trigger] init[j] == items[j] by {}
    if k == items.len() - 1 {
        lemma_reconcile_isolated(m, init, now);
        if names_job(init, now, r.id) {
            let j = choose|j: int|
                0 <= j < init.len() && outcome_names(#[trigger] execution_outcome(init[j], now), r.id);
            assert(init[j] == items[j]);
            assert(outcome_names(execution_outcome(items[j], now), r.id));
        }
        assert(prev.contains_key(r.id) == m.contains_key(r.id));
    } else {
        assert(init[k] == items[k]);
        assert forall|j: int|
            0 <= j < init.len() && j != k implies !outcome_names(
                #[trigger] execution_outcome(init[j], now),
                r.id,
            ) by {
            assert(init[j] == items[j]);
        }
        lemma_reconcile_single_item(m, init, now, k);
        assert(!outcome_names(execution_outcome(items[items.len() - 1], now), r.id));
    }
}

/// A reconciliation round whose one item reports a job's execution as
/// succeeded marks that job `Succeeded`, keeping its name and secret, when
/// the job was pending or running.
pub proof fn lemma_tick_reports_success(
    m: Map<u128, FullJobStateView>,
    id: u128,
    item: SimpleStatus,
    now: Timestamp,
)
    requires
        map_wf(m),
        m.contains_key(id),
        m[id].status is Pending || m[id].status is Running,
        distinct_keys(pair_views(item.metadata.labels@)),
        label_value(item.metadata.labels@, "jobid"@) matches Some(t) && uuid_parsed(t) == Some(id),
        phase_status(item.status.phase@) == Some(crate::status::LifecycleStatus::Succeeded),
    ensures
        reconciled(m, seq![item], now).contains_key(id),
        reconciled(m, seq![item], now)[id].status is Succeeded,
        reconciled(m, seq![item], now)[id].workflowname == Some(item.metadata.name@),
        reconciled(m, seq![item], now)[id].name == m[id].name,
        reconciled(m, seq![item], now)[id].secret == m[id].secret,
{
    let items = seq![item];
    assert(items.drop_last() =~= Seq::<SimpleStatus>::empty());
    assert(items.last() == item);
    reveal_with_fuel(reconciled, 2);
    let r = execution_outcome(item, now)->Ok_0;
    assert(execution_outcome(item, now) is Ok);
    assert(r.id == id);
    assert(reconciled(m, items, now) == upsert(m, r));
}

} // verus!
