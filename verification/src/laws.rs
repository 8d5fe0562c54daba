//! The guarantees the core gives across calls, stated over the shadows of
//! the scheduler and the session and proved once and for all.

use vstd::prelude::*;
use crate::model::ResultModel;
use crate::query::{lemma_trim_idempotent, spec_trim};
use crate::scheduler::{
    spec_force_refetch, spec_on_response, spec_submit, SchedulerModel, SlotModel,
};
use crate::session::SessionModel;

verus! {

/// A text that trimming leaves unchanged.
pub open spec fn trimmed(s: Seq<char>) -> bool {
    spec_trim(s) == s
}

/// The scheduler shadows the operations keep well-formed: the current query
/// is trimmed, and a queued query is always the current one — the most
/// recent non-blank input since the in-flight request was issued — and
/// non-blank.
pub open spec fn scheduler_wf(m: SchedulerModel) -> bool {
    &&& trimmed(m.current)
    &&& (m.slot matches SlotModel::Queued(q) ==> q == m.current && q.len() > 0)
}

/// The loading flag tracks the slot: the session reports loading exactly
/// while a request is outstanding.
pub open spec fn loading_tracks_slot(m: SchedulerModel, s: SessionModel) -> bool {
    s.loading == !(m.slot is Idle)
}

/// Submitting keeps the scheduler well-formed and the loading flag true to
/// the slot, whatever state it starts from.
pub proof fn lemma_submit_preserves_invariants(m: SchedulerModel, s: SessionModel, q: Seq<char>)
    ensures
        ({
            let (m2, s2, fetch) = spec_submit(m, s, q);
            scheduler_wf(m2) && loading_tracks_slot(m2, s2)
        }),
{
    lemma_trim_idempotent(q);
}

/// Delivering a response keeps the scheduler well-formed and the loading
/// flag true to the slot.
pub proof fn lemma_on_response_preserves_invariants(
    m: SchedulerModel,
    s: SessionModel,
    outcome: Option<ResultModel>,
)
    requires
        scheduler_wf(m),
        loading_tracks_slot(m, s),
    ensures
        ({
            let (m2, s2, fetch) = spec_on_response(m, s, outcome);
            scheduler_wf(m2) && loading_tracks_slot(m2, s2)
        }),
{
}

/// A forced refetch keeps the scheduler well-formed and the loading flag
/// true to the slot, whatever state it starts from.
pub proof fn lemma_force_refetch_preserves_invariants(
    m: SchedulerModel,
    s: SessionModel,
    q: Seq<char>,
)
    ensures
        ({
            let (m2, s2, fetch) = spec_force_refetch(m, s, q);
            scheduler_wf(m2) && loading_tracks_slot(m2, s2)
        }),
{
    lemma_trim_idempotent(q);
}

/// The fold of a burst of submissions: each input is submitted in turn, and
/// the fetch decision of each is recorded.
pub open spec fn spec_submit_all(m: SchedulerModel, s: SessionModel, qs: Seq<Seq<char>>) -> (
    SchedulerModel,
    SessionModel,
    Seq<Option<Seq<char>>>,
)
    decreases qs.len(),
{
    if qs.len() == 0 {
        (m, s, Seq::empty())
    } else {
        let (m1, s1, f1) = spec_submit(m, s, qs[0]);
        let (m2, s2, fs) = spec_submit_all(m1, s1, qs.drop_first());
        (m2, s2, seq![f1] + fs)
    }
}

/// Debounce is trailing. While a request is already in flight, a burst of
/// non-blank submissions issues no network call at all: each query merely
/// overwrites the queued slot, so the committed result is untouched and only
/// the final query stays queued. When the in-flight response then arrives it
/// is discarded and exactly one fetch is issued — for that final query and
/// no other; the intermediate queries never reach the network.
pub proof fn lemma_debounce_trailing(
    m: SchedulerModel,
    s: SessionModel,
    qs: Seq<Seq<char>>,
    outcome: Option<ResultModel>,
)
    requires
        !(m.slot is Idle),
        qs.len() > 0,
        forall|k: int| 0 <= k < qs.len() ==> spec_trim(#[trigger] qs[k]).len() > 0,
    ensures
        ({
            let (m2, s2, fetches) = spec_submit_all(m, s, qs);
            &&& forall|k: int| 0 <= k < fetches.len() ==> #[trigger] fetches[k] is None
            &&& m2.slot == SlotModel::Queued(spec_trim(qs.last()))
            &&& m2.current == spec_trim(qs.last())
            &&& s2.result == s.result
            &&& ({
                let (m3, s3, f3) = spec_on_response(m2, s2, outcome);
                &&& f3 == Some(spec_trim(qs.last()))
                &&& s3.result == s.result
                &&& m3.slot is InFlight
            })
        }),
    decreases qs.len(),
{
    let (m1, s1, f1) = spec_submit(m, s, qs[0]);
    let (m2, s2, fs) = spec_submit_all(m1, s1, qs.drop_first());
    let (mr, sr, fetches) = spec_submit_all(m, s, qs);
    if qs.len() == 1 {
        assert(fetches =~= seq![f1]);
    } else {
        lemma_debounce_trailing(m1, s1, qs.drop_first(), outcome);
        assert(qs.drop_first().last() == qs.last());
        assert forall|k: int| 0 <= k < fetches.len() implies #[trigger] fetches[k] is None by {
            if k > 0 {
                assert(fetches[k] == fs[k - 1]);
            }
        }
    }
}

/// Clearing is final. Submitting a blank query immediately leaves the
/// session with no committed result and not loading, issues no fetch, and
/// empties the slot; a response that arrives afterwards for an earlier
/// request is discarded outright and revives nothing — the state after it
/// is exactly the cleared state.
pub proof fn lemma_clear_discards_late_response(
    m: SchedulerModel,
    s: SessionModel,
    blank: Seq<char>,
    outcome: Option<ResultModel>,
)
    requires
        spec_trim(blank).len() == 0,
    ensures
        ({
            let (m1, s1, f1) = spec_submit(m, s, blank);
            &&& f1 is None
            &&& s1.result is None
            &&& !s1.loading
            &&& m1.slot is Idle
            &&& spec_on_response(m1, s1, outcome) == (m1, s1, Option::<Seq<char>>::None)
        }),
{
}

/// A response for an in-flight request is applied to the session if and
/// only if no query is queued at the moment it arrives. With nothing
/// queued, a success replaces the committed result and a failure leaves it
/// untouched, and no fetch follows; with a query queued, the outcome is
/// discarded whatever it was and that query is fetched; on an idle slot the
/// response is stale and nothing changes at all.
pub proof fn lemma_response_applied_iff_unqueued(
    m: SchedulerModel,
    s: SessionModel,
    outcome: Option<ResultModel>,
)
    ensures
        ({
            let (m2, s2, fetch) = spec_on_response(m, s, outcome);
            &&& m.slot is InFlight ==> {
                &&& s2.result == (match outcome {
                    Some(r) => Some(r),
                    None => s.result,
                })
                &&& fetch is None
                &&& m2.slot is Idle
            }
            &&& (m.slot matches SlotModel::Queued(q) ==> s2.result == s.result && fetch == Some(q)
                && m2.slot is InFlight)
            &&& m.slot is Idle ==> s2 == s && fetch is None
        }),
{
}

/// A completed mutation refreshes the display: on a well-formed scheduler
/// whose current query is non-blank, the forced refetch that completion
/// triggers issues exactly one fetch, and for precisely the query current
/// at completion time — not the one in effect when the mutation was issued.
/// Anything queued is superseded by that fetch.
pub proof fn lemma_mutation_completion_refetches_current(m: SchedulerModel, s: SessionModel)
    requires
        scheduler_wf(m),
        m.current.len() > 0,
    ensures
        ({
            let (m2, s2, fetch) = spec_force_refetch(m, s, m.current);
            &&& fetch == Some(m.current)
            &&& m2.slot is InFlight
            &&& m2.current == m.current
            &&& s2.result == s.result
        }),
{
}

} // verus!
