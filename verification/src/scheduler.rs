//! The single outstanding search-request slot.
//!
//! The scheduler owns one request slot per session. Rapid input is debounced
//! by superseding: while a request is in flight, later non-empty queries
//! overwrite a single queued slot instead of reaching the network, and a
//! finishing response is discarded whenever such a queued query exists. The
//! displayed result therefore always belongs to the most recently requested
//! query whose response was the last one applied, never to a stale superseded
//! one.
//!
//! Every operation returns the query to fetch next, if one must be issued;
//! the caller performs the transport and later hands the outcome to
//! [`RequestScheduler::on_response`]. The core never aborts an in-flight
//! transport call: a superseded or stale response is ignored on arrival.

use vstd::prelude::*;
use vstd::string::*;
use crate::model::{ResultModel, SearchResult};
use crate::query::{spec_trim, trim_blanks};
use crate::session::{SearchSessionState, SessionModel};

verus! {

/// The request slot: no call outstanding, one outstanding, or one
/// outstanding with the most recent superseding query queued behind it.
#[derive(Debug)]
pub enum RequestSlotState {
    Idle,
    InFlight,
    InFlightQueued(String),
}

/// The mathematical shadow of a [`RequestSlotState`].
pub enum SlotModel {
    Idle,
    InFlight,
    Queued(Seq<char>),
}

/// The mathematical shadow of a [`RequestScheduler`]: the slot and the query
/// current for the session (the last one submitted or forced, trimmed; empty
/// when the session was cleared).
pub struct SchedulerModel {
    pub slot: SlotModel,
    pub current: Seq<char>,
}

/// Owns the request slot and remembers the current query.
#[derive(Debug)]
pub struct RequestScheduler {
    slot: RequestSlotState,
    current: String,
}

impl View for RequestScheduler {
    type V = SchedulerModel;

    closed spec fn view(&self) -> SchedulerModel {
        SchedulerModel {
            slot: match self.slot {
                RequestSlotState::Idle => SlotModel::Idle,
                RequestSlotState::InFlight => SlotModel::InFlight,
                RequestSlotState::InFlightQueued(q) => SlotModel::Queued(q@),
            },
            current: self.current@,
        }
    }
}

/// The shadow of a fetch decision: the query to send, if any.
pub open spec fn fetch_model(f: Option<String>) -> Option<Seq<char>> {
    match f {
        Some(q) => Some(q@),
        None => None,
    }
}

/// What submitting the raw input `q` does. The input is trimmed first. A
/// blank query clears the session and empties the slot; an already
/// outstanding transport call is not aborted, its eventual response is
/// discarded on arrival. A non-empty query is fetched at once when the slot
/// is idle, and otherwise overwrites the queued slot (last write wins) so
/// that only the trailing query ever reaches the network.
pub open spec fn spec_submit(sched: SchedulerModel, sess: SessionModel, q: Seq<char>) -> (
    SchedulerModel,
    SessionModel,
    Option<Seq<char>>,
) {
    let t = spec_trim(q);
    if t.len() == 0 {
        (
            SchedulerModel { slot: SlotModel::Idle, current: t },
            SessionModel { result: None, loading: false },
            None,
        )
    } else if sched.slot is Idle {
        (
            SchedulerModel { slot: SlotModel::InFlight, current: t },
            SessionModel { result: sess.result, loading: true },
            Some(t),
        )
    } else {
        (
            SchedulerModel { slot: SlotModel::Queued(t), current: t },
            SessionModel { result: sess.result, loading: true },
            None,
        )
    }
}

/// What an arriving response outcome does (`None` is a failed or undecodable
/// response). The in-flight marker is cleared first. A queued query
/// supersedes: the outcome is discarded unconditionally and the queued query
/// is fetched at once. Otherwise a success replaces the committed result
/// wholesale and a failure leaves it untouched, and the slot returns to
/// idle. A response arriving on an idle slot is stale — its request was
/// superseded by a clear — and is discarded.
pub open spec fn spec_on_response(
    sched: SchedulerModel,
    sess: SessionModel,
    outcome: Option<ResultModel>,
) -> (SchedulerModel, SessionModel, Option<Seq<char>>) {
    match sched.slot {
        SlotModel::Idle => (sched, sess, None),
        SlotModel::InFlight => (
            SchedulerModel { slot: SlotModel::Idle, current: sched.current },
            SessionModel {
                result: match outcome {
                    Some(r) => Some(r),
                    None => sess.result,
                },
                loading: false,
            },
            None,
        ),
        SlotModel::Queued(q) => (
            SchedulerModel { slot: SlotModel::InFlight, current: sched.current },
            SessionModel { result: sess.result, loading: true },
            Some(q),
        ),
    }
}

/// What a forced refetch of `q` does: the fetch is issued whatever the slot
/// held, and anything queued is superseded. A blank query is never sent to
/// the server; forcing one clears the session instead, exactly as submitting
/// it would.
pub open spec fn spec_force_refetch(sched: SchedulerModel, sess: SessionModel, q: Seq<char>) -> (
    SchedulerModel,
    SessionModel,
    Option<Seq<char>>,
) {
    let t = spec_trim(q);
    if t.len() == 0 {
        (
            SchedulerModel { slot: SlotModel::Idle, current: t },
            SessionModel { result: None, loading: false },
            None,
        )
    } else {
        (
            SchedulerModel { slot: SlotModel::InFlight, current: t },
            SessionModel { result: sess.result, loading: true },
            Some(t),
        )
    }
}

impl RequestScheduler {
    /// A freshly mounted scheduler: idle slot, cleared query.
    pub fn new() -> (s: Self)
        ensures
            s@.slot is Idle,
            s@.current == Seq::<char>::empty(),
    {
        RequestScheduler { slot: RequestSlotState::Idle, current: String::new() }
    }

    /// The query current for the session: the last one submitted or forced,
    /// trimmed; empty after a clear.
    pub fn current_query(&self) -> (q: &String)
        ensures
            q@ == self@.current,
    {
        &self.current
    }

    /// Whether a request is outstanding.
    pub fn is_in_flight(&self) -> (b: bool)
        ensures
            b == !(self@.slot is Idle),
    {
        match &self.slot {
            RequestSlotState::Idle => false,
            _ => true,
        }
    }

    /// Submit raw user input, as [`spec_submit`] says. Returns the query to
    /// fetch, if one must be issued now.
    pub fn submit(&mut self, session: &mut SearchSessionState, query: &str) -> (fetch: Option<
        String,
    >)
        ensures
            (final(self)@, final(session)@, fetch_model(fetch)) == spec_submit(
                old(self)@,
                old(session)@,
                query@,
            ),
    {
        let t = trim_blanks(query);
        if t.as_str().unicode_len() == 0 {
            self.slot = RequestSlotState::Idle;
            self.current = t;
            session.clear();
            None
        } else {
            match &self.slot {
                RequestSlotState::Idle => {
                    self.slot = RequestSlotState::InFlight;
                    self.current = t.clone();
                    session.set_loading(true);
                    Some(t)
                },
                _ => {
                    self.current = t.clone();
                    self.slot = RequestSlotState::InFlightQueued(t);
                    session.set_loading(true);
                    None
                },
            }
        }
    }

    /// Deliver the outcome of the in-flight request, as [`spec_on_response`]
    /// says (`None` is a failed or undecodable response). Returns the queued
    /// query to fetch next, if one superseded the finished request.
    pub fn on_response(
        &mut self,
        session: &mut SearchSessionState,
        outcome: Option<SearchResult>,
    ) -> (fetch: Option<String>)
        ensures
            (final(self)@, final(session)@, fetch_model(fetch)) == spec_on_response(
                old(self)@,
                old(session)@,
                match outcome {
                    Some(r) => Some(r@),
                    None => None,
                },
            ),
    {
        match &self.slot {
            RequestSlotState::Idle => None,
            RequestSlotState::InFlight => {
                self.slot = RequestSlotState::Idle;
                session.set_loading(false);
                match outcome {
                    Some(r) => session.apply_result(r),
                    None => (),
                }
                None
            },
            RequestSlotState::InFlightQueued(q) => {
                let next = q.clone();
                self.slot = RequestSlotState::InFlight;
                session.set_loading(true);
                Some(next)
            },
        }
    }

    /// Unconditionally fetch `query`, as [`spec_force_refetch`] says: the
    /// debounce queue is bypassed and anything queued is superseded. Used on
    /// mutation completion to refresh the displayed result.
    pub fn force_refetch(&mut self, session: &mut SearchSessionState, query: &str) -> (fetch:
        Option<String>)
        ensures
            (final(self)@, final(session)@, fetch_model(fetch)) == spec_force_refetch(
                old(self)@,
                old(session)@,
                query@,
            ),
    {
        let t = trim_blanks(query);
        if t.as_str().unicode_len() == 0 {
            self.slot = RequestSlotState::Idle;
            self.current = t;
            session.clear();
            None
        } else {
            self.slot = RequestSlotState::InFlight;
            self.current = t.clone();
            session.set_loading(true);
            Some(t)
        }
    }
}

} // verus!
