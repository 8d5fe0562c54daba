//! The session's committed result set and its derived view flags.
//!
//! `SearchSessionState` is a pure projection target: it holds what the view
//! layer renders and knows nothing of scheduling or the network. The
//! scheduler replaces or clears the committed result and drives the loading
//! flag.

use vstd::prelude::*;
use crate::model::{opt_result_model, ResultModel, SearchResult};

verus! {

/// What the view layer renders: the committed result, if any, and whether a
/// request is outstanding.
#[derive(Debug)]
pub struct SearchSessionState {
    result: Option<SearchResult>,
    loading: bool,
}

/// The mathematical shadow of a [`SearchSessionState`].
pub struct SessionModel {
    pub result: Option<ResultModel>,
    pub loading: bool,
}

impl View for SearchSessionState {
    type V = SessionModel;

    closed spec fn view(&self) -> SessionModel {
        SessionModel { result: opt_result_model(self.result), loading: self.loading }
    }
}

/// How many items the committed result holds; zero when none is committed.
pub open spec fn spec_item_count(s: SessionModel) -> nat {
    match s.result {
        Some(r) => r.items.len(),
        None => 0,
    }
}

impl SearchSessionState {
    /// A freshly mounted session: nothing committed, nothing loading.
    pub fn new() -> (s: Self)
        ensures
            s@.result is None,
            !s@.loading,
    {
        SearchSessionState { result: None, loading: false }
    }

    /// Replace the committed result wholesale; the loading flag is untouched.
    pub fn apply_result(&mut self, result: SearchResult)
        ensures
            final(self)@.result == Some(result@),
            final(self)@.loading == old(self)@.loading,
    {
        self.result = Some(result);
    }

    /// Drop the committed result and stop loading.
    pub fn clear(&mut self)
        ensures
            final(self)@.result is None,
            !final(self)@.loading,
    {
        self.result = None;
        self.loading = false;
    }

    /// Record whether a request is outstanding; the result is untouched.
    pub(crate) fn set_loading(&mut self, loading: bool)
        ensures
            final(self)@.result == old(self)@.result,
            final(self)@.loading == loading,
    {
        self.loading = loading;
    }

    /// Whether a request is outstanding.
    pub fn is_loading(&self) -> (b: bool)
        ensures
            b == self@.loading,
    {
        self.loading
    }

    /// Whether a result is committed (it may hold zero items).
    pub fn has_results(&self) -> (b: bool)
        ensures
            b == (self@.result is Some),
    {
        self.result.is_some()
    }

    /// How many items the committed result holds.
    pub fn item_count(&self) -> (n: usize)
        ensures
            n as nat == spec_item_count(self@),
    {
        match &self.result {
            Some(r) => r.items.len(),
            None => 0,
        }
    }

    /// The committed result, for the view layer to render.
    pub fn result(&self) -> (r: &Option<SearchResult>)
        ensures
            opt_result_model(*r) == self@.result,
    {
        &self.result
    }
}

} // verus!
