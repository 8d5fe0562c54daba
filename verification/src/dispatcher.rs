//! Attribute and tag mutations, and the tag staging buffer.
//!
//! The dispatcher turns user actions into write calls for the server and
//! buffers partial tag input until the delimiter (a space) commits it. It
//! issues no optimistic local mutation: the displayed item changes only when
//! the forced refetch after a completed mutation brings the fresh result.

use vstd::prelude::*;
use vstd::string::*;
use crate::scheduler::{fetch_model, spec_force_refetch, RequestScheduler};
use crate::session::SearchSessionState;

verus! {

/// The boolean-like item fields a mutation may set.
#[derive(Debug, Clone, Copy, PartialEq)]
pub enum AttributeField {
    Pinned,
    Hide,
    HideDomain,
    Bookmarked,
}

/// Whether a tag write adds the tag to the item or removes it.
#[derive(Debug, Clone, Copy, PartialEq)]
pub enum TagAction {
    Add,
    Remove,
}

/// What a mutation writes: a 0/1 scalar into one field, or a tag-set edit.
#[derive(Debug, Clone, PartialEq)]
pub enum MutationKind {
    SetAttribute { field: AttributeField, value: i64 },
    EditTags { action: TagAction, tag: String },
}

/// One write call for the server, addressed by the item's `url`.
#[derive(Debug, Clone, PartialEq)]
pub struct MutationRequest {
    pub url: String,
    pub kind: MutationKind,
}

/// The mathematical shadow of a [`MutationDispatcher`]: the staged partial
/// tag text not yet committed to the server.
pub struct DispatcherModel {
    pub staging: Seq<char>,
}

/// Issues write calls and stages partial tag input for the session.
#[derive(Debug)]
pub struct MutationDispatcher {
    staging: String,
}

impl View for MutationDispatcher {
    type V = DispatcherModel;

    closed spec fn view(&self) -> DispatcherModel {
        DispatcherModel { staging: self.staging@ }
    }
}

/// What staging the tag fragment does: the fragment is appended to the
/// buffer; when the fragment ends with the delimiter the buffer's content up
/// to the delimiter is committed and the buffer is reset, otherwise nothing
/// is committed and the buffer is retained for display.
pub open spec fn spec_stage_tag(staging: Seq<char>, fragment: Seq<char>) -> (
    Seq<char>,
    Option<Seq<char>>,
) {
    let combined = staging + fragment;
    if fragment.len() > 0 && fragment.last() == ' ' {
        (Seq::empty(), Some(combined.drop_last()))
    } else {
        (combined, None)
    }
}

impl MutationDispatcher {
    /// A freshly mounted dispatcher: nothing staged.
    pub fn new() -> (d: Self)
        ensures
            d@.staging == Seq::<char>::empty(),
    {
        MutationDispatcher { staging: String::new() }
    }

    /// The staged partial tag text, for the view layer to display.
    pub fn staged_tag(&self) -> (t: &String)
        ensures
            t@ == self@.staging,
    {
        &self.staging
    }

    /// Exactly one write call setting `field` to `value` on the item at
    /// `url`. The displayed item is not touched locally.
    pub fn submit_attribute(&self, url: &str, field: AttributeField, value: i64) -> (req:
        MutationRequest)
        requires
            value == 0 || value == 1,
        ensures
            req.url@ == url@,
            req.kind == (MutationKind::SetAttribute { field, value }),
    {
        MutationRequest {
            url: String::from_str(url),
            kind: MutationKind::SetAttribute { field, value },
        }
    }

    /// Stage the tag fragment, as [`spec_stage_tag`] says. When the fragment
    /// ends with the delimiter, the committed tag is returned as exactly one
    /// tag-add write call; otherwise no network call occurs.
    pub fn submit_tag(&mut self, url: &str, fragment: &str) -> (req: Option<MutationRequest>)
        ensures
            ({
                let (staged, committed) = spec_stage_tag(old(self)@.staging, fragment@);
                &&& final(self)@.staging == staged
                &&& match committed {
                    Some(tag) => req matches Some(r) && r.url@ == url@ && (
                    r.kind matches MutationKind::EditTags { action, tag: t } && action
                        == TagAction::Add && t@ == tag),
                    None => req is None,
                }
            }),
    {
        let len: usize = fragment.unicode_len();
        let ends_with_delimiter: bool = len > 0 && fragment.get_char(len - 1) == ' ';
        self.staging.append(fragment);
        if ends_with_delimiter {
            let total: usize = self.staging.as_str().unicode_len();
            let tag = String::from_str(self.staging.as_str().substring_char(0, total - 1));
            proof {
                assert(tag@ =~= (old(self)@.staging + fragment@).drop_last());
            }
            self.staging = String::new();
            Some(
                MutationRequest {
                    url: String::from_str(url),
                    kind: MutationKind::EditTags { action: TagAction::Add, tag },
                },
            )
        } else {
            None
        }
    }

    /// Exactly one write call removing the exact tag string from the item at
    /// `url`; the staging buffer is not involved.
    pub fn remove_tag(&self, url: &str, tag: &str) -> (req: MutationRequest)
        ensures
            req.url@ == url@,
            req.kind matches MutationKind::EditTags { action, tag: t } && action
                == TagAction::Remove && t@ == tag@,
    {
        MutationRequest {
            url: String::from_str(url),
            kind: MutationKind::EditTags { action: TagAction::Remove, tag: String::from_str(tag) },
        }
    }

    /// Report a completed mutation call — success and failure are not told
    /// apart — and force exactly one fresh fetch of the query current at
    /// completion time, as [`spec_force_refetch`] of the scheduler's current
    /// query says.
    pub fn on_mutation_complete(
        &self,
        scheduler: &mut RequestScheduler,
        session: &mut SearchSessionState,
    ) -> (fetch: Option<String>)
        ensures
            (final(scheduler)@, final(session)@, fetch_model(fetch)) == spec_force_refetch(
                old(scheduler)@,
                old(session)@,
                old(scheduler)@.current,
            ),
    {
        let current = scheduler.current_query().clone();
        scheduler.force_refetch(session, current.as_str())
    }
}

} // verus!
