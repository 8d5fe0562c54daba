//! The data the server reports for a query: result items and their metadata.

use vstd::prelude::*;

verus! {

/// One indexed document as the server reports it. The flag-like fields
/// (`bookmarked`, `pinned`, `duplicate`) are 0/1 integers on the wire, not
/// booleans, and are carried through unchanged.
#[derive(Debug, Clone, PartialEq)]
pub struct SearchItem {
    pub id: String,
    pub title: String,
    pub url: String,
    pub summary: String,
    pub description: String,
    pub added_at: String,
    pub last_accessed_at: String,
    pub keywords: Vec<String>,
    pub tags: Vec<String>,
    pub bookmarked: i64,
    pub pinned: i64,
    pub duplicate: i64,
    pub accessed_count: i64,
}

/// The mathematical shadow of a [`SearchItem`].
pub struct ItemModel {
    pub id: Seq<char>,
    pub title: Seq<char>,
    pub url: Seq<char>,
    pub summary: Seq<char>,
    pub description: Seq<char>,
    pub added_at: Seq<char>,
    pub last_accessed_at: Seq<char>,
    pub keywords: Seq<Seq<char>>,
    pub tags: Seq<Seq<char>>,
    pub bookmarked: int,
    pub pinned: int,
    pub duplicate: int,
    pub accessed_count: int,
}

impl View for SearchItem {
    type V = ItemModel;

    open spec fn view(&self) -> ItemModel {
        ItemModel {
            id: self.id@,
            title: self.title@,
            url: self.url@,
            summary: self.summary@,
            description: self.description@,
            added_at: self.added_at@,
            last_accessed_at: self.last_accessed_at@,
            keywords: self.keywords.deep_view(),
            tags: self.tags.deep_view(),
            bookmarked: self.bookmarked as int,
            pinned: self.pinned as int,
            duplicate: self.duplicate as int,
            accessed_count: self.accessed_count as int,
        }
    }
}

/// An ordered sequence of items plus an optional result-count metadata value.
/// A successful response replaces the session's value wholesale — there is no
/// incremental merge.
#[derive(Debug, Clone, PartialEq)]
pub struct SearchResult {
    pub items: Vec<SearchItem>,
    pub document_count: Option<i64>,
}

/// The mathematical shadow of a [`SearchResult`].
pub struct ResultModel {
    pub items: Seq<ItemModel>,
    pub document_count: Option<int>,
}

impl View for SearchResult {
    type V = ResultModel;

    open spec fn view(&self) -> ResultModel {
        ResultModel {
            items: self.items@.map_values(|it: SearchItem| it@),
            document_count: match self.document_count {
                Some(n) => Some(n as int),
                None => None,
            },
        }
    }
}

/// The shadow of an optional result, `None` standing for "no committed result".
pub open spec fn opt_result_model(r: Option<SearchResult>) -> Option<ResultModel> {
    match r {
        Some(res) => Some(res@),
        None => None,
    }
}

} // verus!
