//! The two wire shapes of a page of a paginated collection.

use vstd::prelude::*;
use crate::api::ApiError;
use crate::api::pager::{link_of, Pageable, Pager, seeded};
use crate::encoding::opt_view;
use crate::outside::{parse_error_of, parse_url, url_accepts};

verus! {

/// The view of an optional owned text.
pub open spec fn opt_string_view(s: Option<String>) -> Option<Seq<char>> {
    match s {
        Some(t) => Some(t@),
        None => None,
    }
}

/// The view of an optional text, borrowed from an optional owned one.
fn as_opt_str(s: &Option<String>) -> (r: Option<&str>)
    ensures
        opt_view(r) == opt_string_view(*s),
{
    match s {
        Some(t) => Some(t.as_str()),
        None => None,
    }
}

/// The pager seeded with `items` and the link `next`, which must parse.
fn seed_pager<T>(items: Vec<T>, next: Option<String>) -> (r: Result<Pager<T>, ApiError>)
    ensures
        r is Err <==> (next is Some && !url_accepts(next->0@)),
        r is Err ==> r == Err::<Pager<T>, ApiError>(ApiError::Url(parse_error_of(next->0@))),
        r is Ok ==> r->Ok_0@ == seeded(items@, link_of(opt_string_view(next))),
{
    let next = match next {
        Some(n) => match parse_url(n.as_str()) {
            Ok(u) => Some(u),
            Err(e) => {
                return Err(ApiError::Url(e));
            },
        },
        None => None,
    };
    Ok(Pager::with_items(items, next))
}

/// An offset-based page.
#[derive(Clone, Debug)]
pub struct Page<T> {
    pub href: String,
    pub items: Vec<T>,
    pub limit: u32,
    /// The complete link to the following page, if any.
    pub next: Option<String>,
    pub offset: u32,
    pub previous: Option<String>,
    pub total: u32,
}

/// A cursor-based page.
#[derive(Clone, Debug)]
pub struct CursorBasedPage<T> {
    pub href: String,
    pub items: Vec<T>,
    pub limit: u32,
    /// The complete link to the following page, if any.
    pub next: Option<String>,
    pub cursors: Cursor,
    /// Absent once every item has been read.
    pub total: Option<u32>,
}

/// The cursor of a cursor-based page.
#[derive(Clone, Debug)]
pub struct Cursor {
    pub after: Option<String>,
}

impl<T> Pageable<T> for Page<T> {
    open spec fn spec_next_url(&self) -> Option<Seq<char>> {
        opt_string_view(self.next)
    }

    open spec fn spec_items(&self) -> Seq<T> {
        self.items@
    }

    fn next_url(&self) -> (r: Option<&str>) {
        as_opt_str(&self.next)
    }

    fn into_items(self) -> (r: Vec<T>) {
        self.items
    }
}

impl<T> Pageable<T> for CursorBasedPage<T> {
    open spec fn spec_next_url(&self) -> Option<Seq<char>> {
        opt_string_view(self.next)
    }

    open spec fn spec_items(&self) -> Seq<T> {
        self.items@
    }

    fn next_url(&self) -> (r: Option<&str>) {
        as_opt_str(&self.next)
    }

    fn into_items(self) -> (r: Vec<T>) {
        self.items
    }
}

impl<T> Page<T> {
    /// A pager over the whole collection, seeded with this first page. Fails
    /// when the link to the following page does not parse.
    pub fn into_stream(self) -> (r: Result<Pager<T>, ApiError>)
        ensures
            r is Err <==> (self.next is Some && !url_accepts(self.next->0@)),
            r is Err ==> r == Err::<Pager<T>, ApiError>(
                ApiError::Url(parse_error_of(self.next->0@)),
            ),
            r is Ok ==> r->Ok_0@ == seeded(self.items@, link_of(opt_string_view(self.next))),
    {
        seed_pager(self.items, self.next)
    }
}

impl<T> CursorBasedPage<T> {
    /// A pager over the whole collection, seeded with this first page. Fails
    /// when the link to the following page does not parse.
    pub fn into_stream(self) -> (r: Result<Pager<T>, ApiError>)
        ensures
            r is Err <==> (self.next is Some && !url_accepts(self.next->0@)),
            r is Err ==> r == Err::<Pager<T>, ApiError>(
                ApiError::Url(parse_error_of(self.next->0@)),
            ),
            r is Ok ==> r->Ok_0@ == seeded(self.items@, link_of(opt_string_view(self.next))),
    {
        seed_pager(self.items, self.next)
    }
}

} // verus!
