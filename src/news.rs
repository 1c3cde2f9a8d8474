use crate::cursor::Cursor;
use vstd::prelude::*;

verus! {

/// One news post. Dates are kept as their text.
#[derive(Debug)]
pub struct NewsPost {
    pub post_id: u32,
    pub author: String,
    /// Link to the file view on GitHub.
    pub edit_url: String,
    /// Link to the first image in the document.
    pub first_image: String,
    pub published_at: String,
    pub updated_at: Option<String>,
    /// File name without the extension, used in URLs.
    pub slug: String,
    pub title: String,
    /// First paragraph of the content with HTML markup stripped.
    pub preview: Option<String>,
}

/// Whether two optional texts are the same.
fn same_text(a: &Option<String>, b: &Option<String>) -> (r: bool)
    ensures
        r == match (a, b) {
            (None, None) => true,
            (Some(x), Some(y)) => x@ == y@,
            _ => false,
        },
{
    match (a, b) {
        (None, None) => true,
        (Some(x), Some(y)) => *x == *y,
        _ => false,
    }
}

pub open spec fn same_text_spec(a: Option<String>, b: Option<String>) -> bool {
    match (a, b) {
        (None, None) => true,
        (Some(x), Some(y)) => x@ == y@,
        _ => false,
    }
}

impl PartialEq for NewsPost {
    /// Posts are the same when their id and last update are.
    fn eq(&self, other: &NewsPost) -> (r: bool) {
        self.post_id == other.post_id && same_text(&self.updated_at, &other.updated_at)
    }
}

impl vstd::std_specs::cmp::PartialEqSpecImpl for NewsPost {
    open spec fn obeys_eq_spec() -> bool {
        true
    }

    open spec fn eq_spec(&self, other: &NewsPost) -> bool {
        self.post_id == other.post_id && same_text_spec(self.updated_at, other.updated_at)
    }
}

/// The search state of a news listing.
#[derive(Debug, PartialEq)]
pub struct NewsSearch {
    pub cursor: Option<Cursor>,
    pub limit: u32,
}

/// The sidebar of a news listing.
#[derive(Debug, PartialEq)]
pub struct NewsSidebar {
    pub current_year: u32,
    pub posts: Vec<NewsPost>,
    pub years: Vec<u32>,
}

/// A request for the news listing that follows a token; the token is
/// borrowed from the page it came from and sent back as it is.
#[derive(Debug, PartialEq)]
pub struct NewsRequest<'a> {
    pub cursor: &'a Cursor,
}

/// One page of the news listing.
#[derive(Debug, PartialEq)]
pub struct News {
    pub cursor: Option<Cursor>,
    pub posts: Vec<NewsPost>,
    pub search: NewsSearch,
    pub sidebar: NewsSidebar,
}

impl News {
    /// Whether a further page can be asked for with [`News::get_next`].
    pub fn has_more(&self) -> (r: bool)
        ensures
            r == self.cursor is Some,
    {
        self.cursor.is_some()
    }

    /// The request for the next page, replaying the listing with the stored
    /// token, or `None` when there is no token.
    pub fn get_next(&self) -> (r: Option<NewsRequest<'_>>)
        ensures
            r is Some == self.cursor is Some,
            r matches Some(q) ==> *q.cursor == self.cursor->Some_0,
    {
        match &self.cursor {
            None => None,
            Some(c) => Some(NewsRequest { cursor: c }),
        }
    }
}

} // verus!
