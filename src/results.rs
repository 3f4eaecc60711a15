//! Paged result sets: items fetched page by page, the table rows rendered from
//! them, and the rules for asking for the next page.
use vstd::prelude::*;
use crate::media::{rows, rows_of, ListItem};
use crate::text::{dec, decimal};

verus! {

/// The kind of record a search lists.
#[derive(Clone, Copy, Debug, PartialEq, Eq, Structural)]
pub enum ResultKind {
    Videos,
    Playlists,
    Channels,
}

/// A failed catalog request; the message is for the log.
#[derive(Clone, Debug, PartialEq)]
pub struct TransportError {
    pub message: String,
}

/// One request for a page of search results.
#[derive(Clone, Debug, PartialEq)]
pub struct PageRequest {
    pub query: String,
    pub page: u32,
    pub kind: ResultKind,
}

/// How many rows before the end of a list the next page is asked for.
pub const LOOKAHEAD: usize = 4;

pub open spec fn kind_word(k: ResultKind) -> Seq<char> {
    match k {
        ResultKind::Videos => seq!['v', 'i', 'd', 'e', 'o'],
        ResultKind::Playlists => seq!['p', 'l', 'a', 'y', 'l', 'i', 's', 't'],
        ResultKind::Channels => seq!['c', 'h', 'a', 'n', 'n', 'e', 'l'],
    }
}

pub open spec fn relevance() -> Seq<char> {
    seq!['r', 'e', 'l', 'e', 'v', 'a', 'n', 'c', 'e']
}

/// The query parameters of a page request, in the order they are sent.
pub open spec fn request_params(r: PageRequest) -> Seq<(Seq<char>, Seq<char>)> {
    seq![
        (seq!['q'], r.query@),
        (seq!['p', 'a', 'g', 'e'], dec(r.page as nat)),
        (seq!['t', 'y', 'p', 'e'], kind_word(r.kind)),
        (seq!['s', 'o', 'r', 't', '_', 'b', 'y'], relevance()),
    ]
}

/// Whether a selection at `selected` in a list of `len` rows asks for more:
/// it has reached the row `LOOKAHEAD` before the end (the first row of a
/// shorter list).
pub open spec fn reaches_lookahead(selected: nat, len: nat) -> bool {
    if len >= LOOKAHEAD {
        selected == len - LOOKAHEAD
    } else {
        selected == 0
    }
}

pub fn should_fetch(selected: usize, len: usize) -> (r: bool)
    ensures
        r == reaches_lookahead(selected as nat, len as nat),
{
    selected == len.saturating_sub(LOOKAHEAD)
}

fn pair(k: &str, v: String) -> (r: (String, String))
    ensures
        r.0@ == k@,
        r.1@ == v@,
{
    (String::from_str(k), v)
}

impl PageRequest {
    /// The query parameters: query, page number, record type, sort order.
    pub fn params(&self) -> (r: Vec<(String, String)>)
        ensures
            r@.len() == 4,
            forall|i: int|
                0 <= i < 4 ==> (#[trigger] r@[i]).0@ == request_params(*self)[i].0 && r@[i].1@
                    == request_params(*self)[i].1,
    {
        proof {
            reveal_strlit("q");
            reveal_strlit("page");
            reveal_strlit("type");
            reveal_strlit("sort_by");
            reveal_strlit("relevance");
            reveal_strlit("video");
            reveal_strlit("playlist");
            reveal_strlit("channel");
        }
        let kind = match self.kind {
            ResultKind::Videos => String::from_str("video"),
            ResultKind::Playlists => String::from_str("playlist"),
            ResultKind::Channels => String::from_str("channel"),
        };
        let mut r: Vec<(String, String)> = Vec::new();
        r.push(pair("q", self.query.clone()));
        r.push(pair("page", decimal(self.page as u64)));
        r.push(pair("type", kind));
        r.push(pair("sort_by", String::from_str("relevance")));
        r
    }
}

/// Items fetched so far, the page they reach, and their rendered rows.
pub struct ResultSet<T> {
    pub items: Vec<T>,
    pub current_page: u32,
    pub rows: Vec<Vec<String>>,
    pub in_flight: bool,
}

impl<T: ListItem> ResultSet<T> {
    /// The rows are exactly those of the items, in the same order.
    pub open spec fn wf(&self) -> bool {
        self.rows.deep_view() == rows_of(self.items@)
    }

    /// The first page of a fresh query.
    pub fn new(items: Vec<T>) -> (r: ResultSet<T>)
        ensures
            r.wf(),
            r.items@ == items@,
            r.current_page == 1,
            !r.in_flight,
    {
        let rows = rows(&items);
        ResultSet { items, current_page: 1, rows, in_flight: false }
    }

    /// A result set with no items, at page one.
    pub fn empty() -> (r: ResultSet<T>)
        ensures
            r.wf(),
            r.items@.len() == 0,
            r.current_page == 1,
            !r.in_flight,
    {
        ResultSet::new(Vec::new())
    }

    pub fn len(&self) -> (r: usize)
        ensures
            r == self.items@.len(),
    {
        self.items.len()
    }

    /// The request for the page after the current one, unless one is already
    /// outstanding or no page number is left; then nothing is asked.
    pub fn begin_fetch(&mut self, query: &String, kind: ResultKind) -> (r: Option<PageRequest>)
        requires
            old(self).wf(),
        ensures
            final(self).wf(),
            final(self).items@ == old(self).items@,
            final(self).rows@ == old(self).rows@,
            final(self).current_page == old(self).current_page,
            (old(self).in_flight || old(self).current_page == u32::MAX) ==> r is None
                && final(self).in_flight == old(self).in_flight,
            !(old(self).in_flight || old(self).current_page == u32::MAX) ==> r == Some(
                PageRequest { query: *query, page: (old(self).current_page + 1) as u32, kind },
            ) && final(self).in_flight,
    {
        if self.in_flight || self.current_page == u32::MAX {
            None
        } else {
            self.in_flight = true;
            Some(PageRequest { query: query.clone(), page: self.current_page + 1, kind })
        }
    }

    /// Splices the outcome of `request` in. On success the page's items are
    /// appended in order, the page counter becomes the requested page and the
    /// rows are rendered anew from all items; on failure nothing but the
    /// outstanding mark changes.
    pub fn complete_fetch(&mut self, request: &PageRequest, outcome: Result<Vec<T>, TransportError>) -> (r:
        Result<(), TransportError>)
        requires
            old(self).wf(),
        ensures
            final(self).wf(),
            !final(self).in_flight,
            match outcome {
                Ok(page) => {
                    &&& r is Ok
                    &&& final(self).items@ == old(self).items@ + page@
                    &&& final(self).current_page == request.page
                },
                Err(e) => {
                    &&& r == Err::<(), TransportError>(e)
                    &&& final(self).items@ == old(self).items@
                    &&& final(self).rows@ == old(self).rows@
                    &&& final(self).current_page == old(self).current_page
                },
            },
    {
        self.in_flight = false;
        match outcome {
            Ok(page) => {
                let mut page = page;
                self.items.append(&mut page);
                self.current_page = request.page;
                self.rows = rows(&self.items);
                Ok(())
            },
            Err(e) => Err(e),
        }
    }
}

/// All pages, one after the other.
pub open spec fn concat_pages<T>(pages: Seq<Seq<T>>) -> Seq<T>
    decreases pages.len(),
{
    if pages.len() == 0 {
        Seq::empty()
    } else {
        concat_pages(pages.drop_last()) + pages.last()
    }
}

/// The sum of the page sizes.
pub open spec fn total_len<T>(pages: Seq<Seq<T>>) -> nat
    decreases pages.len(),
{
    if pages.len() == 0 {
        0
    } else {
        total_len(pages.drop_last()) + pages.last().len()
    }
}

/// The items after successful appends of `pages`, starting from `start`.
pub open spec fn after_appends<T>(start: Seq<T>, pages: Seq<Seq<T>>) -> Seq<T>
    decreases pages.len(),
{
    if pages.len() == 0 {
        start
    } else {
        after_appends(start, pages.drop_last()) + pages.last()
    }
}

/// After successful appends of pages to an empty result set, the rendered rows
/// number the sum of the page sizes, and row `i` is the row of the `i`-th item
/// in append order: the rows of the first page, then those of the second, and
/// so on.
pub proof fn lemma_rows_follow_appends<T: ListItem>(pages: Seq<Seq<T>>)
    ensures
        after_appends(Seq::<T>::empty(), pages) == concat_pages(pages),
        rows_of(after_appends(Seq::<T>::empty(), pages)).len() == total_len(pages),
        rows_of(after_appends(Seq::<T>::empty(), pages)) == concat_pages(
            pages.map_values(|p: Seq<T>| rows_of(p)),
        ),
    decreases pages.len(),
{
    if pages.len() > 0 {
        lemma_rows_follow_appends(pages.drop_last());
        let rp = pages.map_values(|p: Seq<T>| rows_of(p));
        assert(rp.drop_last() =~= pages.drop_last().map_values(|p: Seq<T>| rows_of(p)));
        let before = concat_pages(pages.drop_last());
        assert(rows_of(before + pages.last()) =~= rows_of(before) + rows_of(pages.last()));
    } else {
        assert(after_appends(Seq::<T>::empty(), pages) =~= Seq::<T>::empty());
        assert(rows_of(Seq::<T>::empty()) =~= Seq::<Seq<Seq<char>>>::empty());
        assert(concat_pages(pages.map_values(|p: Seq<T>| rows_of(p))) =~= Seq::<
            Seq<Seq<char>>,
        >::empty());
    }
}

} // verus!
