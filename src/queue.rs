//! Per-medium play queues: what plays now and what comes next.
use vstd::prelude::*;
use std::collections::VecDeque;
use crate::media::{Playlist, Video};

verus! {

/// One pending item: its title, its author, and the collection it came from.
#[derive(Clone, Debug, PartialEq)]
pub struct QueueEntry {
    pub title: String,
    pub author: String,
    pub source: Option<String>,
}

pub open spec fn by_text() -> Seq<char> {
    seq![' ', 'b', 'y', ' ']
}

pub open spec fn none_text() -> Seq<char> {
    seq!['N', 'o', 'n', 'e', '\n']
}

/// The title as a list shows it: prefixed by `[collection] ` when it has one.
pub open spec fn labelled_title(e: QueueEntry) -> Seq<char> {
    match e.source {
        Some(pl) => seq!['['] + pl@ + seq![']', ' '] + e.title@,
        None => e.title@,
    }
}

/// `[collection] title by author` and a line break.
pub open spec fn entry_text(e: QueueEntry) -> Seq<char> {
    labelled_title(e) + by_text() + e.author@ + seq!['\n']
}

/// The text of the front of a queue, or `None` for an empty one.
pub open spec fn front_text(q: Seq<QueueEntry>) -> Seq<char> {
    if q.len() == 0 {
        none_text()
    } else {
        entry_text(q[0])
    }
}

/// A queue after its front is taken off (an empty queue stays empty).
pub open spec fn without_front(q: Seq<QueueEntry>) -> Seq<QueueEntry> {
    if q.len() == 0 {
        q
    } else {
        q.drop_first()
    }
}

/// A queue after `k` track changes.
pub open spec fn after_changes(q: Seq<QueueEntry>, k: nat) -> Seq<QueueEntry>
    decreases k,
{
    if k == 0 {
        q
    } else {
        without_front(after_changes(q, (k - 1) as nat))
    }
}

/// The entry that stands for a collection itself.
pub open spec fn collection_entry(p: Playlist) -> QueueEntry {
    QueueEntry { title: p.title, author: p.author, source: None }
}

/// The entry of one item of a collection, tagged with the collection's title.
pub open spec fn member_entry(v: Video, p: Playlist) -> QueueEntry {
    QueueEntry { title: v.title, author: v.author, source: Some(p.title) }
}

/// The queue that playing a collection leaves: its own entry, then its items.
pub open spec fn collection_queue(p: Playlist, items: Seq<Video>) -> Seq<QueueEntry> {
    seq![collection_entry(p)] + items.map_values(|v: Video| member_entry(v, p))
}

/// The queue as a two-column table: labelled title and author.
pub open spec fn queue_row(e: QueueEntry) -> Seq<Seq<char>> {
    seq![labelled_title(e), e.author@]
}

/// An ordered list of pending items for one medium.
pub struct MediaQueue {
    pub entries: VecDeque<QueueEntry>,
}

impl View for MediaQueue {
    type V = Seq<QueueEntry>;

    open spec fn view(&self) -> Seq<QueueEntry> {
        self.entries@
    }
}

fn labelled_title_text(e: &QueueEntry) -> (r: String)
    ensures
        r@ == labelled_title(*e),
{
    match &e.source {
        Some(pl) => {
            proof {
                reveal_strlit("[");
                reveal_strlit("] ");
            }
            let mut s = String::from_str("[");
            s.append(pl.as_str());
            s.append("] ");
            s.append(e.title.as_str());
            assert(s@ =~= labelled_title(*e));
            s
        },
        None => e.title.clone(),
    }
}

/// The line that shows an entry as playing or up next.
pub fn entry_line(e: &QueueEntry) -> (r: String)
    ensures
        r@ == entry_text(*e),
{
    proof {
        reveal_strlit(" by ");
        reveal_strlit("\n");
    }
    let mut s = labelled_title_text(e);
    s.append(" by ");
    s.append(e.author.as_str());
    s.append("\n");
    assert(s@ =~= entry_text(*e));
    s
}

fn none_line() -> (r: String)
    ensures
        r@ == none_text(),
{
    proof {
        reveal_strlit("None\n");
    }
    String::from_str("None\n")
}

/// Takes the front entry off the queue at a track change and returns the line
/// that shows it as playing, or `None` when nothing is queued.
pub fn get_current_media_text(queue: &mut VecDeque<QueueEntry>) -> (r: String)
    ensures
        r@ == front_text(old(queue)@),
        final(queue)@ == without_front(old(queue)@),
{
    match queue.pop_front() {
        Some(e) => entry_line(&e),
        None => none_line(),
    }
}

/// The line that shows the front entry as up next, without taking it off.
pub fn get_next_media_text(queue: &VecDeque<QueueEntry>) -> (r: String)
    ensures
        r@ == front_text(queue@),
{
    if queue.len() == 0 {
        none_line()
    } else {
        entry_line(&queue[0])
    }
}

impl MediaQueue {
    pub fn new() -> (r: MediaQueue)
        ensures
            r@ == Seq::<QueueEntry>::empty(),
    {
        MediaQueue { entries: VecDeque::new() }
    }

    /// Appends an entry; equal entries are kept.
    pub fn push(&mut self, entry: QueueEntry)
        ensures
            final(self)@ == old(self)@.push(entry),
    {
        self.entries.push_back(entry);
    }

    pub fn clear(&mut self)
        ensures
            final(self)@ == Seq::<QueueEntry>::empty(),
    {
        self.entries.clear();
    }

    pub fn len(&self) -> (r: usize)
        ensures
            r == self@.len(),
    {
        self.entries.len()
    }

    /// Replaces the queue by a single item that is played on its own.
    pub fn play_single(&mut self, entry: QueueEntry)
        ensures
            final(self)@ == seq![entry],
    {
        self.entries.clear();
        self.entries.push_back(entry);
        assert(self.entries@ =~= seq![entry]);
    }

    /// Replaces the queue by a collection: its own entry first, then each of
    /// its items tagged with the collection's title.
    pub fn load_collection(&mut self, collection: &Playlist, items: &Vec<Video>)
        ensures
            final(self)@ == collection_queue(*collection, items@),
    {
        self.entries.clear();
        self.entries.push_back(
            QueueEntry {
                title: collection.title.clone(),
                author: collection.author.clone(),
                source: None,
            },
        );
        let mut i: usize = 0;
        while i < items.len()
            invariant
                i <= items.len(),
                self.entries@ =~= seq![collection_entry(*collection)] + items@.subrange(
                    0,
                    i as int,
                ).map_values(|v: Video| member_entry(v, *collection)),
            decreases items.len() - i,
        {
            let e = QueueEntry {
                title: items[i].title.clone(),
                author: items[i].author.clone(),
                source: Some(collection.title.clone()),
            };
            self.entries.push_back(e);
            assert(items@.subrange(0, i + 1) =~= items@.subrange(0, i as int).push(items@[i as int]));
            i = i + 1;
        }
        assert(items@.subrange(0, items.len() as int) =~= items@);
    }

    /// Takes the front entry off at a track change; see `get_current_media_text`.
    pub fn pop_front_on_track_change(&mut self) -> (r: String)
        ensures
            r@ == front_text(old(self)@),
            final(self)@ == without_front(old(self)@),
    {
        get_current_media_text(&mut self.entries)
    }

    /// The up-next line; the queue is not changed.
    pub fn peek_next(&self) -> (r: String)
        ensures
            r@ == front_text(self@),
    {
        get_next_media_text(&self.entries)
    }

    /// The queue as table rows of labelled title and author, in queue order.
    pub fn rows(&self) -> (r: Vec<Vec<String>>)
        ensures
            r.deep_view() == self@.map_values(|e: QueueEntry| queue_row(e)),
    {
        let mut r: Vec<Vec<String>> = Vec::new();
        let mut i: usize = 0;
        while i < self.entries.len()
            invariant
                i <= self@.len(),
                r.deep_view() =~= self@.subrange(0, i as int).map_values(
                    |e: QueueEntry| queue_row(e),
                ),
            decreases self@.len() - i,
        {
            let e = &self.entries[i];
            let mut row: Vec<String> = Vec::new();
            row.push(labelled_title_text(e));
            row.push(e.author.clone());
            let ghost before = r.deep_view();
            r.push(row);
            proof {
                assert(self@.subrange(0, i + 1) =~= self@.subrange(0, i as int).push(self@[i as int]));
                assert(r.deep_view() =~~= before.push(queue_row(self@[i as int])));
            }
            i = i + 1;
        }
        assert(self@.subrange(0, self@.len() as int) =~= self@);
        r
    }
}

proof fn lemma_after_changes(q: Seq<QueueEntry>, k: nat)
    ensures
        k <= q.len() ==> after_changes(q, k) == q.subrange(k as int, q.len() as int),
        k > q.len() ==> after_changes(q, k) == Seq::<QueueEntry>::empty(),
    decreases k,
{
    if k > 0 {
        lemma_after_changes(q, (k - 1) as nat);
        let prev = after_changes(q, (k - 1) as nat);
        if k <= q.len() {
            assert(prev.drop_first() =~= q.subrange(k as int, q.len() as int));
        } else if k - 1 == q.len() {
            assert(prev =~= Seq::<QueueEntry>::empty());
        }
    } else {
        assert(q.subrange(0, q.len() as int) =~= q);
    }
}

/// Playing a collection of items `items` queues its own entry first and then
/// each item; successive track changes show the collection's entry, each item
/// in order, and then `None`.
pub proof fn lemma_collection_play_order(p: Playlist, items: Seq<Video>)
    ensures
        collection_queue(p, items).len() == items.len() + 1,
        front_text(collection_queue(p, items)) == entry_text(collection_entry(p)),
        forall|k: nat|
            1 <= k <= items.len() ==> #[trigger] front_text(
                after_changes(collection_queue(p, items), k),
            ) == entry_text(member_entry(items[k - 1], p)),
        front_text(after_changes(collection_queue(p, items), (items.len() + 1) as nat))
            == none_text(),
{
    let q = collection_queue(p, items);
    assert forall|k: nat| 1 <= k <= items.len() implies #[trigger] front_text(
        after_changes(q, k),
    ) == entry_text(member_entry(items[k - 1], p)) by {
        lemma_after_changes(q, k);
        assert(after_changes(q, k)[0] == q[k as int]);
    }
    lemma_after_changes(q, (items.len() + 1) as nat);
}

} // verus!
