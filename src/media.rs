//! Catalog records (videos, playlists, channels) and their table rows.
use vstd::prelude::*;
use crate::text::{clock, clock_text, dec, decimal};

verus! {

/// A video record of the catalog.
#[derive(Clone, Debug, PartialEq)]
pub struct Video {
    pub title: String,
    pub video_id: String,
    pub length_seconds: i64,
    pub live_now: bool,
    pub author: String,
    pub author_id: String,
    pub author_url: String,
    pub published_text: String,
}

/// A playlist record of the catalog.
#[derive(Clone, Debug, PartialEq)]
pub struct Playlist {
    pub title: String,
    pub playlist_id: String,
    pub author: String,
    pub author_id: String,
    pub author_url: String,
    pub video_count: u64,
}

/// A channel record of the catalog.
#[derive(Clone, Debug, PartialEq)]
pub struct Channel {
    pub author: String,
    pub author_id: String,
    pub author_url: String,
    pub video_count: u64,
    pub sub_count: u64,
}

impl Video {
    /// A field-by-field copy.
    pub fn clone_video(&self) -> (r: Video)
        ensures
            r == *self,
    {
        Video {
            title: self.title.clone(),
            video_id: self.video_id.clone(),
            length_seconds: self.length_seconds,
            live_now: self.live_now,
            author: self.author.clone(),
            author_id: self.author_id.clone(),
            author_url: self.author_url.clone(),
            published_text: self.published_text.clone(),
        }
    }
}

impl Playlist {
    /// A field-by-field copy.
    pub fn clone_playlist(&self) -> (r: Playlist)
        ensures
            r == *self,
    {
        Playlist {
            title: self.title.clone(),
            playlist_id: self.playlist_id.clone(),
            author: self.author.clone(),
            author_id: self.author_id.clone(),
            author_url: self.author_url.clone(),
            video_count: self.video_count,
        }
    }
}

impl Channel {
    /// A field-by-field copy.
    pub fn clone_channel(&self) -> (r: Channel)
        ensures
            r == *self,
    {
        Channel {
            author: self.author.clone(),
            author_id: self.author_id.clone(),
            author_url: self.author_url.clone(),
            video_count: self.video_count,
            sub_count: self.sub_count,
        }
    }
}

impl Default for Video {
    fn default() -> (r: Video)
        ensures
            r.title@.len() == 0 && r.video_id@.len() == 0 && r.author@.len() == 0,
            r.author_id@.len() == 0 && r.author_url@.len() == 0 && r.published_text@.len() == 0,
            r.length_seconds == 0 && !r.live_now,
    {
        Video {
            title: String::new(),
            video_id: String::new(),
            length_seconds: 0,
            live_now: false,
            author: String::new(),
            author_id: String::new(),
            author_url: String::new(),
            published_text: String::new(),
        }
    }
}

impl Default for Playlist {
    fn default() -> (r: Playlist)
        ensures
            r.title@.len() == 0 && r.playlist_id@.len() == 0 && r.author@.len() == 0,
            r.author_id@.len() == 0 && r.author_url@.len() == 0,
            r.video_count == 0,
    {
        Playlist {
            title: String::new(),
            playlist_id: String::new(),
            author: String::new(),
            author_id: String::new(),
            author_url: String::new(),
            video_count: 0,
        }
    }
}

impl Default for Channel {
    fn default() -> (r: Channel)
        ensures
            r.author@.len() == 0 && r.author_id@.len() == 0 && r.author_url@.len() == 0,
            r.video_count == 0 && r.sub_count == 0,
    {
        Channel {
            author: String::new(),
            author_id: String::new(),
            author_url: String::new(),
            video_count: 0,
            sub_count: 0,
        }
    }
}

/// A record that renders as one table row.
pub trait ListItem: Sized {
    /// The cells of the row.
    spec fn row(&self) -> Seq<Seq<char>>;

    fn into_text(&self) -> (r: Vec<String>)
        ensures
            r.deep_view() == self.row(),
    ;
}

pub open spec fn live_now_text() -> Seq<char> {
    seq!['L', 'i', 'v', 'e', ' ', 'N', 'o', 'w']
}

pub open spec fn videos_suffix() -> Seq<char> {
    seq![' ', 'v', 'i', 'd', 'e', 'o', 's']
}

pub open spec fn subscribers_suffix() -> Seq<char> {
    seq![' ', 's', 'u', 'b', 's', 'c', 'r', 'i', 'b', 'e', 'r', 's']
}

/// The duration cell of a video: a live stream shows no clock.
pub open spec fn duration_cell(v: Video) -> Seq<char> {
    if v.live_now {
        live_now_text()
    } else {
        clock_text(v.length_seconds as int)
    }
}

/// Title, author, publication text when there is one, and duration.
pub open spec fn video_row(v: Video) -> Seq<Seq<char>> {
    if v.published_text@.len() == 0 {
        seq![v.title@, v.author@, duration_cell(v)]
    } else {
        seq![v.title@, v.author@, v.published_text@, duration_cell(v)]
    }
}

/// Title, author and the number of videos.
pub open spec fn playlist_row(p: Playlist) -> Seq<Seq<char>> {
    seq![p.title@, p.author@, dec(p.video_count as nat) + videos_suffix()]
}

/// Name, number of subscribers and number of videos.
pub open spec fn channel_row(c: Channel) -> Seq<Seq<char>> {
    seq![
        c.author@,
        dec(c.sub_count as nat) + subscribers_suffix(),
        dec(c.video_count as nat) + videos_suffix(),
    ]
}

/// The rows of a sequence of records, one per record, in order.
pub open spec fn rows_of<T: ListItem>(items: Seq<T>) -> Seq<Seq<Seq<char>>> {
    items.map_values(|t: T| t.row())
}

fn count_cell(n: u64, suffix: &str) -> (r: String)
    ensures
        r@ == dec(n as nat) + suffix@,
{
    let mut s = decimal(n);
    s.append(suffix);
    s
}

impl ListItem for Video {
    open spec fn row(&self) -> Seq<Seq<char>> {
        video_row(*self)
    }

    fn into_text(&self) -> (r: Vec<String>) {
        let duration = if self.live_now {
            proof {
                reveal_strlit("Live Now");
            }
            String::from_str("Live Now")
        } else {
            clock(self.length_seconds)
        };
        let mut r: Vec<String> = Vec::new();
        r.push(self.title.clone());
        r.push(self.author.clone());
        if !self.published_text.as_str().is_empty() {
            r.push(self.published_text.clone());
        }
        r.push(duration);
        proof {
            if self.published_text@.len() == 0 {
                assert(r.deep_view() =~~= video_row(*self));
            } else {
                assert(r.deep_view() =~~= video_row(*self));
            }
        }
        r
    }
}

impl ListItem for Playlist {
    open spec fn row(&self) -> Seq<Seq<char>> {
        playlist_row(*self)
    }

    fn into_text(&self) -> (r: Vec<String>) {
        proof {
            reveal_strlit(" videos");
        }
        let mut r: Vec<String> = Vec::new();
        r.push(self.title.clone());
        r.push(self.author.clone());
        r.push(count_cell(self.video_count, " videos"));
        assert(r.deep_view() =~~= playlist_row(*self));
        r
    }
}

impl ListItem for Channel {
    open spec fn row(&self) -> Seq<Seq<char>> {
        channel_row(*self)
    }

    fn into_text(&self) -> (r: Vec<String>) {
        proof {
            reveal_strlit(" videos");
            reveal_strlit(" subscribers");
        }
        let mut r: Vec<String> = Vec::new();
        r.push(self.author.clone());
        r.push(count_cell(self.sub_count, " subscribers"));
        r.push(count_cell(self.video_count, " videos"));
        assert(r.deep_view() =~~= channel_row(*self));
        r
    }
}

/// The rows of `items`, regenerated in full.
pub fn rows<T: ListItem>(items: &Vec<T>) -> (r: Vec<Vec<String>>)
    ensures
        r.deep_view() == rows_of(items@),
{
    let mut r: Vec<Vec<String>> = Vec::new();
    let mut i: usize = 0;
    while i < items.len()
        invariant
            i <= items.len(),
            r.deep_view() =~= rows_of(items@.subrange(0, i as int)),
        decreases items.len() - i,
    {
        let row = items[i].into_text();
        let ghost before = r.deep_view();
        r.push(row);
        proof {
            assert(items@.subrange(0, i + 1) =~= items@.subrange(0, i as int).push(items@[i as int]));
            assert(r.deep_view() =~= before.push(items@[i as int].row()));
        }
        i = i + 1;
    }
    assert(items@.subrange(0, items.len() as int) =~= items@);
    r
}

/// Table rows of a list of videos.
pub fn video_to_text(videos: Vec<Video>) -> (r: Vec<Vec<String>>)
    ensures
        r.deep_view() == rows_of(videos@),
{
    rows(&videos)
}

/// Table rows of a list of playlists.
pub fn playlist_to_text(playlists: Vec<Playlist>) -> (r: Vec<Vec<String>>)
    ensures
        r.deep_view() == rows_of(playlists@),
{
    rows(&playlists)
}

/// Table rows of a list of channels.
pub fn channel_to_text(channels: Vec<Channel>) -> (r: Vec<Vec<String>>)
    ensures
        r.deep_view() == rows_of(channels@),
{
    rows(&channels)
}

/// A copy of one row.
pub fn copy_row(row: &Vec<String>) -> (r: Vec<String>)
    ensures
        r.deep_view() == row.deep_view(),
{
    let mut r: Vec<String> = Vec::new();
    let mut i: usize = 0;
    while i < row.len()
        invariant
            i <= row@.len(),
            r.deep_view() =~= row.deep_view().subrange(0, i as int),
        decreases row@.len() - i,
    {
        let ghost before = r.deep_view();
        r.push(row[i].clone());
        assert(r.deep_view() =~= before.push(row@[i as int]@));
        i = i + 1;
    }
    r
}

/// A copy of a table of rows.
pub fn copy_rows(rows: &Vec<Vec<String>>) -> (r: Vec<Vec<String>>)
    ensures
        r.deep_view() == rows.deep_view(),
{
    let mut r: Vec<Vec<String>> = Vec::new();
    let mut i: usize = 0;
    while i < rows.len()
        invariant
            i <= rows@.len(),
            r.deep_view() =~= rows.deep_view().subrange(0, i as int),
        decreases rows@.len() - i,
    {
        let row = copy_row(&rows[i]);
        let ghost before = r.deep_view();
        r.push(row);
        assert(r.deep_view() =~= before.push(rows@[i as int].deep_view()));
        i = i + 1;
    }
    r
}

} // verus!
