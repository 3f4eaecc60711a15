//! Everything fetched from the catalog, and the record a window's selection
//! points at.
use vstd::prelude::*;
use crate::media::{Channel, Playlist, Video};
use crate::results::{PageRequest, ResultKind, ResultSet, TransportError};
use crate::views::{Window, WindowType};

verus! {

/// The results of one query, one paged set per record kind.
pub struct Search {
    pub query: String,
    pub videos: ResultSet<Video>,
    pub playlists: ResultSet<Playlist>,
    pub channels: ResultSet<Channel>,
}

impl Search {
    /// The first page of each kind for `query`.
    pub fn new(query: String, videos: Vec<Video>, playlists: Vec<Playlist>, channels: Vec<Channel>) -> (r:
        Search)
        ensures
            r.query == query,
            r.videos.wf() && r.videos.items@ == videos@ && r.videos.current_page == 1,
            r.playlists.wf() && r.playlists.items@ == playlists@ && r.playlists.current_page == 1,
            r.channels.wf() && r.channels.items@ == channels@ && r.channels.current_page == 1,
            !r.videos.in_flight && !r.playlists.in_flight && !r.channels.in_flight,
    {
        Search {
            query,
            videos: ResultSet::new(videos),
            playlists: ResultSet::new(playlists),
            channels: ResultSet::new(channels),
        }
    }

}

impl Default for Search {
    /// No query yet: empty sets at page one.
    fn default() -> (r: Search)
        ensures
            r.query@.len() == 0,
            r.videos.wf() && r.videos.items@.len() == 0 && r.videos.current_page == 1,
            r.playlists.wf() && r.playlists.items@.len() == 0 && r.playlists.current_page == 1,
            r.channels.wf() && r.channels.items@.len() == 0 && r.channels.current_page == 1,
    {
        Search::new(String::new(), Vec::new(), Vec::new(), Vec::new())
    }
}

/// The lists behind every window.
pub struct LoadedData {
    pub search_data: Search,
    pub playlist_videos: Vec<Video>,
    pub trending_videos: Vec<Video>,
    pub popular_videos: Vec<Video>,
    pub top_videos: Vec<Video>,
    pub channel_videos: Vec<Video>,
    pub channel_playlists: Vec<Playlist>,
}

impl Default for LoadedData {
    /// Nothing loaded yet.
    fn default() -> (r: LoadedData)
        ensures
            r.search_data.query@.len() == 0,
            r.search_data.videos.items@.len() == 0,
            r.search_data.playlists.items@.len() == 0,
            r.search_data.channels.items@.len() == 0,
            r.playlist_videos@.len() == 0,
            r.trending_videos@.len() == 0,
            r.popular_videos@.len() == 0,
            r.top_videos@.len() == 0,
            r.channel_videos@.len() == 0,
            r.channel_playlists@.len() == 0,
    {
        LoadedData {
            search_data: Search::default(),
            playlist_videos: Vec::new(),
            channel_videos: Vec::new(),
            channel_playlists: Vec::new(),
            trending_videos: Vec::new(),
            popular_videos: Vec::new(),
            top_videos: Vec::new(),
        }
    }
}

/// A record that can be played, queued or opened.
#[derive(Clone, Debug, PartialEq)]
pub enum Media {
    Video(Video),
    Playlist(Playlist),
    Channel(Channel),
}

pub open spec fn watch_prefix() -> Seq<char> {
    "https://invidio.us/watch?v="@
}

pub open spec fn playlist_prefix() -> Seq<char> {
    "https://invidio.us/playlist?list="@
}

pub open spec fn media_title(m: Media) -> Seq<char> {
    match m {
        Media::Video(v) => v.title@,
        Media::Playlist(p) => p.title@,
        Media::Channel(_) => Seq::empty(),
    }
}

pub open spec fn media_author(m: Media) -> Seq<char> {
    match m {
        Media::Video(v) => v.author@,
        Media::Playlist(p) => p.author@,
        Media::Channel(c) => c.author@,
    }
}

/// Where a record is played from; a channel is opened, never played.
pub open spec fn media_url(m: Media) -> Option<Seq<char>> {
    match m {
        Media::Video(v) => Some(watch_prefix() + v.video_id@),
        Media::Playlist(p) => Some(playlist_prefix() + p.playlist_id@),
        Media::Channel(_) => None,
    }
}

impl Media {
    pub fn title(&self) -> (r: String)
        ensures
            r@ == media_title(*self),
    {
        match self {
            Media::Video(v) => v.title.clone(),
            Media::Playlist(p) => p.title.clone(),
            Media::Channel(_) => String::new(),
        }
    }

    pub fn author(&self) -> (r: String)
        ensures
            r@ == media_author(*self),
    {
        match self {
            Media::Video(v) => v.author.clone(),
            Media::Playlist(p) => p.author.clone(),
            Media::Channel(c) => c.author.clone(),
        }
    }

    pub fn url(&self) -> (r: Option<String>)
        ensures
            match media_url(*self) {
                Some(u) => r is Some && r->0@ == u,
                None => r is None,
            },
    {
        match self {
            Media::Video(v) => {
                let mut s = String::from_str("https://invidio.us/watch?v=");
                s.append(v.video_id.as_str());
                Some(s)
            },
            Media::Playlist(p) => {
                let mut s = String::from_str("https://invidio.us/playlist?list=");
                s.append(p.playlist_id.as_str());
                Some(s)
            },
            Media::Channel(_) => None,
        }
    }
}

/// The list a window of type `t` shows, as records.
pub open spec fn window_list(t: WindowType, d: LoadedData) -> Option<Seq<Media>> {
    match t {
        WindowType::SearchVideos => Some(
            d.search_data.videos.items@.map_values(|v: Video| Media::Video(v)),
        ),
        WindowType::PlaylistVideos => Some(d.playlist_videos@.map_values(|v: Video| Media::Video(v))),
        WindowType::SearchPlaylists => Some(
            d.search_data.playlists.items@.map_values(|p: Playlist| Media::Playlist(p)),
        ),
        WindowType::TrendingVideos => Some(d.trending_videos@.map_values(|v: Video| Media::Video(v))),
        WindowType::PopularVideos => Some(d.popular_videos@.map_values(|v: Video| Media::Video(v))),
        WindowType::TopVideos => Some(d.top_videos@.map_values(|v: Video| Media::Video(v))),
        WindowType::SearchChannels => Some(
            d.search_data.channels.items@.map_values(|c: Channel| Media::Channel(c)),
        ),
        WindowType::ChannelVideos => Some(d.channel_videos@.map_values(|v: Video| Media::Video(v))),
        WindowType::ChannelPlaylists => Some(
            d.channel_playlists@.map_values(|p: Playlist| Media::Playlist(p)),
        ),
        _ => None,
    }
}

fn pick_video(list: &Vec<Video>, i: usize) -> (r: Option<Media>)
    ensures
        i < list@.len() ==> r == Some(Media::Video(list@[i as int])),
        i >= list@.len() ==> r is None,
{
    if i < list.len() {
        Some(Media::Video(list[i].clone_video()))
    } else {
        None
    }
}

fn pick_playlist(list: &Vec<Playlist>, i: usize) -> (r: Option<Media>)
    ensures
        i < list@.len() ==> r == Some(Media::Playlist(list@[i as int])),
        i >= list@.len() ==> r is None,
{
    if i < list.len() {
        Some(Media::Playlist(list[i].clone_playlist()))
    } else {
        None
    }
}

fn pick_channel(list: &Vec<Channel>, i: usize) -> (r: Option<Media>)
    ensures
        i < list@.len() ==> r == Some(Media::Channel(list@[i as int])),
        i >= list@.len() ==> r is None,
{
    if i < list.len() {
        Some(Media::Channel(list[i].clone_channel()))
    } else {
        None
    }
}

/// The record under a window's selection; `None` for a window that lists no
/// records, or a selection past the end of its list.
pub fn get_media(window: &Window, data: &LoadedData) -> (r: Option<Media>)
    ensures
        match window_list(window.window_type, *data) {
            Some(l) => if (window.selected as int) < l.len() {
                r == Some(l[window.selected as int])
            } else {
                r is None
            },
            None => r is None,
        },
{
    let i = window.selected;
    match window.window_type {
        WindowType::SearchVideos => pick_video(&data.search_data.videos.items, i),
        WindowType::PlaylistVideos => pick_video(&data.playlist_videos, i),
        WindowType::SearchPlaylists => pick_playlist(&data.search_data.playlists.items, i),
        WindowType::TrendingVideos => pick_video(&data.trending_videos, i),
        WindowType::PopularVideos => pick_video(&data.popular_videos, i),
        WindowType::TopVideos => pick_video(&data.top_videos, i),
        WindowType::SearchChannels => pick_channel(&data.search_data.channels.items, i),
        WindowType::ChannelVideos => pick_video(&data.channel_videos, i),
        WindowType::ChannelPlaylists => pick_playlist(&data.channel_playlists, i),
        _ => None,
    }
}

/// The kind of search results a window lists, if it lists any.
pub open spec fn window_kind(t: WindowType) -> Option<ResultKind> {
    match t {
        WindowType::SearchVideos => Some(ResultKind::Videos),
        WindowType::SearchPlaylists => Some(ResultKind::Playlists),
        WindowType::SearchChannels => Some(ResultKind::Channels),
        _ => None,
    }
}

/// A page of search results as it came back, one variant per kind.
pub enum FetchedPage {
    Videos(Result<Vec<Video>, TransportError>),
    Playlists(Result<Vec<Playlist>, TransportError>),
    Channels(Result<Vec<Channel>, TransportError>),
}

impl LoadedData {
    /// The search results are well formed: each set's rows match its items.
    pub open spec fn wf(&self) -> bool {
        &&& self.search_data.videos.wf()
        &&& self.search_data.playlists.wf()
        &&& self.search_data.channels.wf()
    }

    /// The request for the next page of the search results a window lists;
    /// `None` for other windows, while a request for them is outstanding, or
    /// when no page number is left.
    /// The page asked for is the one after the set's current page.
    pub fn fetch_next_page(&mut self, window_type: WindowType) -> (r: Option<PageRequest>)
        requires
            old(self).wf(),
        ensures
            final(self).wf(),
            final(self).search_data.query == old(self).search_data.query,
            final(self).search_data.videos.items@ == old(self).search_data.videos.items@,
            final(self).search_data.playlists.items@ == old(self).search_data.playlists.items@,
            final(self).search_data.channels.items@ == old(self).search_data.channels.items@,
            final(self).search_data.videos.current_page == old(self).search_data.videos.current_page,
            final(self).search_data.playlists.current_page
                == old(self).search_data.playlists.current_page,
            final(self).search_data.channels.current_page
                == old(self).search_data.channels.current_page,
            window_kind(window_type) is None ==> r is None,
            window_type == WindowType::SearchVideos && !old(self).search_data.videos.in_flight
                && old(self).search_data.videos.current_page < u32::MAX ==> r == Some(
                PageRequest {
                    query: old(self).search_data.query,
                    page: (old(self).search_data.videos.current_page + 1) as u32,
                    kind: ResultKind::Videos,
                },
            ),
            window_type == WindowType::SearchPlaylists && !old(self).search_data.playlists.in_flight
                && old(self).search_data.playlists.current_page < u32::MAX ==> r == Some(
                PageRequest {
                    query: old(self).search_data.query,
                    page: (old(self).search_data.playlists.current_page + 1) as u32,
                    kind: ResultKind::Playlists,
                },
            ),
            window_type == WindowType::SearchChannels && !old(self).search_data.channels.in_flight
                && old(self).search_data.channels.current_page < u32::MAX ==> r == Some(
                PageRequest {
                    query: old(self).search_data.query,
                    page: (old(self).search_data.channels.current_page + 1) as u32,
                    kind: ResultKind::Channels,
                },
            ),
            window_type == WindowType::SearchVideos && (old(self).search_data.videos.in_flight
                || old(self).search_data.videos.current_page == u32::MAX) ==> r is None,
            window_type == WindowType::SearchPlaylists && (old(self).search_data.playlists.in_flight
                || old(self).search_data.playlists.current_page == u32::MAX) ==> r is None,
            window_type == WindowType::SearchChannels && (old(self).search_data.channels.in_flight
                || old(self).search_data.channels.current_page == u32::MAX) ==> r is None,
    {
        match window_type {
            WindowType::SearchVideos => self.search_data.videos.begin_fetch(
                &self.search_data.query,
                ResultKind::Videos,
            ),
            WindowType::SearchPlaylists => self.search_data.playlists.begin_fetch(
                &self.search_data.query,
                ResultKind::Playlists,
            ),
            WindowType::SearchChannels => self.search_data.channels.begin_fetch(
                &self.search_data.query,
                ResultKind::Channels,
            ),
            _ => None,
        }
    }

    /// Splices a fetched page into the set of its kind; see
    /// `ResultSet::complete_fetch`. The other sets are left as they are.
    pub fn complete_page(&mut self, request: &PageRequest, page: FetchedPage) -> (r: Result<
        (),
        TransportError,
    >)
        requires
            old(self).wf(),
        ensures
            final(self).wf(),
            final(self).search_data.query == old(self).search_data.query,
            match page {
                FetchedPage::Videos(Ok(p)) => r is Ok && final(self).search_data.videos.items@ == old(
                    self,
                ).search_data.videos.items@ + p@ && final(self).search_data.videos.current_page
                    == request.page,
                FetchedPage::Playlists(Ok(p)) => r is Ok && final(self).search_data.playlists.items@
                    == old(self).search_data.playlists.items@ + p@
                    && final(self).search_data.playlists.current_page == request.page,
                FetchedPage::Channels(Ok(p)) => r is Ok && final(self).search_data.channels.items@
                    == old(self).search_data.channels.items@ + p@
                    && final(self).search_data.channels.current_page == request.page,
                FetchedPage::Videos(Err(e)) => r == Err::<(), TransportError>(e)
                    && final(self).search_data.videos.items@ == old(self).search_data.videos.items@
                    && final(self).search_data.videos.current_page
                    == old(self).search_data.videos.current_page,
                FetchedPage::Playlists(Err(e)) => r == Err::<(), TransportError>(e)
                    && final(self).search_data.playlists.items@
                    == old(self).search_data.playlists.items@
                    && final(self).search_data.playlists.current_page
                    == old(self).search_data.playlists.current_page,
                FetchedPage::Channels(Err(e)) => r == Err::<(), TransportError>(e)
                    && final(self).search_data.channels.items@
                    == old(self).search_data.channels.items@
                    && final(self).search_data.channels.current_page
                    == old(self).search_data.channels.current_page,
            },
    {
        match page {
            FetchedPage::Videos(p) => self.search_data.videos.complete_fetch(request, p),
            FetchedPage::Playlists(p) => self.search_data.playlists.complete_fetch(request, p),
            FetchedPage::Channels(p) => self.search_data.channels.complete_fetch(request, p),
        }
    }
}

} // verus!
