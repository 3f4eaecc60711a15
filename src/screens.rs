//! The screens the client starts with, the pages that opening a collection
//! shows, and how fresh results replace what the windows list.
use vstd::prelude::*;
use crate::data::{LoadedData, Search};
use crate::media::{copy_rows, rows, rows_of, Channel, Playlist, Video};
use crate::views::{ContentType, Page, Screen, Window, WindowType};

verus! {

fn labels3(a: &str, b: &str, c: &str) -> (r: Vec<String>)
    ensures
        r.deep_view() == seq![a@, b@, c@],
{
    let mut r: Vec<String> = Vec::new();
    r.push(String::from_str(a));
    r.push(String::from_str(b));
    r.push(String::from_str(c));
    assert(r.deep_view() =~= seq![a@, b@, c@]);
    r
}

fn rows_window(title: String, rows: Vec<Vec<String>>, window_type: WindowType) -> (r: Window)
    ensures
        r == (Window { title, selected: 0, content: ContentType::MediaContent(rows), window_type }),
{
    Window::new(title, 0, ContentType::MediaContent(rows), window_type)
}

fn empty_window(title: &str, window_type: WindowType) -> (r: Window)
    ensures
        r.title@ == title@,
        r.selected == 0,
        r.window_type == window_type,
        r.content is MediaContent,
        (r.content->MediaContent_0)@.len() == 0,
{
    Window::new(String::from_str(title), 0, ContentType::MediaContent(Vec::new()), window_type)
}

/// The search screen: empty video, playlist and channel windows.
pub fn search_screen() -> (r: Screen)
    ensures
        r.view_stack@.len() == 0,
        r.root.tabs.selected == 0,
        r.root.tabs.items.deep_view() == seq!["Videos"@, "Playlists"@, "Channels"@],
        r.root.root_windows@.len() == 3,
        r.root.root_windows@[0].window_type == WindowType::SearchVideos,
        r.root.root_windows@[1].window_type == WindowType::SearchPlaylists,
        r.root.root_windows@[2].window_type == WindowType::SearchChannels,
{
    let mut windows: Vec<Window> = Vec::new();
    windows.push(empty_window("Videos", WindowType::SearchVideos));
    windows.push(empty_window("Playlists", WindowType::SearchPlaylists));
    windows.push(empty_window("Channels", WindowType::SearchChannels));
    Screen::new(windows, labels3("Videos", "Playlists", "Channels"), String::new())
}

/// The home screen: empty trending, popular and top windows.
pub fn home_screen() -> (r: Screen)
    ensures
        r.view_stack@.len() == 0,
        r.root.tabs.selected == 0,
        r.root.tabs.items.deep_view() == seq!["Trending"@, "Popular"@, "Top"@],
        r.root.root_windows@.len() == 3,
        r.root.root_windows@[0].window_type == WindowType::TrendingVideos,
        r.root.root_windows@[1].window_type == WindowType::PopularVideos,
        r.root.root_windows@[2].window_type == WindowType::TopVideos,
{
    let mut windows: Vec<Window> = Vec::new();
    windows.push(empty_window("Trending", WindowType::TrendingVideos));
    windows.push(empty_window("Popular", WindowType::PopularVideos));
    windows.push(empty_window("Top", WindowType::TopVideos));
    Screen::new(windows, labels3("Trending", "Popular", "Top"), String::new())
}

/// The page that opening a playlist shows: one window of its videos, titled
/// after the playlist. The videos become the list that window selects from.
pub fn open_playlist(p: &Playlist, videos: Vec<Video>, data: &mut LoadedData) -> (r: Page)
    ensures
        final(data).playlist_videos@ == videos@,
        final(data).search_data == old(data).search_data,
        r.tabs.selected == 0,
        r.tabs.items.deep_view() == seq!["Videos"@],
        r.root_windows@.len() == 1,
        r.root_windows@[0].title == p.title,
        r.root_windows@[0].selected == 0,
        r.root_windows@[0].window_type == WindowType::PlaylistVideos,
        r.root_windows@[0].content is MediaContent,
        (r.root_windows@[0].content->MediaContent_0).deep_view() == rows_of(videos@),
{
    let text = rows(&videos);
    data.playlist_videos = videos;
    let mut windows: Vec<Window> = Vec::new();
    windows.push(rows_window(p.title.clone(), text, WindowType::PlaylistVideos));
    let mut tabs: Vec<String> = Vec::new();
    tabs.push(String::from_str("Videos"));
    assert(tabs.deep_view() =~= seq!["Videos"@]);
    Page::new(windows, tabs, String::new())
}

fn owned_title(author: &String, suffix: &str) -> (r: String)
    ensures
        r@ == author@ + suffix@,
{
    let mut s = author.clone();
    s.append(suffix);
    s
}

/// The page that opening a channel shows: a window of its videos and one of
/// its playlists, titled after the channel. Both lists become the ones those
/// windows select from.
pub fn open_channel(c: &Channel, videos: Vec<Video>, playlists: Vec<Playlist>, data: &mut LoadedData) -> (r:
    Page)
    ensures
        final(data).channel_videos@ == videos@,
        final(data).channel_playlists@ == playlists@,
        final(data).search_data == old(data).search_data,
        r.tabs.selected == 0,
        r.tabs.items.deep_view() == seq!["Videos"@, "Playlists"@],
        r.root_windows@.len() == 2,
        r.root_windows@[0].title@ == c.author@ + "'s Videos"@,
        r.root_windows@[1].title@ == c.author@ + "'s Playlists"@,
        r.root_windows@[0].window_type == WindowType::ChannelVideos,
        r.root_windows@[1].window_type == WindowType::ChannelPlaylists,
        r.root_windows@[0].selected == 0 && r.root_windows@[1].selected == 0,
        r.root_windows@[0].content is MediaContent && (
        r.root_windows@[0].content->MediaContent_0).deep_view() == rows_of(videos@),
        r.root_windows@[1].content is MediaContent && (
        r.root_windows@[1].content->MediaContent_0).deep_view() == rows_of(playlists@),
{
    let video_text = rows(&videos);
    let playlist_text = rows(&playlists);
    data.channel_videos = videos;
    data.channel_playlists = playlists;
    let mut windows: Vec<Window> = Vec::new();
    windows.push(
        rows_window(owned_title(&c.author, "'s Videos"), video_text, WindowType::ChannelVideos),
    );
    windows.push(
        rows_window(
            owned_title(&c.author, "'s Playlists"),
            playlist_text,
            WindowType::ChannelPlaylists,
        ),
    );
    let mut tabs: Vec<String> = Vec::new();
    tabs.push(String::from_str("Videos"));
    tabs.push(String::from_str("Playlists"));
    assert(tabs.deep_view() =~= seq!["Videos"@, "Playlists"@]);
    Page::new(windows, tabs, String::new())
}

/// `b` is page `a` with window `i` (if there is one) showing `rows` from the
/// top, and every other window as it was.
pub open spec fn shows_rows(a: Page, b: Page, i: int, rows: Seq<Seq<Seq<char>>>) -> bool {
    &&& b.tabs == a.tabs
    &&& b.root_windows@.len() == a.root_windows@.len()
    &&& forall|j: int|
        0 <= j < a.root_windows@.len() && j != i ==> #[trigger] b.root_windows@[j]
            == a.root_windows@[j]
    &&& 0 <= i < a.root_windows@.len() ==> {
        let w = b.root_windows@[i];
        &&& w.selected == 0
        &&& w.title == a.root_windows@[i].title
        &&& w.window_type == a.root_windows@[i].window_type
        &&& w.content is MediaContent
        &&& (w.content->MediaContent_0).deep_view() == rows
    }
}

impl Page {
    /// Makes window `i` show `rows` from the top.
    pub fn show_rows(&mut self, i: usize, rows: Vec<Vec<String>>)
        ensures
            shows_rows(*old(self), *final(self), i as int, rows.deep_view()),
    {
        if i < self.root_windows.len() {
            let ghost before = self.root_windows@;
            let mut w = self.root_windows.remove(i);
            w.replace_content(ContentType::MediaContent(rows));
            self.root_windows.insert(i, w);
            proof {
                assert forall|j: int|
                    0 <= j < before.len() && j != i implies #[trigger] self.root_windows@[j]
                    == before[j] by {
                    if j < i {
                    } else {
                    }
                }
            }
        }
    }
}

/// Shows a fresh query's results on the search screen: each window lists its
/// kind from the top, opened pages are closed, and the results replace the
/// previous query's.
pub fn show_search(screen: &mut Screen, data: &mut LoadedData, search: Search)
    requires
        search.videos.wf(),
        search.playlists.wf(),
        search.channels.wf(),
    ensures
        final(screen).view_stack@.len() == 0,
        final(data).search_data == search,
        exists|mid: Page, late: Page|
            #![trigger shows_rows(old(screen).root, mid, 0, rows_of(search.videos.items@)), shows_rows(late, final(screen).root, 2, rows_of(search.channels.items@))]
            shows_rows(old(screen).root, mid, 0, rows_of(search.videos.items@)) && shows_rows(
                mid,
                late,
                1,
                rows_of(search.playlists.items@),
            ) && shows_rows(late, final(screen).root, 2, rows_of(search.channels.items@)),
{
    let ghost start = screen.root;
    screen.root.show_rows(0, copy_rows(&search.videos.rows));
    let ghost mid = screen.root;
    screen.root.show_rows(1, copy_rows(&search.playlists.rows));
    let ghost late = screen.root;
    screen.root.show_rows(2, copy_rows(&search.channels.rows));
    screen.view_stack = Vec::new();
    data.search_data = search;
    assert(shows_rows(start, mid, 0, rows_of(search.videos.items@)));
    assert(shows_rows(late, screen.root, 2, rows_of(search.channels.items@)));
}

/// Shows the trending and popular videos on the home screen, from the top.
pub fn show_home(screen: &mut Screen, data: &mut LoadedData, trending: Vec<Video>, popular: Vec<Video>)
    ensures
        final(data).trending_videos@ == trending@,
        final(data).popular_videos@ == popular@,
        final(data).search_data == old(data).search_data,
        final(screen).view_stack == old(screen).view_stack,
        exists|mid: Page|
            shows_rows(old(screen).root, mid, 0, rows_of(trending@)) && #[trigger] shows_rows(
                mid,
                final(screen).root,
                1,
                rows_of(popular@),
            ),
{
    let ghost start = screen.root;
    screen.root.show_rows(0, rows(&trending));
    let ghost mid = screen.root;
    screen.root.show_rows(1, rows(&popular));
    data.trending_videos = trending;
    data.popular_videos = popular;
    assert(shows_rows(start, mid, 0, rows_of(trending@)));
    assert(shows_rows(mid, screen.root, 1, rows_of(popular@)));
}

} // verus!
