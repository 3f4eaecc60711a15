use vidtui::data::{LoadedData, Search};
use vidtui::media::{Channel, Playlist, Video};
use vidtui::screens::{home_screen, open_channel, open_playlist, search_screen, show_home, show_search};
use vidtui::views::{ContentType, Page, Window, WindowType};

fn video(t: &str) -> Video {
    Video {
        title: t.to_string(),
        video_id: t.to_string(),
        length_seconds: 61,
        live_now: false,
        author: "au".to_string(),
        author_id: String::new(),
        author_url: String::new(),
        published_text: String::new(),
    }
}

fn rows_of(w: &Window) -> Vec<Vec<String>> {
    match &w.content {
        ContentType::MediaContent(r) => r.clone(),
        ContentType::ListContent(_) => panic!("expected rows"),
    }
}

#[test]
fn opening_a_channel() {
    let mut data = LoadedData::default();
    let c = Channel {
        author: "Bob".to_string(),
        author_id: "UCb".to_string(),
        author_url: String::new(),
        video_count: 1,
        sub_count: 2,
    };
    let pl = Playlist {
        title: "Best".to_string(),
        playlist_id: "PLb".to_string(),
        author: "Bob".to_string(),
        author_id: String::new(),
        author_url: String::new(),
        video_count: 3,
    };
    let page = open_channel(&c, vec![video("v")], vec![pl.clone()], &mut data);
    assert_eq!(page.tabs.items, vec!["Videos", "Playlists"]);
    assert_eq!(page.root_windows[0].title, "Bob's Videos");
    assert_eq!(page.root_windows[1].title, "Bob's Playlists");
    assert_eq!(page.root_windows[1].window_type, WindowType::ChannelPlaylists);
    assert_eq!(rows_of(&page.root_windows[0]), vec![vec!["v", "au", "00:01:01"]]);
    assert_eq!(rows_of(&page.root_windows[1]), vec![vec!["Best", "Bob", "3 videos"]]);
    assert_eq!(data.channel_playlists, vec![pl]);
}

#[test]
fn opening_a_playlist() {
    let mut data = LoadedData::default();
    let pl = Playlist {
        title: "Mix".to_string(),
        playlist_id: "PL".to_string(),
        author: "me".to_string(),
        author_id: String::new(),
        author_url: String::new(),
        video_count: 2,
    };
    let page: Page = open_playlist(&pl, vec![video("a"), video("b")], &mut data);
    assert_eq!(page.root_windows.len(), 1);
    assert_eq!(page.root_windows[0].title, "Mix");
    assert_eq!(rows_of(&page.root_windows[0]).len(), 2);
    assert_eq!(data.playlist_videos.len(), 2);
}

#[test]
fn fresh_search_replaces_results() {
    let mut data = LoadedData::default();
    let mut screen = search_screen();
    screen.root.root_windows[0].selected = 5;
    screen.push_view(Page::new(vec![], vec![], String::new()));
    let search = Search::new("lofi".to_string(), vec![video("x"), video("y")], vec![], vec![]);
    show_search(&mut screen, &mut data, search);
    assert!(screen.view_stack.is_empty());
    assert_eq!(screen.root.root_windows[0].selected, 0);
    assert_eq!(rows_of(&screen.root.root_windows[0]).len(), 2);
    assert_eq!(rows_of(&screen.root.root_windows[1]).len(), 0);
    assert_eq!(data.search_data.query, "lofi");
    assert_eq!(data.search_data.videos.current_page, 1);
}

#[test]
fn home_lists() {
    let mut data = LoadedData::default();
    let mut screen = home_screen();
    show_home(&mut screen, &mut data, vec![video("t")], vec![video("p"), video("q")]);
    assert_eq!(rows_of(&screen.root.root_windows[0]).len(), 1);
    assert_eq!(rows_of(&screen.root.root_windows[1]).len(), 2);
    assert_eq!(rows_of(&screen.root.root_windows[2]).len(), 0);
    assert_eq!(screen.root.tabs.items, vec!["Trending", "Popular", "Top"]);
    assert_eq!(data.popular_videos.len(), 2);
}
