use vidtui::data::{get_media, FetchedPage, LoadedData, Media, Search};
use vidtui::media::{video_to_text, Video};
use vidtui::results::{should_fetch, PageRequest, ResultKind, ResultSet, TransportError};
use vidtui::views::{ContentType, Screen, Window, WindowType};

fn videos(prefix: &str, n: usize) -> Vec<Video> {
    (0..n)
        .map(|i| Video {
            title: format!("{} {}", prefix, i),
            video_id: format!("{}{}", prefix, i),
            length_seconds: i as i64,
            live_now: false,
            author: "lofi girl".to_string(),
            author_id: String::new(),
            author_url: String::new(),
            published_text: String::new(),
        })
        .collect()
}

fn search_window(rows: Vec<Vec<String>>) -> Window {
    Window::new("Videos".to_string(), 0, ContentType::MediaContent(rows), WindowType::SearchVideos)
}

#[test]
fn lofi_second_page() {
    let mut data = LoadedData::default();
    data.search_data = Search::new("lofi".to_string(), videos("first", 20), vec![], vec![]);
    assert_eq!(data.search_data.videos.items.len(), 20);
    assert_eq!(data.search_data.videos.current_page, 1);

    let mut screen = Screen::new(
        vec![search_window(data.search_data.videos.rows.clone())],
        vec!["Videos".to_string()],
        String::new(),
    );
    let mut fetch = false;
    for _ in 0..16 {
        fetch = screen.move_down();
    }
    assert_eq!(screen.get_current_view().root_windows[0].selected, 16);
    assert!(fetch);

    let request = data.fetch_next_page(WindowType::SearchVideos).unwrap();
    assert_eq!(request, PageRequest { query: "lofi".to_string(), page: 2, kind: ResultKind::Videos });
    let params: Vec<(String, String)> = request.params();
    assert_eq!(
        params,
        vec![
            ("q".to_string(), "lofi".to_string()),
            ("page".to_string(), "2".to_string()),
            ("type".to_string(), "video".to_string()),
            ("sort_by".to_string(), "relevance".to_string()),
        ]
    );
    assert!(data.fetch_next_page(WindowType::SearchVideos).is_none());

    let result = data.complete_page(&request, FetchedPage::Videos(Ok(videos("second", 20))));
    assert!(result.is_ok());
    assert_eq!(data.search_data.videos.items.len(), 40);
    assert_eq!(data.search_data.videos.current_page, 2);
    assert_eq!(data.search_data.videos.rows.len(), 40);
    let mut all = videos("first", 20);
    all.extend(videos("second", 20));
    assert_eq!(data.search_data.videos.rows, video_to_text(all));
    assert_eq!(data.search_data.videos.rows[20][0], "second 0");
}

#[test]
fn failed_page_changes_nothing() {
    let mut set = ResultSet::new(videos("first", 5));
    let before_rows = set.rows.clone();
    let request = set.begin_fetch(&"q".to_string(), ResultKind::Videos).unwrap();
    assert_eq!(request.page, 2);
    let err = TransportError { message: "timed out".to_string() };
    let r = set.complete_fetch(&request, Err(err.clone()));
    assert_eq!(r, Err(err));
    assert_eq!(set.current_page, 1);
    assert_eq!(set.items, videos("first", 5));
    assert_eq!(set.rows, before_rows);
    assert!(!set.in_flight);
    let again = set.begin_fetch(&"q".to_string(), ResultKind::Videos).unwrap();
    assert_eq!(again.page, 2);
}

#[test]
fn pages_append_in_order() {
    let mut set: ResultSet<Video> = ResultSet::empty();
    let mut sizes = 0;
    for (k, n) in [3usize, 0, 5, 2].iter().enumerate() {
        let req = set.begin_fetch(&"q".to_string(), ResultKind::Videos).unwrap();
        assert_eq!(req.page as usize, k + 2);
        set.complete_fetch(&req, Ok(videos(&format!("page{}", k), *n))).unwrap();
        sizes += n;
        assert_eq!(set.rows.len(), sizes);
        assert_eq!(set.items.len(), sizes);
    }
    assert_eq!(set.current_page, 5);
    assert_eq!(set.rows[0][0], "page0 0");
    assert_eq!(set.rows[3][0], "page2 0");
    assert_eq!(set.rows[9][0], "page3 1");
}

#[test]
fn last_page_number_is_not_exceeded() {
    let mut set: ResultSet<Video> = ResultSet::empty();
    set.current_page = u32::MAX;
    assert!(set.begin_fetch(&"q".to_string(), ResultKind::Channels).is_none());
    assert!(!set.in_flight);
}

#[test]
fn playlist_and_channel_params() {
    let p = PageRequest { query: "jazz".to_string(), page: 13, kind: ResultKind::Playlists };
    assert_eq!(p.params()[1], ("page".to_string(), "13".to_string()));
    assert_eq!(p.params()[2], ("type".to_string(), "playlist".to_string()));
    let c = PageRequest { query: "jazz".to_string(), page: 3, kind: ResultKind::Channels };
    assert_eq!(c.params()[2], ("type".to_string(), "channel".to_string()));
}

#[test]
fn lookahead_trigger() {
    assert!(should_fetch(16, 20));
    assert!(!should_fetch(15, 20));
    assert!(!should_fetch(17, 20));
    assert!(should_fetch(0, 3));
    assert!(should_fetch(0, 0));
    assert!(should_fetch(0, 4));
}

#[test]
fn other_windows_do_not_page() {
    let mut data = LoadedData::default();
    assert!(data.fetch_next_page(WindowType::TrendingVideos).is_none());
    assert!(data.fetch_next_page(WindowType::AudioQueue).is_none());
    let r = data.fetch_next_page(WindowType::SearchChannels).unwrap();
    assert_eq!(r.kind, ResultKind::Channels);
    let e = TransportError { message: "down".to_string() };
    assert_eq!(data.complete_page(&r, FetchedPage::Channels(Err(e.clone()))), Err(e));
    assert_eq!(data.search_data.channels.current_page, 1);
}

#[test]
fn selected_record() {
    let mut data = LoadedData::default();
    data.trending_videos = videos("t", 3);
    let mut w = Window::new("Trending".to_string(), 2, ContentType::ListContent(vec![]), WindowType::TrendingVideos);
    assert_eq!(get_media(&w, &data), Some(Media::Video(videos("t", 3)[2].clone())));
    w.selected = 3;
    assert_eq!(get_media(&w, &data), None);
    w.window_type = WindowType::VideoQueue;
    w.selected = 0;
    assert_eq!(get_media(&w, &data), None);
}
