use vidtui::media::{channel_to_text, playlist_to_text, video_to_text, Channel, ListItem, Playlist, Video};
use vidtui::text::{clock, decimal, padded2};

fn video(title: &str, id: &str, seconds: i64, live: bool, published: &str) -> Video {
    Video {
        title: title.to_string(),
        video_id: id.to_string(),
        length_seconds: seconds,
        live_now: live,
        author: "someone".to_string(),
        author_id: "UC1".to_string(),
        author_url: "/channel/UC1".to_string(),
        published_text: published.to_string(),
    }
}

#[test]
fn decimal_text() {
    assert_eq!(decimal(0), "0");
    assert_eq!(decimal(7), "7");
    assert_eq!(decimal(10), "10");
    assert_eq!(decimal(1234567890), "1234567890");
    assert_eq!(decimal(u64::MAX), "18446744073709551615");
}

#[test]
fn padded_text() {
    assert_eq!(padded2(0), "00");
    assert_eq!(padded2(9), "09");
    assert_eq!(padded2(10), "10");
    assert_eq!(padded2(123), "123");
}

#[test]
fn clock_text_values() {
    assert_eq!(clock(0), "00:00:00");
    assert_eq!(clock(3725), "01:02:05");
    assert_eq!(clock(59), "00:00:59");
    assert_eq!(clock(360000), "100:00:00");
    assert_eq!(clock(-5), "00:00:-5");
    assert_eq!(clock(-3725), "-1:-2:-5");
    assert_eq!(clock(i64::MIN), "-2562047788015215:-30:-8");
}

#[test]
fn video_row_with_and_without_publication() {
    let v = video("Lofi beats", "abc", 3725, false, "2 days ago");
    assert_eq!(v.into_text(), vec!["Lofi beats", "someone", "2 days ago", "01:02:05"]);
    let v = video("Lofi beats", "abc", 65, false, "");
    assert_eq!(v.into_text(), vec!["Lofi beats", "someone", "00:01:05"]);
}

#[test]
fn live_video_row() {
    let v = video("Radio", "r", 0, true, "");
    assert_eq!(v.into_text(), vec!["Radio", "someone", "Live Now"]);
}

#[test]
fn playlist_and_channel_rows() {
    let p = Playlist {
        title: "Mix".to_string(),
        playlist_id: "PL1".to_string(),
        author: "dj".to_string(),
        author_id: "UC2".to_string(),
        author_url: "/channel/UC2".to_string(),
        video_count: 42,
    };
    assert_eq!(p.into_text(), vec!["Mix", "dj", "42 videos"]);
    let c = Channel {
        author: "Chan".to_string(),
        author_id: "UC3".to_string(),
        author_url: "/channel/UC3".to_string(),
        video_count: 7,
        sub_count: 1000,
    };
    assert_eq!(c.into_text(), vec!["Chan", "1000 subscribers", "7 videos"]);
    assert_eq!(playlist_to_text(vec![p.clone(), p]).len(), 2);
    assert_eq!(channel_to_text(vec![c]), vec![vec!["Chan", "1000 subscribers", "7 videos"]]);
}

#[test]
fn rows_keep_order() {
    let vs = vec![video("a", "1", 1, false, ""), video("b", "2", 2, false, ""), video("c", "3", 3, false, "")];
    let rows = video_to_text(vs);
    let titles: Vec<&str> = rows.iter().map(|r| r[0].as_str()).collect();
    assert_eq!(titles, vec!["a", "b", "c"]);
    assert!(video_to_text(vec![]).is_empty());
}

#[test]
fn empty_records() {
    let v = Video::default();
    assert_eq!(v.title, "");
    assert_eq!(v.length_seconds, 0);
    assert!(!v.live_now);
    assert_eq!(v.into_text(), vec!["", "", "00:00:00"]);
    assert_eq!(Playlist::default().into_text(), vec!["", "", "0 videos"]);
    assert_eq!(Channel::default().into_text(), vec!["", "0 subscribers", "0 videos"]);
    let w = vidtui::views::Window::default();
    assert_eq!(w.selected, 0);
    assert_eq!(w.len(), 0);
    assert_eq!(w.window_type, vidtui::views::WindowType::SearchVideos);
}
