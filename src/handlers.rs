//! What playing or queueing the selected record does to the play queue and
//! the playback facade.
use vstd::prelude::*;
use crate::data::{media_author, media_title, media_url, Media};
use crate::media::Video;
use crate::player::{audio_plan, send_video, video_plan, EngineCommand, Player, VideoCommand};
use crate::queue::{collection_queue, MediaQueue, QueueEntry};
use crate::views::{Window, WindowType};

verus! {

/// Appending to the audio engine's playlist.
pub open spec fn append_audio_plan(u: String) -> Seq<EngineCommand> {
    seq![EngineCommand::AppendAudio(u)]
}

/// Windows whose records are collections of items.
pub open spec fn is_collection_window(t: WindowType) -> bool {
    t == WindowType::SearchPlaylists || t == WindowType::ChannelPlaylists
}

/// `e` is the queue entry of record `m`, tagged with `source`.
pub open spec fn entry_of(e: QueueEntry, m: Media, source: Option<Seq<char>>) -> bool {
    &&& e.title@ == media_title(m)
    &&& e.author@ == media_author(m)
    &&& match (e.source, source) {
        (Some(a), Some(b)) => a@ == b,
        (None, None) => true,
        _ => false,
    }
}

/// Whether a window lists collections of items.
pub fn is_collection_window_type(t: WindowType) -> (r: bool)
    ensures
        r == is_collection_window(t),
{
    t == WindowType::SearchPlaylists || t == WindowType::ChannelPlaylists
}

fn entry_for(media: &Media, source: Option<String>) -> (r: QueueEntry)
    ensures
        entry_of(
            r,
            *media,
            match source {
                Some(s) => Some(s@),
                None => None,
            },
        ),
{
    QueueEntry { title: media.title(), author: media.author(), source }
}

/// Plays the selected record and rebuilds the medium's queue around it.
///
/// A playlist whose items were fetched (`items`) fills the queue with its own
/// entry followed by its items; any other record makes the queue hold just
/// its own entry. The record is then played through the facade; a record
/// with nothing to play (a channel) sends no command.
pub fn play_selection(
    player: &mut Player,
    queue: &mut MediaQueue,
    media: &Media,
    items: Option<&Vec<Video>>,
    as_video: bool,
) -> (r: Vec<EngineCommand>)
    ensures
        match (*media, items) {
            (Media::Playlist(p), Some(vs)) => final(queue)@ == collection_queue(p, vs@),
            _ => final(queue)@.len() == 1 && entry_of(final(queue)@[0], *media, None),
        },
        media_url(*media) is None ==> r@.len() == 0 && *final(player) == *old(player),
        media_url(*media) is Some && as_video ==> exists|u: String|
            u@ == media_url(*media)->0 && #[trigger] video_plan(u, old(player).video_connected)
                == r@ && *final(player) == (Player {
                backend: old(player).backend,
                video_connected: false,
            }),
        media_url(*media) is Some && !as_video ==> exists|u: String|
            u@ == media_url(*media)->0 && #[trigger] audio_plan(u, old(player).video_connected)
                == r@ && *final(player) == *old(player),
{
    match (media, items) {
        (Media::Playlist(p), Some(vs)) => queue.load_collection(p, vs),
        _ => queue.play_single(entry_for(media, None)),
    }
    match media.url() {
        Some(u) => {
            let r = player.play(&u, as_video);
            if as_video {
                assert(video_plan(u, old(player).video_connected) == r@);
            } else {
                assert(audio_plan(u, old(player).video_connected) == r@);
            }
            r
        },
        None => Vec::new(),
    }
}

/// Queues the selected record behind what plays: its entry is appended (an
/// item of a collection window is tagged with the window's title) and the
/// engine of the medium is asked to append it to its own playlist.
pub fn queue_selection(
    player: &Player,
    queue: &mut MediaQueue,
    media: &Media,
    window: &Window,
    as_video: bool,
) -> (r: Vec<EngineCommand>)
    ensures
        final(queue)@.len() == old(queue)@.len() + 1,
        final(queue)@.drop_last() == old(queue)@,
        entry_of(
            final(queue)@.last(),
            *media,
            if is_collection_window(window.window_type) {
                Some(window.title@)
            } else {
                None
            },
        ),
        media_url(*media) is None ==> r@.len() == 0,
        media_url(*media) is Some && !as_video ==> exists|u: String|
            u@ == media_url(*media)->0 && r@ == #[trigger] append_audio_plan(u),
        media_url(*media) is Some && as_video ==> exists|u: String|
            u@ == media_url(*media)->0 && r@ == #[trigger] send_video(
                player.video_connected,
                VideoCommand::Append(u),
            ),
{
    let source = if is_collection_window_type(window.window_type) {
        Some(window.title.clone())
    } else {
        None
    };
    queue.push(entry_for(media, source));
    proof {
        assert(queue@.drop_last() =~= old(queue)@);
    }
    match media.url() {
        Some(u) => {
            if as_video {
                let r = player.queue_video(&u);
                assert(r@ == send_video(player.video_connected, VideoCommand::Append(u)));
                r
            } else {
                let r = player.queue_audio(&u);
                assert(r@ == append_audio_plan(u));
                r
            }
        },
        None => Vec::new(),
    }
}

} // verus!
