//! The playback facade: one command surface over an in-process audio engine
//! and an external video process reached through a local socket.
//!
//! The facade decides; it does not talk to either engine. Each operation
//! returns the engine commands to carry out, in order, and the caller reports
//! back what the engines answered (a queried property, whether a start
//! succeeded). Only one backend owns foreground playback at a time.
use vstd::prelude::*;
use crate::text::{clock, clock_text, zero_clock};

verus! {

/// Which engine owns foreground playback.
#[derive(Clone, Copy, Debug, PartialEq, Eq, Structural)]
pub enum PlaybackBackend {
    Audio,
    Video,
    Idle,
}

/// A command for the external video process, sent as one line of JSON.
#[derive(Clone, Debug, PartialEq)]
pub enum VideoCommand {
    Stop,
    Pause,
    Resume,
    QueryPause,
    Append(String),
}

/// One step for an engine, carried out by the caller in the order given.
#[derive(Clone, Debug, PartialEq)]
pub enum EngineCommand {
    /// Pause the audio engine.
    PauseAudio,
    /// Resume the audio engine.
    ResumeAudio,
    /// Stop the audio engine.
    StopAudio,
    /// Load a reference into the audio engine, replacing its current item.
    LoadAudio(String),
    /// Append a reference to the audio engine's own playlist.
    AppendAudio(String),
    /// Seek the audio engine by a relative amount of seconds.
    SeekAudio(String),
    /// Set the audio engine's loop option to the value given.
    SetAudioLoop(String),
    /// Write a command line to the video process's socket.
    SendVideo(VideoCommand),
    /// Drop the connection to the video process.
    DropVideo,
    /// Start the external video process on a reference.
    SpawnVideo(String),
    /// Connect to the video process's socket, with bounded retries.
    ConnectVideo,
}

/// How an engine failure is reported.
#[derive(Clone, Copy, Debug, PartialEq, Eq, Structural)]
pub enum PlayerError {
    /// The engine refused a command, or the process could not be started.
    Engine,
    /// The external process could not be reached.
    Connection,
}

/// What came of starting playback.
#[derive(Clone, Copy, Debug, PartialEq, Eq, Structural)]
pub enum StartOutcome {
    Started,
    EngineFailed,
    Unreachable,
}

/// An event drained from the audio engine's queue.
#[derive(Clone, Copy, Debug, PartialEq, Eq, Structural)]
pub enum AudioEvent {
    StartFile,
    Other,
}

/// The facade's state: the backend that owns playback, and whether a
/// connection to a video process is held.
#[derive(Clone, Copy, Debug, PartialEq, Eq, Structural)]
pub struct Player {
    pub backend: PlaybackBackend,
    pub video_connected: bool,
}

/// Where the video process listens for commands.
pub open spec fn socket_path() -> Seq<char> {
    "/tmp/mpvsocket"@
}

pub open spec fn ipc_line_spec(c: VideoCommand) -> Seq<char> {
    match c {
        VideoCommand::Stop => "{ \"command\": [\"stop\"] }\n"@,
        VideoCommand::Pause => "{ \"command\": [\"set_property\", \"pause\", true] }\n"@,
        VideoCommand::Resume => "{ \"command\": [\"set_property\", \"pause\", false] }\n"@,
        VideoCommand::QueryPause => "{ \"command\": [\"get_property\", \"pause\"] }\n"@,
        VideoCommand::Append(url) => "{ \"command\": [\"loadfile\", \""@ + url@
            + "\", \"append-play\"] }\n"@,
    }
}

/// The arguments the video process is started with: its socket, a quality
/// bound, no terminal interface, and the reference to play.
pub open spec fn video_args_spec(url: Seq<char>) -> Seq<Seq<char>> {
    seq![
        "--input-ipc-server=/tmp/mpvsocket"@,
        "--ytdl-format=bestvideo[height<=?720]+bestaudio/best"@,
        "--no-terminal"@,
        url,
    ]
}

/// The line that carries `c` over the socket.
pub fn ipc_line(c: &VideoCommand) -> (r: String)
    ensures
        r@ == ipc_line_spec(*c),
{
    match c {
        VideoCommand::Stop => String::from_str("{ \"command\": [\"stop\"] }\n"),
        VideoCommand::Pause => String::from_str(
            "{ \"command\": [\"set_property\", \"pause\", true] }\n",
        ),
        VideoCommand::Resume => String::from_str(
            "{ \"command\": [\"set_property\", \"pause\", false] }\n",
        ),
        VideoCommand::QueryPause => String::from_str(
            "{ \"command\": [\"get_property\", \"pause\"] }\n",
        ),
        VideoCommand::Append(url) => {
            let mut s = String::from_str("{ \"command\": [\"loadfile\", \"");
            s.append(url.as_str());
            s.append("\", \"append-play\"] }\n");
            s
        },
    }
}

/// The socket the video process is reached on.
pub fn socket() -> (r: String)
    ensures
        r@ == socket_path(),
{
    String::from_str("/tmp/mpvsocket")
}

/// The arguments to start the video process with on `url`.
pub fn video_process_args(url: &String) -> (r: Vec<String>)
    ensures
        r.deep_view() == video_args_spec(url@),
{
    let mut r: Vec<String> = Vec::new();
    r.push(String::from_str("--input-ipc-server=/tmp/mpvsocket"));
    r.push(String::from_str("--ytdl-format=bestvideo[height<=?720]+bestaudio/best"));
    r.push(String::from_str("--no-terminal"));
    r.push(url.clone());
    assert(r.deep_view() =~= video_args_spec(url@));
    r
}

/// What sending to the video process costs when a connection is held.
pub open spec fn send_video(connected: bool, c: VideoCommand) -> Seq<EngineCommand> {
    if connected {
        seq![EngineCommand::SendVideo(c)]
    } else {
        Seq::empty()
    }
}

/// Tearing a video session down: stop it and drop the connection.
pub open spec fn teardown_video(connected: bool) -> Seq<EngineCommand> {
    if connected {
        seq![EngineCommand::SendVideo(VideoCommand::Stop), EngineCommand::DropVideo]
    } else {
        Seq::empty()
    }
}

/// Playing as video: pause audio, end any earlier session, start the process
/// on the reference, then connect to it.
pub open spec fn video_plan(url: String, connected: bool) -> Seq<EngineCommand> {
    seq![EngineCommand::PauseAudio] + teardown_video(connected) + seq![
        EngineCommand::SpawnVideo(url),
        EngineCommand::ConnectVideo,
    ]
}

/// Playing as audio: pause video, load the reference, resume audio.
pub open spec fn audio_plan(url: String, connected: bool) -> Seq<EngineCommand> {
    send_video(connected, VideoCommand::Pause) + seq![
        EngineCommand::LoadAudio(url),
        EngineCommand::ResumeAudio,
    ]
}

/// Toggling the audio engine given its queried pause state.
pub open spec fn audio_toggle_plan(paused: Option<bool>, connected: bool) -> Seq<EngineCommand> {
    match paused {
        Some(true) => send_video(connected, VideoCommand::Pause) + seq![
            EngineCommand::ResumeAudio,
        ],
        Some(false) => seq![EngineCommand::PauseAudio],
        None => Seq::empty(),
    }
}

/// Toggling the video process given its queried pause state.
pub open spec fn video_toggle_plan(paused: Option<bool>, connected: bool) -> Seq<EngineCommand> {
    match paused {
        Some(true) => send_video(connected, VideoCommand::Resume),
        Some(false) => send_video(connected, VideoCommand::Pause),
        None => Seq::empty(),
    }
}

/// The state after `play`: a video start drops the old connection; the
/// backend is left for `finish_play` to set.
pub open spec fn after_play(p: Player, is_video: bool) -> Player {
    if is_video {
        Player { backend: p.backend, video_connected: false }
    } else {
        p
    }
}

/// The state and result after `finish_play` reports `outcome`.
pub open spec fn after_finish(p: Player, is_video: bool, outcome: StartOutcome) -> (Player, Result<(), PlayerError>) {
    match outcome {
        StartOutcome::Started => (
            Player {
                backend: if is_video {
                    PlaybackBackend::Video
                } else {
                    PlaybackBackend::Audio
                },
                video_connected: is_video || p.video_connected,
            },
            Ok(()),
        ),
        StartOutcome::EngineFailed => (p, Err(PlayerError::Engine)),
        StartOutcome::Unreachable => (p, Err(PlayerError::Connection)),
    }
}

pub open spec fn stop_all_plan(p: Player) -> Seq<EngineCommand> {
    seq![EngineCommand::StopAudio] + teardown_video(p.video_connected)
}

/// The state after stopping everything: no backend, no connection.
pub open spec fn stopped(p: Player) -> Player {
    Player { backend: PlaybackBackend::Idle, video_connected: false }
}

/// Whether the player is idle.
pub open spec fn is_idle(p: Player) -> bool {
    p.backend == PlaybackBackend::Idle && !p.video_connected
}

pub open spec fn status_spec(idle: Option<Seq<char>>, paused: Option<bool>, looped: Option<Seq<char>>) -> Seq<char> {
    match idle {
        None => "Idle"@,
        Some(i) => if i == "yes"@ {
            "Idle"@
        } else {
            match paused {
                None => "Idle"@,
                Some(true) => "Paused"@,
                Some(false) => match looped {
                    Some(l) => if l != "no"@ {
                        "Playing (Looped)"@
                    } else {
                        "Playing "@
                    },
                    None => "Playing "@,
                },
            }
        },
    }
}

pub open spec fn time_field(t: Option<i64>) -> Seq<char> {
    match t {
        Some(s) => clock_text(s as int),
        None => zero_clock(),
    }
}

/// `elapsed / total`, each `00:00:00` when its query failed.
pub open spec fn time_spec(elapsed: Option<i64>, total: Option<i64>) -> Seq<char> {
    time_field(elapsed) + " / "@ + time_field(total)
}

pub open spec fn percent_spec(p: Option<i64>) -> u16 {
    match p {
        Some(v) => if 0 <= v <= u16::MAX {
            v as u16
        } else {
            0
        },
        None => 0,
    }
}

/// Whether `needle` occurs in `hay` as a contiguous run.
pub open spec fn occurs(hay: Seq<u8>, needle: Seq<u8>) -> bool {
    exists|i: int|
        0 <= i && i + needle.len() <= hay.len() && #[trigger] hay.subrange(i, i + needle.len())
            == needle
}

pub open spec fn end_file_marker() -> Seq<u8> {
    seq![101u8, 110u8, 100u8, 45u8, 102u8, 105u8, 108u8, 101u8]
}

pub open spec fn tracks_changed_marker() -> Seq<u8> {
    seq![
        116u8,
        114u8,
        97u8,
        99u8,
        107u8,
        115u8,
        45u8,
        99u8,
        104u8,
        97u8,
        110u8,
        103u8,
        101u8,
        100u8,
    ]
}

fn find(hay: &[u8], needle: &[u8]) -> (r: bool)
    ensures
        r == occurs(hay@, needle@),
{
    let n = needle.len();
    if n > hay.len() {
        proof {
            assert forall|i: int|
                0 <= i && i + n <= hay@.len() implies #[trigger] hay@.subrange(i, i + n)
                != needle@ by {}
        }
        return false;
    }
    let h = hay.len();
    let mut i: usize = 0;
    while i <= h - n
        invariant
            h == hay@.len(),
            n == needle@.len(),
            n <= hay@.len(),
            i <= hay@.len() - n + 1,
            forall|k: int| 0 <= k < i ==> #[trigger] hay@.subrange(k, k + n) != needle@,
        decreases hay@.len() - i,
    {
        let mut j: usize = 0;
        let mut same = true;
        while j < n
            invariant
                h == hay@.len(),
                n == needle@.len(),
                i + n <= hay@.len(),
                j <= n,
                same == (forall|m: int| 0 <= m < j ==> hay@[i + m] == needle@[m]),
            decreases n - j,
        {
            if hay[i + j] != needle[j] {
                same = false;
            }
            j = j + 1;
        }
        if same {
            assert(hay@.subrange(i as int, i + n) =~= needle@);
            return true;
        }
        proof {
            if hay@.subrange(i as int, i + n) == needle@ {
                assert forall|m: int| 0 <= m < n implies hay@[i + m] == needle@[m] by {
                    assert(hay@.subrange(i as int, i + n)[m] == hay@[i + m]);
                }
            }
        }
        i = i + 1;
    }
    false
}

/// The lines of what was read from the socket, in order: the bytes between
/// line breaks, with the (possibly empty) unfinished line last.
pub open spec fn lines_of(b: Seq<u8>) -> Seq<Seq<u8>>
    decreases b.len(),
{
    if b.len() == 0 {
        seq![Seq::empty()]
    } else {
        let prev = lines_of(b.drop_last());
        if b.last() == 10u8 {
            prev.push(Seq::empty())
        } else {
            prev.update(prev.len() - 1, prev.last().push(b.last()))
        }
    }
}

proof fn lemma_lines_nonempty(b: Seq<u8>)
    ensures
        lines_of(b).len() >= 1,
    decreases b.len(),
{
    if b.len() > 0 {
        lemma_lines_nonempty(b.drop_last());
    }
}

/// Splits a read from the socket into its lines; each message of the video
/// process is one line of JSON.
pub fn split_lines(read: &[u8]) -> (r: Vec<Vec<u8>>)
    ensures
        r.deep_view() == lines_of(read@),
{
    let mut done: Vec<Vec<u8>> = Vec::new();
    let mut cur: Vec<u8> = Vec::new();
    let mut i: usize = 0;
    while i < read.len()
        invariant
            i <= read@.len(),
            done.deep_view().push(cur@) == lines_of(read@.subrange(0, i as int)),
        decreases read@.len() - i,
    {
        let ghost before = read@.subrange(0, i as int);
        assert(read@.subrange(0, i + 1).drop_last() =~= before);
        proof {
            lemma_lines_nonempty(before);
        }
        let c = read[i];
        if c == 10u8 {
            let mut line: Vec<u8> = Vec::new();
            std::mem::swap(&mut line, &mut cur);
            let ghost d0 = done.deep_view();
            assert(line.deep_view() =~= line@);
            done.push(line);
            assert(done.deep_view() =~~= d0.push(line@));
            assert(done.deep_view().push(cur@) =~= lines_of(read@.subrange(0, i + 1)));
        } else {
            let ghost c0 = cur@;
            cur.push(c);
            assert(done.deep_view().push(cur@) =~= done.deep_view().push(c0).update(
                done.deep_view().len() as int,
                c0.push(c),
            ));
        }
        i = i + 1;
    }
    assert(read@.subrange(0, read@.len() as int) =~= read@);
    let ghost d1 = done.deep_view();
    assert(cur.deep_view() =~= cur@);
    done.push(cur);
    assert(done.deep_view() =~~= d1.push(cur@));
    done
}

/// Whether a read from the video socket announces a new track: it must not
/// report the end of the stream and must report a track change. A failed or
/// empty read tells nothing.
pub open spec fn video_changed_spec(read: Option<Seq<u8>>) -> bool {
    match read {
        Some(b) => !occurs(b, end_file_marker()) && occurs(b, tracks_changed_marker()),
        None => false,
    }
}

impl Player {
    /// A player with no backend and no video process.
    pub fn new() -> (r: Player)
        ensures
            r == (Player { backend: PlaybackBackend::Idle, video_connected: false }),
    {
        Player { backend: PlaybackBackend::Idle, video_connected: false }
    }

    /// Starts playing `url`. As video: audio is paused first, an earlier video
    /// session is ended, the process is started and connected to; as audio:
    /// video is paused and the audio engine loads the reference. The backend
    /// changes only when the caller reports the start in `finish_play`.
    pub fn play(&mut self, url: &String, is_video: bool) -> (r: Vec<EngineCommand>)
        ensures
            *final(self) == after_play(*old(self), is_video),
            is_video ==> r@ == video_plan(*url, old(self).video_connected),
            !is_video ==> r@ == audio_plan(*url, old(self).video_connected),
    {
        let mut r: Vec<EngineCommand> = Vec::new();
        if is_video {
            r.push(EngineCommand::PauseAudio);
            if self.video_connected {
                r.push(EngineCommand::SendVideo(VideoCommand::Stop));
                r.push(EngineCommand::DropVideo);
            }
            r.push(EngineCommand::SpawnVideo(url.clone()));
            r.push(EngineCommand::ConnectVideo);
            self.video_connected = false;
            assert(r@ =~= video_plan(*url, old(self).video_connected));
        } else {
            if self.video_connected {
                r.push(EngineCommand::SendVideo(VideoCommand::Pause));
            }
            r.push(EngineCommand::LoadAudio(url.clone()));
            r.push(EngineCommand::ResumeAudio);
            assert(r@ =~= audio_plan(*url, old(self).video_connected));
        }
        r
    }

    /// Records what came of a start that `play` asked for. A start makes its
    /// medium the backend; a failure leaves the state as it was and is
    /// reported: an engine error, or a connection error when the video process
    /// could not be reached.
    pub fn finish_play(&mut self, is_video: bool, outcome: StartOutcome) -> (r: Result<(), PlayerError>)
        ensures
            (*final(self), r) == after_finish(*old(self), is_video, outcome),
    {
        match outcome {
            StartOutcome::Started => {
                if is_video {
                    self.backend = PlaybackBackend::Video;
                    self.video_connected = true;
                } else {
                    self.backend = PlaybackBackend::Audio;
                }
                Ok(())
            },
            StartOutcome::EngineFailed => Err(PlayerError::Engine),
            StartOutcome::Unreachable => Err(PlayerError::Connection),
        }
    }

    /// Pauses or resumes whichever backend owns playback, given its queried
    /// pause state; nothing when no backend is active or the query failed.
    pub fn toggle_playback(&self, paused: Option<bool>) -> (r: Vec<EngineCommand>)
        ensures
            self.backend == PlaybackBackend::Audio ==> r@ == audio_toggle_plan(
                paused,
                self.video_connected,
            ),
            self.backend == PlaybackBackend::Video ==> r@ == video_toggle_plan(
                paused,
                self.video_connected,
            ),
            self.backend == PlaybackBackend::Idle ==> r@.len() == 0,
    {
        match self.backend {
            PlaybackBackend::Audio => self.toggle_audio_playback(paused),
            PlaybackBackend::Video => {
                let mut r: Vec<EngineCommand> = Vec::new();
                match paused {
                    Some(true) => {
                        if self.video_connected {
                            r.push(EngineCommand::SendVideo(VideoCommand::Resume));
                        }
                    },
                    Some(false) => {
                        if self.video_connected {
                            r.push(EngineCommand::SendVideo(VideoCommand::Pause));
                        }
                    },
                    None => {},
                }
                assert(r@ =~= video_toggle_plan(paused, self.video_connected));
                r
            },
            PlaybackBackend::Idle => Vec::new(),
        }
    }

    /// Toggles the audio engine given its queried pause state: a paused engine
    /// resumes (and video is paused first), a playing one pauses.
    pub fn toggle_audio_playback(&self, paused: Option<bool>) -> (r: Vec<EngineCommand>)
        ensures
            r@ == audio_toggle_plan(paused, self.video_connected),
    {
        let mut r: Vec<EngineCommand> = Vec::new();
        match paused {
            Some(true) => {
                if self.video_connected {
                    r.push(EngineCommand::SendVideo(VideoCommand::Pause));
                }
                r.push(EngineCommand::ResumeAudio);
            },
            Some(false) => {
                r.push(EngineCommand::PauseAudio);
            },
            None => {},
        }
        assert(r@ =~= audio_toggle_plan(paused, self.video_connected));
        r
    }

    /// Stops both backends and forgets the active one.
    pub fn stop_all(&mut self) -> (r: Vec<EngineCommand>)
        ensures
            r@ == stop_all_plan(*old(self)),
            *final(self) == stopped(*old(self)),
    {
        let mut r: Vec<EngineCommand> = Vec::new();
        r.push(EngineCommand::StopAudio);
        if self.video_connected {
            r.push(EngineCommand::SendVideo(VideoCommand::Stop));
            r.push(EngineCommand::DropVideo);
        }
        self.backend = PlaybackBackend::Idle;
        self.video_connected = false;
        assert(r@ =~= stop_all_plan(*old(self)));
        r
    }

    /// Ends the video session, if there is one.
    pub fn stop_video(&mut self) -> (r: Vec<EngineCommand>)
        ensures
            r@ == teardown_video(old(self).video_connected),
            !final(self).video_connected,
            final(self).backend == (if old(self).backend == PlaybackBackend::Video {
                PlaybackBackend::Idle
            } else {
                old(self).backend
            }),
    {
        let mut r: Vec<EngineCommand> = Vec::new();
        if self.video_connected {
            r.push(EngineCommand::SendVideo(VideoCommand::Stop));
            r.push(EngineCommand::DropVideo);
        }
        self.video_connected = false;
        if self.backend == PlaybackBackend::Video {
            self.backend = PlaybackBackend::Idle;
        }
        assert(r@ =~= teardown_video(old(self).video_connected));
        r
    }

    /// Stops the audio engine.
    pub fn stop_audio(&self) -> (r: Vec<EngineCommand>)
        ensures
            r@ == seq![EngineCommand::StopAudio],
    {
        let r = vec![EngineCommand::StopAudio];
        assert(r@ =~= seq![EngineCommand::StopAudio]);
        r
    }

    /// Pauses the video process, if one is connected.
    pub fn pause_video(&self) -> (r: Vec<EngineCommand>)
        ensures
            r@ == send_video(self.video_connected, VideoCommand::Pause),
    {
        let mut r: Vec<EngineCommand> = Vec::new();
        if self.video_connected {
            r.push(EngineCommand::SendVideo(VideoCommand::Pause));
        }
        assert(r@ =~= send_video(self.video_connected, VideoCommand::Pause));
        r
    }

    /// Pauses the audio engine.
    pub fn pause_audio(&self) -> (r: Vec<EngineCommand>)
        ensures
            r@ == seq![EngineCommand::PauseAudio],
    {
        let r = vec![EngineCommand::PauseAudio];
        assert(r@ =~= seq![EngineCommand::PauseAudio]);
        r
    }

    /// Resumes the audio engine.
    pub fn resume_audio(&self) -> (r: Vec<EngineCommand>)
        ensures
            r@ == seq![EngineCommand::ResumeAudio],
    {
        let r = vec![EngineCommand::ResumeAudio];
        assert(r@ =~= seq![EngineCommand::ResumeAudio]);
        r
    }

    /// Appends `url` to the audio engine's playlist.
    pub fn queue_audio(&self, url: &String) -> (r: Vec<EngineCommand>)
        ensures
            r@ == seq![EngineCommand::AppendAudio(*url)],
    {
        let r = vec![EngineCommand::AppendAudio(url.clone())];
        assert(r@ =~= seq![EngineCommand::AppendAudio(*url)]);
        r
    }

    /// Appends `url` to the video process's playlist, if one is connected.
    pub fn queue_video(&self, url: &String) -> (r: Vec<EngineCommand>)
        ensures
            r@ == send_video(self.video_connected, VideoCommand::Append(*url)),
    {
        let mut r: Vec<EngineCommand> = Vec::new();
        if self.video_connected {
            r.push(EngineCommand::SendVideo(VideoCommand::Append(url.clone())));
        }
        assert(r@ =~= send_video(self.video_connected, VideoCommand::Append(*url)));
        r
    }

    /// Seeks the audio engine by `amount` seconds.
    pub fn seek_audio(&self, amount: &String) -> (r: Vec<EngineCommand>)
        ensures
            r@ == seq![EngineCommand::SeekAudio(*amount)],
    {
        let r = vec![EngineCommand::SeekAudio(amount.clone())];
        assert(r@ =~= seq![EngineCommand::SeekAudio(*amount)]);
        r
    }

    /// Flips the audio engine's loop option given its queried value: `no`
    /// becomes `inf`, anything else becomes `no`; nothing when the query failed.
    pub fn toggle_loop_audio(&self, loop_value: Option<&str>) -> (r: Vec<EngineCommand>)
        ensures
            loop_value is None ==> r@.len() == 0,
            loop_value is Some ==> r@.len() == 1 && r@[0] is SetAudioLoop && (
            r@[0]->SetAudioLoop_0)@ == (if loop_value->0@ == "no"@ {
                "inf"@
            } else {
                "no"@
            }),
    {
        let mut r: Vec<EngineCommand> = Vec::new();
        match loop_value {
            Some(v) => {
                if str_eq(v, "no") {
                    r.push(EngineCommand::SetAudioLoop(String::from_str("inf")));
                } else {
                    r.push(EngineCommand::SetAudioLoop(String::from_str("no")));
                }
            },
            None => {},
        }
        r
    }

    /// The status line, from the audio engine's idle, pause and loop
    /// properties (`None` where a query failed).
    pub fn get_status(idle: Option<&str>, paused: Option<bool>, looped: Option<&str>) -> (r: String)
        ensures
            r@ == status_spec(
                match idle {
                    Some(s) => Some(s@),
                    None => None,
                },
                paused,
                match looped {
                    Some(s) => Some(s@),
                    None => None,
                },
            ),
    {
        match idle {
            None => String::from_str("Idle"),
            Some(i) => {
                if str_eq(i, "yes") {
                    String::from_str("Idle")
                } else {
                    match paused {
                        None => String::from_str("Idle"),
                        Some(true) => String::from_str("Paused"),
                        Some(false) => match looped {
                            Some(l) => {
                                if !str_eq(l, "no") {
                                    String::from_str("Playing (Looped)")
                                } else {
                                    String::from_str("Playing ")
                                }
                            },
                            None => String::from_str("Playing "),
                        },
                    }
                }
            },
        }
    }

    /// `elapsed / total` from the engine's playback time and duration.
    pub fn get_time(elapsed: Option<i64>, total: Option<i64>) -> (r: String)
        ensures
            r@ == time_spec(elapsed, total),
    {
        let mut s = time_field_text(elapsed);
        s.append(" / ");
        let t = time_field_text(total);
        s.append(t.as_str());
        s
    }

    /// The position as a percentage: the engine's value when it fits, else 0.
    pub fn get_percent_pos(percent: Option<i64>) -> (r: u16)
        ensures
            r == percent_spec(percent),
    {
        match percent {
            Some(v) => {
                if 0 <= v && v <= 65535 {
                    v as u16
                } else {
                    0
                }
            },
            None => 0,
        }
    }

    /// Whether an event drained from the audio engine starts a new track.
    pub fn audio_changed(event: Option<AudioEvent>) -> (r: bool)
        ensures
            r == (event == Some(AudioEvent::StartFile)),
    {
        match event {
            Some(AudioEvent::StartFile) => true,
            _ => false,
        }
    }

    /// Whether a read from the video socket announces a track change.
    pub fn video_changed(read: Option<&[u8]>) -> (r: bool)
        ensures
            r == video_changed_spec(
                match read {
                    Some(b) => Some(b@),
                    None => None,
                },
            ),
    {
        match read {
            Some(b) => {
                let end_file: [u8; 8] = [101, 110, 100, 45, 102, 105, 108, 101];
                let tracks: [u8; 14] = [
                    116,
                    114,
                    97,
                    99,
                    107,
                    115,
                    45,
                    99,
                    104,
                    97,
                    110,
                    103,
                    101,
                    100,
                ];
                assert(end_file@ =~= end_file_marker());
                assert(tracks@ =~= tracks_changed_marker());
                if find(b, end_file.as_slice()) {
                    false
                } else {
                    find(b, tracks.as_slice())
                }
            },
            None => false,
        }
    }
}

fn time_field_text(t: Option<i64>) -> (r: String)
    ensures
        r@ == time_field(t),
{
    match t {
        Some(s) => clock(s),
        None => {
            proof {
                reveal_strlit("00:00:00");
            }
            let r = String::from_str("00:00:00");
            assert(r@ =~= zero_clock());
            r
        },
    }
}

/// Character-wise equality of two strings.
pub fn str_eq(a: &str, b: &str) -> (r: bool)
    ensures
        r == (a@ == b@),
{
    let n = a.unicode_len();
    if n != b.unicode_len() {
        return false;
    }
    let mut i: usize = 0;
    while i < n
        invariant
            n == a@.len(),
            n == b@.len(),
            i <= n,
            forall|k: int| 0 <= k < i ==> a@[k] == b@[k],
        decreases n - i,
    {
        if a.get_char(i) != b.get_char(i) {
            return false;
        }
        i = i + 1;
    }
    assert(a@ =~= b@);
    true
}

/// The number of connection attempts before the video process counts as
/// unreachable.
pub const CONNECT_ATTEMPTS: u32 = 10;

/// The pause between two connection attempts, in milliseconds.
pub const RETRY_DELAY_MS: u64 = 1000;

/// What to do after a connection attempt.
#[derive(Clone, Copy, Debug, PartialEq, Eq, Structural)]
pub enum ConnectStep {
    Connected,
    RetryAfter(u64),
    GiveUp,
}

/// The bounded retry of connecting to a freshly started video process.
#[derive(Clone, Copy, Debug, PartialEq, Eq, Structural)]
pub struct ConnectRetry {
    pub failures: u32,
    pub max_attempts: u32,
}

impl ConnectRetry {
    pub fn new() -> (r: ConnectRetry)
        ensures
            r == (ConnectRetry { failures: 0, max_attempts: CONNECT_ATTEMPTS }),
    {
        ConnectRetry { failures: 0, max_attempts: CONNECT_ATTEMPTS }
    }

    /// Records an attempt. Success ends the loop; a failure is counted and is
    /// retried after the fixed delay until `max_attempts` failures, then the
    /// loop gives up.
    pub fn record(&mut self, connected: bool) -> (r: ConnectStep)
        ensures
            final(self).max_attempts == old(self).max_attempts,
            connected ==> r == ConnectStep::Connected && final(self).failures == old(
                self,
            ).failures,
            !connected ==> final(self).failures == (if old(self).failures < u32::MAX {
                old(self).failures + 1
            } else {
                old(self).failures as int
            }),
            !connected ==> (r == ConnectStep::GiveUp <==> final(self).failures
                >= old(self).max_attempts),
            !connected ==> (r != ConnectStep::GiveUp ==> r == ConnectStep::RetryAfter(
                RETRY_DELAY_MS,
            )),
    {
        if connected {
            return ConnectStep::Connected;
        }
        if self.failures < u32::MAX {
            self.failures = self.failures + 1;
        }
        if self.failures >= self.max_attempts {
            ConnectStep::GiveUp
        } else {
            ConnectStep::RetryAfter(RETRY_DELAY_MS)
        }
    }
}

/// Stopping everything is idempotent: from any state it leaves no backend and
/// no connection, and stopping again from there changes nothing and only
/// stops the audio engine once more.
pub proof fn lemma_stop_all_idempotent(p: Player)
    ensures
        is_idle(stopped(p)),
        stopped(stopped(p)) == stopped(p),
        stop_all_plan(stopped(p)) == seq![EngineCommand::StopAudio],
        is_idle(p) ==> stopped(p) == p,
{
    assert(stop_all_plan(stopped(p)) =~= seq![EngineCommand::StopAudio]);
}

/// A video start whose process cannot be reached within the retry bound ends
/// in a connection error, and the backend is the one from before the start.
pub proof fn lemma_unreachable_keeps_backend(p: Player)
    ensures
        after_finish(after_play(p, true), true, StartOutcome::Unreachable).1 == Err::<
            (),
            PlayerError,
        >(PlayerError::Connection),
        after_finish(after_play(p, true), true, StartOutcome::Unreachable).0.backend == p.backend,
{
}

/// Playing as video pauses the audio engine before the video process is
/// started or connected to, whatever the state: the pause comes first, the
/// start and the connection last, and nothing resumes audio in between.
pub proof fn lemma_video_play_pauses_audio_first(url: String, connected: bool)
    ensures
        video_plan(url, connected).len() >= 3,
        video_plan(url, connected)[0] == EngineCommand::PauseAudio,
        video_plan(url, connected)[video_plan(url, connected).len() - 2]
            == EngineCommand::SpawnVideo(url),
        video_plan(url, connected).last() == EngineCommand::ConnectVideo,
        forall|i: int|
            0 <= i < video_plan(url, connected).len() ==> #[trigger] video_plan(url, connected)[i]
                != EngineCommand::ResumeAudio,
{
    let p = video_plan(url, connected);
    if connected {
        assert(p =~= seq![
            EngineCommand::PauseAudio,
            EngineCommand::SendVideo(VideoCommand::Stop),
            EngineCommand::DropVideo,
            EngineCommand::SpawnVideo(url),
            EngineCommand::ConnectVideo,
        ]);
    } else {
        assert(p =~= seq![
            EngineCommand::PauseAudio,
            EngineCommand::SpawnVideo(url),
            EngineCommand::ConnectVideo,
        ]);
    }
}

} // verus!
