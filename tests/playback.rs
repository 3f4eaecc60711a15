use vidtui::player::{
    ipc_line, video_process_args, ConnectRetry, ConnectStep, EngineCommand, PlaybackBackend, Player,
    PlayerError, StartOutcome, VideoCommand, AudioEvent, socket, split_lines,
};

fn url() -> String {
    "https://invidio.us/watch?v=abc".to_string()
}

#[test]
fn stop_all_twice_from_idle() {
    let mut p = Player::new();
    let first = p.stop_all();
    assert_eq!(first, vec![EngineCommand::StopAudio]);
    assert_eq!(p.backend, PlaybackBackend::Idle);
    let second = p.stop_all();
    assert_eq!(second, vec![EngineCommand::StopAudio]);
    assert_eq!(p, Player::new());
}

#[test]
fn stop_all_tears_video_down() {
    let mut p = Player { backend: PlaybackBackend::Video, video_connected: true };
    assert_eq!(
        p.stop_all(),
        vec![EngineCommand::StopAudio, EngineCommand::SendVideo(VideoCommand::Stop), EngineCommand::DropVideo]
    );
    assert_eq!(p, Player { backend: PlaybackBackend::Idle, video_connected: false });
}

#[test]
fn video_play_pauses_audio_first() {
    let mut p = Player::new();
    let cmds = p.play(&url(), false);
    assert_eq!(cmds, vec![EngineCommand::LoadAudio(url()), EngineCommand::ResumeAudio]);
    assert_eq!(p.finish_play(false, StartOutcome::Started), Ok(()));
    assert_eq!(p.backend, PlaybackBackend::Audio);

    let cmds = p.play(&url(), true);
    let pause = cmds.iter().position(|c| *c == EngineCommand::PauseAudio).unwrap();
    let spawn = cmds.iter().position(|c| *c == EngineCommand::SpawnVideo(url())).unwrap();
    let connect = cmds.iter().position(|c| *c == EngineCommand::ConnectVideo).unwrap();
    assert!(pause < spawn && spawn < connect);
    assert_eq!(p.finish_play(true, StartOutcome::Started), Ok(()));
    assert_eq!(p, Player { backend: PlaybackBackend::Video, video_connected: true });

    let cmds = p.play(&url(), true);
    assert_eq!(
        cmds,
        vec![
            EngineCommand::PauseAudio,
            EngineCommand::SendVideo(VideoCommand::Stop),
            EngineCommand::DropVideo,
            EngineCommand::SpawnVideo(url()),
            EngineCommand::ConnectVideo,
        ]
    );
}

#[test]
fn unreachable_video_process() {
    let mut p = Player::new();
    p.play(&url(), false);
    p.finish_play(false, StartOutcome::Started).unwrap();
    let before = p.backend;
    p.play(&url(), true);
    let mut retry = ConnectRetry::new();
    let mut steps = Vec::new();
    loop {
        let step = retry.record(false);
        steps.push(step);
        if step == ConnectStep::GiveUp {
            break;
        }
        assert_eq!(step, ConnectStep::RetryAfter(1000));
    }
    assert_eq!(steps.len(), 10);
    assert_eq!(p.finish_play(true, StartOutcome::Unreachable), Err(PlayerError::Connection));
    assert_eq!(p.backend, before);
    assert!(!p.video_connected);
}

#[test]
fn engine_failure_keeps_state() {
    let mut p = Player { backend: PlaybackBackend::Video, video_connected: true };
    p.play(&url(), false);
    assert_eq!(p.finish_play(false, StartOutcome::EngineFailed), Err(PlayerError::Engine));
    assert_eq!(p, Player { backend: PlaybackBackend::Video, video_connected: true });
}

#[test]
fn connect_succeeds_on_retry() {
    let mut retry = ConnectRetry::new();
    assert_eq!(retry.record(false), ConnectStep::RetryAfter(1000));
    assert_eq!(retry.record(true), ConnectStep::Connected);
    assert_eq!(retry.failures, 1);
}

#[test]
fn toggle_dispatches_to_active_backend() {
    let idle = Player::new();
    assert!(idle.toggle_playback(Some(true)).is_empty());
    let audio = Player { backend: PlaybackBackend::Audio, video_connected: true };
    assert_eq!(
        audio.toggle_playback(Some(true)),
        vec![EngineCommand::SendVideo(VideoCommand::Pause), EngineCommand::ResumeAudio]
    );
    assert_eq!(audio.toggle_playback(Some(false)), vec![EngineCommand::PauseAudio]);
    assert!(audio.toggle_playback(None).is_empty());
    let video = Player { backend: PlaybackBackend::Video, video_connected: true };
    assert_eq!(video.toggle_playback(Some(true)), vec![EngineCommand::SendVideo(VideoCommand::Resume)]);
    assert_eq!(video.toggle_playback(Some(false)), vec![EngineCommand::SendVideo(VideoCommand::Pause)]);
}

#[test]
fn single_engine_commands() {
    let mut p = Player { backend: PlaybackBackend::Video, video_connected: true };
    assert_eq!(p.pause_audio(), vec![EngineCommand::PauseAudio]);
    assert_eq!(p.resume_audio(), vec![EngineCommand::ResumeAudio]);
    assert_eq!(p.stop_audio(), vec![EngineCommand::StopAudio]);
    assert_eq!(p.pause_video(), vec![EngineCommand::SendVideo(VideoCommand::Pause)]);
    assert_eq!(p.seek_audio(&"+10".to_string()), vec![EngineCommand::SeekAudio("+10".to_string())]);
    assert_eq!(p.queue_audio(&url()), vec![EngineCommand::AppendAudio(url())]);
    assert_eq!(p.queue_video(&url()), vec![EngineCommand::SendVideo(VideoCommand::Append(url()))]);
    assert_eq!(p.stop_video(), vec![EngineCommand::SendVideo(VideoCommand::Stop), EngineCommand::DropVideo]);
    assert_eq!(p.backend, PlaybackBackend::Idle);
    assert!(p.stop_video().is_empty());
    assert!(p.pause_video().is_empty());
    assert!(p.queue_video(&url()).is_empty());
}

#[test]
fn loop_toggle() {
    let p = Player::new();
    assert_eq!(p.toggle_loop_audio(Some("no")), vec![EngineCommand::SetAudioLoop("inf".to_string())]);
    assert_eq!(p.toggle_loop_audio(Some("inf")), vec![EngineCommand::SetAudioLoop("no".to_string())]);
    assert!(p.toggle_loop_audio(None).is_empty());
}

#[test]
fn status_text() {
    assert_eq!(Player::get_status(None, Some(false), Some("no")), "Idle");
    assert_eq!(Player::get_status(Some("yes"), Some(false), Some("no")), "Idle");
    assert_eq!(Player::get_status(Some("no"), None, None), "Idle");
    assert_eq!(Player::get_status(Some("no"), Some(true), Some("inf")), "Paused");
    assert_eq!(Player::get_status(Some("no"), Some(false), Some("inf")), "Playing (Looped)");
    assert_eq!(Player::get_status(Some("no"), Some(false), Some("no")), "Playing ");
    assert_eq!(Player::get_status(Some("no"), Some(false), None), "Playing ");
}

#[test]
fn time_and_percent() {
    assert_eq!(Player::get_time(Some(65), Some(3725)), "00:01:05 / 01:02:05");
    assert_eq!(Player::get_time(None, None), "00:00:00 / 00:00:00");
    assert_eq!(Player::get_percent_pos(Some(42)), 42);
    assert_eq!(Player::get_percent_pos(Some(-1)), 0);
    assert_eq!(Player::get_percent_pos(Some(70000)), 0);
    assert_eq!(Player::get_percent_pos(Some(65535)), 65535);
    assert_eq!(Player::get_percent_pos(None), 0);
}

#[test]
fn track_change_edges() {
    assert!(Player::audio_changed(Some(AudioEvent::StartFile)));
    assert!(!Player::audio_changed(Some(AudioEvent::Other)));
    assert!(!Player::audio_changed(None));
    let changed = br#"{"event":"tracks-changed"}"#;
    let ended = br#"{"event":"end-file"}{"event":"tracks-changed"}"#;
    assert!(Player::video_changed(Some(&changed[..])));
    assert!(!Player::video_changed(Some(&ended[..])));
    assert!(!Player::video_changed(Some(&b"{\"event\":\"pause\"}"[..])));
    assert!(!Player::video_changed(Some(&[0u8; 16][..])));
    assert!(!Player::video_changed(Some(&b"tracks-change"[..])));
    assert!(!Player::video_changed(None));
}

#[test]
fn ipc_protocol_lines() {
    assert_eq!(ipc_line(&VideoCommand::Stop), "{ \"command\": [\"stop\"] }\n");
    assert_eq!(ipc_line(&VideoCommand::Pause), "{ \"command\": [\"set_property\", \"pause\", true] }\n");
    assert_eq!(ipc_line(&VideoCommand::Resume), "{ \"command\": [\"set_property\", \"pause\", false] }\n");
    assert_eq!(ipc_line(&VideoCommand::QueryPause), "{ \"command\": [\"get_property\", \"pause\"] }\n");
    assert_eq!(
        ipc_line(&VideoCommand::Append("u".to_string())),
        "{ \"command\": [\"loadfile\", \"u\", \"append-play\"] }\n"
    );
    assert_eq!(
        video_process_args(&url()),
        vec![
            "--input-ipc-server=/tmp/mpvsocket".to_string(),
            "--ytdl-format=bestvideo[height<=?720]+bestaudio/best".to_string(),
            "--no-terminal".to_string(),
            url(),
        ]
    );
    assert_eq!(socket(), "/tmp/mpvsocket");
}

#[test]
fn socket_reads_split_into_lines() {
    let read = b"{\"event\":\"pause\"}\n{\"data\":true,\"request_id\":0,\"error\":\"success\"}\n";
    let lines = split_lines(&read[..]);
    assert_eq!(lines.len(), 3);
    assert_eq!(lines[0], b"{\"event\":\"pause\"}".to_vec());
    assert!(lines[2].is_empty());
    assert_eq!(split_lines(&b""[..]), vec![Vec::<u8>::new()]);
    assert_eq!(split_lines(&b"ab\n\ncd"[..]), vec![b"ab".to_vec(), vec![], b"cd".to_vec()]);
}
