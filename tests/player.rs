use playback_core::player::{AudioState, Notification, PlayerError};
use playback_core::track::Track;
use rodio::queue::SourcesQueueOutput;
use rodio::Sink;

fn track(path: &str) -> Track {
    Track {
        path: path.to_string(),
        title: format!("{} title", path),
        artist: "Artist".to_string(),
        album: "Album".to_string(),
        duration_seconds: 180,
        cover_art: None,
    }
}

/// A short, silent mono 16-bit PCM WAV file.
fn wav() -> Vec<u8> {
    let samples: u32 = 200;
    let data_len = samples * 2;
    let mut b = Vec::new();
    b.extend_from_slice(b"RIFF");
    b.extend_from_slice(&(36 + data_len).to_le_bytes());
    b.extend_from_slice(b"WAVE");
    b.extend_from_slice(b"fmt ");
    b.extend_from_slice(&16u32.to_le_bytes());
    b.extend_from_slice(&1u16.to_le_bytes());
    b.extend_from_slice(&1u16.to_le_bytes());
    b.extend_from_slice(&8000u32.to_le_bytes());
    b.extend_from_slice(&16000u32.to_le_bytes());
    b.extend_from_slice(&2u16.to_le_bytes());
    b.extend_from_slice(&16u16.to_le_bytes());
    b.extend_from_slice(b"data");
    b.extend_from_slice(&data_len.to_le_bytes());
    b.extend(std::iter::repeat(0u8).take(data_len as usize));
    b
}

fn fresh() -> (AudioState, SourcesQueueOutput) {
    let (sink, out) = Sink::new();
    (AudioState::new(sink), out)
}

/// Plays out whatever the output holds, so that the next load does not wait.
fn drain(out: &mut SourcesQueueOutput) {
    for _ in 0..50_000 {
        out.next();
    }
}

fn paths(ts: &[Track]) -> Vec<String> {
    ts.iter().map(|t| t.path.clone()).collect()
}

#[test]
fn new_state_is_empty() {
    let (s, _out) = fresh();
    assert!(s.get_current_track().is_none());
    assert!(s.queued().is_empty());
    assert!(s.history().is_empty());
    assert_eq!(s.elapsed_seconds(), 0);
}

#[test]
fn queue_skips_in_fifo_order() {
    let (mut s, mut out) = fresh();
    s.queue_add(track("a.mp3"));
    s.queue_add(track("b.mp3"));
    s.queue_add(track("c.mp3"));
    assert!(s.get_current_track().is_none());
    let a = s.queue_skip(Some(wav())).ok().unwrap();
    assert_eq!(a.path, "a.mp3");
    drain(&mut out);
    let b = s.queue_skip(Some(wav())).ok().unwrap();
    assert_eq!(b.path, "b.mp3");
    drain(&mut out);
    let c = s.queue_skip(Some(wav())).ok().unwrap();
    assert_eq!(c.path, "c.mp3");
    drain(&mut out);
    assert_eq!(s.queue_skip(Some(wav())).err(), Some(PlayerError::EmptyQueue));
    assert_eq!(paths(s.history()), vec!["a.mp3", "b.mp3"]);
}

#[test]
fn skip_then_previous_goes_back() {
    let (mut s, mut out) = fresh();
    assert!(s.play_audio(track("a.mp3"), Some(wav())).is_ok());
    drain(&mut out);
    s.queue_add(track("b.mp3"));
    let b = s.queue_skip(Some(wav())).ok().unwrap();
    assert_eq!(b.path, "b.mp3");
    assert_eq!(s.get_current_track().unwrap().path, "b.mp3");
    assert_eq!(paths(s.history()), vec!["a.mp3"]);
    drain(&mut out);
    let a = s.play_previous(Some(wav())).ok().unwrap();
    assert_eq!(a.path, "a.mp3");
    assert_eq!(s.get_current_track().unwrap().path, "a.mp3");
    assert!(s.history().is_empty());
    assert!(s.queued().is_empty());
}

#[test]
fn previous_without_history_fails() {
    let (mut s, _out) = fresh();
    assert_eq!(s.play_previous(Some(wav())).err(), Some(PlayerError::EmptyHistory));
}

#[test]
fn play_clears_queue_and_records_history() {
    let (mut s, mut out) = fresh();
    assert!(s.play_audio(track("a.mp3"), Some(wav())).is_ok());
    s.queue_add(track("x.mp3"));
    drain(&mut out);
    assert!(s.play_audio(track("b.mp3"), Some(wav())).is_ok());
    assert!(s.queued().is_empty());
    assert_eq!(paths(s.history()), vec!["a.mp3"]);
    assert_eq!(s.get_current_track().unwrap().title, "b.mp3 title");
}

#[test]
fn failed_play_leaves_state_clean() {
    let (mut s, mut out) = fresh();
    assert!(s.play_audio(track("a.mp3"), Some(wav())).is_ok());
    s.queue_add(track("q.mp3"));
    drain(&mut out);
    assert_eq!(s.play_audio(track("missing.mp3"), None), Err(PlayerError::IoError));
    assert_eq!(s.get_current_track().unwrap().path, "a.mp3");
    assert_eq!(paths(&s.queued().iter().cloned().collect::<Vec<_>>()), vec!["q.mp3"]);
    assert!(s.history().is_empty());
}

#[test]
fn undecodable_file_is_a_codec_error() {
    let (mut s, _out) = fresh();
    let junk = vec![1u8, 2, 3, 4, 5, 6, 7, 8, 9, 10];
    assert_eq!(s.play_audio(track("junk.mp3"), Some(junk)), Err(PlayerError::CodecError));
    assert!(s.get_current_track().is_none());
}

#[test]
fn failed_skip_keeps_queue() {
    let (mut s, _out) = fresh();
    s.queue_add(track("a.mp3"));
    assert_eq!(s.queue_skip(None).err(), Some(PlayerError::IoError));
    assert_eq!(s.queued().len(), 1);
    assert!(s.get_current_track().is_none());
}

#[test]
fn load_resets_progress() {
    let (mut s, mut out) = fresh();
    assert!(s.play_audio(track("a.mp3"), Some(wav())).is_ok());
    for _ in 0..10 {
        s.tick(false, None);
    }
    assert_eq!(s.elapsed_seconds(), 2);
    s.queue_add(track("b.mp3"));
    drain(&mut out);
    assert!(s.queue_skip(Some(wav())).is_ok());
    assert_eq!(s.elapsed_seconds(), 0);
    for _ in 0..5 {
        s.tick(false, None);
    }
    assert_eq!(s.elapsed_seconds(), 1);
    drain(&mut out);
    assert!(s.play_previous(Some(wav())).is_ok());
    assert_eq!(s.elapsed_seconds(), 0);
}

#[test]
fn progress_counts_whole_seconds() {
    let (mut s, _out) = fresh();
    assert!(s.play_audio(track("a.mp3"), Some(wav())).is_ok());
    for i in 1..=4 {
        match s.tick(false, None) {
            Notification::Progress { elapsed_seconds, duration_seconds } => {
                assert_eq!(elapsed_seconds, 0, "tick {}", i);
                assert_eq!(duration_seconds, 180);
            }
            _ => panic!("expected progress"),
        }
    }
    match s.tick(false, None) {
        Notification::Progress { elapsed_seconds, duration_seconds } => {
            assert_eq!(elapsed_seconds, 1);
            assert_eq!(duration_seconds, 180);
        }
        _ => panic!("expected progress"),
    }
}

#[test]
fn tick_advances_when_output_is_empty() {
    let (mut s, _out) = fresh();
    s.queue_add(track("x.mp3"));
    match s.tick(true, Some(wav())) {
        Notification::AutoplayAdvanced(t) => assert_eq!(t.path, "x.mp3"),
        _ => panic!("expected an advance"),
    }
    assert_eq!(s.get_current_track().unwrap().path, "x.mp3");
    assert!(s.queued().is_empty());
    assert_eq!(s.elapsed_seconds(), 0);
}

#[test]
fn tick_reports_end_once() {
    let (mut s, _out) = fresh();
    assert!(matches!(s.tick(true, None), Notification::PlaybackEnded));
    assert!(matches!(s.tick(true, None), Notification::Idle));
    assert!(matches!(s.tick(true, None), Notification::Idle));
}

#[test]
fn failed_advance_rearms_end_report() {
    let (mut s, _out) = fresh();
    assert!(matches!(s.tick(true, None), Notification::PlaybackEnded));
    assert!(matches!(s.tick(true, None), Notification::Idle));
    s.queue_add(track("gone.mp3"));
    assert!(matches!(s.tick(true, None), Notification::AdvanceFailed(_, PlayerError::IoError)));
    assert!(matches!(s.tick(true, None), Notification::PlaybackEnded));
}

#[test]
fn load_clears_pause() {
    let (mut s, mut out) = fresh();
    assert!(!s.is_audio_paused());
    assert!(s.play_audio(track("a.mp3"), Some(wav())).is_ok());
    s.pause_audio();
    assert!(s.is_audio_paused());
    s.queue_add(track("b.mp3"));
    s.resume_audio();
    drain(&mut out);
    assert!(s.queue_skip(Some(wav())).is_ok());
    assert!(!s.is_audio_paused());
}

#[test]
fn tick_drops_unloadable_front() {
    let (mut s, _out) = fresh();
    s.queue_add(track("gone.mp3"));
    s.queue_add(track("next.mp3"));
    match s.tick(true, None) {
        Notification::AdvanceFailed(t, e) => {
            assert_eq!(t.path, "gone.mp3");
            assert_eq!(e, PlayerError::IoError);
        }
        _ => panic!("expected a failed advance"),
    }
    assert!(s.get_current_track().is_none());
    assert_eq!(s.up_next().unwrap().path, "next.mp3");
}

#[test]
fn queue_never_holds_current() {
    let (mut s, mut out) = fresh();
    s.queue_add(track("a.mp3"));
    s.queue_add(track("b.mp3"));
    assert!(s.queue_skip(Some(wav())).is_ok());
    let cur = s.get_current_track().unwrap();
    assert!(s.queued().iter().all(|t| !t.same_path(&cur)));
    drain(&mut out);
    assert!(matches!(s.tick(true, Some(wav())), Notification::AutoplayAdvanced(_)));
    let cur = s.get_current_track().unwrap();
    assert!(s.queued().iter().all(|t| !t.same_path(&cur)));
}

#[test]
fn up_next_and_previous_track() {
    let (mut s, mut out) = fresh();
    assert!(s.up_next().is_none());
    assert!(s.previous_track().is_none());
    assert!(s.play_audio(track("a.mp3"), Some(wav())).is_ok());
    s.queue_add(track("b.mp3"));
    assert_eq!(s.up_next().unwrap().path, "b.mp3");
    drain(&mut out);
    assert!(s.queue_skip(Some(wav())).is_ok());
    assert_eq!(s.previous_track().unwrap().path, "a.mp3");
}

#[test]
fn pause_and_resume() {
    let (mut s, _out) = fresh();
    assert!(s.play_audio(track("a.mp3"), Some(wav())).is_ok());
    assert!(!s.is_audio_paused());
    s.pause_audio();
    assert!(s.is_audio_paused());
    assert_eq!(s.get_current_track().unwrap().path, "a.mp3");
    s.resume_audio();
    assert!(!s.is_audio_paused());
    assert!(!s.device_is_empty());
}

#[test]
fn track_clone_and_identity() {
    let a = track("a.mp3");
    let mut b = a.clone();
    assert_eq!(b.path, a.path);
    assert_eq!(b.title, a.title);
    b.title = "other".to_string();
    assert!(a.same_path(&b));
    assert!(!a.same_path(&track("c.mp3")));
}
