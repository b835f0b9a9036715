//! The shared playback state: the output, the current track, the queue of
//! tracks to play next, the history of superseded tracks and the progress
//! counter, with the commands that change them and the scheduler's tick.
use crate::device::{
    append_decoded, decodes, paused_after, sink_empty, sink_is_paused, sink_pause, sink_play, sink_stop,
    DeviceCall, Output,
};
use crate::track::Track;
use std::collections::VecDeque;
use vstd::prelude::*;

verus! {

/// Scheduler ticks that make up one second of progress.
pub const TICKS_PER_SECOND: u64 = 5;

/// Why a command failed.
#[derive(Clone, Copy, Debug, PartialEq, Eq, Structural)]
pub enum PlayerError {
    /// The track's file could not be read.
    IoError,
    /// The track's file holds no stream that the decoder recognises.
    CodecError,
    /// A skip was asked for with nothing queued.
    EmptyQueue,
    /// A step back was asked for with no history.
    EmptyHistory,
}

/// What one scheduler tick reports to the user interface.
pub enum Notification {
    /// The output ran dry and the front of the queue now plays.
    AutoplayAdvanced(Track),
    /// The output ran dry and the front of the queue could not be loaded;
    /// it was dropped from the queue.
    AdvanceFailed(Track, PlayerError),
    /// The output ran dry with nothing queued.
    PlaybackEnded,
    /// A track is loaded: seconds played so far and its length.
    Progress { elapsed_seconds: u64, duration_seconds: u64 },
    /// Nothing to report: the end of playback was reported already.
    Idle,
}

/// The observable playback state.
pub struct PlayerModel {
    pub current: Option<Track>,
    pub queue: Seq<Track>,
    pub history: Seq<Track>,
    pub elapsed: nat,
    /// Ticks counted towards the next whole second, below `TICKS_PER_SECOND`.
    pub sub_ticks: nat,
    /// Whether the end of playback has been reported since the last load.
    pub ended_reported: bool,
}

/// The bytes handed over for a track, when its file could be read.
pub open spec fn bytes_of(contents: Option<Vec<u8>>) -> Option<Seq<u8>> {
    match contents {
        Some(v) => Some(v@),
        None => None,
    }
}

/// How loading a track's bytes into the output ends.
pub open spec fn load_outcome(contents: Option<Seq<u8>>) -> Result<(), PlayerError> {
    match contents {
        None => Err(PlayerError::IoError),
        Some(b) => if decodes(b) {
            Ok(())
        } else {
            Err(PlayerError::CodecError)
        },
    }
}

/// The calls that loading a track's bytes makes on the output: a stop, and
/// when the bytes decode, the decoded stream and a play.
pub open spec fn load_calls(contents: Option<Seq<u8>>) -> Seq<DeviceCall> {
    match contents {
        Some(b) => if decodes(b) {
            seq![DeviceCall::Stop, DeviceCall::Append(b), DeviceCall::Play]
        } else {
            seq![DeviceCall::Stop]
        },
        None => seq![DeviceCall::Stop],
    }
}

impl PlayerModel {
    /// The state at process start.
    pub open spec fn initial() -> PlayerModel {
        PlayerModel {
            current: None,
            queue: Seq::empty(),
            history: Seq::empty(),
            elapsed: 0,
            sub_ticks: 0,
            ended_reported: false,
        }
    }

    /// The history once the current track, if any, is superseded.
    pub open spec fn superseded(self) -> Seq<Track> {
        match self.current {
            Some(c) => self.history.push(c),
            None => self.history,
        }
    }

    /// `t` has just been loaded: it is current and its progress starts at zero.
    pub open spec fn loaded(self, t: Track, queue: Seq<Track>, history: Seq<Track>) -> PlayerModel {
        PlayerModel {
            current: Some(t),
            queue,
            history,
            elapsed: 0,
            sub_ticks: 0,
            ended_reported: false,
        }
    }

    /// After an explicit play of `t`: the queue is cleared.
    pub open spec fn played(self, t: Track) -> PlayerModel {
        self.loaded(t, Seq::empty(), self.superseded())
    }

    /// After `t` is added at the back of the queue.
    pub open spec fn enqueued(self, t: Track) -> PlayerModel {
        PlayerModel { queue: self.queue.push(t), ..self }
    }

    /// After the front of the queue becomes current (skip or autoplay).
    pub open spec fn skipped(self) -> PlayerModel {
        self.loaded(self.queue[0], self.queue.drop_first(), self.superseded())
    }

    /// After the most recent history entry becomes current again. The
    /// superseded track is not kept: stepping back discards it.
    pub open spec fn went_back(self) -> PlayerModel {
        self.loaded(self.history.last(), self.queue, self.history.drop_last())
    }

    /// After the front of the queue is dropped without being played.
    /// (A tick that drops it also re-arms the end-of-playback report.)
    pub open spec fn dropped_front(self) -> PlayerModel {
        PlayerModel { queue: self.queue.drop_first(), ..self }
    }

    /// After one tick with a track loaded: a whole second is counted once
    /// every `TICKS_PER_SECOND` ticks.
    pub open spec fn counted(self) -> PlayerModel {
        if self.sub_ticks + 1 >= TICKS_PER_SECOND {
            PlayerModel {
                elapsed: if self.elapsed < u64::MAX {
                    self.elapsed + 1
                } else {
                    self.elapsed
                },
                sub_ticks: 0,
                ..self
            }
        } else {
            PlayerModel { sub_ticks: self.sub_ticks + 1, ..self }
        }
    }

    /// Length of the current track, zero when there is none.
    pub open spec fn current_duration(self) -> u64 {
        match self.current {
            Some(t) => t.duration_seconds,
            None => 0,
        }
    }

    /// The state after one scheduler tick and what the tick reports, given
    /// whether the output was empty and how loading the front of the queue
    /// would end.
    pub open spec fn ticked(self, device_empty: bool, outcome: Result<(), PlayerError>) -> (
        PlayerModel,
        Notification,
    ) {
        if device_empty {
            if self.queue.len() > 0 {
                match outcome {
                    Ok(()) => (self.skipped(), Notification::AutoplayAdvanced(self.queue[0])),
                    Err(e) => (
                        PlayerModel { ended_reported: false, ..self.dropped_front() },
                        Notification::AdvanceFailed(self.queue[0], e),
                    ),
                }
            } else if self.ended_reported {
                (self, Notification::Idle)
            } else {
                (PlayerModel { ended_reported: true, ..self }, Notification::PlaybackEnded)
            }
        } else {
            let next = self.counted();
            (
                next,
                Notification::Progress {
                    elapsed_seconds: next.elapsed as u64,
                    duration_seconds: self.current_duration(),
                },
            )
        }
    }
}

/// The playback state of the process. Every command and every tick runs on
/// it as a whole, so callers that share it between threads keep it behind a
/// single lock. The output lives as long as the state does; nothing releases
/// it before the process ends.
pub struct AudioState {
    out: Output,
    current_track: Option<Track>,
    queue: VecDeque<Track>,
    history: Vec<Track>,
    progress: u64,
    sub_ticks: u64,
    ended_reported: bool,
}

impl AudioState {
    /// The observable state.
    pub closed spec fn model(&self) -> PlayerModel {
        PlayerModel {
            current: self.current_track,
            queue: self.queue@,
            history: self.history@,
            elapsed: self.progress as nat,
            sub_ticks: self.sub_ticks as nat,
            ended_reported: self.ended_reported,
        }
    }

    /// The calls made on the output, oldest first.
    pub closed spec fn device(&self) -> Seq<DeviceCall> {
        self.out.calls()
    }

    /// The state is consistent: the output was stopped and started when it
    /// was taken over, and the tick count stays below a second.
    pub closed spec fn wf(&self) -> bool {
        &&& self.out.calls().len() >= 2
        &&& self.out.calls()[0] == DeviceCall::Stop
        &&& self.out.calls()[1] == DeviceCall::Play
        &&& self.sub_ticks < TICKS_PER_SECOND
    }

    /// A fresh state on the given output: nothing played, nothing queued. The
    /// output is stopped and started, so it holds nothing and is not paused.
    /// The sink must feed an output that is playing: rodio's `append` after a
    /// stop waits until the stopped sound has been played out.
    pub fn new(sink: rodio::Sink) -> (s: AudioState)
        ensures
            s.model() == PlayerModel::initial(),
            s.wf(),
            s.device() == seq![DeviceCall::Stop, DeviceCall::Play],
    {
        let mut out = Output::new(sink);
        sink_stop(&mut out);
        sink_play(&mut out);
        let s = AudioState {
            out,
            current_track: None,
            queue: VecDeque::new(),
            history: Vec::new(),
            progress: 0,
            sub_ticks: 0,
            ended_reported: false,
        };
        assert(s.model().queue =~= Seq::<Track>::empty());
        assert(s.model().history =~= Seq::<Track>::empty());
        assert(s.device() =~= seq![DeviceCall::Stop, DeviceCall::Play]);
        s
    }

    /// Stops the output and loads `contents` into it: the bytes of a track's
    /// file, or `None` when the file could not be read.
    fn load(&mut self, contents: Option<Vec<u8>>) -> (r: Result<(), PlayerError>)
        requires
            old(self).wf(),
        ensures
            r == load_outcome(bytes_of(contents)),
            final(self).device() == old(self).device() + load_calls(bytes_of(contents)),
            final(self).model() == old(self).model(),
            final(self).wf(),
    {
        sink_stop(&mut self.out);
        match contents {
            None => Err(PlayerError::IoError),
            Some(bytes) => match append_decoded(&mut self.out, bytes) {
                Ok(()) => {
                    sink_play(&mut self.out);
                    Ok(())
                },
                Err(_) => Err(PlayerError::CodecError),
            },
        }
    }

    /// Makes `track` current after a successful load, moving the old current
    /// track to the history.
    fn make_current(&mut self, track: Track)
        requires
            old(self).wf(),
        ensures
            final(self).wf(),
            final(self).device() == old(self).device(),
            final(self).model() == old(self).model().loaded(
                track,
                old(self).model().queue,
                old(self).model().superseded(),
            ),
    {
        let previous = self.current_track.take();
        match previous {
            Some(p) => self.history.push(p),
            None => {},
        }
        self.current_track = Some(track);
        self.progress = 0;
        self.sub_ticks = 0;
        self.ended_reported = false;
    }

    /// Plays `track` at once, given the bytes of its file (`None` when it
    /// could not be read). On success the queue is cleared, the old current
    /// track goes to the history and progress restarts at zero. On failure
    /// the output is left empty and the state is unchanged.
    pub fn play_audio(&mut self, track: Track, contents: Option<Vec<u8>>) -> (r: Result<(), PlayerError>)
        requires
            old(self).wf(),
        ensures
            final(self).wf(),
            final(self).device() == old(self).device() + load_calls(bytes_of(contents)),
            r == load_outcome(bytes_of(contents)),
            r is Ok ==> final(self).model() == old(self).model().played(track),
            r is Err ==> final(self).model() == old(self).model(),
    {
        let r = self.load(contents);
        if r.is_ok() {
            self.queue.clear();
            self.make_current(track);
        }
        r
    }

    /// Adds `track` at the back of the queue; nothing else changes.
    pub fn queue_add(&mut self, track: Track)
        requires
            old(self).wf(),
        ensures
            final(self).wf(),
            final(self).device() == old(self).device(),
            final(self).model() == old(self).model().enqueued(track),
    {
        self.queue.push_back(track);
    }

    /// The track that a skip or the next autoplay advance would load.
    pub fn up_next(&self) -> (r: Option<Track>)
        ensures
            r == (if self.model().queue.len() > 0 {
                Some(self.model().queue[0])
            } else {
                None
            }),
    {
        if self.queue.len() > 0 {
            Some(self.queue[0].clone())
        } else {
            None
        }
    }

    /// The track that a step back would load.
    pub fn previous_track(&self) -> (r: Option<Track>)
        ensures
            r == (if self.model().history.len() > 0 {
                Some(self.model().history.last())
            } else {
                None
            }),
    {
        let n = self.history.len();
        if n > 0 {
            Some(self.history[n - 1].clone())
        } else {
            None
        }
    }

    /// Plays the front of the queue, given the bytes of its file. On success
    /// it is taken off the queue, the old current track goes to the history
    /// and the new current track is returned. On failure nothing changes.
    pub fn queue_skip(&mut self, contents: Option<Vec<u8>>) -> (r: Result<Track, PlayerError>)
        requires
            old(self).wf(),
        ensures
            final(self).wf(),
            final(self).device() == if old(self).model().queue.len() > 0 {
                old(self).device() + load_calls(bytes_of(contents))
            } else {
                old(self).device()
            },
            old(self).model().queue.len() == 0 ==> r == Err::<Track, PlayerError>(PlayerError::EmptyQueue),
            old(self).model().queue.len() > 0 ==> match r {
                Ok(t) => load_outcome(bytes_of(contents)) is Ok && t == old(self).model().queue[0],
                Err(e) => load_outcome(bytes_of(contents)) == Err::<(), PlayerError>(e),
            },
            r is Ok ==> final(self).model() == old(self).model().skipped(),
            r is Err ==> final(self).model() == old(self).model(),
    {
        if self.queue.len() == 0 {
            return Err(PlayerError::EmptyQueue);
        }
        match self.load(contents) {
            Err(e) => Err(e),
            Ok(()) => {
                let next = self.queue.pop_front();
                match next {
                    Some(t) => {
                        let shown = t.clone();
                        self.make_current(t);
                        Ok(shown)
                    },
                    None => Err(PlayerError::EmptyQueue),
                }
            },
        }
    }

    /// Plays the most recent history entry again, given the bytes of its
    /// file. On success it leaves the history and is returned; the track it
    /// supersedes is discarded, not queued nor kept in the history. On
    /// failure nothing changes.
    pub fn play_previous(&mut self, contents: Option<Vec<u8>>) -> (r: Result<Track, PlayerError>)
        requires
            old(self).wf(),
        ensures
            final(self).wf(),
            final(self).device() == if old(self).model().history.len() > 0 {
                old(self).device() + load_calls(bytes_of(contents))
            } else {
                old(self).device()
            },
            old(self).model().history.len() == 0 ==> r == Err::<Track, PlayerError>(PlayerError::EmptyHistory),
            old(self).model().history.len() > 0 ==> match r {
                Ok(t) => load_outcome(bytes_of(contents)) is Ok && t == old(self).model().history.last(),
                Err(e) => load_outcome(bytes_of(contents)) == Err::<(), PlayerError>(e),
            },
            r is Ok ==> final(self).model() == old(self).model().went_back(),
            r is Err ==> final(self).model() == old(self).model(),
    {
        if self.history.len() == 0 {
            return Err(PlayerError::EmptyHistory);
        }
        match self.load(contents) {
            Err(e) => Err(e),
            Ok(()) => {
                let back = self.history.pop();
                match back {
                    Some(t) => {
                        let shown = t.clone();
                        self.current_track = Some(t);
                        self.progress = 0;
                        self.sub_ticks = 0;
                        self.ended_reported = false;
                        Ok(shown)
                    },
                    None => Err(PlayerError::EmptyHistory),
                }
            },
        }
    }

    /// A copy of the current track, if any.
    pub fn get_current_track(&self) -> (r: Option<Track>)
        ensures
            r == self.model().current,
    {
        match &self.current_track {
            Some(t) => Some(t.clone()),
            None => None,
        }
    }

    /// Suspends the output, keeping its position; the state is unchanged.
    pub fn pause_audio(&mut self)
        requires
            old(self).wf(),
        ensures
            final(self).wf(),
            final(self).model() == old(self).model(),
            final(self).device() == old(self).device().push(DeviceCall::Pause),
    {
        sink_pause(&mut self.out);
    }

    /// Resumes a paused output; the state is unchanged.
    pub fn resume_audio(&mut self)
        requires
            old(self).wf(),
        ensures
            final(self).wf(),
            final(self).model() == old(self).model(),
            final(self).device() == old(self).device().push(DeviceCall::Play),
    {
        sink_play(&mut self.out);
    }

    /// Whether the output is paused: set by the last pause, cleared by the
    /// last play, resume or successful load.
    pub fn is_audio_paused(&self) -> (r: bool)
        requires
            self.wf(),
        ensures
            r == paused_after(false, self.device()),
    {
        assert(self.out.calls()[1] == DeviceCall::Play);
        sink_is_paused(&self.out)
    }

    /// Whether the output has nothing left to play: what a tick is told.
    pub fn device_is_empty(&self) -> bool {
        sink_empty(&self.out)
    }

    /// One scheduler tick. `device_empty` is what the output reported, and
    /// `contents` the bytes of the front of the queue's file, which are
    /// looked at only when the output is empty and something is queued.
    pub fn tick(&mut self, device_empty: bool, contents: Option<Vec<u8>>) -> (n: Notification)
        requires
            old(self).wf(),
        ensures
            final(self).wf(),
            final(self).device() == if device_empty && old(self).model().queue.len() > 0 {
                old(self).device() + load_calls(bytes_of(contents))
            } else {
                old(self).device()
            },
            (final(self).model(), n) == old(self).model().ticked(device_empty, load_outcome(bytes_of(contents))),
    {
        if device_empty {
            if self.queue.len() > 0 {
                match self.load(contents) {
                    Ok(()) => {
                        let next = self.queue.pop_front();
                        match next {
                            Some(t) => {
                                let shown = t.clone();
                                self.make_current(t);
                                Notification::AutoplayAdvanced(shown)
                            },
                            None => Notification::Idle,
                        }
                    },
                    Err(e) => {
                        let next = self.queue.pop_front();
                        self.ended_reported = false;
                        match next {
                            Some(t) => Notification::AdvanceFailed(t, e),
                            None => Notification::Idle,
                        }
                    },
                }
            } else if self.ended_reported {
                Notification::Idle
            } else {
                self.ended_reported = true;
                Notification::PlaybackEnded
            }
        } else {
            if self.sub_ticks >= TICKS_PER_SECOND - 1 {
                if self.progress < u64::MAX {
                    self.progress = self.progress + 1;
                }
                self.sub_ticks = 0;
            } else {
                self.sub_ticks = self.sub_ticks + 1;
            }
            let duration = match &self.current_track {
                Some(t) => t.duration_seconds,
                None => 0,
            };
            Notification::Progress { elapsed_seconds: self.progress, duration_seconds: duration }
        }
    }

    /// The tracks waiting to play, front first.
    pub fn queued(&self) -> (r: &VecDeque<Track>)
        ensures
            r@ == self.model().queue,
    {
        &self.queue
    }

    /// The superseded tracks, most recent last.
    pub fn history(&self) -> (r: &Vec<Track>)
        ensures
            r@ == self.model().history,
    {
        &self.history
    }

    /// Whole seconds played of the current track.
    pub fn elapsed_seconds(&self) -> (r: u64)
        ensures
            r == self.model().elapsed,
    {
        self.progress
    }
}

} // verus!
