//! The playback engine's state machine.
//!
//! One engine iteration drains at most one pending command, then performs one
//! unit of work for the current state.  The functions here make every decision;
//! the host program performs the outside work (reading packets, decoding,
//! touching the device) and hands the results back as plain values.

use vstd::prelude::*;

verus! {

/// Volume gain is measured in permille of unity: `VOLUME_UNITY` leaves
/// samples unchanged.
pub const VOLUME_UNITY: u32 = 1000;

/// A command sent by the controller to the engine.
#[derive(Clone, PartialEq, Eq, Debug)]
pub enum AudioCommand {
    Stop,
    Play,
    Pause,
    Seek(u64),
    LoadFile(String),
    Select(usize),
    SetVolume(u32),
}

/// A status event emitted by the engine for the controller.
#[derive(Clone, PartialEq, Eq, Debug)]
pub enum UiCommand {
    AudioFinished,
    TotalTrackDuration(u64),
    CurrentTimestamp(u64),
    PlaybackStateChanged(bool),
}

/// The engine's state.  `LoadFile` and `SeekTo` are transient: they resolve
/// within the same iteration into `Playing`.
#[derive(Clone, PartialEq, Eq, Debug)]
pub enum PlayerState {
    Unstarted,
    Stopped,
    Playing,
    Paused,
    LoadFile(String),
    SeekTo(u64),
}

/// The live session: the selected track, the achieved seek offset below which
/// decoded packets are not rendered, and the track's total duration in ticks.
#[derive(Clone, Copy, PartialEq, Eq, Structural, Debug)]
pub struct Session {
    pub track_id: u32,
    pub seek_ts: u64,
    pub duration: u64,
}

/// The output sink's negotiated format.
#[derive(Clone, Copy, PartialEq, Eq, Structural, Debug)]
pub struct SinkFormat {
    pub channels: u32,
    pub rate: u32,
}

/// The playback engine.  All fields are plain values; the host owns the
/// demuxer, decoder and device handles and keeps them in step with this
/// state by following the decisions the methods return.
pub struct Engine {
    pub state: PlayerState,
    /// Current gain in permille of unity.
    pub volume: u32,
    /// An explicitly selected track index, if the controller gave one.
    pub track_num: Option<usize>,
    /// The path of the currently loaded track, if any.
    pub current_track_path: Option<String>,
    /// The live track session, if any.
    pub session: Option<Session>,
    /// The open output sink's format, if a sink is open.
    pub sink: Option<SinkFormat>,
    /// How many sinks have ever been opened.
    pub sinks_opened: u64,
    /// The last timestamp reported to the controller.
    pub last_ts: u64,
}

/// What applying one command does to the engine: the exact successor value.
///
/// `Stop` acts only on `Playing`/`Paused`; issued with no running playback it
/// is a no-op, so stopping an `Unstarted` engine leaves it `Unstarted`.
/// `Pause` toggles between `Playing` and `Paused`.  `Play` and `Seek` act only
/// once a track is loaded.
pub open spec fn engine_after_command(pre: Engine, cmd: AudioCommand) -> Engine {
    match cmd {
        AudioCommand::Stop => {
            if pre.state is Playing || pre.state is Paused {
                Engine { state: PlayerState::Stopped, ..pre }
            } else {
                pre
            }
        },
        AudioCommand::Play => {
            if pre.session is Some {
                Engine { state: PlayerState::Playing, ..pre }
            } else {
                pre
            }
        },
        AudioCommand::Pause => {
            match pre.state {
                PlayerState::Playing => Engine { state: PlayerState::Paused, ..pre },
                PlayerState::Paused => Engine { state: PlayerState::Playing, ..pre },
                _ => pre,
            }
        },
        AudioCommand::Seek(ts) => {
            if pre.current_track_path is Some {
                Engine { state: PlayerState::SeekTo(ts), ..pre }
            } else {
                pre
            }
        },
        AudioCommand::LoadFile(path) => Engine { state: PlayerState::LoadFile(path), ..pre },
        AudioCommand::Select(idx) => Engine { track_num: Some(idx), ..pre },
        AudioCommand::SetVolume(vol) => Engine { volume: vol, ..pre },
    }
}

impl Engine {
    /// A fresh engine: unstarted, unity gain, nothing loaded, no sink.
    pub fn new() -> (e: Engine)
        ensures
            e.state is Unstarted,
            e.volume == VOLUME_UNITY,
            e.track_num is None,
            e.current_track_path is None,
            e.session is None,
            e.sink is None,
            e.sinks_opened == 0,
            e.last_ts == 0,
    {
        Engine {
            state: PlayerState::Unstarted,
            volume: VOLUME_UNITY,
            track_num: None,
            current_track_path: None,
            session: None,
            sink: None,
            sinks_opened: 0,
            last_ts: 0,
        }
    }

    /// Apply one pending command, as the engine does at the top of each
    /// iteration.
    pub fn apply_command(&mut self, cmd: AudioCommand)
        ensures
            *final(self) == engine_after_command(*old(self), cmd),
    {
        match cmd {
            AudioCommand::Stop => {
                match self.state {
                    PlayerState::Playing | PlayerState::Paused => {
                        self.state = PlayerState::Stopped;
                    },
                    _ => {},
                }
            },
            AudioCommand::Play => {
                if self.session.is_some() {
                    self.state = PlayerState::Playing;
                }
            },
            AudioCommand::Pause => {
                match self.state {
                    PlayerState::Playing => {
                        self.state = PlayerState::Paused;
                    },
                    PlayerState::Paused => {
                        self.state = PlayerState::Playing;
                    },
                    _ => {},
                }
            },
            AudioCommand::Seek(ts) => {
                if self.current_track_path.is_some() {
                    self.state = PlayerState::SeekTo(ts);
                }
            },
            AudioCommand::LoadFile(path) => {
                self.state = PlayerState::LoadFile(path);
            },
            AudioCommand::Select(idx) => {
                self.track_num = Some(idx);
            },
            AudioCommand::SetVolume(vol) => {
                self.volume = vol;
            },
        }
    }
}

/// Is a position report due?  Updates go to the controller at most once per
/// second, and only when the timestamp moved forward by more than a second or
/// moved backwards.
pub open spec fn position_update_due(elapsed_ms: u64, ts: u64, last_ts: u64) -> bool {
    elapsed_ms > 1000 && (ts > last_ts + 1000 || ts < last_ts)
}

/// The sink after one decoded buffer: the first buffer of a session opens the
/// sink with that buffer's format; later buffers keep the sink as it is.
pub open spec fn sink_after_decode(pre: Option<SinkFormat>, format: SinkFormat) -> Option<
    SinkFormat,
> {
    match pre {
        Some(f) => Some(f),
        None => Some(format),
    }
}

/// How many sinks have been opened after one decoded buffer.
pub open spec fn opens_after_decode(opened: u64, pre: Option<SinkFormat>) -> int {
    opened + if pre is Some {
        0int
    } else {
        1int
    }
}

impl Engine {
    /// Resolve a pending `LoadFile` state.  The host has retired the old
    /// session, flushed and dropped the sink, and tried to open the new one;
    /// `loaded` is the session it got, or `None` when the input was
    /// unreadable or unsupported.
    ///
    /// On success the engine remembers the path, installs the session, emits
    /// the track's total duration and starts playing.  On failure no session
    /// is established and the engine settles back into `Unstarted`, idle.
    pub fn step_loaded(&mut self, loaded: Option<Session>) -> (out: Vec<UiCommand>)
        requires
            old(self).state is LoadFile,
        ensures
            final(self).current_track_path matches Some(p) && p@ == old(self).state->LoadFile_0@,
            final(self).sink is None,
            final(self).session == loaded,
            final(self).volume == old(self).volume,
            final(self).track_num == old(self).track_num,
            final(self).sinks_opened == old(self).sinks_opened,
            final(self).last_ts == old(self).last_ts,
            match loaded {
                Some(sess) => final(self).state is Playing && out@ == seq![
                    UiCommand::TotalTrackDuration(sess.duration),
                ],
                None => final(self).state is Unstarted && out@ == Seq::<UiCommand>::empty(),
            },
    {
        let path = match &self.state {
            PlayerState::LoadFile(p) => p.clone(),
            _ => String::new(),
        };
        self.current_track_path = Some(path);
        self.sink = None;
        self.session = loaded;
        match loaded {
            Some(sess) => {
                self.state = PlayerState::Playing;
                let mut out: Vec<UiCommand> = Vec::new();
                out.push(UiCommand::TotalTrackDuration(sess.duration));
                out
            },
            None => {
                self.state = PlayerState::Unstarted;
                Vec::new()
            },
        }
    }

    /// Resolve a pending `SeekTo` state.  The host has flushed and dropped
    /// the sink and reloaded the current file at the requested timestamp;
    /// `loaded` is the new session (its `seek_ts` is the achieved offset).
    ///
    /// On success the engine starts playing again and tells the controller
    /// that playback resumed.  With nothing loaded, or on a reload failure,
    /// the engine settles into `Unstarted`.
    pub fn step_seek(&mut self, loaded: Option<Session>) -> (out: Vec<UiCommand>)
        requires
            old(self).state is SeekTo,
        ensures
            final(self).sink is None,
            final(self).current_track_path == old(self).current_track_path,
            final(self).volume == old(self).volume,
            final(self).track_num == old(self).track_num,
            final(self).sinks_opened == old(self).sinks_opened,
            final(self).last_ts == old(self).last_ts,
            match loaded {
                Some(sess) => {
                    &&& old(self).current_track_path is Some ==> {
                        &&& final(self).state is Playing
                        &&& final(self).session == Some(sess)
                        &&& out@ == seq![UiCommand::PlaybackStateChanged(true)]
                    }
                    &&& old(self).current_track_path is None ==> {
                        &&& final(self).state is Unstarted
                        &&& final(self).session == old(self).session
                        &&& out@ == Seq::<UiCommand>::empty()
                    }
                },
                None => final(self).state is Unstarted && final(self).session is None && out@
                    == Seq::<UiCommand>::empty(),
            },
    {
        self.sink = None;
        match loaded {
            Some(sess) => {
                if self.current_track_path.is_some() {
                    self.session = Some(sess);
                    self.state = PlayerState::Playing;
                    let mut out: Vec<UiCommand> = Vec::new();
                    out.push(UiCommand::PlaybackStateChanged(true));
                    out
                } else {
                    self.state = PlayerState::Unstarted;
                    Vec::new()
                }
            },
            None => {
                self.session = None;
                self.state = PlayerState::Unstarted;
                Vec::new()
            },
        }
    }

    /// Resolve the `Stopped` state.  The host has flushed the sink, finalized
    /// the decoder, and — when a track is loaded — reloaded it at offset zero
    /// so the next `Play` starts clean; `reloaded` is that fresh session.
    /// The engine reports position zero and settles into `Unstarted`.
    pub fn step_stopped(&mut self, reloaded: Option<Session>) -> (out: Vec<UiCommand>)
        requires
            old(self).state is Stopped,
        ensures
            final(self).state is Unstarted,
            final(self).sink is None,
            final(self).current_track_path == old(self).current_track_path,
            final(self).volume == old(self).volume,
            final(self).track_num == old(self).track_num,
            final(self).sinks_opened == old(self).sinks_opened,
            final(self).last_ts == old(self).last_ts,
            old(self).current_track_path is Some ==> final(self).session == reloaded && out@
                == seq![UiCommand::CurrentTimestamp(0)],
            old(self).current_track_path is None ==> final(self).session == old(self).session
                && out@ == Seq::<UiCommand>::empty(),
    {
        self.sink = None;
        if self.current_track_path.is_some() {
            self.session = reloaded;
            self.state = PlayerState::Unstarted;
            let mut out: Vec<UiCommand> = Vec::new();
            out.push(UiCommand::CurrentTimestamp(0));
            out
        } else {
            self.state = PlayerState::Unstarted;
            Vec::new()
        }
    }

    /// Decide what to do with the next packet while playing, before decoding.
    ///
    /// Returns whether the packet belongs to the selected track (and is
    /// therefore to be decoded; packets of other tracks are skipped), and a
    /// rate-limited position report when one is due.  `elapsed_ms` is the
    /// time since the last report was sent.
    pub fn on_packet(&mut self, track_id: u32, ts: u64, elapsed_ms: u64) -> (r: (
        bool,
        Option<UiCommand>,
    ))
        requires
            old(self).state is Playing,
            old(self).session is Some,
        ensures
            r.0 == (track_id == old(self).session->Some_0.track_id),
            ({
                let due = r.0 && position_update_due(elapsed_ms, ts, old(self).last_ts);
                &&& r.1 == if due {
                    Some(UiCommand::CurrentTimestamp(ts))
                } else {
                    None::<UiCommand>
                }
                &&& *final(self) == Engine {
                    last_ts: if due {
                        ts
                    } else {
                        old(self).last_ts
                    },
                    ..*old(self)
                }
            }),
    {
        let sess = match &self.session {
            Some(s) => *s,
            None => Session { track_id: 0, seek_ts: 0, duration: 0 },
        };
        if track_id != sess.track_id {
            return (false, None);
        }
        let moved = (ts > self.last_ts && ts - self.last_ts > 1000) || ts < self.last_ts;
        if elapsed_ms > 1000 && moved {
            self.last_ts = ts;
            (true, Some(UiCommand::CurrentTimestamp(ts)))
        } else {
            (true, None)
        }
    }

    /// Account for one successfully decoded buffer while playing.
    ///
    /// The first decoded buffer of a session opens the output sink with
    /// exactly that buffer's format; later buffers leave the sink alone.
    /// The buffer is rendered if and only if its timestamp has reached the
    /// session's trim threshold (the achieved seek offset, zero when not
    /// seeking), so everything rendered after a seek lies at or past it.
    pub fn on_decoded(&mut self, format: SinkFormat, ts: u64) -> (render: bool)
        requires
            old(self).state is Playing,
            old(self).session is Some,
            old(self).sinks_opened < u64::MAX,
        ensures
            final(self).sink == sink_after_decode(old(self).sink, format),
            final(self).sinks_opened == opens_after_decode(
                old(self).sinks_opened,
                old(self).sink,
            ),
            render == (ts >= old(self).session->Some_0.seek_ts),
            *final(self) == (Engine {
                sink: final(self).sink,
                sinks_opened: final(self).sinks_opened,
                ..*old(self)
            }),
    {
        if self.sink.is_none() {
            self.sink = Some(format);
            self.sinks_opened = self.sinks_opened + 1;
        }
        let sess = match &self.session {
            Some(s) => *s,
            None => Session { track_id: 0, seek_ts: 0, duration: 0 },
        };
        ts >= sess.seek_ts
    }

    /// The demuxer reported the end of the stream: not an error, but the one
    /// normal termination signal.  The engine stops and tells the controller
    /// the track finished — exactly once, since the state leaves `Playing`.
    pub fn on_end_of_stream(&mut self) -> (ev: UiCommand)
        requires
            old(self).state is Playing,
        ensures
            ev == UiCommand::AudioFinished,
            *final(self) == (Engine { state: PlayerState::Stopped, ..*old(self) }),
    {
        self.state = PlayerState::Stopped;
        UiCommand::AudioFinished
    }
}

/// One session opens exactly one sink, and the sink's negotiated format is
/// the format of the session's first decoded buffer: the first decode after a
/// load opens it, and every later decode of the session keeps both the sink
/// and the count of opened sinks unchanged.
pub proof fn lemma_one_sink_per_session(opened: u64, first: SinkFormat, later: SinkFormat)
    requires
        opened < u64::MAX,
    ensures
        sink_after_decode(None, first) == Some(first),
        opens_after_decode(opened, None) == opened + 1,
        sink_after_decode(sink_after_decode(None, first), later) == Some(first),
        opens_after_decode((opened + 1) as u64, sink_after_decode(None, first)) == opened + 1,
{
}

/// Stopping does not disturb an engine that has nothing running: issued while
/// `Unstarted` (or already `Stopped`), `Stop` leaves the engine exactly as it
/// was.
pub proof fn lemma_stop_without_playback_is_noop(e: Engine)
    requires
        e.state is Unstarted || e.state is Stopped,
    ensures
        engine_after_command(e, AudioCommand::Stop) == e,
{
}

/// Pausing twice from `Playing` returns to `Playing`: `Pause` is a toggle,
/// and it touches nothing but the state.
pub proof fn lemma_pause_is_a_toggle(e: Engine)
    requires
        e.state is Playing,
    ensures
        engine_after_command(e, AudioCommand::Pause).state is Paused,
        engine_after_command(engine_after_command(e, AudioCommand::Pause), AudioCommand::Pause)
            == e,
{
}

} // verus!
