//! The controller-side player: what the user's transport buttons do.
//!
//! The player keeps the selected track, the controller's own view of the
//! playback state, the gain, and the playback mode.  Each action returns the
//! commands to send to the engine, in order; the host owns the channel and
//! sends them.

use vstd::prelude::*;
use crate::engine::{AudioCommand, VOLUME_UNITY};
use crate::library::LibraryItem;
use crate::playlist::Playlist;

verus! {

/// How the next track is chosen when one finishes.
#[derive(Clone, Copy, PartialEq, Eq, Structural, Debug)]
pub enum PlaybackMode {
    Normal,
    Repeat,
    RepeatOne,
    Shuffle,
}

/// The controller's view of playback.
#[derive(Clone, Copy, PartialEq, Eq, Structural, Debug)]
pub enum TrackState {
    Unstarted,
    Stopped,
    Playing,
    Paused,
}

impl TrackState {
    /// The state's display label.
    pub fn label(&self) -> (r: &'static str)
        ensures
            self is Unstarted ==> r@ == "Unstarted"@,
            self is Stopped ==> r@ == "Stopped"@,
            self is Playing ==> r@ == "Playing"@,
            self is Paused ==> r@ == "Paused"@,
    {
        match self {
            TrackState::Unstarted => "Unstarted",
            TrackState::Stopped => "Stopped",
            TrackState::Playing => "Playing",
            TrackState::Paused => "Paused",
        }
    }
}

/// Relies on rand::Rng::gen_range over rand::thread_rng, on the range below
/// `n`: the result is a uniformly drawn index below `n`; an empty range is
/// refused by the range bound.  Nothing more is assumed of the value.
#[verifier::external_body]
fn random_below(n: usize) -> (r: usize)
    requires
        n >= 1,
    ensures
        r < n,
{
    rand::Rng::gen_range(&mut rand::thread_rng(), 0..n)
}

/// Is this command a request to load the given file?
pub open spec fn is_load_of(c: AudioCommand, path: Seq<char>) -> bool {
    c matches AudioCommand::LoadFile(p) && p@ == path
}

/// No track of the list lies at this path.
pub open spec fn no_track_at(tracks: Seq<LibraryItem>, path: Seq<char>) -> bool {
    forall|j: int| 0 <= j < tracks.len() ==> (#[trigger] tracks[j]).path@ != path
}

/// The controller-side player.
pub struct Player {
    pub track_state: TrackState,
    pub selected_track: Option<LibraryItem>,
    /// The gain in permille of unity.
    pub volume: u32,
    pub seek_to_timestamp: u64,
    pub duration: u64,
    pub playback_mode: PlaybackMode,
}

impl Player {
    /// A fresh player: nothing selected, unity gain, normal mode.
    pub fn new() -> (r: Player)
        ensures
            r.track_state is Unstarted,
            r.selected_track is None,
            r.volume == VOLUME_UNITY,
            r.seek_to_timestamp == 0,
            r.duration == 0,
            r.playback_mode == PlaybackMode::Normal,
    {
        Player {
            track_state: TrackState::Unstarted,
            selected_track: None,
            volume: VOLUME_UNITY,
            seek_to_timestamp: 0,
            duration: 0,
            playback_mode: PlaybackMode::Normal,
        }
    }

    /// Select a track (or none).  Selecting a track asks the engine to load
    /// its file.
    pub fn select_track(&mut self, track: Option<LibraryItem>) -> (cmd: Option<AudioCommand>)
        ensures
            final(self).selected_track == track,
            *final(self) == (Player { selected_track: final(self).selected_track, ..*old(self) }),
            match track {
                Some(t) => cmd matches Some(c) && is_load_of(c, t.path@),
                None => cmd is None,
            },
    {
        let cmd = match &track {
            Some(t) => Some(AudioCommand::LoadFile(t.path())),
            None => None,
        };
        self.selected_track = track;
        cmd
    }

    pub fn is_stopped(&self) -> (r: bool)
        ensures
            r == (self.track_state is Stopped),
    {
        matches!(self.track_state, TrackState::Stopped)
    }

    /// Ask the engine to seek, and remember where to.
    pub fn seek_to(&mut self, seek_to_timestamp: u64) -> (cmd: AudioCommand)
        ensures
            *final(self) == (Player { seek_to_timestamp, ..*old(self) }),
            cmd == AudioCommand::Seek(seek_to_timestamp),
    {
        self.seek_to_timestamp = seek_to_timestamp;
        AudioCommand::Seek(seek_to_timestamp)
    }

    /// Stop playback.  With nothing playing or paused this is a no-op: the
    /// player is left exactly as it was and nothing is sent.
    pub fn stop(&mut self) -> (cmd: Option<AudioCommand>)
        ensures
            match old(self).track_state {
                TrackState::Playing | TrackState::Paused => {
                    &&& *final(self) == (Player { track_state: TrackState::Stopped, ..*old(self) })
                    &&& cmd == Some(AudioCommand::Stop)
                },
                _ => *final(self) == *old(self) && cmd is None,
            },
    {
        match self.track_state {
            TrackState::Playing | TrackState::Paused => {
                self.track_state = TrackState::Stopped;
                Some(AudioCommand::Stop)
            },
            _ => None,
        }
    }

    /// Start or resume playback of the selected track; with none selected,
    /// nothing happens.
    pub fn play(&mut self) -> (cmd: Option<AudioCommand>)
        ensures
            match old(self).selected_track {
                Some(_) => {
                    &&& *final(self) == (Player { track_state: TrackState::Playing, ..*old(self) })
                    &&& cmd == Some(AudioCommand::Play)
                },
                None => *final(self) == *old(self) && cmd is None,
            },
    {
        if self.selected_track.is_some() {
            self.track_state = TrackState::Playing;
            Some(AudioCommand::Play)
        } else {
            None
        }
    }

    /// Pause toggles: playing becomes paused, paused resumes playing, and
    /// any other state is left alone.
    pub fn pause(&mut self) -> (cmd: Option<AudioCommand>)
        ensures
            match old(self).track_state {
                TrackState::Playing => {
                    &&& *final(self) == (Player { track_state: TrackState::Paused, ..*old(self) })
                    &&& cmd == Some(AudioCommand::Pause)
                },
                TrackState::Paused => {
                    &&& *final(self) == (Player { track_state: TrackState::Playing, ..*old(self) })
                    &&& cmd == Some(AudioCommand::Play)
                },
                _ => *final(self) == *old(self) && cmd is None,
            },
    {
        match self.track_state {
            TrackState::Playing => {
                self.track_state = TrackState::Paused;
                Some(AudioCommand::Pause)
            },
            TrackState::Paused => {
                self.track_state = TrackState::Playing;
                Some(AudioCommand::Play)
            },
            _ => None,
        }
    }

    /// Step to the previous track of the playlist: only when a track is
    /// selected, it sits in the playlist, and a track stands before it.
    pub fn previous(&mut self, playlist: &Playlist) -> (cmds: Vec<AudioCommand>)
        ensures
            final(self).volume == old(self).volume,
            final(self).duration == old(self).duration,
            final(self).playback_mode == old(self).playback_mode,
            final(self).seek_to_timestamp == old(self).seek_to_timestamp,
            match old(self).selected_track {
                None => *final(self) == *old(self) && cmds@.len() == 0,
                Some(sel) => {
                    if (exists|i: int|
                        0 < i < playlist.tracks@.len() && (#[trigger] playlist.tracks@[i])@
                            == sel@ && (forall|j: int|
                            0 <= j < i ==> (#[trigger] playlist.tracks@[j])@ != sel@)) {
                        exists|i: int|
                            {
                                &&& 0 < i < playlist.tracks@.len()
                                &&& (#[trigger] playlist.tracks@[i])@ == sel@
                                &&& forall|j: int|
                                    0 <= j < i ==> (#[trigger] playlist.tracks@[j])@ != sel@
                                &&& final(self).selected_track matches Some(t) && t@
                                    == playlist.tracks@[i - 1]@
                                &&& final(self).track_state is Playing
                                &&& cmds@.len() == 2
                                &&& is_load_of(cmds@[0], playlist.tracks@[i - 1].path@)
                                &&& cmds@[1] == AudioCommand::Play
                            }
                    } else {
                        *final(self) == *old(self) && cmds@.len() == 0
                    }
                },
            },
    {
        let mut cmds: Vec<AudioCommand> = Vec::new();
        let selected = match &self.selected_track {
            Some(t) => t.clone(),
            None => {
                return cmds;
            },
        };
        match playlist.get_pos(&selected) {
            Some(pos) => {
                if pos > 0 {
                    let previous_track = playlist.tracks[pos - 1].clone();
                    let load = self.select_track(Some(previous_track));
                    match load {
                        Some(c) => cmds.push(c),
                        None => {},
                    }
                    match self.play() {
                        Some(c) => cmds.push(c),
                        None => {},
                    }
                }
            },
            None => {},
        }
        cmds
    }

    /// Step to the next track, by the playback mode: the following track in
    /// normal mode (nothing after the last), wrapping around in repeat mode,
    /// the same track again from the start in repeat-one, and a random other
    /// track in shuffle.
    pub fn next(&mut self, playlist: &Playlist) -> (cmds: Vec<AudioCommand>)
        ensures
            final(self).volume == old(self).volume,
            final(self).duration == old(self).duration,
            final(self).playback_mode == old(self).playback_mode,
            match old(self).selected_track {
                None => *final(self) == *old(self) && cmds@.len() == 0,
                Some(sel) => {
                    if (exists|i: int|
                        0 <= i < playlist.tracks@.len() && (#[trigger] playlist.tracks@[i])@
                            == sel@ && (forall|j: int|
                            0 <= j < i ==> (#[trigger] playlist.tracks@[j])@ != sel@)) {
                        exists|i: int|
                            {
                                &&& 0 <= i < playlist.tracks@.len()
                                &&& (#[trigger] playlist.tracks@[i])@ == sel@
                                &&& forall|j: int|
                                    0 <= j < i ==> (#[trigger] playlist.tracks@[j])@ != sel@
                                &&& next_outcome(
                                    *old(self),
                                    *final(self),
                                    cmds@,
                                    playlist.tracks@,
                                    i,
                                )
                            }
                    } else {
                        *final(self) == *old(self) && cmds@.len() == 0
                    }
                },
            },
    {
        let mut cmds: Vec<AudioCommand> = Vec::new();
        let selected = match &self.selected_track {
            Some(t) => t.clone(),
            None => {
                return cmds;
            },
        };
        let pos = match playlist.get_pos(&selected) {
            Some(p) => p,
            None => {
                return cmds;
            },
        };
        match self.playback_mode {
            PlaybackMode::Normal => {
                if pos < playlist.tracks.len() - 1 {
                    let next_track = playlist.tracks[pos + 1].clone();
                    match self.select_track(Some(next_track)) {
                        Some(c) => cmds.push(c),
                        None => {},
                    }
                    match self.play() {
                        Some(c) => cmds.push(c),
                        None => {},
                    }
                }
            },
            PlaybackMode::Repeat => {
                let n = playlist.tracks.len();
                let next_position = if pos + 1 < n {
                    pos + 1
                } else {
                    0
                };
                let next_track = playlist.tracks[next_position].clone();
                match self.select_track(Some(next_track)) {
                    Some(c) => cmds.push(c),
                    None => {},
                }
                match self.play() {
                    Some(c) => cmds.push(c),
                    None => {},
                }
            },
            PlaybackMode::RepeatOne => {
                let seek = self.seek_to(0);
                cmds.push(seek);
                match self.play() {
                    Some(c) => cmds.push(c),
                    None => {},
                }
            },
            PlaybackMode::Shuffle => {
                if playlist.tracks.len() > 1 {
                    let draw = random_below(playlist.tracks.len() - 1);
                    let next_index = if draw < pos {
                        draw
                    } else {
                        draw + 1
                    };
                    let next_track = playlist.tracks[next_index].clone();
                    match self.select_track(Some(next_track)) {
                        Some(c) => cmds.push(c),
                        None => {},
                    }
                    match self.play() {
                        Some(c) => cmds.push(c),
                        None => {},
                    }
                }
            },
        }
        cmds
    }

    /// Set the gain and tell the engine.
    pub fn set_volume(&mut self, volume: u32) -> (cmd: AudioCommand)
        ensures
            *final(self) == (Player { volume, ..*old(self) }),
            cmd == AudioCommand::SetVolume(volume),
    {
        self.volume = volume;
        AudioCommand::SetVolume(volume)
    }

    pub fn set_seek_to_timestamp(&mut self, seek_to_timestamp: u64)
        ensures
            *final(self) == (Player { seek_to_timestamp, ..*old(self) }),
    {
        self.seek_to_timestamp = seek_to_timestamp;
    }

    pub fn set_duration(&mut self, duration: u64)
        ensures
            *final(self) == (Player { duration, ..*old(self) }),
    {
        self.duration = duration;
    }

    /// Cycle the playback mode: normal, repeat, repeat-one, shuffle, and
    /// around again.
    pub fn toggle_playback_mode(&mut self)
        ensures
            final(self).playback_mode == (match old(self).playback_mode {
                PlaybackMode::Normal => PlaybackMode::Repeat,
                PlaybackMode::Repeat => PlaybackMode::RepeatOne,
                PlaybackMode::RepeatOne => PlaybackMode::Shuffle,
                PlaybackMode::Shuffle => PlaybackMode::Normal,
            }),
            *final(self) == (Player { playback_mode: final(self).playback_mode, ..*old(self) }),
    {
        self.playback_mode = match self.playback_mode {
            PlaybackMode::Normal => PlaybackMode::Repeat,
            PlaybackMode::Repeat => PlaybackMode::RepeatOne,
            PlaybackMode::RepeatOne => PlaybackMode::Shuffle,
            PlaybackMode::Shuffle => PlaybackMode::Normal,
        };
    }
}

/// What stepping to the next track does, given the first row `i` holding the
/// selected track.
pub open spec fn next_outcome(
    pre: Player,
    post: Player,
    cmds: Seq<AudioCommand>,
    tracks: Seq<LibraryItem>,
    i: int,
) -> bool {
    match pre.playback_mode {
        PlaybackMode::Normal => {
            if i < tracks.len() - 1 {
                &&& post.selected_track matches Some(t) && t@ == tracks[i + 1]@
                &&& post.track_state is Playing
                &&& post.seek_to_timestamp == pre.seek_to_timestamp
                &&& cmds.len() == 2
                &&& is_load_of(cmds[0], tracks[i + 1].path@)
                &&& cmds[1] == AudioCommand::Play
            } else {
                post == pre && cmds.len() == 0
            }
        },
        PlaybackMode::Repeat => {
            let n = if i + 1 < tracks.len() {
                i + 1
            } else {
                0
            };
            &&& post.selected_track matches Some(t) && t@ == tracks[n]@
            &&& post.track_state is Playing
            &&& post.seek_to_timestamp == pre.seek_to_timestamp
            &&& cmds.len() == 2
            &&& is_load_of(cmds[0], tracks[n].path@)
            &&& cmds[1] == AudioCommand::Play
        },
        PlaybackMode::RepeatOne => {
            &&& post.selected_track == pre.selected_track
            &&& post.track_state is Playing
            &&& post.seek_to_timestamp == 0
            &&& cmds.len() == 2
            &&& cmds[0] == AudioCommand::Seek(0)
            &&& cmds[1] == AudioCommand::Play
        },
        PlaybackMode::Shuffle => {
            if tracks.len() > 1 {
                exists|n: int|
                    {
                        &&& 0 <= n < tracks.len()
                        &&& n != i
                        &&& post.selected_track matches Some(t) && t@ == (#[trigger] tracks[n])@
                        &&& post.track_state is Playing
                        &&& post.seek_to_timestamp == pre.seek_to_timestamp
                        &&& cmds.len() == 2
                        &&& is_load_of(cmds[0], tracks[n].path@)
                        &&& cmds[1] == AudioCommand::Play
                    }
            } else {
                post == pre && cmds.len() == 0
            }
        },
    }
}

/// Put the player back the way a previous run left it: restore the gain and
/// playback mode, re-select the remembered track when the playlist still
/// holds its path, seek back to the remembered position, and resume playing
/// when playback was running — each step sending its command, in that order.
pub fn restore_player_state(
    player: &mut Player,
    playlist: &Playlist,
    last_track_path: Option<String>,
    last_position: Option<u64>,
    last_playback_mode: Option<PlaybackMode>,
    last_volume: Option<u32>,
    was_playing: Option<bool>,
) -> (cmds: Vec<AudioCommand>)
    ensures
        final(player).volume == (match last_volume {
            Some(v) => v,
            None => old(player).volume,
        }),
        final(player).playback_mode == (match last_playback_mode {
            Some(m) => m,
            None => old(player).playback_mode,
        }),
        final(player).duration == old(player).duration,
        last_volume matches Some(v) ==> cmds@.len() >= 1 && cmds@[0] == AudioCommand::SetVolume(
            v,
        ),
        ({
            let vn: int = if last_volume is Some {
                1
            } else {
                0
            };
            match last_track_path {
                None => restore_left_alone(*old(player), *final(player)) && cmds@.len() == vn,
                Some(p) => {
                    if no_track_at(playlist.tracks@, p@) {
                        restore_left_alone(*old(player), *final(player)) && cmds@.len() == vn
                    } else {
                        exists|i: int|
                            {
                                &&& 0 <= i < playlist.tracks@.len()
                                &&& (#[trigger] playlist.tracks@[i]).path@ == p@
                                &&& forall|j: int|
                                    0 <= j < i ==> (#[trigger] playlist.tracks@[j]).path@ != p@
                                &&& final(player).selected_track matches Some(t) && t@
                                    == playlist.tracks@[i]@
                                &&& is_load_of(cmds@[vn], playlist.tracks@[i].path@)
                                &&& ({
                                    let pn: int = if last_position is Some {
                                        1
                                    } else {
                                        0
                                    };
                                    let gn: int = if was_playing == Some(true) {
                                        1
                                    } else {
                                        0
                                    };
                                    &&& cmds@.len() == vn + 1 + pn + gn
                                    &&& (last_position matches Some(pos) ==> cmds@[vn + 1]
                                        == AudioCommand::Seek(pos)
                                        && final(player).seek_to_timestamp == pos)
                                    &&& (last_position is None ==> final(player).seek_to_timestamp
                                        == old(player).seek_to_timestamp)
                                    &&& (was_playing == Some(true) ==> cmds@[vn + 1 + pn]
                                        == AudioCommand::Play && final(player).track_state
                                        is Playing)
                                    &&& (was_playing != Some(true) ==> final(player).track_state
                                        == old(player).track_state)
                                })
                            }
                    }
                },
            }
        }),
{
    let mut cmds: Vec<AudioCommand> = Vec::new();
    if let Some(v) = last_volume {
        let c = player.set_volume(v);
        cmds.push(c);
    }
    if let Some(m) = last_playback_mode {
        player.playback_mode = m;
    }
    let path = match last_track_path {
        Some(p) => p,
        None => {
            return cmds;
        },
    };
    // Look for the remembered path in the playlist.
    let mut i: usize = 0;
    let mut found: Option<usize> = None;
    while i < playlist.tracks.len()
        invariant_except_break
            i <= playlist.tracks@.len(),
            found is None,
            forall|j: int| 0 <= j < i ==> (#[trigger] playlist.tracks@[j]).path@ != path@,
        ensures
            match found {
                Some(f) => {
                    &&& f < playlist.tracks@.len()
                    &&& playlist.tracks@[f as int].path@ == path@
                    &&& forall|j: int|
                        0 <= j < f ==> (#[trigger] playlist.tracks@[j]).path@ != path@
                },
                None => no_track_at(playlist.tracks@, path@),
            },
        decreases playlist.tracks@.len() - i,
    {
        if playlist.tracks[i].path == path {
            found = Some(i);
            break ;
        }
        i = i + 1;
    }
    let idx = match found {
        Some(f) => f,
        None => {
            return cmds;
        },
    };
    let track = playlist.tracks[idx].clone();
    match player.select_track(Some(track)) {
        Some(c) => cmds.push(c),
        None => {},
    }
    if let Some(pos) = last_position {
        let c = player.seek_to(pos);
        cmds.push(c);
    }
    if was_playing == Some(true) {
        match player.play() {
            Some(c) => cmds.push(c),
            None => {},
        }
    }
    cmds
}

/// The player's track, state and seek position were not touched.
pub open spec fn restore_left_alone(pre: Player, post: Player) -> bool {
    &&& post.selected_track == pre.selected_track
    &&& post.track_state == pre.track_state
    &&& post.seek_to_timestamp == pre.seek_to_timestamp
}

} // verus!
