//! State: a music player behaves differently while playing, stopped or
//! paused; each state decides the transition that a command causes.

use vstd::prelude::*;

verus! {

/// The three modes a player can be in.
#[derive(PartialEq, Eq, Structural, Clone, Copy, Debug)]
pub enum PlayerMode {
    Playing,
    Stopped,
    Paused,
}

pub struct Song {
    pub title: String,
    pub duration: u32,
    pub cursor: u32,
}

impl Song {
    pub fn new(title: &str, duration: u32) -> (r: Self)
        ensures
            r.title@ == title@,
            r.duration == duration,
            r.cursor == 0,
    {
        Song { title: title.to_owned(), duration, cursor: 0 }
    }
}

pub struct Player {
    pub playlist: Vec<Song>,
    pub current_track: usize,
    pub volume: u8,
}

impl Player {
    /// The current track selects a song of the playlist.
    pub open spec fn track_in_range(&self) -> bool {
        self.current_track < self.playlist@.len()
    }

    pub fn new() -> (r: Self)
        ensures
            r.playlist@ == Seq::<Song>::empty(),
            r.current_track == 0,
            r.volume == 0,
    {
        Player { playlist: Vec::new(), current_track: 0, volume: 0 }
    }

    pub fn add_song(&mut self, song: Song)
        ensures
            final(self).playlist@ == old(self).playlist@.push(song),
            final(self).current_track == old(self).current_track,
            final(self).volume == old(self).volume,
    {
        self.playlist.push(song);
    }

    /// Advances to the next track, wrapping at the end of the playlist.
    pub fn next_track(&mut self)
        requires
            old(self).track_in_range(),
        ensures
            final(self).current_track == (old(self).current_track + 1) % (
            old(self).playlist@.len() as int),
            final(self).playlist == old(self).playlist,
            final(self).volume == old(self).volume,
            final(self).track_in_range(),
    {
        let n = self.playlist.len();
        self.current_track = (self.current_track + 1) % n;
    }

    /// Steps the track the way the original remote did: the offset of one
    /// more than the playlist length lands on the following track as well.
    pub fn prev_track(&mut self)
        requires
            old(self).track_in_range(),
            old(self).playlist@.len() + old(self).current_track + 1 <= usize::MAX,
        ensures
            final(self).current_track == (old(self).playlist@.len() + old(self).current_track + 1)
                % (old(self).playlist@.len() as int),
            final(self).playlist == old(self).playlist,
            final(self).volume == old(self).volume,
            final(self).track_in_range(),
    {
        let n = self.playlist.len();
        self.current_track = (n + self.current_track + 1) % n;
    }

    pub fn get_current_track(&self) -> (r: (&Song, usize))
        requires
            self.track_in_range(),
        ensures
            *r.0 == self.playlist@[self.current_track as int],
            r.1 == self.current_track,
    {
        (&self.playlist[self.current_track], self.current_track)
    }

    /// Playback puts the cursor of the current song at second 45.
    pub fn play(&mut self)
        requires
            old(self).track_in_range(),
        ensures
            final(self).playlist@ == old(self).playlist@.update(
                old(self).current_track as int,
                (Song {
                    cursor: 45,
                    ..old(self).playlist@[old(self).current_track as int]
                }),
            ),
            final(self).current_track == old(self).current_track,
            final(self).volume == old(self).volume,
    {
        self.playlist[self.current_track].cursor = 45;
    }

    /// Pausing leaves the cursor of the current song at second 27.
    pub fn pause(&mut self)
        requires
            old(self).track_in_range(),
        ensures
            final(self).playlist@ == old(self).playlist@.update(
                old(self).current_track as int,
                (Song {
                    cursor: 27,
                    ..old(self).playlist@[old(self).current_track as int]
                }),
            ),
            final(self).current_track == old(self).current_track,
            final(self).volume == old(self).volume,
    {
        self.playlist[self.current_track].cursor = 27;
    }

    /// Rewinding puts the cursor of the current song back to the start.
    pub fn rewind(&mut self)
        requires
            old(self).track_in_range(),
        ensures
            final(self).playlist@ == old(self).playlist@.update(
                old(self).current_track as int,
                (Song {
                    cursor: 0,
                    ..old(self).playlist@[old(self).current_track as int]
                }),
            ),
            final(self).current_track == old(self).current_track,
            final(self).volume == old(self).volume,
    {
        self.playlist[self.current_track].cursor = 0;
    }

    pub fn set_volume(&mut self, volume: u8)
        ensures
            final(self).volume == volume,
            final(self).playlist == old(self).playlist,
            final(self).current_track == old(self).current_track,
    {
        self.volume = volume;
    }
}

/// A state decides what each command does and which mode follows it.
pub trait State {
    /// The mode this state stands for.
    spec fn mode(&self) -> PlayerMode;

    fn play(&self, player: &mut Player) -> (next: PlayerMode)
        requires
            old(player).track_in_range(),
        ensures
            next == PlayerMode::Playing,
            final(player).track_in_range(),
            final(player).current_track == old(player).current_track,
    ;

    fn stop(&self, player: &mut Player) -> (next: PlayerMode)
        requires
            old(player).track_in_range(),
        ensures
            next == PlayerMode::Stopped,
            final(player).track_in_range(),
            final(player).current_track == old(player).current_track,
    ;

    /// Skipping forward does not leave the current state.
    fn next(self, player: &mut Player) -> (r: Self) where Self: Sized
        requires
            old(player).track_in_range(),
        ensures
            r == self,
            final(player).track_in_range(),
    {
        player.next_track();
        self
    }

    /// Skipping backward does not leave the current state either.
    fn prev(self, player: &mut Player) -> (r: Self) where Self: Sized
        requires
            old(player).track_in_range(),
            old(player).playlist@.len() + old(player).current_track + 1 <= usize::MAX,
        ensures
            r == self,
            final(player).track_in_range(),
    {
        player.prev_track();
        self
    }
}

pub struct PlayingState;

impl State for PlayingState {
    open spec fn mode(&self) -> PlayerMode {
        PlayerMode::Playing
    }

    fn play(&self, _player: &mut Player) -> (next: PlayerMode) {
        PlayerMode::Playing
    }

    fn stop(&self, player: &mut Player) -> (next: PlayerMode) {
        player.pause();
        player.rewind();
        PlayerMode::Stopped
    }
}

pub struct StoppedState;

impl State for StoppedState {
    open spec fn mode(&self) -> PlayerMode {
        PlayerMode::Stopped
    }

    fn play(&self, player: &mut Player) -> (next: PlayerMode) {
        player.play();
        PlayerMode::Playing
    }

    fn stop(&self, _player: &mut Player) -> (next: PlayerMode) {
        PlayerMode::Stopped
    }
}

pub struct PausedState;

impl State for PausedState {
    open spec fn mode(&self) -> PlayerMode {
        PlayerMode::Paused
    }

    fn play(&self, player: &mut Player) -> (next: PlayerMode) {
        player.play();
        PlayerMode::Playing
    }

    fn stop(&self, player: &mut Player) -> (next: PlayerMode) {
        player.rewind();
        PlayerMode::Stopped
    }
}

/// The player together with its current mode; commands are dispatched to
/// the state that mode stands for.
pub struct MusicPlayer {
    pub player: Player,
    pub state: PlayerMode,
}

impl MusicPlayer {
    /// A new machine starts out stopped.
    pub fn new(player: Player) -> (r: Self)
        ensures
            r.player == player,
            r.state == PlayerMode::Stopped,
    {
        MusicPlayer { player, state: PlayerMode::Stopped }
    }

    /// After the play command the machine is playing, whatever it was in.
    pub fn play(&mut self)
        requires
            old(self).player.track_in_range(),
        ensures
            final(self).state == PlayerMode::Playing,
            final(self).player.track_in_range(),
            final(self).player.current_track == old(self).player.current_track,
    {
        let new_state = match self.state {
            PlayerMode::Playing => PlayingState.play(&mut self.player),
            PlayerMode::Stopped => StoppedState.play(&mut self.player),
            PlayerMode::Paused => PausedState.play(&mut self.player),
        };
        self.state = new_state;
    }

    /// After the stop command the machine is stopped, whatever it was in.
    pub fn stop(&mut self)
        requires
            old(self).player.track_in_range(),
        ensures
            final(self).state == PlayerMode::Stopped,
            final(self).player.track_in_range(),
            final(self).player.current_track == old(self).player.current_track,
    {
        let new_state = match self.state {
            PlayerMode::Playing => PlayingState.stop(&mut self.player),
            PlayerMode::Stopped => StoppedState.stop(&mut self.player),
            PlayerMode::Paused => PausedState.stop(&mut self.player),
        };
        self.state = new_state;
    }
}

} // verus!
