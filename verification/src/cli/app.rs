use crate::controller::{handed_over, AudioController, AudioPlaybackMessage};
use crate::radio::RadioState;
use vstd::prelude::*;
use vstd::string::StringExecFns;

verus! {

pub assume_specification[ String::push ](s: &mut String, ch: char)
    ensures
        final(s)@ == old(s)@.push(ch),
;

pub assume_specification[ String::pop ](s: &mut String) -> (c: Option<char>)
    ensures
        old(s)@.len() == 0 ==> c is None && final(s)@ == old(s)@,
        old(s)@.len() > 0 ==> c == Some(old(s)@.last()) && final(s)@ == old(s)@.drop_last(),
;

/// The number of frequency bins that one visualisation frame holds.
pub const FREQUENCY_COUNT: usize = 4096;

/// The loudest volume, in percent, that the volume keys reach.
pub const MAX_VOLUME: u32 = 150;

/// How far one press of a volume key moves the volume, in percent.
pub const VOLUME_STEP: u32 = 5;

/// The volume the application starts with, in percent.
pub const INITIAL_VOLUME: u32 = 100;

#[derive(Clone, Copy, Debug, PartialEq, Eq, Structural)]
pub enum Screen {
    Main,
    Search,
    Quit,
    Help,
}

#[derive(Clone, Copy, Debug, PartialEq, Eq, Structural)]
pub enum Direction {
    Up,
    Down,
}

#[derive(Debug)]
pub enum StreamState {
    Playing { name: String },
    Error { message: String },
    Paused,
}

/// The state of the application as its operations see it.
pub struct AppView {
    pub screen: Screen,
    pub volume: u32,
    pub muted: bool,
    pub exit: bool,
    pub query: Seq<char>,
    /// The station search the application asks to be run, if one is due:
    /// a newer one replaces an older one that was not sent yet.
    pub search: Option<Seq<char>>,
    pub selected: usize,
    pub station: Option<Seq<char>>,
    pub sample_rate: u32,
    /// What the application has told the decoding thread so far.
    pub sent: Seq<AudioPlaybackMessage>,
}

/// The cursor position after one move in a list of `len` entries.
pub open spec fn moved_index(selected: usize, len: nat, direction: Direction) -> usize {
    match direction {
        Direction::Up => if selected == 0 {
            (len - 1) as usize
        } else if selected - 1 <= len - 1 {
            (selected - 1) as usize
        } else {
            (len - 1) as usize
        },
        Direction::Down => ((selected + 1) % (len as int)) as usize,
    }
}

/// The volume after the volume-up key.
pub open spec fn raised(volume: u32) -> u32 {
    if volume + VOLUME_STEP <= MAX_VOLUME {
        (volume + VOLUME_STEP) as u32
    } else {
        MAX_VOLUME
    }
}

/// The volume after the volume-down key.
pub open spec fn lowered(volume: u32) -> u32 {
    if volume >= VOLUME_STEP {
        (volume - VOLUME_STEP) as u32
    } else {
        0
    }
}

impl AppView {
    /// The volume stays within its range, and the cursor can always move down.
    pub open spec fn wf(self) -> bool {
        self.volume <= MAX_VOLUME && self.selected < usize::MAX
    }

    /// The volume the decoder is asked to play at.
    pub open spec fn audible_volume(self) -> u32 {
        if self.muted {
            0
        } else {
            self.volume
        }
    }

    pub open spec fn volume_raised(self, new: AppView) -> bool {
        &&& new == (AppView { volume: raised(self.volume), muted: false, sent: new.sent, ..self })
        &&& handed_over(self.sent, new.sent, AudioPlaybackMessage::SetVolume(raised(self.volume)))
    }

    pub open spec fn volume_lowered(self, new: AppView) -> bool {
        &&& new == (AppView { volume: lowered(self.volume), muted: false, sent: new.sent, ..self })
        &&& handed_over(self.sent, new.sent, AudioPlaybackMessage::SetVolume(lowered(self.volume)))
    }

    pub open spec fn mute_toggled(self, new: AppView) -> bool {
        &&& new == (AppView { muted: !self.muted, sent: new.sent, ..self })
        &&& handed_over(self.sent, new.sent, AudioPlaybackMessage::SetVolume(new.audible_volume()))
    }

    pub open spec fn char_pushed(self, new: AppView, c: char) -> bool {
        new == (AppView {
            query: self.query.push(c),
            selected: 0,
            search: Some(self.query.push(c)),
            ..self
        })
    }

    pub open spec fn char_popped(self, new: AppView) -> bool {
        new == (AppView {
            query: if self.query.len() > 0 {
                self.query.drop_last()
            } else {
                self.query
            },
            selected: 0,
            search: if self.query.len() > 0 {
                Some(self.query.drop_last())
            } else {
                self.search
            },
            ..self
        })
    }

    pub open spec fn cursor_moved(self, new: AppView, direction: Direction, radio: RadioState) -> bool {
        match radio.listed() {
            Some(len) => new == (AppView { selected: moved_index(self.selected, len, direction), ..self }),
            None => new == self,
        }
    }

    pub open spec fn station_played(self, new: AppView, radio: RadioState) -> bool {
        match radio.station_at(self.selected as int) {
            Some(station) => {
                &&& new == (AppView { station: Some(station.name@), sent: new.sent, ..self })
                &&& handed_over(self.sent, new.sent, AudioPlaybackMessage::LoadStream(station.url))
            },
            None => new == self,
        }
    }
}

/// The part of the application that decides: screens, volume, search and
/// station selection. It commands playback through its `AudioController`.
pub struct App {
    screen: Screen,
    volume: u32,
    exit: bool,
    search_query: String,
    search_request: Option<String>,
    selected_idx: usize,
    audio_controller: AudioController,
    muted: bool,
    sample_rate: u32,
    station: Option<String>,
}

impl View for App {
    type V = AppView;

    closed spec fn view(&self) -> AppView {
        AppView {
            screen: self.screen,
            volume: self.volume,
            muted: self.muted,
            exit: self.exit,
            query: self.search_query@,
            search: match self.search_request {
                Some(q) => Some(q@),
                None => None,
            },
            selected: self.selected_idx,
            station: match self.station {
                Some(name) => Some(name@),
                None => None,
            },
            sample_rate: self.sample_rate,
            sent: self.audio_controller.sent(),
        }
    }
}

impl App {
    /// The volume stays within its range, and the cursor can always move down.
    #[verifier::type_invariant]
    spec fn inv(&self) -> bool {
        self.volume <= MAX_VOLUME && self.selected_idx < usize::MAX
    }

    pub fn new(audio_controller: AudioController, station_name: String, sample_rate: u32) -> (app: Self)
        ensures
            app@ == (AppView {
                screen: Screen::Main,
                volume: INITIAL_VOLUME,
                muted: false,
                exit: false,
                query: Seq::empty(),
                search: Some(Seq::empty()),
                selected: 0,
                station: Some(station_name@),
                sample_rate,
                sent: audio_controller.sent(),
            }),
            app@.wf(),
    {
        Self {
            screen: Screen::Main,
            volume: INITIAL_VOLUME,
            exit: false,
            search_query: String::new(),
            search_request: Some(String::new()),
            selected_idx: 0,
            audio_controller,
            muted: false,
            sample_rate,
            station: Some(station_name),
        }
    }

    pub fn volume(&self) -> (v: u32)
        ensures
            v == self@.volume,
    {
        self.volume
    }

    pub fn sample_rate(&self) -> (r: u32)
        ensures
            r == self@.sample_rate,
    {
        self.sample_rate
    }

    pub fn stream_state(&self) -> (s: StreamState)
        ensures
            match self@.station {
                Some(name) => s matches StreamState::Playing { name: n } && n@ == name,
                None => s is Paused,
            },
    {
        match &self.station {
            Some(name) => StreamState::Playing { name: name.clone() },
            None => StreamState::Paused,
        }
    }

    pub fn search_query(&self) -> (q: &str)
        ensures
            q@ == self@.query,
    {
        self.search_query.as_str()
    }

    pub fn push_char(&mut self, c: char)
        ensures
            old(self)@.char_pushed(final(self)@, c),
            final(self)@.wf(),
    {
        proof {
            use_type_invariant(&*self);
        }
        self.selected_idx = 0;
        let mut query = String::new();
        std::mem::swap(&mut query, &mut self.search_query);
        query.push(c);
        self.search_request = Some(query.clone());
        self.search_query = query;
        proof {
            use_type_invariant(&*self);
        }
    }

    /// Removes the last character of the search query; tells whether there was one.
    pub fn pop_char(&mut self) -> (removed: bool)
        ensures
            old(self)@.char_popped(final(self)@),
            removed == (old(self)@.query.len() > 0),
            final(self)@.wf(),
    {
        proof {
            use_type_invariant(&*self);
        }
        self.selected_idx = 0;
        let mut query = String::new();
        std::mem::swap(&mut query, &mut self.search_query);
        let removed = query.pop().is_some();
        if removed {
            self.search_request = Some(query.clone());
        }
        self.search_query = query;
        proof {
            use_type_invariant(&*self);
        }
        removed
    }

    /// Asks for a station search for `name`, replacing one not sent yet.
    pub fn search_radio_station(&mut self, name: &str)
        ensures
            final(self)@ == (AppView { search: Some(name@), ..old(self)@ }),
            final(self)@.wf(),
    {
        proof {
            use_type_invariant(&*self);
        }
        self.search_request = Some(String::from_str(name));
        proof {
            use_type_invariant(&*self);
        }
    }

    /// Hands over the station search that is due, if any; none is due after.
    pub fn take_search_request(&mut self) -> (request: Option<String>)
        ensures
            match request {
                Some(q) => old(self)@.search == Some(q@),
                None => old(self)@.search is None,
            },
            final(self)@ == (AppView { search: None, ..old(self)@ }),
            final(self)@.wf(),
    {
        proof {
            use_type_invariant(&*self);
        }
        let mut request = None;
        std::mem::swap(&mut request, &mut self.search_request);
        proof {
            use_type_invariant(&*self);
        }
        request
    }

    pub fn song_selected(&self) -> (i: usize)
        ensures
            i == self@.selected,
    {
        self.selected_idx
    }

    /// Plays the selected station of a completed search.
    pub fn change_station(&mut self, radio: &RadioState)
        ensures
            old(self)@.station_played(final(self)@, *radio),
            final(self)@.wf(),
    {
        proof {
            use_type_invariant(&*self);
        }
        if let RadioState::Complete(api_stations) = radio {
            if self.selected_idx < api_stations.len() {
                let station = &api_stations[self.selected_idx];
                self.audio_controller.load_stream(station.url.clone());
                self.station = Some(station.name.clone());
            }
        }
        proof {
            use_type_invariant(&*self);
        }
    }

    pub fn toggle_mute(&mut self)
        ensures
            old(self)@.mute_toggled(final(self)@),
            final(self)@.wf(),
    {
        proof {
            use_type_invariant(&*self);
        }
        self.muted = !self.muted;
        let audible = if self.muted {
            0
        } else {
            self.volume
        };
        self.audio_controller.set_volume(audible);
        proof {
            use_type_invariant(&*self);
        }
    }

    pub fn volume_up(&mut self)
        ensures
            old(self)@.volume_raised(final(self)@),
            final(self)@.wf(),
    {
        proof {
            use_type_invariant(&*self);
        }
        if self.muted {
            self.muted = false;
        }
        let louder = self.volume + VOLUME_STEP;
        self.volume = if louder < MAX_VOLUME {
            louder
        } else {
            MAX_VOLUME
        };
        self.audio_controller.set_volume(self.volume);
        proof {
            use_type_invariant(&*self);
        }
    }

    pub fn volume_down(&mut self)
        ensures
            old(self)@.volume_lowered(final(self)@),
            final(self)@.wf(),
    {
        proof {
            use_type_invariant(&*self);
        }
        if self.muted {
            self.muted = false;
        }
        self.volume = self.volume.saturating_sub(VOLUME_STEP);
        self.audio_controller.set_volume(self.volume);
        proof {
            use_type_invariant(&*self);
        }
    }

    /// Moves the cursor through the stations of a completed, non-empty search,
    /// wrapping around at either end.
    pub fn move_cursor(&mut self, direction: Direction, radio: &RadioState)
        ensures
            old(self)@.cursor_moved(final(self)@, direction, *radio),
            final(self)@.wf(),
    {
        proof {
            use_type_invariant(&*self);
        }
        if let RadioState::Complete(x) = radio {
            if x.len() > 0 {
                let last = x.len() - 1;
                match direction {
                    Direction::Up => {
                        self.selected_idx = if self.selected_idx == 0 {
                            last
                        } else if self.selected_idx - 1 <= last {
                            self.selected_idx - 1
                        } else {
                            last
                        };
                    },
                    Direction::Down => self.selected_idx = (self.selected_idx + 1) % x.len(),
                }
            }
        }
        proof {
            use_type_invariant(&*self);
        }
    }

    pub fn should_quit(&self) -> (q: bool)
        ensures
            q == self@.exit,
    {
        self.exit
    }

    pub fn quit(&mut self)
        ensures
            final(self)@ == (AppView { exit: true, ..old(self)@ }),
            final(self)@.wf(),
    {
        proof {
            use_type_invariant(&*self);
        }
        self.exit = true;
        proof {
            use_type_invariant(&*self);
        }
    }

    pub fn current_screen(&self) -> (s: Screen)
        ensures
            s == self@.screen,
            self@.wf(),
    {
        proof {
            use_type_invariant(self);
        }
        self.screen
    }

    pub fn set_screen(&mut self, screen: Screen)
        ensures
            final(self)@ == (AppView { screen, ..old(self)@ }),
            final(self)@.wf(),
    {
        proof {
            use_type_invariant(&*self);
        }
        self.screen = screen;
        proof {
            use_type_invariant(&*self);
        }
    }
}

/// Every operation keeps the application well-formed: the volume stays
/// within `0..=MAX_VOLUME` and the cursor can always move down.
pub proof fn law_operations_keep_wf(old: AppView, new: AppView)
    requires
        old.wf(),
    ensures
        old.volume_raised(new) ==> new.wf(),
        old.volume_lowered(new) ==> new.wf(),
        old.mute_toggled(new) ==> new.wf(),
        old.char_popped(new) ==> new.wf(),
        forall|c: char| #[trigger] old.char_pushed(new, c) ==> new.wf(),
        forall|radio: RadioState| #[trigger] old.station_played(new, radio) ==> new.wf(),
        new == (AppView { exit: true, ..old }) ==> new.wf(),
        forall|screen: Screen| new == (AppView { screen, ..old }) ==> new.wf(),
{
}

/// One step up and one step down give back the volume one started from,
/// unless the step up was cut off at the maximum; either key unmutes.
pub proof fn law_volume_up_then_down(old: AppView, mid: AppView, new: AppView)
    requires
        old.wf(),
        old.volume_raised(mid),
        mid.volume_lowered(new),
        old.volume + VOLUME_STEP <= MAX_VOLUME,
    ensures
        new == (AppView { muted: false, sent: new.sent, ..old }),
{
}

/// One step down and one step up give back the volume one started from,
/// unless the step down was cut off at zero; either key unmutes.
pub proof fn law_volume_down_then_up(old: AppView, mid: AppView, new: AppView)
    requires
        old.wf(),
        old.volume_lowered(mid),
        mid.volume_raised(new),
        old.volume >= VOLUME_STEP,
    ensures
        new == (AppView { muted: false, sent: new.sent, ..old }),
{
}

/// The volume keys stop at the ends of the range: up at the maximum and
/// down at zero leave the volume where it is.
pub proof fn law_volume_saturates(old: AppView, new: AppView)
    requires
        old.wf(),
    ensures
        old.volume == MAX_VOLUME && old.volume_raised(new) ==> new.volume == MAX_VOLUME,
        old.volume == 0 && old.volume_lowered(new) ==> new.volume == 0,
{
}

/// Muting tells the decoder to play at volume zero, unmuting tells it the
/// volume again, and toggling twice changes nothing but the messages sent.
pub proof fn law_mute_twice(old: AppView, mid: AppView, new: AppView)
    requires
        old.mute_toggled(mid),
        mid.mute_toggled(new),
    ensures
        new == (AppView { sent: new.sent, ..old }),
        !old.muted ==> handed_over(old.sent, mid.sent, AudioPlaybackMessage::SetVolume(0)),
        !old.muted ==> handed_over(mid.sent, new.sent, AudioPlaybackMessage::SetVolume(old.volume)),
{
}

/// Typing a character and erasing it gives back the query, with the cursor
/// back on the first result.
pub proof fn law_push_then_pop(old: AppView, mid: AppView, new: AppView, c: char)
    requires
        old.char_pushed(mid, c),
        mid.char_popped(new),
    ensures
        new == (AppView { selected: 0, search: Some(old.query), ..old }),
{
    assert(old.query.push(c).drop_last() =~= old.query);
}

/// After every edit of the query, the search that is due is the one for the
/// query as it now stands: a newer search replaces an older one not yet sent.
pub proof fn law_search_follows_query(old: AppView, new: AppView, c: char)
    ensures
        old.char_pushed(new, c) ==> new.search == Some(new.query),
        old.char_popped(new) && old.query.len() > 0 ==> new.search == Some(new.query),
{
}

/// Within a non-empty list of stations the cursor stays on a station, and a
/// move down followed by a move up (or the reverse) comes back to where it was,
/// wrapping around at both ends.
pub proof fn law_cursor_round_trip(old: AppView, mid: AppView, new: AppView, radio: RadioState, first: Direction)
    requires
        radio.listed() is Some,
        radio.listed()->0 <= usize::MAX,
        old.selected < radio.listed()->0,
        old.cursor_moved(mid, first, radio),
        mid.cursor_moved(new, if first == Direction::Up { Direction::Down } else { Direction::Up }, radio),
    ensures
        mid.selected < radio.listed()->0,
        new == old,
{
    let len = radio.listed()->0;
    if first == Direction::Down {
        if old.selected + 1 < len {
            assert((old.selected + 1) % (len as int) == old.selected + 1) by (nonlinear_arith)
                requires old.selected + 1 < len;
        } else {
            assert((old.selected + 1) % (len as int) == 0) by (nonlinear_arith)
                requires old.selected + 1 == len;
        }
    } else {
        let m = mid.selected;
        if m + 1 < len {
            assert((m + 1) % (len as int) == m + 1) by (nonlinear_arith)
                requires m + 1 < len;
        } else {
            assert((m + 1) % (len as int) == 0) by (nonlinear_arith)
                requires m + 1 == len;
        }
    }
}

/// After a move in a non-empty list the cursor is on one of its stations.
pub proof fn law_cursor_stays_in_list(old: AppView, new: AppView, radio: RadioState, direction: Direction)
    requires
        radio.listed() is Some,
        old.cursor_moved(new, direction, radio),
    ensures
        new.selected < radio.listed()->0,
{
    let len = radio.listed()->0;
    if direction == Direction::Down {
        assert((old.selected + 1) % (len as int) < len) by (nonlinear_arith)
            requires len > 0;
    }
}

/// A move in a completed search of `len` stations changes only the cursor:
/// down goes to the next station and from the last back to the first; up goes
/// to the previous station and from the first to the last, and a cursor left
/// past the end of the list goes up onto the last station. With no station
/// listed the cursor stays where it is.
pub proof fn law_cursor_moves_one_step(old: AppView, new: AppView, radio: RadioState, direction: Direction)
    requires
        old.cursor_moved(new, direction, radio),
        radio matches RadioState::Complete(list) ==> list@.len() <= usize::MAX,
    ensures
        radio matches RadioState::Complete(list) ==> list@.len() > 0 ==> {
            let len = list@.len();
            &&& new == (AppView { selected: new.selected, ..old })
            &&& direction == Direction::Down && old.selected + 1 < len ==> new.selected
                == old.selected + 1
            &&& direction == Direction::Down && old.selected + 1 == len ==> new.selected == 0
            &&& direction == Direction::Down && old.selected >= len ==> new.selected == (
            old.selected + 1) % (len as int)
            &&& direction == Direction::Up && 0 < old.selected < len ==> new.selected + 1
                == old.selected
            &&& direction == Direction::Up && old.selected == 0 ==> new.selected == len - 1
            &&& direction == Direction::Up && old.selected >= len ==> new.selected == len - 1
        },
        !(radio matches RadioState::Complete(list) && list@.len() > 0) ==> new == old,
{
    if let RadioState::Complete(list) = radio {
        let len = list@.len();
        if len > 0 && direction == Direction::Down {
            let s = old.selected as int;
            if s + 1 < len {
                assert((s + 1) % (len as int) == s + 1) by (nonlinear_arith)
                    requires 0 <= s + 1 < len;
            } else if s + 1 == len {
                assert((s + 1) % (len as int) == 0) by (nonlinear_arith)
                    requires s + 1 == len, len > 0;
            }
        }
    }
}

/// Playing in a completed search plays the station under the cursor, the
/// first one included: its stream is handed to the decoder and its name
/// becomes the station shown, and nothing else changes. When the cursor is on
/// no station of a completed search, or the search has not completed, nothing
/// happens.
pub proof fn law_play_takes_the_station_under_the_cursor(old: AppView, new: AppView, radio: RadioState)
    requires
        old.station_played(new, radio),
    ensures
        radio matches RadioState::Complete(list) ==> old.selected < list@.len() ==> {
            &&& new.station == Some(list@[old.selected as int].name@)
            &&& new.sent == old.sent.push(
                AudioPlaybackMessage::LoadStream(list@[old.selected as int].url),
            )
            &&& new == (AppView { station: new.station, sent: new.sent, ..old })
        },
        !(radio matches RadioState::Complete(list) && old.selected < list@.len()) ==> new == old,
{
}

/// The volume keys move the volume by five percent, up to at most 150 and
/// down to at least zero, unmute, and tell the decoder the new volume; the
/// mute key flips muting, keeps the volume, and tells the decoder zero when
/// muting and the volume when unmuting. Nothing else changes.
pub proof fn law_volume_keys(old: AppView, new: AppView)
    ensures
        old.volume_raised(new) ==> {
            &&& new.volume == if old.volume + 5 <= 150 {
                old.volume + 5
            } else {
                150
            }
            &&& !new.muted
            &&& new.sent == old.sent.push(AudioPlaybackMessage::SetVolume(new.volume))
            &&& new == (AppView { volume: new.volume, muted: false, sent: new.sent, ..old })
        },
        old.volume_lowered(new) ==> {
            &&& new.volume == if old.volume >= 5 {
                old.volume - 5
            } else {
                0
            }
            &&& !new.muted
            &&& new.sent == old.sent.push(AudioPlaybackMessage::SetVolume(new.volume))
            &&& new == (AppView { volume: new.volume, muted: false, sent: new.sent, ..old })
        },
        old.mute_toggled(new) ==> {
            &&& new.muted == !old.muted
            &&& new.volume == old.volume
            &&& new.sent == old.sent.push(
                AudioPlaybackMessage::SetVolume(if new.muted { 0 } else { old.volume }),
            )
            &&& new == (AppView { muted: new.muted, sent: new.sent, ..old })
        },
{
}

/// Typing a character appends it to the query; erasing removes the last
/// character, if there is one. Either puts the cursor on the first result and
/// asks for the search of the query as it now stands (erasing an empty query
/// asks for nothing new).
pub proof fn law_query_edits(old: AppView, new: AppView, c: char)
    ensures
        old.char_pushed(new, c) ==> {
            &&& new.query.len() == old.query.len() + 1
            &&& new.query.last() == c
            &&& new.query.take(old.query.len() as int) == old.query
            &&& new.selected == 0
            &&& new.search == Some(new.query)
            &&& new == (AppView { query: new.query, selected: 0, search: new.search, ..old })
        },
        old.char_popped(new) ==> {
            &&& old.query.len() > 0 ==> new.query.len() + 1 == old.query.len() && new.query
                == old.query.take(new.query.len() as int) && new.search == Some(new.query)
            &&& old.query.len() == 0 ==> new.query == old.query && new.search == old.search
            &&& new.selected == 0
            &&& new == (AppView { query: new.query, selected: 0, search: new.search, ..old })
        },
{
    if old.char_pushed(new, c) {
        assert(old.query.push(c).take(old.query.len() as int) =~= old.query);
    }
    if old.char_popped(new) && old.query.len() > 0 {
        assert(old.query.take(old.query.len() - 1) =~= old.query.drop_last());
    }
}

} // verus!
