use crate::cli::app::{App, AppView, Direction, Screen, INITIAL_VOLUME};
use crate::decoder::{lemma_no_volume_messages, volume_after_all, DECODER_INITIAL_VOLUME};
use crate::radio::RadioState;
use vstd::prelude::*;

verus! {

/// The keys that the application tells apart.
#[derive(Clone, Copy, Debug, PartialEq, Eq, Structural)]
pub enum KeyCode {
    Esc,
    Char(char),
    Backspace,
    Up,
    Down,
    Enter,
    Other,
}

/// A key press; `control` holds when Control, and no other modifier, was held.
#[derive(Clone, Copy, Debug, PartialEq, Eq, Structural)]
pub struct KeyEvent {
    pub code: KeyCode,
    pub control: bool,
}

/// What a key press asks the application to do.
#[derive(Clone, Copy, Debug, PartialEq, Eq, Structural)]
pub enum Command {
    Show(Screen),
    Quit,
    ToggleMute,
    VolumeUp,
    VolumeDown,
    Type(char),
    Erase,
    Move(Direction),
    Play,
    Ignore,
}

/// `code` is the character `a` or the character `b`.
pub open spec fn is_char(code: KeyCode, a: char, b: char) -> bool {
    code == KeyCode::Char(a) || code == KeyCode::Char(b)
}

/// The key bindings, tried from the first to the last.
pub open spec fn command_of(key: KeyEvent, screen: Screen) -> Command {
    let code = key.code;
    let main_or_help = screen == Screen::Main || screen == Screen::Help;
    if (code == KeyCode::Esc || is_char(code, 'q', 'Q')) && screen == Screen::Main {
        Command::Show(Screen::Quit)
    } else if is_char(code, 'y', 'Y') && screen == Screen::Quit {
        Command::Quit
    } else if is_char(code, 'n', 'N') && screen == Screen::Quit {
        Command::Show(Screen::Main)
    } else if (code == KeyCode::Esc || is_char(code, 'h', 'H')) && screen == Screen::Help {
        Command::Show(Screen::Main)
    } else if is_char(code, 'q', 'Q') && screen == Screen::Help {
        Command::Show(Screen::Quit)
    } else if code == KeyCode::Esc {
        Command::Show(Screen::Main)
    } else if is_char(code, 'm', 'M') && main_or_help {
        Command::ToggleMute
    } else if code == KeyCode::Char('+') && main_or_help {
        Command::VolumeUp
    } else if code == KeyCode::Char('-') && main_or_help {
        Command::VolumeDown
    } else if is_char(code, 'c', 'C') && key.control {
        Command::Quit
    } else if is_char(code, 'h', 'H') && screen == Screen::Main {
        Command::Show(Screen::Help)
    } else if is_char(code, 'f', 'F') && main_or_help {
        Command::Show(Screen::Search)
    } else if screen == Screen::Search {
        match code {
            KeyCode::Char(x) => Command::Type(x),
            KeyCode::Backspace => Command::Erase,
            KeyCode::Up => Command::Move(Direction::Up),
            KeyCode::Down => Command::Move(Direction::Down),
            KeyCode::Enter => Command::Play,
            _ => Command::Ignore,
        }
    } else {
        Command::Ignore
    }
}

/// Looks a key press up in the key bindings of `screen`.
pub fn interpret_key(key_event: KeyEvent, screen: Screen) -> (c: Command)
    ensures
        c == command_of(key_event, screen),
{
    match (key_event.code, screen) {
        (KeyCode::Esc | KeyCode::Char('q') | KeyCode::Char('Q'), Screen::Main) => Command::Show(
            Screen::Quit,
        ),
        (KeyCode::Char('y') | KeyCode::Char('Y'), Screen::Quit) => Command::Quit,
        (KeyCode::Char('n') | KeyCode::Char('N'), Screen::Quit) => Command::Show(Screen::Main),
        (KeyCode::Esc | KeyCode::Char('h') | KeyCode::Char('H'), Screen::Help) => Command::Show(
            Screen::Main,
        ),
        (KeyCode::Char('q') | KeyCode::Char('Q'), Screen::Help) => Command::Show(Screen::Quit),
        (KeyCode::Esc, _) => Command::Show(Screen::Main),
        (KeyCode::Char('m') | KeyCode::Char('M'), Screen::Main | Screen::Help) => Command::ToggleMute,
        (KeyCode::Char('+'), Screen::Main | Screen::Help) => Command::VolumeUp,
        (KeyCode::Char('-'), Screen::Main | Screen::Help) => Command::VolumeDown,
        (KeyCode::Char('c'), _) if key_event.control => Command::Quit,
        (KeyCode::Char('C'), _) if key_event.control => Command::Quit,
        (KeyCode::Char('h') | KeyCode::Char('H'), Screen::Main) => Command::Show(Screen::Help),
        (KeyCode::Char('f') | KeyCode::Char('F'), Screen::Main | Screen::Help) => Command::Show(
            Screen::Search,
        ),
        (KeyCode::Char(x), Screen::Search) => Command::Type(x),
        (KeyCode::Backspace, Screen::Search) => Command::Erase,
        (KeyCode::Up, Screen::Search) => Command::Move(Direction::Up),
        (KeyCode::Down, Screen::Search) => Command::Move(Direction::Down),
        (KeyCode::Enter, Screen::Search) => Command::Play,
        _ => Command::Ignore,
    }
}

/// What a command does to the application; `requery` tells whether the
/// search query changed, so that the station search must run again.
pub open spec fn performed(old: AppView, new: AppView, command: Command, radio: RadioState, requery: bool) -> bool {
    match command {
        Command::Show(screen) => new == (AppView { screen, ..old }) && !requery,
        Command::Quit => new == (AppView { exit: true, ..old }) && !requery,
        Command::ToggleMute => old.mute_toggled(new) && !requery,
        Command::VolumeUp => old.volume_raised(new) && !requery,
        Command::VolumeDown => old.volume_lowered(new) && !requery,
        Command::Type(c) => old.char_pushed(new, c) && requery,
        Command::Erase => old.char_popped(new) && requery == (old.query.len() > 0),
        Command::Move(direction) => old.cursor_moved(new, direction, radio) && !requery,
        Command::Play => old.station_played(new, radio) && !requery,
        Command::Ignore => new == old && !requery,
    }
}

/// Handles one key press. `radio` is what the station search holds at this
/// moment; the result tells whether the search query changed.
pub fn update(app: &mut App, key_event: KeyEvent, radio: &RadioState) -> (requery: bool)
    ensures
        performed(old(app)@, final(app)@, command_of(key_event, old(app)@.screen), *radio, requery),
        final(app)@.wf(),
{
    let screen = app.current_screen();
    match interpret_key(key_event, screen) {
        Command::Show(next) => {
            app.set_screen(next);
            false
        },
        Command::Quit => {
            app.quit();
            false
        },
        Command::ToggleMute => {
            app.toggle_mute();
            false
        },
        Command::VolumeUp => {
            app.volume_up();
            false
        },
        Command::VolumeDown => {
            app.volume_down();
            false
        },
        Command::Type(c) => {
            app.push_char(c);
            true
        },
        Command::Erase => app.pop_char(),
        Command::Move(direction) => {
            app.move_cursor(direction, radio);
            false
        },
        Command::Play => {
            app.change_station(radio);
            false
        },
        Command::Ignore => false,
    }
}

/// Control-C quits from every screen.
pub proof fn law_control_c_quits(screen: Screen, code: KeyCode)
    requires
        is_char(code, 'c', 'C'),
    ensures
        command_of(KeyEvent { code, control: true }, screen) == Command::Quit,
{
}

/// Escape leads from the main screen to the exit confirmation, and from every
/// other screen back to the main screen.
pub proof fn law_escape(screen: Screen, control: bool)
    ensures
        command_of(KeyEvent { code: KeyCode::Esc, control }, screen) == if screen == Screen::Main {
            Command::Show(Screen::Quit)
        } else {
            Command::Show(Screen::Main)
        },
{
}

/// In the search screen every character key other than Control-C goes into
/// the search query.
pub proof fn law_typing_searches(x: char, control: bool)
    requires
        !(control && (x == 'c' || x == 'C')),
    ensures
        command_of(KeyEvent { code: KeyCode::Char(x), control }, Screen::Search) == Command::Type(x),
{
}

/// A key press ends the application only when it confirms the exit ('y' on
/// the exit confirmation) or is Control-C.
pub proof fn law_exit_needs_confirmation(
    old: AppView,
    new: AppView,
    key: KeyEvent,
    radio: RadioState,
    requery: bool,
)
    requires
        performed(old, new, command_of(key, old.screen), radio, requery),
        !old.exit,
        new.exit,
    ensures
        (old.screen == Screen::Quit && is_char(key.code, 'y', 'Y')) || (key.control && is_char(
            key.code,
            'c',
            'C',
        )),
{
}

/// On the exit confirmation, 'y' or 'Y' ends the application and 'n', 'N'
/// or Escape goes back to the main screen, whether or not Control is held;
/// Control-C ends it too, and every other key is ignored.
pub proof fn law_exit_confirmation_keys(key: KeyEvent)
    ensures
        key.code == KeyCode::Char('y') || key.code == KeyCode::Char('Y') ==> command_of(
            key,
            Screen::Quit,
        ) == Command::Quit,
        key.code == KeyCode::Char('n') || key.code == KeyCode::Char('N') || key.code == KeyCode::Esc
            ==> command_of(key, Screen::Quit) == Command::Show(Screen::Main),
        key.control && (key.code == KeyCode::Char('c') || key.code == KeyCode::Char('C'))
            ==> command_of(key, Screen::Quit) == Command::Quit,
        key.code != KeyCode::Char('y') && key.code != KeyCode::Char('Y') && key.code != KeyCode::Char(
            'n',
        ) && key.code != KeyCode::Char('N') && key.code != KeyCode::Esc && !(key.control && (
        key.code == KeyCode::Char('c') || key.code == KeyCode::Char('C'))) ==> command_of(
            key,
            Screen::Quit,
        ) == Command::Ignore,
{
}

/// Confirming the exit with 'y' or 'Y' ends the application and changes
/// nothing else.
pub proof fn law_yes_quits(old: AppView, new: AppView, key: KeyEvent, radio: RadioState, requery: bool)
    requires
        old.screen == Screen::Quit,
        key.code == KeyCode::Char('y') || key.code == KeyCode::Char('Y'),
        performed(old, new, command_of(key, old.screen), radio, requery),
    ensures
        new.exit,
        new == (AppView { exit: true, ..old }),
        !requery,
{
}

/// The main screen: Escape or 'q' asks to exit, 'h' opens the help, 'f' the
/// search, 'm' mutes or unmutes, '+' and '-' change the volume, Control-C
/// ends the application, and every other key is ignored. Letters count in
/// either case.
pub proof fn law_main_screen_keys(key: KeyEvent)
    ensures
        ({
            let c = command_of(key, Screen::Main);
            let k = key.code;
            &&& (k == KeyCode::Esc || k == KeyCode::Char('q') || k == KeyCode::Char('Q')) ==> c
                == Command::Show(Screen::Quit)
            &&& (k == KeyCode::Char('h') || k == KeyCode::Char('H')) ==> c == Command::Show(
                Screen::Help,
            )
            &&& (k == KeyCode::Char('f') || k == KeyCode::Char('F')) ==> c == Command::Show(
                Screen::Search,
            )
            &&& (k == KeyCode::Char('m') || k == KeyCode::Char('M')) ==> c == Command::ToggleMute
            &&& k == KeyCode::Char('+') ==> c == Command::VolumeUp
            &&& k == KeyCode::Char('-') ==> c == Command::VolumeDown
            &&& key.control && (k == KeyCode::Char('c') || k == KeyCode::Char('C')) ==> c
                == Command::Quit
            &&& (c == Command::Ignore <==> !(k == KeyCode::Esc || k == KeyCode::Char('q') || k
                == KeyCode::Char('Q') || k == KeyCode::Char('h') || k == KeyCode::Char('H') || k
                == KeyCode::Char('f') || k == KeyCode::Char('F') || k == KeyCode::Char('m') || k
                == KeyCode::Char('M') || k == KeyCode::Char('+') || k == KeyCode::Char('-') || (
            key.control && (k == KeyCode::Char('c') || k == KeyCode::Char('C')))))
        }),
{
}

/// The help screen: Escape or 'h' closes it, 'q' asks to exit, 'f' opens the
/// search, 'm' mutes or unmutes, '+' and '-' change the volume, Control-C ends
/// the application, and every other key is ignored. Letters count in either
/// case.
pub proof fn law_help_screen_keys(key: KeyEvent)
    ensures
        ({
            let c = command_of(key, Screen::Help);
            let k = key.code;
            &&& (k == KeyCode::Esc || k == KeyCode::Char('h') || k == KeyCode::Char('H')) ==> c
                == Command::Show(Screen::Main)
            &&& (k == KeyCode::Char('q') || k == KeyCode::Char('Q')) ==> c == Command::Show(
                Screen::Quit,
            )
            &&& (k == KeyCode::Char('f') || k == KeyCode::Char('F')) ==> c == Command::Show(
                Screen::Search,
            )
            &&& (k == KeyCode::Char('m') || k == KeyCode::Char('M')) ==> c == Command::ToggleMute
            &&& k == KeyCode::Char('+') ==> c == Command::VolumeUp
            &&& k == KeyCode::Char('-') ==> c == Command::VolumeDown
            &&& key.control && (k == KeyCode::Char('c') || k == KeyCode::Char('C')) ==> c
                == Command::Quit
            &&& (c == Command::Ignore <==> !(k == KeyCode::Esc || k == KeyCode::Char('q') || k
                == KeyCode::Char('Q') || k == KeyCode::Char('h') || k == KeyCode::Char('H') || k
                == KeyCode::Char('f') || k == KeyCode::Char('F') || k == KeyCode::Char('m') || k
                == KeyCode::Char('M') || k == KeyCode::Char('+') || k == KeyCode::Char('-') || (
            key.control && (k == KeyCode::Char('c') || k == KeyCode::Char('C')))))
        }),
{
}

/// The search screen: Escape closes it, Control-C ends the application, every
/// other character goes into the query, Backspace erases, the arrows move the
/// cursor, Enter plays the station under it, and other keys are ignored.
pub proof fn law_search_screen_keys(key: KeyEvent)
    ensures
        ({
            let c = command_of(key, Screen::Search);
            &&& match key.code {
                KeyCode::Esc => c == Command::Show(Screen::Main),
                KeyCode::Char(x) => if key.control && (x == 'c' || x == 'C') {
                    c == Command::Quit
                } else {
                    c == Command::Type(x)
                },
                KeyCode::Backspace => c == Command::Erase,
                KeyCode::Up => c == Command::Move(Direction::Up),
                KeyCode::Down => c == Command::Move(Direction::Down),
                KeyCode::Enter => c == Command::Play,
                KeyCode::Other => c == Command::Ignore,
            }
        }),
{
}

/// What a key press does: on the main and help screens '+' raises the volume,
/// '-' lowers it and 'm' flips muting; on the search screen a character goes
/// into the query (but Control-C), Backspace erases, the arrows move the
/// cursor and Enter plays the station under it; 'f' opens the search and 'h'
/// the help from the main screen, and Escape leads back to the main screen
/// from the others. The search runs again exactly when the query changed.
pub proof fn law_key_effects(old: AppView, new: AppView, key: KeyEvent, radio: RadioState, requery: bool)
    requires
        performed(old, new, command_of(key, old.screen), radio, requery),
    ensures
        ({
            let k = key.code;
            let main_or_help = old.screen == Screen::Main || old.screen == Screen::Help;
            &&& main_or_help && k == KeyCode::Char('+') ==> old.volume_raised(new) && !requery
            &&& main_or_help && k == KeyCode::Char('-') ==> old.volume_lowered(new) && !requery
            &&& main_or_help && (k == KeyCode::Char('m') || k == KeyCode::Char('M'))
                ==> old.mute_toggled(new) && !requery
            &&& old.screen == Screen::Search ==> match k {
                KeyCode::Char(x) => if key.control && (x == 'c' || x == 'C') {
                    new == (AppView { exit: true, ..old }) && !requery
                } else {
                    old.char_pushed(new, x) && requery
                },
                KeyCode::Backspace => old.char_popped(new) && requery == (old.query.len() > 0),
                KeyCode::Up => old.cursor_moved(new, Direction::Up, radio) && !requery,
                KeyCode::Down => old.cursor_moved(new, Direction::Down, radio) && !requery,
                KeyCode::Enter => old.station_played(new, radio) && !requery,
                KeyCode::Esc => new == (AppView { screen: Screen::Main, ..old }) && !requery,
                KeyCode::Other => new == old && !requery,
            }
            &&& old.screen == Screen::Main && (k == KeyCode::Char('f') || k == KeyCode::Char('F'))
                ==> new == (AppView { screen: Screen::Search, ..old })
            &&& old.screen == Screen::Main && (k == KeyCode::Char('h') || k == KeyCode::Char('H'))
                ==> new == (AppView { screen: Screen::Help, ..old })
            &&& old.screen != Screen::Main && k == KeyCode::Esc ==> new == (AppView {
                screen: Screen::Main,
                ..old
            })
        }),
{
}

/// A fresh application and a fresh decoder agree on the volume, as long as
/// nothing sent before set one.
pub proof fn law_fresh_app_in_tune(app: AppView)
    requires
        app.volume == INITIAL_VOLUME,
        !app.muted,
        forall|i: int| 0 <= i < app.sent.len() ==> !(#[trigger] app.sent[i] is SetVolume),
    ensures
        volume_after_all(DECODER_INITIAL_VOLUME, app.sent) == app.audible_volume(),
{
    lemma_no_volume_messages(DECODER_INITIAL_VOLUME, app.sent);
}

/// The decoder follows the volume keys: if, having read everything the
/// application sent, it plays at the volume the application means (zero when
/// muted), then it still does after any key press, once it has read what that
/// key press sent.
pub proof fn law_decoder_follows_volume(
    old: AppView,
    new: AppView,
    key: KeyEvent,
    radio: RadioState,
    requery: bool,
    start: u32,
)
    requires
        performed(old, new, command_of(key, old.screen), radio, requery),
        volume_after_all(start, old.sent) == old.audible_volume(),
    ensures
        volume_after_all(start, new.sent) == new.audible_volume(),
{
    if new.sent.len() > old.sent.len() {
        let last = new.sent.last();
        assert(new.sent.drop_last() =~= old.sent);
        match command_of(key, old.screen) {
            Command::Play => {
                assert(!(last is SetVolume));
            },
            _ => {},
        }
    } else {
        assert(new.sent =~= old.sent);
    }
}

} // verus!
