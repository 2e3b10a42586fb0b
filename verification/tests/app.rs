use surge::decoder::DecoderState;
use std::sync::mpsc::{channel, Receiver};

use surge::cli::app::{App, Direction, Screen, StreamState, INITIAL_VOLUME, MAX_VOLUME};
use surge::cli::update::{interpret_key, update, Command, KeyCode, KeyEvent};
use surge::controller::{AudioController, AudioPlaybackMessage};
use surge::radio::{RadioState, Station};

fn new_app() -> (App, Receiver<AudioPlaybackMessage>) {
    let (tx, rx) = channel();
    let app = App::new(AudioController::new(tx), "Jack Radio".to_string(), 48000);
    (app, rx)
}

fn stations(names: &[&str]) -> RadioState {
    RadioState::Complete(
        names
            .iter()
            .map(|n| Station { name: n.to_string(), url: format!("http://{}.example/stream", n) })
            .collect(),
    )
}

fn key(code: KeyCode) -> KeyEvent {
    KeyEvent { code, control: false }
}

fn ch(c: char) -> KeyEvent {
    key(KeyCode::Char(c))
}

fn next_volume(rx: &Receiver<AudioPlaybackMessage>) -> u32 {
    match rx.try_recv().expect("a message") {
        AudioPlaybackMessage::SetVolume(v) => v,
        other => panic!("unexpected message {:?}", other),
    }
}

#[test]
fn new_app_starts_on_main_screen_playing_initial_station() {
    let (app, rx) = new_app();
    assert_eq!(app.current_screen(), Screen::Main);
    assert_eq!(app.volume(), INITIAL_VOLUME);
    assert_eq!(app.search_query(), "");
    assert_eq!(app.song_selected(), 0);
    assert!(!app.should_quit());
    assert_eq!(app.sample_rate(), 48000);
    match app.stream_state() {
        StreamState::Playing { name } => assert_eq!(name, "Jack Radio"),
        _ => panic!("expected a playing station"),
    }
    assert!(rx.try_recv().is_err());
}

#[test]
fn volume_up_and_down_step_by_five_and_tell_the_decoder() {
    let (mut app, rx) = new_app();
    app.volume_up();
    assert_eq!(app.volume(), 105);
    assert_eq!(next_volume(&rx), 105);
    app.volume_down();
    app.volume_down();
    assert_eq!(app.volume(), 95);
    assert_eq!(next_volume(&rx), 100);
    assert_eq!(next_volume(&rx), 95);
}

#[test]
fn volume_saturates_at_both_ends() {
    let (mut app, rx) = new_app();
    for _ in 0..20 {
        app.volume_up();
    }
    assert_eq!(app.volume(), MAX_VOLUME);
    for _ in 0..40 {
        app.volume_down();
    }
    assert_eq!(app.volume(), 0);
    app.volume_down();
    assert_eq!(app.volume(), 0);
    let mut last = 1;
    while let Ok(AudioPlaybackMessage::SetVolume(v)) = rx.try_recv() {
        last = v;
    }
    assert_eq!(last, 0);
}

#[test]
fn volume_up_then_down_round_trip() {
    let (mut app, _rx) = new_app();
    app.volume_down();
    let before = app.volume();
    app.volume_up();
    app.volume_down();
    assert_eq!(app.volume(), before);
}

#[test]
fn mute_sends_zero_and_unmute_restores_volume() {
    let (mut app, rx) = new_app();
    app.toggle_mute();
    assert_eq!(next_volume(&rx), 0);
    assert_eq!(app.volume(), INITIAL_VOLUME);
    app.toggle_mute();
    assert_eq!(next_volume(&rx), INITIAL_VOLUME);
}

#[test]
fn volume_key_unmutes() {
    let (mut app, rx) = new_app();
    app.toggle_mute();
    assert_eq!(next_volume(&rx), 0);
    app.volume_up();
    assert_eq!(next_volume(&rx), 105);
    app.toggle_mute();
    assert_eq!(next_volume(&rx), 0);
}

#[test]
fn push_then_pop_restores_query_and_resets_cursor() {
    let (mut app, _rx) = new_app();
    app.push_char('j');
    app.push_char('a');
    let radio = stations(&["a", "b", "c"]);
    app.move_cursor(Direction::Down, &radio);
    assert_eq!(app.song_selected(), 1);
    app.push_char('z');
    assert_eq!(app.search_query(), "jaz");
    assert_eq!(app.song_selected(), 0);
    assert!(app.pop_char());
    assert_eq!(app.search_query(), "ja");
    assert!(app.pop_char());
    assert!(app.pop_char());
    assert!(!app.pop_char());
    assert_eq!(app.search_query(), "");
}

#[test]
fn cursor_wraps_around_the_list() {
    let (mut app, _rx) = new_app();
    let radio = stations(&["a", "b", "c"]);
    app.move_cursor(Direction::Up, &radio);
    assert_eq!(app.song_selected(), 2);
    app.move_cursor(Direction::Down, &radio);
    assert_eq!(app.song_selected(), 0);
    app.move_cursor(Direction::Down, &radio);
    app.move_cursor(Direction::Down, &radio);
    assert_eq!(app.song_selected(), 2);
    app.move_cursor(Direction::Down, &radio);
    assert_eq!(app.song_selected(), 0);
}

#[test]
fn cursor_round_trip_returns_to_start() {
    let (mut app, _rx) = new_app();
    let radio = stations(&["a", "b", "c", "d"]);
    for start in 0..4 {
        while app.song_selected() != start {
            app.move_cursor(Direction::Down, &radio);
        }
        app.move_cursor(Direction::Down, &radio);
        app.move_cursor(Direction::Up, &radio);
        assert_eq!(app.song_selected(), start);
        app.move_cursor(Direction::Up, &radio);
        app.move_cursor(Direction::Down, &radio);
        assert_eq!(app.song_selected(), start);
    }
}

#[test]
fn cursor_up_past_a_shorter_list_lands_on_its_last_station() {
    let (mut app, _rx) = new_app();
    let long = stations(&["a", "b", "c", "d", "e"]);
    for _ in 0..4 {
        app.move_cursor(Direction::Down, &long);
    }
    assert_eq!(app.song_selected(), 4);
    let short = stations(&["a", "b"]);
    app.move_cursor(Direction::Up, &short);
    assert_eq!(app.song_selected(), 1);
}

#[test]
fn cursor_ignores_pending_empty_and_failed_searches() {
    let (mut app, _rx) = new_app();
    app.move_cursor(Direction::Down, &RadioState::Pending);
    app.move_cursor(Direction::Up, &RadioState::Error("down".to_string()));
    app.move_cursor(Direction::Up, &stations(&[]));
    assert_eq!(app.song_selected(), 0);
}

#[test]
fn change_station_plays_the_selected_station() {
    let (mut app, rx) = new_app();
    let radio = stations(&["alpha", "beta"]);
    app.move_cursor(Direction::Down, &radio);
    app.change_station(&radio);
    match rx.try_recv().expect("a message") {
        AudioPlaybackMessage::LoadStream(url) => assert_eq!(url, "http://beta.example/stream"),
        other => panic!("unexpected message {:?}", other),
    }
    match app.stream_state() {
        StreamState::Playing { name } => assert_eq!(name, "beta"),
        _ => panic!("expected a playing station"),
    }
}

#[test]
fn change_station_without_results_does_nothing() {
    let (mut app, rx) = new_app();
    app.change_station(&RadioState::Pending);
    app.change_station(&stations(&[]));
    assert!(rx.try_recv().is_err());
    match app.stream_state() {
        StreamState::Playing { name } => assert_eq!(name, "Jack Radio"),
        _ => panic!("expected a playing station"),
    }
}

#[test]
fn quit_sets_exit() {
    let (mut app, _rx) = new_app();
    app.quit();
    assert!(app.should_quit());
}

#[test]
fn controller_messages_arrive_in_order() {
    let (tx, rx) = channel();
    let mut controller = AudioController::new(tx);
    controller.set_volume(40);
    controller.load_stream("http://x".to_string());
    controller.stop_stream();
    assert!(matches!(rx.try_recv(), Ok(AudioPlaybackMessage::SetVolume(40))));
    assert!(matches!(rx.try_recv(), Ok(AudioPlaybackMessage::LoadStream(u)) if u == "http://x"));
    assert!(matches!(rx.try_recv(), Ok(AudioPlaybackMessage::StopStream)));
    drop(controller);
    assert!(matches!(rx.try_recv(), Ok(AudioPlaybackMessage::Quit)));
}

#[test]
fn controller_survives_a_gone_decoder() {
    let (tx, rx) = channel();
    drop(rx);
    let mut controller = AudioController::new(tx);
    controller.set_volume(10);
    controller.stop_stream();
}

#[test]
fn q_asks_for_confirmation_and_y_quits() {
    let (mut app, _rx) = new_app();
    let none = RadioState::Pending;
    assert!(!update(&mut app, ch('q'), &none));
    assert_eq!(app.current_screen(), Screen::Quit);
    assert!(!app.should_quit());
    update(&mut app, ch('n'), &none);
    assert_eq!(app.current_screen(), Screen::Main);
    update(&mut app, ch('Q'), &none);
    update(&mut app, ch('Y'), &none);
    assert!(app.should_quit());
}

#[test]
fn help_screen_opens_and_closes() {
    let (mut app, _rx) = new_app();
    let none = RadioState::Pending;
    update(&mut app, ch('h'), &none);
    assert_eq!(app.current_screen(), Screen::Help);
    update(&mut app, ch('H'), &none);
    assert_eq!(app.current_screen(), Screen::Main);
    update(&mut app, ch('h'), &none);
    update(&mut app, key(KeyCode::Esc), &none);
    assert_eq!(app.current_screen(), Screen::Main);
    update(&mut app, ch('h'), &none);
    update(&mut app, ch('q'), &none);
    assert_eq!(app.current_screen(), Screen::Quit);
}

#[test]
fn escape_goes_back_to_main_and_from_main_to_exit() {
    let (mut app, _rx) = new_app();
    let none = RadioState::Pending;
    for screen in [Screen::Search, Screen::Help, Screen::Quit] {
        app.set_screen(screen);
        update(&mut app, key(KeyCode::Esc), &none);
        assert_eq!(app.current_screen(), Screen::Main);
    }
    update(&mut app, key(KeyCode::Esc), &none);
    assert_eq!(app.current_screen(), Screen::Quit);
}

#[test]
fn control_c_quits_from_every_screen() {
    for screen in [Screen::Main, Screen::Search, Screen::Quit, Screen::Help] {
        for c in ['c', 'C'] {
            assert_eq!(interpret_key(KeyEvent { code: KeyCode::Char(c), control: true }, screen), Command::Quit);
        }
        let (mut app, _rx) = new_app();
        app.set_screen(screen);
        update(&mut app, KeyEvent { code: KeyCode::Char('c'), control: true }, &RadioState::Pending);
        assert!(app.should_quit());
    }
}

#[test]
fn volume_and_mute_keys_work_on_main_and_help_only() {
    let (mut app, rx) = new_app();
    let none = RadioState::Pending;
    update(&mut app, ch('+'), &none);
    assert_eq!(app.volume(), 105);
    update(&mut app, ch('h'), &none);
    update(&mut app, ch('-'), &none);
    assert_eq!(app.volume(), 100);
    update(&mut app, ch('m'), &none);
    assert_eq!(next_volume(&rx), 105);
    assert_eq!(next_volume(&rx), 100);
    assert_eq!(next_volume(&rx), 0);
    app.set_screen(Screen::Search);
    assert!(update(&mut app, ch('+'), &none));
    assert_eq!(app.volume(), 100);
    assert_eq!(app.search_query(), "+");
}

#[test]
fn search_screen_edits_query_and_plays_selection() {
    let (mut app, rx) = new_app();
    let none = RadioState::Pending;
    update(&mut app, ch('f'), &none);
    assert_eq!(app.current_screen(), Screen::Search);
    assert!(update(&mut app, ch('j'), &none));
    assert!(update(&mut app, ch('q'), &none));
    assert_eq!(app.search_query(), "jq");
    assert!(update(&mut app, key(KeyCode::Backspace), &none));
    assert_eq!(app.search_query(), "j");
    let radio = stations(&["one", "two", "three"]);
    assert!(!update(&mut app, key(KeyCode::Down), &radio));
    assert!(!update(&mut app, key(KeyCode::Down), &radio));
    assert!(!update(&mut app, key(KeyCode::Up), &radio));
    assert_eq!(app.song_selected(), 1);
    assert!(!update(&mut app, key(KeyCode::Enter), &radio));
    assert!(matches!(rx.try_recv(), Ok(AudioPlaybackMessage::LoadStream(u)) if u == "http://two.example/stream"));
    assert!(update(&mut app, key(KeyCode::Backspace), &none));
    assert!(!update(&mut app, key(KeyCode::Backspace), &none));
}

#[test]
fn unbound_keys_change_nothing() {
    let (mut app, rx) = new_app();
    let none = RadioState::Pending;
    assert_eq!(interpret_key(ch('x'), Screen::Main), Command::Ignore);
    assert!(!update(&mut app, ch('x'), &none));
    assert!(!update(&mut app, key(KeyCode::Enter), &none));
    assert!(!update(&mut app, key(KeyCode::Other), &none));
    assert_eq!(app.current_screen(), Screen::Main);
    assert_eq!(app.volume(), 100);
    assert!(rx.try_recv().is_err());
}

#[test]
fn decoder_follows_the_volume_keys() {
    let (mut app, rx) = new_app();
    let mut decoder = DecoderState::new();
    let none = RadioState::Pending;
    let keys = [ch('+'), ch('m'), ch('-'), ch('m'), ch('m'), ch('+'), ch('+')];
    let expected = [105, 0, 100, 0, 100, 105, 110];
    for (k, want) in keys.into_iter().zip(expected) {
        update(&mut app, k, &none);
        while let Ok(msg) = rx.try_recv() {
            decoder.handle_message(msg);
        }
        assert_eq!(decoder.volume_percent(), want);
    }
}

#[test]
fn a_new_app_asks_for_the_search_of_the_empty_query() {
    let (mut app, _rx) = new_app();
    assert_eq!(app.take_search_request().as_deref(), Some(""));
    assert_eq!(app.take_search_request(), None);
}

#[test]
fn editing_the_query_asks_for_its_search_and_the_newest_wins() {
    let (mut app, _rx) = new_app();
    app.take_search_request();
    app.push_char('j');
    app.push_char('a');
    assert_eq!(app.take_search_request().as_deref(), Some("ja"));
    app.pop_char();
    assert_eq!(app.take_search_request().as_deref(), Some("j"));
    app.pop_char();
    assert_eq!(app.take_search_request().as_deref(), Some(""));
    assert!(!app.pop_char());
    assert_eq!(app.take_search_request(), None);
    app.search_radio_station("rock");
    app.push_char('z');
    assert_eq!(app.take_search_request().as_deref(), Some("z"));
}

#[test]
fn typing_in_the_search_screen_asks_for_a_search() {
    let (mut app, _rx) = new_app();
    app.take_search_request();
    let none = RadioState::Pending;
    update(&mut app, ch('f'), &none);
    assert_eq!(app.take_search_request(), None);
    update(&mut app, ch('p'), &none);
    assert_eq!(app.take_search_request().as_deref(), Some("p"));
}
