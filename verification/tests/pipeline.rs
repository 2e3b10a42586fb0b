use surge::cli::app::StreamState;
use surge::cli::ui::{popup_split, search_popup_lines, status_text, PopupStyle};
use surge::radio::{RadioState, Station};
use surge::controller::AudioPlaybackMessage;
use surge::decoder::{
    stream_format, DecoderState, DecoderStep, DECODE_THRESHOLD, DEFAULT_CHANNELS, DEFAULT_SAMPLE_RATE,
    INPUT_CAPACITY, OUTPUT_CAPACITY, PUSH_CHUNK,
};
use surge::processor::{
    chunk_spans, ChunkSpan, Processor, ReaderClock, SampleCounter, CHUNK_SAMPLES, DEFAULT_FREQUENCY,
};
use std::sync::atomic::{AtomicU64, Ordering};
use std::sync::Arc;

#[test]
fn stream_format_fills_in_defaults() {
    assert_eq!(stream_format(None, None), (DEFAULT_SAMPLE_RATE, DEFAULT_CHANNELS));
    assert_eq!(stream_format(Some(48000), None), (48000, 2));
    assert_eq!(stream_format(None, Some(1)), (44100, 1));
    assert_eq!(stream_format(Some(22050), Some(6)), (22050, 6));
}

#[test]
fn decoder_messages_set_volume_and_steer_the_stream() {
    let mut state = DecoderState::new();
    assert_eq!(state.volume_percent(), 100);
    assert!(matches!(state.handle_message(AudioPlaybackMessage::SetVolume(30)), DecoderStep::Continue));
    assert_eq!(state.volume_percent(), 30);
    match state.handle_message(AudioPlaybackMessage::LoadStream("http://s".to_string())) {
        DecoderStep::Connect(url) => assert_eq!(url, "http://s"),
        other => panic!("unexpected step {:?}", other),
    }
    assert!(matches!(state.handle_message(AudioPlaybackMessage::StopStream), DecoderStep::Disconnect));
    assert!(matches!(state.handle_message(AudioPlaybackMessage::Quit), DecoderStep::Stop));
    assert_eq!(state.volume_percent(), 30);
}

#[test]
fn decoder_reads_input_only_below_threshold() {
    let mut state = DecoderState::new();
    assert!(state.wants_input());
    state.record_decoded(DECODE_THRESHOLD - 1);
    assert!(state.wants_input());
    state.record_decoded(1);
    assert!(!state.wants_input());
    state.record_decoded(INPUT_CAPACITY - DECODE_THRESHOLD);
    assert_eq!(state.input_len(), INPUT_CAPACITY);
}

#[test]
fn resample_pass_keeps_unread_frames_and_counts_output() {
    let mut state = DecoderState::new();
    state.record_decoded(5001); // two channels: 2500 whole frames
    let mut run = state.start_resample(2, 2);
    assert_eq!(run.frames_left(), 2500);
    assert_eq!(run.output_offset(), 0);
    assert_eq!(run.out_cap(), OUTPUT_CAPACITY / 2);
    assert!(run.fits(1024, 1088));
    run.advance(1024, 1088);
    assert!(run.fits(1024, 1088));
    run.advance(1024, 1088);
    assert!(!run.fits(1024, 1088));
    assert_eq!(run.frames_left(), 452);
    let (from, to) = state.finish_resample(&run);
    assert_eq!((from, to), (4096, 5000));
    assert_eq!(state.input_len(), 904);
    assert_eq!(state.output_len(), 2176 * 2);
}

#[test]
fn resample_stops_when_output_is_full() {
    let mut state = DecoderState::new();
    state.record_decoded(INPUT_CAPACITY);
    let mut run = state.start_resample(1, 2);
    assert_eq!(run.out_cap(), 10_000);
    let mut steps = 0;
    while run.fits(1024, 2048) {
        run.advance(1024, 2048);
        steps += 1;
    }
    assert_eq!(steps, 4);
    state.finish_resample(&run);
    assert_eq!(state.output_len(), 4 * 2048 * 2);
    assert!(state.output_len() <= OUTPUT_CAPACITY);
}

#[test]
fn output_drains_in_whole_chunks_keeping_the_last() {
    let mut state = DecoderState::new();
    state.record_decoded(4000);
    let mut run = state.start_resample(1, 1);
    run.advance(3000, 3000);
    state.finish_resample(&run);
    assert_eq!(state.output_len(), 3000);
    assert_eq!(state.chunks_to_push(), 2);
    let written = state.drain_pushed(2);
    assert_eq!(written, 2 * PUSH_CHUNK);
    assert_eq!(state.output_len(), 952);
    assert_eq!(state.chunks_to_push(), 0);
}

#[test]
fn chunks_offered_keep_more_than_a_chunk_back() {
    let mut state = DecoderState::new();
    state.record_decoded(INPUT_CAPACITY);
    let mut run = state.start_resample(1, 1);
    run.advance(2049, 2049);
    state.finish_resample(&run);
    assert_eq!(state.chunks_to_push(), 2);
    let written = state.drain_pushed(1);
    assert_eq!(written, PUSH_CHUNK);
    assert_eq!(state.output_len(), 1025);
    assert_eq!(state.chunks_to_push(), 1);
    assert_eq!(state.drain_pushed(0), 0);
    assert_eq!(DecoderState::new().chunks_to_push(), 0);
}

#[test]
fn sample_counter_numbers_writes_on() {
    let mut counter = SampleCounter::new();
    let first = counter.write(1500);
    assert_eq!(first.len(), 2);
    assert_eq!(counter.written(), 1500);
    let second = counter.write(100);
    assert_eq!(second, vec![ChunkSpan { start_sample: 1500, offset: 0, len: 100 }]);
    assert_eq!(counter.written(), 1600);
    assert!(counter.write(0).is_empty());
    assert_eq!(counter.written(), 1600);
}

#[test]
fn chunk_spans_split_writes() {
    assert!(chunk_spans(0, 0).is_empty());
    let spans = chunk_spans(100, 2500);
    assert_eq!(
        spans,
        vec![
            ChunkSpan { start_sample: 100, offset: 0, len: 1024 },
            ChunkSpan { start_sample: 1124, offset: 1024, len: 1024 },
            ChunkSpan { start_sample: 2148, offset: 2048, len: 452 },
        ]
    );
    let exact = chunk_spans(0, 2048);
    assert_eq!(exact.len(), 2);
    assert!(exact.iter().all(|s| s.len == CHUNK_SAMPLES));
}

#[test]
fn chunk_spans_tile_the_write() {
    for count in [1usize, 1023, 1024, 1025, 4096, 5000] {
        let spans = chunk_spans(7, count);
        let mut next = 0;
        for s in &spans {
            assert_eq!(s.offset, next);
            assert_eq!(s.start_sample, 7 + s.offset as u64);
            assert!(s.len > 0 && s.len <= CHUNK_SAMPLES);
            next += s.len;
        }
        assert_eq!(next, count);
    }
}

#[test]
fn reader_clock_tracks_taken_samples() {
    let mut clock = ReaderClock::new();
    assert_eq!(clock.frequency(), DEFAULT_FREQUENCY);
    assert!(clock.caught_up(0));
    assert!(clock.behind(10));
    clock.record_chunk(0, 1024);
    assert!(!clock.behind(1000));
    assert!(!clock.caught_up(1000));
    assert_eq!(clock.window(1000), 8192 + 24);
    assert_eq!(clock.window(5000), 8192);
    clock.set_frequency(48000);
    assert_eq!(clock.frequency(), 48000);
}

#[test]
fn processor_keeps_its_counter() {
    let counter = Arc::new(AtomicU64::new(5));
    let processor = Processor::new(counter.clone());
    let back = processor.into_counter();
    back.store(9, Ordering::Relaxed);
    assert_eq!(counter.load(Ordering::Relaxed), 9);
}

#[test]
fn popup_split_centres_the_popup() {
    assert_eq!(popup_split(40), (30, 40, 30));
    assert_eq!(popup_split(42), (29, 42, 29));
    assert_eq!(popup_split(21), (39, 21, 39));
    assert_eq!(popup_split(100), (0, 100, 0));
}

#[test]
fn resample_pass_stays_within_its_input() {
    let mut state = DecoderState::new();
    state.record_decoded(3000);
    let run = state.start_resample(3, 2);
    assert!(run.within(&state));
    let mut run2 = state.start_resample(1, 1);
    run2.advance(1000, 1000);
    state.finish_resample(&run2);
    assert!(!run.within(&state));
}

fn station(name: &str) -> Station {
    Station { name: name.to_string(), url: format!("http://{}.example", name) }
}

#[test]
fn search_popup_shows_prompt_or_query_then_the_search_state() {
    let lines = search_popup_lines("", &RadioState::Pending, 0);
    assert_eq!(lines.len(), 2);
    assert_eq!((lines[0].text.as_str(), lines[0].style), ("Type to search", PopupStyle::Hint));
    assert_eq!((lines[1].text.as_str(), lines[1].style), ("Loading stations...", PopupStyle::Loading));
    let lines = search_popup_lines("ja", &RadioState::Error("down".to_string()), 3);
    assert_eq!(lines.len(), 2);
    assert_eq!((lines[0].text.as_str(), lines[0].style), ("ja", PopupStyle::Query));
    assert_eq!(
        (lines[1].text.as_str(), lines[1].style),
        ("An error occurred loading stations", PopupStyle::Failure)
    );
}

#[test]
fn search_popup_lists_stations_from_the_cursor() {
    let radio = RadioState::Complete(vec![station("a"), station("b"), station("c"), station("d")]);
    let lines = search_popup_lines("x", &radio, 1);
    let shown: Vec<(&str, PopupStyle)> = lines.iter().map(|l| (l.text.as_str(), l.style)).collect();
    assert_eq!(
        shown,
        vec![
            ("x", PopupStyle::Query),
            ("b", PopupStyle::Selected),
            ("c", PopupStyle::Station),
            ("d", PopupStyle::Station),
        ]
    );
    assert_eq!(search_popup_lines("x", &radio, 4).len(), 1);
    assert_eq!(search_popup_lines("x", &RadioState::Complete(vec![]), 0).len(), 1);
}

#[test]
fn status_text_names_the_station_or_the_error() {
    let (text, failed) = status_text(&StreamState::Playing { name: "Jack Radio".to_string() });
    assert_eq!((text.as_str(), failed), ("Jack Radio", false));
    let (text, failed) = status_text(&StreamState::Error { message: "timeout".to_string() });
    assert_eq!((text.as_str(), failed), ("Stream error: timeout", true));
    let (text, failed) = status_text(&StreamState::Paused);
    assert_eq!((text.as_str(), failed), ("No Station Playing", false));
}

#[test]
fn the_last_volume_message_decides() {
    let mut state = DecoderState::new();
    state.handle_message(AudioPlaybackMessage::SetVolume(20));
    state.handle_message(AudioPlaybackMessage::StopStream);
    state.handle_message(AudioPlaybackMessage::SetVolume(70));
    assert_eq!(state.volume_percent(), 70);
}

#[test]
fn reader_takes_chunks_until_it_reaches_playback() {
    let mut clock = ReaderClock::new();
    let queued = vec![(0u64, 1024usize), (1024, 1024), (2048, 1024), (3072, 500)];
    assert_eq!(clock.catch_up(1500, &queued), 2);
    assert_eq!(clock.last_written(), 2048);
    let rest = vec![(2048u64, 1024usize), (3072, 500)];
    assert_eq!(clock.catch_up(10_000, &rest), 2);
    assert_eq!(clock.last_written(), 3572);
    assert_eq!(clock.catch_up(10_000, &Vec::new()), 0);
    assert_eq!(clock.last_written(), 3572);
    assert_eq!(clock.catch_up(3572, &vec![(3572u64, 10usize)]), 0);
    assert_eq!(clock.last_written(), 3572);
}

#[test]
fn visualisation_keeps_its_window_and_what_is_not_played() {
    let mut clock = ReaderClock::new();
    assert_eq!(clock.excess(9192, 0), 1000);
    assert_eq!(clock.excess(8000, 0), 0);
    clock.catch_up(1, &vec![(0u64, 1024usize)]);
    assert_eq!(clock.window(24), 8192 + 1000);
    assert_eq!(clock.excess(10_000, 24), 10_000 - 9192);
    assert_eq!(clock.excess(9192, 2000), 1000);
}

#[test]
fn decoder_reads_messages_in_the_order_sent() {
    let (tx, rx) = std::sync::mpsc::channel();
    let mut controller = surge::controller::AudioController::new(tx);
    controller.set_volume(5);
    controller.load_stream("http://a".to_string());
    controller.set_volume(9);
    controller.stop_stream();
    let mut state = DecoderState::new();
    let mut volumes = vec![state.volume_percent()];
    let mut steps = Vec::new();
    while let Ok(msg) = rx.try_recv() {
        steps.push(format!("{:?}", state.handle_message(msg)));
        volumes.push(state.volume_percent());
    }
    assert_eq!(volumes, vec![100, 5, 5, 9, 9]);
    assert_eq!(steps, vec!["Continue", "Connect(\"http://a\")", "Continue", "Disconnect"]);
}
