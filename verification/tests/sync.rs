use surge::radio::{poll_radio, RadioState, Station};
use surge::loader::{Loader, LoaderState};
use surge::signal::Signal;

#[test]
fn loader_is_pending_until_the_value_arrives_and_then_stays_done() {
    let (tx, rx) = oneshot::channel::<u32>();
    let mut loader = Loader::new(rx);
    assert!(matches!(loader.get_state(), LoaderState::Pending));
    tx.send(42).unwrap();
    assert!(matches!(loader.get_state(), LoaderState::Done(&42)));
    assert!(matches!(loader.get_state(), LoaderState::Done(&42)));
    assert_eq!(loader.take_state().ok(), Some(42));
}

#[test]
fn take_state_gives_back_a_pending_loader() {
    let (tx, rx) = oneshot::channel::<String>();
    let loader = Loader::new(rx);
    let loader = match loader.take_state() {
        Ok(_) => panic!("nothing was sent"),
        Err(l) => l,
    };
    tx.send("stations".to_string()).unwrap();
    assert_eq!(loader.take_state().ok().as_deref(), Some("stations"));
}

#[test]
fn loader_of_a_dropped_sender_stays_pending() {
    let (tx, rx) = oneshot::channel::<u8>();
    drop(tx);
    let mut loader = Loader::new(rx);
    assert!(matches!(loader.get_state(), LoaderState::Pending));
}

#[test]
fn finished_signal_does_not_block() {
    let signal = Signal::new();
    let waiter = signal.clone();
    signal.finish();
    waiter.wait();
    waiter.wait();
}

#[test]
fn default_signal_is_fresh() {
    let signal = Signal::default();
    let other = signal.clone();
    other.finish();
    signal.wait();
}

#[test]
fn poll_radio_reports_the_search_as_it_arrives() {
    let (tx, rx) = oneshot::channel::<Result<Vec<Station>, String>>();
    let mut loader = Loader::new(rx);
    assert!(matches!(poll_radio(&mut loader), RadioState::Pending));
    tx.send(Ok(vec![Station { name: "a".to_string(), url: "u".to_string() }])).unwrap();
    match poll_radio(&mut loader) {
        RadioState::Complete(list) => {
            assert_eq!(list.len(), 1);
            assert_eq!(list[0].name, "a");
            assert_eq!(list[0].url, "u");
        }
        other => panic!("unexpected {:?}", other),
    }
    assert!(matches!(poll_radio(&mut loader), RadioState::Complete(_)));
    let (tx, rx) = oneshot::channel::<Result<Vec<Station>, String>>();
    let mut failed = Loader::new(rx);
    tx.send(Err("offline".to_string())).unwrap();
    assert!(matches!(poll_radio(&mut failed), RadioState::Error(e) if e == "offline"));
}

#[test]
fn station_search_asks_for_the_most_clicked_stations_by_name() {
    let api = radiobrowser::blocking::RadioBrowserAPI::new_from_dns_a("localhost").unwrap();
    let search = format!("{:?}", surge::radio::station_search(&api, "jazz"));
    assert!(search.contains("\"name\": \"jazz\""), "{}", search);
    assert!(search.contains("\"limit\": \"20\""), "{}", search);
    assert!(search.contains("\"reverse\": \"true\""), "{}", search);
    assert!(search.contains("\"order\": \"clickcount\""), "{}", search);
}

#[test]
fn take_state_keeps_a_value_already_received() {
    let (tx, rx) = oneshot::channel::<u32>();
    let mut loader = Loader::new(rx);
    tx.send(7).unwrap();
    assert!(matches!(loader.get_state(), LoaderState::Done(&7)));
    assert_eq!(loader.take_state().ok(), Some(7));
}

#[test]
fn a_received_value_is_kept_and_reported() {
    let (_tx, rx) = oneshot::channel::<u32>();
    let mut loader = Loader::new(rx);
    loader.receive(None);
    assert!(matches!(loader.get_state(), LoaderState::Pending));
    loader.receive(Some(9));
    assert!(matches!(loader.get_state(), LoaderState::Done(&9)));
    assert_eq!(loader.take_state().ok(), Some(9));
}
