use demo_oracles::average_btcusd::{assess, Verdict, WebSocket};
use demo_oracles::command::Window;
use demo_oracles::counter::Counter;
use demo_oracles::key_counter::{generate_key_pair, verify_signature, KeyCounter};
use demo_oracles::price::render;
use demo_oracles::ws_process::{
    advance, begin, enter_summary, register, report_path, report_text, seal_average, seal_with,
    Action, Phase,
};

fn feed(msg: Option<&str>) -> WebSocket {
    WebSocket::new(
        "wss://feed.example/ws".to_string(),
        msg.map(|text| text.to_string()),
        "example".to_string(),
        "/data/price".to_string(),
    )
}

fn average(value: f64) -> u64 {
    value.to_bits()
}

/// Runs a listener to its end and lists what it asked for.
fn actions(config: &WebSocket, seconds: u64, outcomes: &[bool]) -> (Phase, Vec<Action>) {
    let window = Window::new(seconds).expect("window");
    let (mut phase, first) = begin(config);
    let mut asked = vec![first];
    for outcome in outcomes {
        let (next, action) = advance(config, &window, phase, *outcome);
        phase = next;
        asked.push(action);
    }
    (phase, asked)
}

#[test]
fn listener_begins_by_connecting() {
    let (phase, action) = begin(&feed(None));
    assert_eq!(phase, Phase::Connecting);
    assert_eq!(action, Action::Connect("wss://feed.example/ws".to_string()));
}

#[test]
fn listener_with_subscribe_text_runs_every_step() {
    let config = feed(Some("{\"op\":\"subscribe\"}"));
    let (phase, asked) = actions(&config, 9, &[true; 6]);
    assert_eq!(phase, Phase::Finished);
    assert_eq!(
        asked,
        vec![
            Action::Connect("wss://feed.example/ws".to_string()),
            Action::Subscribe("{\"op\":\"subscribe\"}".to_string()),
            Action::Collect(9),
            Action::Close,
            Action::Report,
            Action::Seal,
            Action::Stop,
        ]
    );
}

#[test]
fn listener_without_subscribe_text_sends_none() {
    let config = feed(None);
    let (phase, asked) = actions(&config, 30, &[true; 5]);
    assert_eq!(phase, Phase::Finished);
    assert_eq!(
        asked,
        vec![
            Action::Connect("wss://feed.example/ws".to_string()),
            Action::Collect(30),
            Action::Close,
            Action::Report,
            Action::Seal,
            Action::Stop,
        ]
    );
}

#[test]
fn failed_connection_ends_the_listener() {
    let config = feed(Some("subscribe"));
    let (phase, asked) = actions(&config, 9, &[false]);
    assert_eq!(phase, Phase::Failed);
    assert_eq!(asked.last(), Some(&Action::Stop));
    assert_eq!(asked.len(), 2);
}

#[test]
fn failure_at_any_step_ends_the_listener() {
    let config = feed(Some("subscribe"));
    for steps in 0..6 {
        let mut outcomes = vec![true; steps];
        outcomes.push(false);
        outcomes.push(true);
        outcomes.push(true);
        let (phase, asked) = actions(&config, 9, &outcomes);
        assert_eq!(phase, Phase::Failed);
        assert_eq!(&asked[steps + 1..], &[Action::Stop, Action::Stop, Action::Stop]);
        assert!(asked[..=steps].iter().all(|action| *action != Action::Stop));
    }
}

#[test]
fn finished_listener_asks_for_nothing_more() {
    let config = feed(None);
    let (phase, asked) = actions(&config, 9, &[true, true, true, true, true, false, true]);
    assert_eq!(phase, Phase::Finished);
    assert_eq!(&asked[5..], &[Action::Stop, Action::Stop, Action::Stop]);
}

#[test]
fn close_and_subscribe_go_out_once() {
    let config = feed(Some("subscribe"));
    for pattern in 0u32..256 {
        let outcomes: Vec<bool> = (0..8).map(|bit| pattern & (1 << bit) != 0).collect();
        let (_, asked) = actions(&config, 9, &outcomes);
        let closes = asked.iter().filter(|a| **a == Action::Close).count();
        let subscribes = asked.iter().filter(|a| matches!(a, Action::Subscribe(_))).count();
        let connects = asked.iter().filter(|a| matches!(a, Action::Connect(_))).count();
        let seals = asked.iter().filter(|a| **a == Action::Seal).count();
        assert!(closes <= 1 && subscribes <= 1 && seals <= 1);
        assert_eq!(connects, 1);
    }
}

#[test]
fn terminal_phases_are_told() {
    assert!(Phase::Finished.is_terminal());
    assert!(Phase::Failed.is_terminal());
    for phase in [
        Phase::Connecting,
        Phase::Subscribing,
        Phase::Collecting,
        Phase::Closing,
        Phase::Reporting,
        Phase::Sealing,
    ] {
        assert!(!phase.is_terminal());
    }
}

#[test]
fn report_path_names_the_feed() {
    assert_eq!(report_path("kraken"), "result_data/kraken_result_and_data_points.txt");
    assert_eq!(report_path(""), "result_data/_result_and_data_points.txt");
}

#[test]
fn report_text_lists_average_and_data() {
    assert_eq!(
        report_text(&42.25f64.to_string(), "first\nsecond"),
        "average 42.25\nData points: \nfirst\nsecond"
    );
    assert_eq!(report_text(&0.0f64.to_string(), ""), "average 0\nData points: \n");
}

#[test]
fn sealed_average_verifies_against_the_registry() {
    let mut registry = KeyCounter::new();
    let sealed = seal_average("kraken".to_string(), average(67123.5)).expect("sealing failed");
    let key = sealed.verifying_key().clone();
    assert_eq!(sealed.feed_result().name, "kraken");
    assert!(verify_signature(&key, &render(average(67123.5)), &sealed.feed_result().signature));

    let result = register(&mut registry, sealed);
    assert_eq!(result.name, "kraken");
    assert_eq!(result.average, average(67123.5));
    assert!(registry.contains("kraken"));
    assert_eq!(registry.len(), 1);
    assert_eq!(registry.lookup("kraken"), &key);
    let text = render(average(67123.5));
    assert!(verify_signature(registry.lookup("kraken"), &text, &result.signature));
    assert!(!verify_signature(registry.lookup("kraken"), "67123.5", &result.signature));
    assert!(!verify_signature(
        registry.lookup("kraken"),
        &render(average(67123.6)),
        &result.signature
    ));
    assert_eq!(assess(&result, &registry), Verdict::Accepted);
}

#[test]
fn summary_takes_every_average_but_zero() {
    let mut summary = Counter::new();
    enter_summary(&mut summary, average(67123.5), "frame".to_string());
    enter_summary(&mut summary, average(0.0), "nothing".to_string());
    enter_summary(&mut summary, average(-0.0), "nothing".to_string());
    enter_summary(&mut summary, average(-2.0), "a\nb".to_string());
    enter_summary(&mut summary, average(f64::NAN), String::new());

    assert_eq!(
        summary.prices(),
        vec![67123.5f64.to_bits(), (-2.0f64).to_bits(), f64::NAN.to_bits()]
    );
    assert_eq!(summary.joined_data(), "frame\na\nb\n");
}

#[test]
fn sealing_a_window_without_data_still_signs() {
    let mut registry = KeyCounter::new();
    let sealed = seal_average("quiet".to_string(), average(0.0)).expect("sealing failed");
    let result = register(&mut registry, sealed);

    assert!(registry.contains("quiet"));
    assert!(verify_signature(registry.lookup("quiet"), "0000000000000000", &result.signature));
    assert_eq!(assess(&result, &registry), Verdict::NoData);
}

#[test]
fn sealing_again_replaces_the_key() {
    let mut registry = KeyCounter::new();
    let first = register(
        &mut registry,
        seal_average("kraken".to_string(), average(100.0)).expect("sealing failed"),
    );
    let second = register(
        &mut registry,
        seal_average("kraken".to_string(), average(200.0)).expect("sealing failed"),
    );

    assert_eq!(registry.len(), 1);
    assert_eq!(assess(&second, &registry), Verdict::Accepted);
    assert_eq!(assess(&first, &registry), Verdict::Forged);
}

#[test]
fn registering_leaves_other_feeds_alone() {
    let mut registry = KeyCounter::new();
    let names = ["kraken", "binance", "bitstamp", "coinbase"];
    let mut results = Vec::new();
    for (at, name) in names.iter().enumerate() {
        let sealed = seal_average(name.to_string(), average(100.0 + at as f64))
            .expect("sealing failed");
        results.push(register(&mut registry, sealed));
    }
    assert_eq!(registry.len(), 4);
    for result in &results {
        assert_eq!(assess(result, &registry), Verdict::Accepted);
    }
}

#[test]
fn seal_with_signs_under_the_given_pair() {
    let mut registry = KeyCounter::new();
    let (private_key, public_key) = generate_key_pair();
    let sealed = seal_with("bitstamp".to_string(), average(300.0), (private_key, public_key.clone()))
        .expect("sealing failed");
    assert_eq!(sealed.verifying_key(), &public_key);

    let result = register(&mut registry, sealed);
    assert_eq!(registry.lookup("bitstamp"), &public_key);
    assert!(verify_signature(&public_key, &render(average(300.0)), &result.signature));
    assert_eq!(result.average, average(300.0));
}
