use pomodoro::config::Config;
use pomodoro::interval::IntervalKind;
use pomodoro::interval::State;
use pomodoro::sequence::Workflow;

fn expected_block() -> Vec<IntervalKind> {
    vec![
        IntervalKind::Work,
        IntervalKind::ShortBreak,
        IntervalKind::Work,
        IntervalKind::ShortBreak,
        IntervalKind::Work,
        IntervalKind::ShortBreak,
        IntervalKind::Work,
        IntervalKind::LongBreak,
    ]
}

#[test]
fn first_eight_kinds_and_messages() {
    let mut workflow = Workflow::new(Config::new());
    let expected = expected_block();
    for n in 0..8 {
        let state = workflow.next().unwrap();
        assert_eq!(state.kind, expected[n]);
        match state.kind {
            IntervalKind::Work => {
                assert_eq!(state.start_message.as_str(), "Time to work!");
                assert_eq!(state.end_message.as_str(), "Time to rest.");
                assert_eq!(state.duration_secs, 25 * 60);
            }
            IntervalKind::ShortBreak => {
                assert_eq!(state.start_message.as_str(), "Short break.");
                assert_eq!(state.end_message.as_str(), "Break is over.");
                assert_eq!(state.duration_secs, 5 * 60);
            }
            IntervalKind::LongBreak => {
                assert_eq!(state.start_message.as_str(), "Long break.");
                assert_eq!(state.end_message.as_str(), "Break is over.");
                assert_eq!(state.duration_secs, 25 * 60);
            }
        }
    }
}

#[test]
fn block_repeats_exactly() {
    let mut workflow = Workflow::new(Config::new());
    let expected = expected_block();
    for n in 0..32 {
        let state = workflow.next().unwrap();
        assert_eq!(state.kind, expected[n % 8], "position {}", n);
    }
}

#[test]
fn two_generators_agree() {
    let mut a = Workflow::new(Config::new());
    let mut b = Workflow::new(Config::new());
    for _ in 0..24 {
        let sa = a.next().unwrap();
        let sb = b.next().unwrap();
        assert_eq!(sa.kind, sb.kind);
        assert_eq!(sa.duration_secs, sb.duration_secs);
        assert_eq!(sa.start_message, sb.start_message);
        assert_eq!(sa.end_message, sb.end_message);
    }
}

#[test]
fn config_holds_given_values() {
    let config = Config::new();
    assert_eq!(config.pomodoro_duration_secs, 1500);
    assert_eq!(config.short_break_duration_secs, 300);
    assert_eq!(config.long_break_duration_secs, 1500);
    assert_eq!(config.pomodoro_start_msg.as_str(), "Time to work!");
    assert_eq!(config.pomodoro_end_msg.as_str(), "Time to rest.");
    assert_eq!(config.short_break_start_msg.as_str(), "Short break.");
    assert_eq!(config.short_break_end_msg.as_str(), "Break is over.");
    assert_eq!(config.long_break_start_msg.as_str(), "Long break.");
    assert_eq!(config.long_break_end_msg.as_str(), "Break is over.");
}

#[test]
fn descriptor_for_copies_the_configured_values() {
    let config = Config::new();
    let descriptor = config.descriptor_for(IntervalKind::ShortBreak);
    assert_eq!(descriptor.kind, IntervalKind::ShortBreak);
    assert_eq!(descriptor.duration_secs, 300);
    assert_eq!(descriptor.start_message.as_str(), "Short break.");
    assert_eq!(descriptor.end_message.as_str(), "Break is over.");
}

#[test]
fn state_new_keeps_its_arguments() {
    let state = State::new(
        IntervalKind::LongBreak,
        7,
        String::from("begin"),
        String::from("done"),
    );
    assert_eq!(state.kind, IntervalKind::LongBreak);
    assert_eq!(state.duration_secs, 7);
    assert_eq!(state.start_message.as_str(), "begin");
    assert_eq!(state.end_message.as_str(), "done");
}
