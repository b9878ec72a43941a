use sine_engine::action::Action;

#[test]
fn parses_each_command_exactly() {
    assert_eq!(Action::from_str("PLAY"), Ok(Action::Play));
    assert_eq!(Action::from_str("STOP"), Ok(Action::Stop));
    assert_eq!(Action::from_str("DONE"), Ok(Action::Done));
    assert_eq!(Action::from_str("TICK"), Ok(Action::Tick));
}

#[test]
fn rejects_unrecognized_text() {
    assert_eq!(Action::from_str(""), Err(()));
    assert_eq!(Action::from_str("play"), Err(()));
    assert_eq!(Action::from_str("Play"), Err(()));
    assert_eq!(Action::from_str("PLAY "), Err(()));
    assert_eq!(Action::from_str(" PLAY"), Err(()));
    assert_eq!(Action::from_str("PAUSE"), Err(()));
    assert_eq!(Action::from_str("TICKS"), Err(()));
    assert_eq!(Action::from_str("TIC"), Err(()));
    assert_eq!(Action::from_str("done"), Err(()));
}

#[test]
fn rejects_non_ascii_payloads() {
    assert_eq!(Action::from_str("PLÄY"), Err(()));
    assert_eq!(Action::from_str("停止"), Err(()));
}
