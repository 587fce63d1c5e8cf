use relay::state::State;

#[test]
fn state_starts_empty() {
    assert_eq!(State::new(), State { last_seen: 0, connected: false });
    assert_eq!(State::default(), State::new());
    assert_eq!(State::new().last_seen(), 0);
    assert!(!State::new().connected());
}

#[test]
fn stores_touch_one_field_each() {
    let mut state = State::new();
    state.store_last_seen(12);
    assert_eq!(state, State { last_seen: 12, connected: false });
    state.store_connected(true);
    assert_eq!(state, State { last_seen: 12, connected: true });
    state.store_last_seen(u32::MAX);
    assert_eq!(state.last_seen(), u32::MAX);
    assert!(state.connected());
    state.store_last_seen(0);
    state.store_connected(false);
    assert_eq!(state, State::default());
}
