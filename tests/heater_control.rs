use headless::heater::{ack_buffer, command, HeaterController, HeaterState, ACK_BUFFER_LEN, BAUD_RATE};

#[test]
fn commands_are_on_and_off_with_carriage_return() {
    assert_eq!(command(HeaterState::On), b"on\r".to_vec());
    assert_eq!(command(HeaterState::Off), b"off\r".to_vec());
    assert_eq!(BAUD_RATE, 115200);
}

#[test]
fn ack_buffer_is_zeroed() {
    let b = ack_buffer();
    assert_eq!(b.len(), ACK_BUFFER_LEN);
    assert_eq!(ACK_BUFFER_LEN, 64);
    assert!(b.iter().all(|x| *x == 0));
}

#[test]
fn on_then_off_records_off() {
    let mut h = HeaterController::new(());
    assert_eq!(h.state(), HeaterState::Off);
    assert_eq!(h.finish_exchange::<u8>(HeaterState::On, Ok(0)), Ok(()));
    assert_eq!(h.state(), HeaterState::On);
    assert_eq!(h.finish_exchange::<u8>(HeaterState::Off, Ok(64)), Ok(()));
    assert_eq!(h.state(), HeaterState::Off);
}

#[test]
fn failed_exchange_keeps_state() {
    let mut h = HeaterController::new(7u8);
    assert_eq!(h.finish_exchange::<u8>(HeaterState::On, Ok(3)), Ok(()));
    assert_eq!(h.finish_exchange(HeaterState::Off, Err("timed out")), Err("timed out"));
    assert_eq!(h.state(), HeaterState::On);
    *h.port_mut() = 9;
    assert_eq!(*h.port_mut(), 9);
    assert_eq!(h.state(), HeaterState::On);
}
