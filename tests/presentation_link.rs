use headless::presentation::{broadcast_outcome, PresentationLink, Screen};

#[test]
fn channel_paths_are_derived_from_base() {
    for _ in 0..2 {
        let link: PresentationLink<u32, u32> = PresentationLink::new("/tmp/x");
        assert_eq!(link.channel_path(Screen::Zero), "/tmp/x_0");
        assert_eq!(link.channel_path(Screen::One), "/tmp/x_1");
        assert!(!link.has_process(Screen::Zero));
        assert!(!link.has_channel(Screen::One));
    }
}

#[test]
fn terminate_twice_is_safe() {
    let mut link: PresentationLink<u32, u32> = PresentationLink::new("/tmp/mpvsocket");
    link.track_process(Screen::Zero, 10);
    link.track_process(Screen::One, 11);
    link.attach_channel(Screen::Zero, 20);
    link.attach_channel(Screen::One, 21);
    assert_eq!(link.terminate_all(), (Some(10), Some(11)));
    assert!(!link.has_channel(Screen::Zero));
    assert!(!link.has_channel(Screen::One));
    assert_eq!(link.terminate_all(), (None, None));
    assert_eq!(link.channel_path(Screen::One), "/tmp/mpvsocket_1");
}

#[test]
fn terminate_without_launch() {
    let mut link: PresentationLink<u32, u32> = PresentationLink::new("/tmp/a");
    assert_eq!(link.terminate_all(), (None, None));
}

#[test]
fn take_and_attach_channel() {
    let mut link: PresentationLink<u32, u32> = PresentationLink::new("/tmp/a");
    link.attach_channel(Screen::One, 5);
    assert_eq!(link.take_channel(Screen::Zero), None);
    assert_eq!(link.take_channel(Screen::One), Some(5));
    assert!(!link.has_channel(Screen::One));
}

#[test]
fn broadcast_with_one_channel_succeeds() {
    assert_eq!(broadcast_outcome::<u8>(None, Some(Ok(()))), Ok(()));
    assert_eq!(broadcast_outcome::<u8>(Some(Ok(())), None), Ok(()));
    assert_eq!(broadcast_outcome::<u8>(None, None), Ok(()));
}

#[test]
fn broadcast_first_failure_wins() {
    assert_eq!(broadcast_outcome::<u8>(Some(Err(1)), Some(Err(2))), Err(1));
    assert_eq!(broadcast_outcome::<u8>(Some(Ok(())), Some(Err(2))), Err(2));
    assert_eq!(broadcast_outcome::<u8>(Some(Err(1)), None), Err(1));
}
