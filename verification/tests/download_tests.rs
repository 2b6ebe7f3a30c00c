use walkers::download::{
    check_status, decode_tile, FetchError, HttpOptions, Phase, Scheduler, SchedulerAction,
    SchedulerEvent, MAX_IN_FLIGHT,
};
use walkers::tiles::TileId;

fn tile(n: u32) -> TileId {
    TileId::new(n, n, 10)
}

#[test]
fn burst_saturates_at_the_ceiling() {
    // A burst of more than six requests against a source that never
    // completes: exactly six fetches start, then the loop stops pulling.
    let mut s = Scheduler::new();
    assert_eq!(s.phase(), Phase::Idle);
    let mut started: usize = 0;
    for n in 0..20u32 {
        if !s.wants_request() {
            break;
        }
        let action = s.step(SchedulerEvent::RequestArrived(tile(n)));
        assert_eq!(action, SchedulerAction::StartFetch(tile(n)));
        started += 1;
    }
    assert_eq!(started, MAX_IN_FLIGHT);
    assert_eq!(s.in_flight_count(), MAX_IN_FLIGHT);
    assert_eq!(s.phase(), Phase::Saturated);
    assert!(!s.wants_request());
}

#[test]
fn completion_admits_the_next_buffered_request() {
    // Saturated -> Filling -> pulls the next request.
    let mut s = Scheduler::new();
    for n in 0..MAX_IN_FLIGHT as u32 {
        s.step(SchedulerEvent::RequestArrived(tile(n)));
    }
    assert_eq!(s.phase(), Phase::Saturated);

    let action = s.step(SchedulerEvent::FetchCompleted(0, Ok(())));
    assert_eq!(action, SchedulerAction::Deliver(tile(0)));
    assert_eq!(s.phase(), Phase::Filling);
    assert!(s.wants_request());

    let action = s.step(SchedulerEvent::RequestArrived(tile(99)));
    assert_eq!(action, SchedulerAction::StartFetch(tile(99)));
    assert_eq!(s.in_flight_count(), MAX_IN_FLIGHT);
}

#[test]
fn transport_failure_is_discarded_and_the_loop_goes_on() {
    // A fetch stub failing tile {1,2,3} with a transport error: nothing is
    // delivered, the failure is handed out for the log, and further
    // requests are accepted.
    let mut s = Scheduler::new();
    let failing = TileId::new(1, 2, 3);
    assert_eq!(
        s.step(SchedulerEvent::RequestArrived(failing)),
        SchedulerAction::StartFetch(failing)
    );
    let action = s.step(SchedulerEvent::FetchCompleted(0, Err(FetchError::TransportFailure)));
    assert_eq!(action, SchedulerAction::Discard(failing, FetchError::TransportFailure));
    assert_eq!(s.in_flight_count(), 0);
    assert_eq!(s.phase(), Phase::Idle);
    assert_eq!(
        s.step(SchedulerEvent::RequestArrived(tile(4))),
        SchedulerAction::StartFetch(tile(4))
    );
}

#[test]
fn completions_free_their_slot_in_any_order() {
    let mut s = Scheduler::new();
    for n in 0..3u32 {
        s.step(SchedulerEvent::RequestArrived(tile(n)));
    }
    let action = s.step(SchedulerEvent::FetchCompleted(1, Ok(())));
    assert_eq!(action, SchedulerAction::Deliver(tile(1)));
    let action = s.step(SchedulerEvent::FetchCompleted(1, Ok(())));
    assert_eq!(action, SchedulerAction::Deliver(tile(2)));
    let action = s.step(SchedulerEvent::FetchCompleted(0, Ok(())));
    assert_eq!(action, SchedulerAction::Deliver(tile(0)));
    assert_eq!(s.phase(), Phase::Idle);
}

#[test]
fn closed_channels_shut_the_loop_down() {
    let mut s = Scheduler::new();
    assert_eq!(s.step(SchedulerEvent::RequestChannelClosed), SchedulerAction::Shutdown);
    assert_eq!(s.step(SchedulerEvent::DeliveryFailed), SchedulerAction::Shutdown);
}

#[test]
fn statuses_outside_success_are_response_failures() {
    assert!(check_status(200).is_ok());
    assert!(check_status(204).is_ok());
    assert!(check_status(299).is_ok());
    assert_eq!(check_status(199), Err(FetchError::ResponseFailure));
    assert_eq!(check_status(302), Err(FetchError::ResponseFailure));
    assert_eq!(check_status(404), Err(FetchError::ResponseFailure));
    assert_eq!(check_status(500), Err(FetchError::ResponseFailure));
}

#[test]
fn bytes_no_decoder_accepts_are_a_decode_failure() {
    let garbage: Vec<u8> = vec![0x00, 0x01, 0x02, 0x03, 0xff];
    match decode_tile(&garbage) {
        Err(e) => assert_eq!(e, FetchError::DecodeFailure),
        Ok(_) => panic!("garbage must not decode"),
    }
    let empty: Vec<u8> = Vec::new();
    assert!(decode_tile(&empty).is_err());
}

#[test]
fn a_real_png_decodes() {
    // Encode a tiny image with the same backend, then decode it through
    // the library.
    let img = image::RgbaImage::new(2, 2);
    let mut bytes: Vec<u8> = Vec::new();
    img.write_to(&mut std::io::Cursor::new(&mut bytes), image::ImageFormat::Png)
        .expect("encoding a fresh image succeeds");
    let decoded = decode_tile(&bytes).expect("a png must decode");
    assert_eq!(decoded.width(), 2);
    assert_eq!(decoded.height(), 2);
}

#[test]
fn http_options_default_has_no_cache() {
    let options = HttpOptions::default();
    assert!(options.cache.is_none());
}
