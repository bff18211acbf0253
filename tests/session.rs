use std::cell::RefCell;

use saitek_fip::codec::{ControlPacket, Request, CONTROL_PACKET_LEN};
use saitek_fip::registry::Registry;
use saitek_fip::session::{
    clear_image_request, delete_file_request, display_file_request, operation_outcome,
    probe_request, save_file_request, set_image_request, set_led_request, Action, DeviceError,
    Event, Response, Session, SessionState, TransportFailure,
};
use saitek_fip::FRAMEBUFFER_LEN;

fn answer(request: Request, error: bool) -> ControlPacket {
    let mut p = ControlPacket::new(request);
    if error {
        p.request_error = 1;
    }
    p
}

/// Runs one exchange against a device that takes every write whole and
/// answers with `response`.
fn exchange(s: &mut Session, first: Action, response: &ControlPacket) -> (Vec<Vec<u8>>, Action) {
    let mut written = Vec::new();
    let mut action = first;
    loop {
        action = match action {
            Action::Write(bytes) => {
                let n = bytes.len();
                written.push(bytes);
                s.on_event(Event::Written(Ok(n)))
            }
            Action::Read(n) => {
                if n == CONTROL_PACKET_LEN {
                    s.on_event(Event::Received(Ok(response.encode())))
                } else {
                    s.on_event(Event::Received(Ok(vec![0; n])))
                }
            }
            done => return (written, done),
        }
    }
}

fn ready_session() -> Session {
    let mut s = Session::new();
    let first = s.begin_probe();
    let (_, done) = exchange(&mut s, first, &answer(Request::SomeFactoryModeRequest, true));
    let probe = match done {
        Action::Done(r) => r,
        _ => unreachable!(),
    };
    let clear = s.finish_handshake("SN-1".to_string(), probe);
    assert_eq!(clear, Action::Write(clear_image_request(0).encode()));
    let (_, done) = exchange(&mut s, clear, &answer(Request::ClearImage, false));
    assert!(matches!(done, Action::Done(Ok(_))));
    s
}

#[test]
fn probe_with_error_flag_makes_session_ready() {
    let s = ready_session();
    assert!(s.ready());
    assert_eq!(s.serial_number(), Ok("SN-1".to_string()));
    let guid = s.device_type_uuid().unwrap();
    assert_eq!(guid.data1, 0x3E083CD8);
    assert_eq!(guid.data2, 0x6A37);
    assert_eq!(guid.data3, 0x4A58);
    assert_eq!(guid.data4, [0x80, 0xA8, 0x3D, 0x6A, 0x2C, 0x07, 0x51, 0x3E]);
}

#[test]
fn error_free_probe_means_factory_mode() {
    let mut s = Session::new();
    let first = s.begin_probe();
    assert_eq!(first, Action::Write(probe_request().encode()));
    let (_, done) = exchange(&mut s, first, &answer(Request::SomeFactoryModeRequest, false));
    let probe = match done {
        Action::Done(r) => r,
        _ => unreachable!(),
    };
    assert_eq!(
        s.finish_handshake("SN-2".to_string(), probe),
        Action::Done(Err(DeviceError::FactoryModeRejection))
    );
    assert!(!s.ready());
    assert_eq!(s.state(), SessionState::Invalid(DeviceError::FactoryModeRejection));
    assert_eq!(s.set_led(0, 1, true), Action::Done(Err(DeviceError::FactoryModeRejection)));
    assert_eq!(s.clear_image(0), Action::Done(Err(DeviceError::FactoryModeRejection)));
    assert_eq!(s.serial_number(), Err(DeviceError::FactoryModeRejection));
}

#[test]
fn failed_probe_is_an_initialization_error() {
    let mut s = Session::new();
    assert_eq!(
        s.finish_handshake("x".to_string(), Err(DeviceError::Transport(TransportFailure::Timeout))),
        Action::Done(Err(DeviceError::Initialization))
    );
    assert_eq!(s.state(), SessionState::Invalid(DeviceError::Initialization));
    let mut t = Session::new();
    t.fail_initialization();
    assert_eq!(t.state(), SessionState::Invalid(DeviceError::Initialization));
    assert_eq!(t.set_led(0, 0, false), Action::Done(Err(DeviceError::Initialization)));
}

#[test]
fn handshake_is_settled_only_once() {
    let mut s = ready_session();
    let probe = Ok(Response { packet: answer(Request::SomeFactoryModeRequest, false), payload: vec![] });
    assert_eq!(
        s.finish_handshake("other".to_string(), probe),
        Action::Done(Err(DeviceError::OutOfSequence))
    );
    assert!(s.ready());
    assert_eq!(s.serial_number(), Ok("SN-1".to_string()));
}

#[test]
fn uninitialized_session_refuses_operations() {
    let mut s = Session::new();
    assert_eq!(s.set_led(0, 1, true), Action::Done(Err(DeviceError::Initialization)));
    assert!(!s.is_busy());
}

#[test]
fn short_image_is_rejected_before_transport() {
    let mut s = ready_session();
    assert_eq!(
        s.set_image_data(0, vec![0; FRAMEBUFFER_LEN - 1]),
        Action::Done(Err(DeviceError::BadPayloadSize))
    );
    assert_eq!(s.set_image_data(0, vec![]), Action::Done(Err(DeviceError::BadPayloadSize)));
    assert!(!s.is_busy());
    assert!(s.ready());
}

#[test]
fn full_image_is_sent_after_its_frame() {
    let mut s = ready_session();
    let first = s.set_image_data(2, vec![7; FRAMEBUFFER_LEN]);
    let (written, done) = exchange(&mut s, first, &answer(Request::SetImage, false));
    assert_eq!(written.len(), 2);
    assert_eq!(written[0], set_image_request(2, FRAMEBUFFER_LEN).encode());
    assert_eq!(written[1].len(), FRAMEBUFFER_LEN);
    assert!(matches!(done, Action::Done(Ok(_))));
}

#[test]
fn set_led_exchange_succeeds() {
    let mut s = ready_session();
    let first = s.set_led(0, 1, true);
    let (written, done) = exchange(&mut s, first, &answer(Request::SetLed, false));
    assert_eq!(written, vec![set_led_request(0, 1, true).encode()]);
    let result = match done {
        Action::Done(r) => r,
        _ => unreachable!(),
    };
    assert_eq!(operation_outcome(&result), Ok(()));
}

#[test]
fn error_flags_in_response_fail_the_operation() {
    let mut s = ready_session();
    let first = s.clear_image(1);
    let (_, done) = exchange(&mut s, first, &answer(Request::ClearImage, true));
    let result = match done {
        Action::Done(r) => r,
        _ => unreachable!(),
    };
    assert_eq!(operation_outcome(&result), Err(DeviceError::Protocol));
    assert!(s.ready());
}

#[test]
fn no_second_request_while_one_is_open() {
    let mut s = ready_session();
    let first = s.set_led(0, 1, true);
    assert!(matches!(first, Action::Write(_)));
    assert!(s.is_busy());
    assert_eq!(s.clear_image(0), Action::Done(Err(DeviceError::Busy)));
    assert_eq!(s.on_event(Event::Written(Ok(CONTROL_PACKET_LEN))), Action::Read(CONTROL_PACKET_LEN));
    assert_eq!(s.clear_image(0), Action::Done(Err(DeviceError::Busy)));
    let response = answer(Request::SetLed, false);
    assert_eq!(
        s.on_event(Event::Received(Ok(response.encode()))),
        Action::Done(Ok(Response { packet: response, payload: vec![] }))
    );
    assert!(!s.is_busy());
    assert!(matches!(s.clear_image(0), Action::Write(_)));
}

#[test]
fn interleaved_calls_each_get_their_own_response() {
    let mut s = ready_session();
    for i in 0..100u32 {
        let (first, request) = if i % 2 == 0 {
            (s.set_led(0, (i % 7) as u8, true), Request::SetLed)
        } else {
            (s.clear_image((i % 3) as u8), Request::ClearImage)
        };
        let mut response = answer(request, false);
        response.server_id = i;
        let (written, done) = exchange(&mut s, first, &response);
        assert_eq!(written.len(), 1);
        assert_eq!(ControlPacket::decode(&written[0]).unwrap().request(), Some(request));
        assert_eq!(done, Action::Done(Ok(Response { packet: response, payload: vec![] })));
    }
}

#[test]
fn removed_device_invalidates_session() {
    let mut s = ready_session();
    let first = s.set_led(0, 1, true);
    assert!(matches!(first, Action::Write(_)));
    assert_eq!(
        s.on_event(Event::Written(Err(TransportFailure::NoDevice))),
        Action::Done(Err(DeviceError::Transport(TransportFailure::NoDevice)))
    );
    assert_eq!(
        s.state(),
        SessionState::Invalid(DeviceError::Transport(TransportFailure::NoDevice))
    );
    assert_eq!(
        s.set_led(0, 1, true),
        Action::Done(Err(DeviceError::Transport(TransportFailure::NoDevice)))
    );
}

#[test]
fn timeout_ends_the_session() {
    let mut s = ready_session();
    let _ = s.clear_image(0);
    let _ = s.on_event(Event::Written(Ok(CONTROL_PACKET_LEN)));
    assert_eq!(
        s.on_event(Event::Received(Err(TransportFailure::Timeout))),
        Action::Done(Err(DeviceError::Transport(TransportFailure::Timeout)))
    );
    assert!(!s.ready());
    assert!(!s.is_busy());
    assert_eq!(
        s.state(),
        SessionState::Invalid(DeviceError::Transport(TransportFailure::Timeout))
    );
    assert_eq!(
        s.set_led(0, 1, true),
        Action::Done(Err(DeviceError::Transport(TransportFailure::Timeout)))
    );
}

#[test]
fn short_transfers_are_transport_failures() {
    let mut s = ready_session();
    let _ = s.set_led(0, 0, false);
    assert_eq!(
        s.on_event(Event::Written(Ok(10))),
        Action::Done(Err(DeviceError::Transport(TransportFailure::ShortTransfer)))
    );
    assert!(!s.ready());

    let mut t = ready_session();
    let _ = t.set_led(0, 0, false);
    let _ = t.on_event(Event::Written(Ok(CONTROL_PACKET_LEN)));
    assert_eq!(
        t.on_event(Event::Received(Ok(vec![0; 20]))),
        Action::Done(Err(DeviceError::Transport(TransportFailure::ShortTransfer)))
    );
}

#[test]
fn response_payload_is_handed_out() {
    let mut s = ready_session();
    let _ = s.clear_image(0);
    let _ = s.on_event(Event::Written(Ok(CONTROL_PACKET_LEN)));
    let mut response = answer(Request::ClearImage, false);
    response.data_size = 3;
    assert_eq!(s.on_event(Event::Received(Ok(response.encode()))), Action::Read(3));
    assert_eq!(
        s.on_event(Event::Received(Ok(vec![1, 2, 3]))),
        Action::Done(Ok(Response { packet: response, payload: vec![1, 2, 3] }))
    );
}

#[test]
fn oversize_response_payload_poisons_session() {
    let mut s = ready_session();
    let _ = s.clear_image(0);
    let _ = s.on_event(Event::Written(Ok(CONTROL_PACKET_LEN)));
    let mut response = answer(Request::ClearImage, false);
    response.data_size = 512 * 1024;
    assert_eq!(
        s.on_event(Event::Received(Ok(response.encode()))),
        Action::Done(Err(DeviceError::Desynchronized))
    );
    assert_eq!(s.state(), SessionState::Invalid(DeviceError::Desynchronized));
}

#[test]
fn events_without_an_exchange_are_out_of_sequence() {
    let mut s = ready_session();
    assert_eq!(s.on_event(Event::Written(Ok(44))), Action::Done(Err(DeviceError::OutOfSequence)));
    let _ = s.set_led(0, 0, true);
    assert_eq!(
        s.on_event(Event::Received(Ok(vec![0; 44]))),
        Action::Done(Err(DeviceError::OutOfSequence))
    );
    assert!(s.ready());
}

#[test]
fn file_requests_fill_their_parameters() {
    let p = save_file_request(1, 9, 100);
    assert_eq!((p.request, p.param_1, p.param_2, p.param_3, p.data_size), (0x03, 1, 0, 9, 100));
    let p = display_file_request(1, 2, 9);
    assert_eq!((p.request, p.param_1, p.param_2, p.param_3, p.data_size), (0x04, 1, 2, 9, 0));
    let p = delete_file_request(1, 9);
    assert_eq!((p.request, p.param_1, p.param_2, p.param_3, p.data_size), (0x07, 1, 0, 9, 0));
    let p = clear_image_request(4);
    assert_eq!((p.request, p.page, p.param_1), (0x13, 4, 0));
    let p = set_led_request(2, 5, true);
    assert_eq!((p.request, p.param_1, p.param_2, p.param_3), (0x18, 2, 5, 1));
}

#[test]
fn save_file_sends_its_payload() {
    let mut s = ready_session();
    let first = s.save_file(1, 3, vec![5; 10]);
    let (written, done) = exchange(&mut s, first, &answer(Request::SaveFile, false));
    assert_eq!(written[0], save_file_request(1, 3, 10).encode());
    assert_eq!(written[1], vec![5; 10]);
    assert!(matches!(done, Action::Done(Ok(_))));
}

#[test]
fn arrival_handshake_then_set_led() {
    let mut reg: Registry<RefCell<Session>> = Registry::new();
    reg.insert((3, 7), RefCell::new(Session::new()));
    let is_ready = |s: &RefCell<Session>| s.borrow().ready();
    assert!(reg.display_addrs(is_ready).is_empty());

    let cell = reg.display_by_addr(&(3, 7)).unwrap();
    {
        let mut s = cell.borrow_mut();
        let first = s.begin_probe();
        let (_, done) = exchange(&mut s, first, &answer(Request::SomeFactoryModeRequest, true));
        let probe = match done {
            Action::Done(r) => r,
            _ => unreachable!(),
        };
        let clear = s.finish_handshake("FIP".to_string(), probe);
        let (_, done) = exchange(&mut s, clear, &answer(Request::ClearImage, true));
        assert_eq!(operation_outcome(&match done {
            Action::Done(r) => r,
            _ => unreachable!(),
        }), Err(DeviceError::Protocol));
    }
    assert_eq!(reg.display_addrs(is_ready), vec![(3, 7)]);

    let mut s = cell.borrow_mut();
    let first = s.set_led(0, 1, true);
    let (_, done) = exchange(&mut s, first, &answer(Request::SetLed, false));
    let result = match done {
        Action::Done(r) => r,
        _ => unreachable!(),
    };
    assert_eq!(operation_outcome(&result), Ok(()));
}
