use pdb::client::{expect_done, refuse, Blame, ClientAction, ClientEvent, ExchangeState};
use pdb::codec::encode_frame;
use pdb::{
    Client, Command, KeyCode, MessageHeader, PdbError, Rect, RemoteDevice, Response, Screenshot,
    WindowInfo,
};

fn window(hwnd: usize, title: &str) -> WindowInfo {
    WindowInfo {
        hwnd,
        title: title.to_string(),
        class_name: "Notepad".to_string(),
        rect: Rect::new(10, 20, 110, 220),
        visible: true,
    }
}

fn unexpected() -> PdbError {
    PdbError::ProtocolError("Unexpected response".to_string())
}

#[test]
fn exchange_writes_reads_and_delivers() {
    let mut client = Client::new(1024);
    assert_eq!(client.state(), ExchangeState::Idle);
    assert_eq!(client.max_response(), 1024);
    let request = b"\"Ping\"".to_vec();
    let frame = encode_frame(&request, u32::MAX).unwrap();
    assert_eq!(client.step(ClientEvent::Request(request)), ClientAction::Write { frame });
    assert_eq!(client.state(), ExchangeState::Sending);
    assert_eq!(client.step(ClientEvent::Written), ClientAction::ReadHeader);
    assert_eq!(client.state(), ExchangeState::AwaitHeader);
    let header = MessageHeader::new(6).to_bytes();
    assert_eq!(client.step(ClientEvent::Header(header)), ClientAction::ReadBody { length: 6 });
    assert_eq!(client.state(), ExchangeState::AwaitBody { length: 6 });
    let body = b"\"Pong\"".to_vec();
    assert_eq!(client.step(ClientEvent::Body(body.clone())), ClientAction::Deliver { payload: body });
    assert_eq!(client.state(), ExchangeState::Idle);
}

#[test]
fn second_request_waits_until_the_first_is_answered() {
    let mut client = Client::new(1024);
    client.step(ClientEvent::Request(vec![1]));
    assert_eq!(client.step(ClientEvent::Request(vec![2])), ClientAction::Wait);
    assert_eq!(client.state(), ExchangeState::Sending);
    client.step(ClientEvent::Written);
    assert_eq!(client.step(ClientEvent::Request(vec![2])), ClientAction::Wait);
    client.step(ClientEvent::Header(MessageHeader::new(1).to_bytes()));
    assert_eq!(client.step(ClientEvent::Request(vec![2])), ClientAction::Wait);
    assert_eq!(client.state(), ExchangeState::AwaitBody { length: 1 });
    assert_eq!(client.step(ClientEvent::Body(vec![7])), ClientAction::Deliver { payload: vec![7] });
    let frame = encode_frame(&[2], u32::MAX).unwrap();
    assert_eq!(client.step(ClientEvent::Request(vec![2])), ClientAction::Write { frame });
}

#[test]
fn responses_come_in_the_order_of_their_requests() {
    let mut client = Client::new(1024);
    let mut waiting: Vec<u8> = vec![1, 2, 3, 4];
    let mut written: Vec<u8> = Vec::new();
    let mut delivered: Vec<u8> = Vec::new();
    while !waiting.is_empty() {
        let next = waiting[0];
        match client.step(ClientEvent::Request(vec![next])) {
            ClientAction::Write { frame } => {
                written.push(frame[8]);
                waiting.remove(0);
                // the other callers try while this one is under way
                for other in &waiting {
                    assert_eq!(client.step(ClientEvent::Request(vec![*other])), ClientAction::Wait);
                }
                client.step(ClientEvent::Written);
                client.step(ClientEvent::Header(MessageHeader::new(1).to_bytes()));
                match client.step(ClientEvent::Body(vec![next + 100])) {
                    ClientAction::Deliver { payload } => delivered.push(payload[0]),
                    other => panic!("unexpected action {:?}", other),
                }
            }
            other => panic!("unexpected action {:?}", other),
        }
    }
    assert_eq!(written, vec![1, 2, 3, 4]);
    assert_eq!(delivered, vec![101, 102, 103, 104]);
}

#[test]
fn oversized_response_breaks_the_connection() {
    let mut client = Client::new(1024);
    client.step(ClientEvent::Request(vec![1]));
    client.step(ClientEvent::Written);
    let header = MessageHeader { version: 1, length: 4_294_967_295 }.to_bytes();
    assert_eq!(
        client.step(ClientEvent::Header(header)),
        ClientAction::Fail(PdbError::ProtocolError("Payload too large".to_string()))
    );
    assert_eq!(client.state(), ExchangeState::Broken);
    assert_eq!(
        client.step(ClientEvent::Request(vec![2])),
        ClientAction::Fail(PdbError::ConnectionError("Connection is broken".to_string()))
    );
}

#[test]
fn transport_failure_is_reported_and_breaks_the_connection() {
    let mut client = Client::new(1024);
    client.step(ClientEvent::Request(vec![1]));
    assert_eq!(
        client.step(ClientEvent::Failed("broken pipe".to_string())),
        ClientAction::Fail(PdbError::IoError("broken pipe".to_string()))
    );
    assert_eq!(client.state(), ExchangeState::Broken);
}

#[test]
fn short_body_and_events_out_of_turn_break_the_connection() {
    let mut client = Client::new(1024);
    client.step(ClientEvent::Request(vec![1]));
    client.step(ClientEvent::Written);
    client.step(ClientEvent::Header(MessageHeader::new(2).to_bytes()));
    assert_eq!(
        client.step(ClientEvent::Body(vec![1])),
        ClientAction::Fail(PdbError::ProtocolError("Body length mismatch".to_string()))
    );
    let mut client = Client::new(1024);
    assert_eq!(
        client.step(ClientEvent::Written),
        ClientAction::Fail(PdbError::ProtocolError("Unexpected event".to_string()))
    );
    assert_eq!(client.state(), ExchangeState::Broken);
}

#[test]
fn local_address_uses_the_default_port() {
    assert_eq!(Client::local_addr(), format!("127.0.0.1:{}", pdb::DEFAULT_PORT));
}

#[test]
fn client_calls_build_their_commands() {
    assert_eq!(Client::ping(), Command::Ping);
    assert_eq!(Client::list_windows(), Command::ListWindows);
    assert_eq!(Client::connect_window("Notepad"), Command::Connect { title: "Notepad".to_string() });
    assert_eq!(Client::connect_window_by_hwnd(0xBEEF), Command::ConnectByHwnd { hwnd: 0xBEEF });
}

#[test]
fn device_calls_build_commands_for_their_window() {
    let device = RemoteDevice::new(window(77, "notes"));
    assert_eq!(device.hwnd(), 77);
    assert_eq!(device.info(), &window(77, "notes"));
    assert_eq!(device.click(1, 2), Command::Click { hwnd: 77, x: 1, y: 2 });
    assert_eq!(device.tap(3, 4), Command::Click { hwnd: 77, x: 3, y: 4 });
    assert_eq!(
        device.swipe(1, 2, 3, 4, 250),
        Command::Swipe { hwnd: 77, x1: 1, y1: 2, x2: 3, y2: 4, duration_ms: 250 }
    );
    assert_eq!(device.screenshot(), Command::Screenshot { hwnd: 77 });
    assert_eq!(device.input_text("héllo"), Command::InputText { hwnd: 77, text: "héllo".to_string() });
    assert_eq!(device.key_event(KeyCode::F5), Command::KeyEvent { hwnd: 77, key: KeyCode::F5 });
    assert_eq!(device.get_size(), Command::GetSize { hwnd: 77 });
    assert_eq!(device.focus(), Command::Focus { hwnd: 77 });
}

#[test]
fn ping_reply_is_true_for_pong_only() {
    assert!(Client::ping_reply(&Response::Pong));
    assert!(!Client::ping_reply(&Response::Done));
    assert!(!Client::ping_reply(&Response::Error("no".to_string())));
}

#[test]
fn list_windows_reply_reads_windows_or_blames_the_connection() {
    let windows = vec![window(1, "a"), window(2, "b")];
    assert_eq!(Client::list_windows_reply(Response::Windows(windows.clone())), Ok(windows));
    assert_eq!(
        Client::list_windows_reply(Response::Error("denied".to_string())),
        Err(PdbError::ConnectionError("denied".to_string()))
    );
    assert_eq!(Client::list_windows_reply(Response::Pong), Err(unexpected()));
}

#[test]
fn connect_reply_reads_the_device_or_reports_not_found() {
    let device = Client::connect_reply(Response::Window(window(5, "Paint"))).unwrap();
    assert_eq!(device, RemoteDevice::new(window(5, "Paint")));
    assert_eq!(
        Client::connect_reply(Response::Error("Window not found: Paint".to_string())),
        Err(PdbError::WindowNotFound("Window not found: Paint".to_string()))
    );
    assert_eq!(Client::connect_reply(Response::Done), Err(unexpected()));
}

#[test]
fn input_replies_blame_input() {
    let readers: Vec<fn(Response) -> Result<(), PdbError>> = vec![
        RemoteDevice::click_reply,
        RemoteDevice::tap_reply,
        RemoteDevice::swipe_reply,
        RemoteDevice::input_text_reply,
        RemoteDevice::key_event_reply,
    ];
    for read in readers {
        assert_eq!(read(Response::Done), Ok(()));
        assert_eq!(
            read(Response::Error("Device not connected".to_string())),
            Err(PdbError::InputError("Device not connected".to_string()))
        );
        assert_eq!(read(Response::Pong), Err(unexpected()));
    }
}

#[test]
fn focus_and_size_replies_blame_the_handle() {
    assert_eq!(RemoteDevice::focus_reply(Response::Done), Ok(()));
    assert_eq!(
        RemoteDevice::focus_reply(Response::Error("gone".to_string())),
        Err(PdbError::HandleError("gone".to_string()))
    );
    assert_eq!(RemoteDevice::focus_reply(Response::Pong), Err(unexpected()));
    assert_eq!(RemoteDevice::get_size_reply(Response::Size { width: 3, height: 4 }), Ok((3, 4)));
    assert_eq!(
        RemoteDevice::get_size_reply(Response::Error("gone".to_string())),
        Err(PdbError::HandleError("gone".to_string()))
    );
    assert_eq!(RemoteDevice::get_size_reply(Response::Done), Err(unexpected()));
}

#[test]
fn screenshot_reply_reads_the_image_or_blames_the_capture() {
    let shot = Screenshot { width: 2, height: 1, data: vec![1, 2, 3, 4, 5, 6, 7, 8] };
    assert_eq!(RemoteDevice::screenshot_reply(Response::Screenshot(shot.clone())), Ok(shot));
    assert_eq!(
        RemoteDevice::screenshot_reply(Response::Error("BitBlt failed".to_string())),
        Err(PdbError::CaptureError("BitBlt failed".to_string()))
    );
    assert_eq!(RemoteDevice::screenshot_reply(Response::Done), Err(unexpected()));
}

#[test]
fn refuse_puts_the_text_under_the_named_variant() {
    let text = || Response::Error("t".to_string());
    assert_eq!(refuse(text(), Blame::Connection), PdbError::ConnectionError("t".to_string()));
    assert_eq!(refuse(text(), Blame::WindowNotFound), PdbError::WindowNotFound("t".to_string()));
    assert_eq!(refuse(text(), Blame::Input), PdbError::InputError("t".to_string()));
    assert_eq!(refuse(text(), Blame::Capture), PdbError::CaptureError("t".to_string()));
    assert_eq!(refuse(text(), Blame::Handle), PdbError::HandleError("t".to_string()));
    assert_eq!(refuse(Response::Pong, Blame::Handle), unexpected());
    assert_eq!(expect_done(Response::Done, Blame::Input), Ok(()));
}
