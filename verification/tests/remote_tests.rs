use boat3_client::remote::controller::RemoteController;
use boat3_client::remote::net::{
    discard_data, download_step, parse_response, ping_outcome, DownloadAction, DownloadEvent,
    DownloadStage, Method, RawResponse, RemoteError, RemoteNet,
};
use boat3_client::remote::protocol::{GPIOMode, GPIOValue, GPIOValueLevel, RemoteGPIO, RemoteResponse};

fn envelope<T>(ok: Option<bool>, error: Option<&str>, data: Option<T>) -> RawResponse<T> {
    RawResponse::Received(RemoteResponse { ok, error: error.map(|e| e.to_string()), data })
}

#[test]
fn unwrap_gives_the_message_of_each_kind() {
    let mut errors = vec![
        RemoteError::ConnectionError("refused".to_string()),
        RemoteError::ParseError("bad json".to_string()),
        RemoteError::RemoteError("busy".to_string()),
        RemoteError::OtherError("clock".to_string()),
    ];
    let expected = ["refused", "bad json", "busy", "clock"];
    for (err, msg) in errors.iter_mut().zip(expected.iter()) {
        let before = err.clone();
        assert_eq!(err.unwrap(), *msg);
        assert_eq!(*err, before);
    }
}

#[test]
fn new_controller_uses_the_default_address() {
    let c = RemoteController::new();
    assert_eq!(c.net.address, "http://0.0.0.0:10230");
    let n = RemoteNet::new();
    assert_eq!(n.address, "http://0.0.0.0:10230");
}

#[test]
fn requests_go_to_the_address_and_path() {
    let mut c = RemoteController::new();
    c.net.address = "http://10.0.0.2:80".to_string();
    let g = RemoteGPIO::new(17, GPIOMode::OUTPUT);

    let r = c.gpio_config_request(&g);
    assert_eq!(r.method, Method::Post);
    assert_eq!(r.url, "http://10.0.0.2:80/gpio/config");
    assert_eq!(r.body, Some(g));

    let r = c.gpio_set_request(&g);
    assert_eq!(r.method, Method::Post);
    assert_eq!(r.url, "http://10.0.0.2:80/gpio/set");

    let r = c.gpio_read_request(&g);
    assert_eq!(r.url, "http://10.0.0.2:80/gpio/read");
    assert_eq!(r.body, Some(g));

    let r = c.gpio_reset_request();
    assert_eq!(r.method, Method::Get);
    assert_eq!(r.url, "http://10.0.0.2:80/gpio/reset");
    assert_eq!(r.body, None);

    let r = c.read_camera_request();
    assert_eq!(r.method, Method::Get);
    assert_eq!(r.url, "http://10.0.0.2:80/camera/read");

    let r = c.net.get_request("/ping");
    assert_eq!(r.url, "http://10.0.0.2:80/ping");
}

#[test]
fn new_gpio_has_no_value() {
    let g = RemoteGPIO::new(4, GPIOMode::INPUT);
    assert_eq!(g, RemoteGPIO { pin: 4, mode: GPIOMode::INPUT, value: GPIOValue::NONE });
}

#[test]
fn parse_response_failures() {
    assert_eq!(
        parse_response::<bool>(RawResponse::ConnectionFailed("timed out".to_string())),
        Err(RemoteError::ConnectionError("timed out".to_string()))
    );
    assert_eq!(
        parse_response::<bool>(RawResponse::Malformed("eof".to_string())),
        Err(RemoteError::ParseError("eof".to_string()))
    );
    assert_eq!(
        parse_response::<bool>(envelope(Some(false), Some("no such pin"), None)),
        Err(RemoteError::RemoteError("no such pin".to_string()))
    );
    assert_eq!(
        parse_response::<bool>(envelope(None, Some("odd"), Some(true))),
        Err(RemoteError::RemoteError("odd".to_string()))
    );
    assert_eq!(
        parse_response::<bool>(envelope(Some(false), None, None)),
        Err(RemoteError::RemoteError(String::new()))
    );
}

#[test]
fn parse_response_success() {
    assert_eq!(parse_response(envelope(Some(true), None, Some(8u8))), Ok(Some(8u8)));
    assert_eq!(parse_response::<u8>(envelope(Some(true), Some("ignored"), None)), Ok(None));
    let g = RemoteGPIO { pin: 3, mode: GPIOMode::INPUT, value: GPIOValue::LEVEL(GPIOValueLevel::HIGH) };
    assert_eq!(RemoteController::gpio_read_reply(envelope(Some(true), None, Some(g))), Ok(Some(g)));
}

#[test]
fn acknowledgements_drop_the_data() {
    assert_eq!(RemoteController::gpio_acknowledgement(envelope(Some(true), None, Some(false))), Ok(()));
    assert_eq!(
        RemoteController::gpio_acknowledgement(envelope(Some(false), Some("denied"), Some(true))),
        Err(RemoteError::RemoteError("denied".to_string()))
    );
    assert_eq!(discard_data::<u8>(Ok(None)), Ok(()));
    assert_eq!(
        discard_data::<u8>(Err(RemoteError::OtherError("x".to_string()))),
        Err(RemoteError::OtherError("x".to_string()))
    );
}

#[test]
fn ping_outcomes() {
    let failed: Result<Option<u8>, RemoteError> = Err(RemoteError::ConnectionError("down".to_string()));
    assert_eq!(ping_outcome(failed, Some(5u64)), Err(RemoteError::ConnectionError("down".to_string())));
    assert_eq!(ping_outcome::<u8, u64>(Ok(Some(1)), Some(12)), Ok(12));
    assert_eq!(
        ping_outcome::<u8, u64>(Ok(None), None),
        Err(RemoteError::OtherError("Unable to get duration".to_string()))
    );
}

fn finish(action: DownloadAction) -> Result<(), RemoteError> {
    match action {
        DownloadAction::Finish(r) => r,
        _ => panic!("the download should be over"),
    }
}

#[test]
fn download_runs_to_the_end_of_the_body() {
    let (s, a) = download_step(DownloadStage::AwaitingResponse, DownloadEvent::ResponseArrived);
    assert_eq!(s, DownloadStage::CreatingFile);
    assert!(matches!(a, DownloadAction::CreateFile));
    let (s, a) = download_step(s, DownloadEvent::FileCreated);
    assert_eq!(s, DownloadStage::Reading);
    assert!(matches!(a, DownloadAction::ReadChunk));
    let (s, a) = download_step(s, DownloadEvent::ChunkReceived(vec![1, 2, 3]));
    assert_eq!(s, DownloadStage::Writing);
    match a {
        DownloadAction::WriteChunk(bytes) => assert_eq!(bytes, vec![1, 2, 3]),
        _ => panic!("the chunk should be written"),
    }
    let (s, a) = download_step(s, DownloadEvent::ChunkWritten);
    assert_eq!(s, DownloadStage::Reading);
    assert!(matches!(a, DownloadAction::ReadChunk));
    let (s, a) = download_step(s, DownloadEvent::BodyEnded);
    assert_eq!(s, DownloadStage::Done);
    assert_eq!(finish(a), Ok(()));
}

#[test]
fn download_failures_keep_their_kind() {
    let (s, a) = download_step(DownloadStage::AwaitingResponse, DownloadEvent::RequestFailed("dns".to_string()));
    assert_eq!(s, DownloadStage::Done);
    assert_eq!(finish(a), Err(RemoteError::ConnectionError("dns".to_string())));
    let (_, a) = download_step(DownloadStage::CreatingFile, DownloadEvent::FileFailed("denied".to_string()));
    assert_eq!(finish(a), Err(RemoteError::OtherError("denied".to_string())));
    let (_, a) = download_step(DownloadStage::Reading, DownloadEvent::ChunkFailed("reset".to_string()));
    assert_eq!(finish(a), Err(RemoteError::ParseError("reset".to_string())));
    let (_, a) = download_step(DownloadStage::Writing, DownloadEvent::WriteFailed("disk full".to_string()));
    assert_eq!(finish(a), Err(RemoteError::OtherError("disk full".to_string())));
}

#[test]
fn a_whole_download_writes_each_chunk_once_in_order() {
    let chunks = vec![vec![0x89u8, 0x50], vec![], vec![0x4e, 0x47, 0x0d]];
    let mut stage = DownloadStage::AwaitingResponse;
    let mut written: Vec<u8> = Vec::new();
    let mut creates = 0;
    let mut events = vec![DownloadEvent::ResponseArrived, DownloadEvent::FileCreated];
    for c in &chunks {
        events.push(DownloadEvent::ChunkReceived(c.clone()));
        events.push(DownloadEvent::ChunkWritten);
    }
    events.push(DownloadEvent::BodyEnded);
    let mut outcome = None;
    for e in events {
        let (next, action) = download_step(stage, e);
        stage = next;
        match action {
            DownloadAction::CreateFile => creates += 1,
            DownloadAction::WriteChunk(bytes) => written.extend(bytes),
            DownloadAction::ReadChunk => {}
            DownloadAction::Finish(r) => outcome = Some(r),
        }
    }
    assert_eq!(creates, 1);
    assert_eq!(written, chunks.concat());
    assert_eq!(stage, DownloadStage::Done);
    assert_eq!(outcome, Some(Ok(())));
}
