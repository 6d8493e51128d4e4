use asset_store::{
    download_voice, voice_url, AssetError, DownloadAction, DownloadEvent, DownloadState, FileWrite,
    HttpStatus, StorageRoot,
};

fn status(code: u16) -> HttpStatus {
    HttpStatus::new(code).unwrap()
}

#[test]
fn a_download_begins_by_fetching_the_address() {
    let step = download_voice("alloy", DownloadState::Idle, DownloadEvent::Begin);
    assert_eq!(
        step,
        Some((
            DownloadState::AwaitingResponse,
            DownloadAction::Fetch(
                "https://pub-6b92949063b142d59fc3478c56ec196c.r2.dev/alloy.wav".to_string()
            )
        ))
    );
    assert_eq!(
        voice_url("alloy"),
        "https://pub-6b92949063b142d59fc3478c56ec196c.r2.dev/alloy.wav"
    );
    assert_eq!(voice_url(""), "https://pub-6b92949063b142d59fc3478c56ec196c.r2.dev/.wav");
}

#[test]
fn a_successful_download_writes_the_body_and_gives_the_path() {
    let (state, action) =
        download_voice("alloy", DownloadState::Idle, DownloadEvent::Begin).unwrap();
    assert!(matches!(action, DownloadAction::Fetch(_)));

    let (state, action) =
        download_voice("alloy", state, DownloadEvent::Responded(status(200))).unwrap();
    assert_eq!(state, DownloadState::AwaitingBody);
    assert_eq!(action, DownloadAction::ReadBody);

    let (state, action) =
        download_voice("alloy", state, DownloadEvent::BodyRead(vec![82, 73, 70, 70])).unwrap();
    assert_eq!(state, DownloadState::AwaitingWrite);
    assert_eq!(
        action,
        DownloadAction::Write(FileWrite {
            root: StorageRoot::Voices,
            file_name: "alloy.wav".to_string(),
            bytes: vec![82, 73, 70, 70],
        })
    );

    let (state, action) =
        download_voice("alloy", state, DownloadEvent::Written("/data/voices/alloy.wav".to_string()))
            .unwrap();
    assert_eq!(state, DownloadState::Done);
    assert_eq!(action, DownloadAction::Finish(Ok("/data/voices/alloy.wav".to_string())));
}

#[test]
fn not_found_ends_the_download_and_names_the_code() {
    let (state, action) = download_voice(
        "ghost",
        DownloadState::AwaitingResponse,
        DownloadEvent::Responded(status(404)),
    )
    .unwrap();
    assert_eq!(state, DownloadState::Done);
    assert_eq!(action, DownloadAction::Finish(Err(AssetError::HttpStatus(status(404)))));
    let line = match action {
        DownloadAction::Finish(Err(error)) => error.message(),
        _ => unreachable!(),
    };
    assert_eq!(line, "Failed to download: HTTP 404 Not Found");
    assert!(line.contains("404"));
    // Done takes no further step, so no file is ever asked for.
    assert_eq!(download_voice("ghost", state, DownloadEvent::BodyRead(vec![1])), None);
    assert_eq!(download_voice("ghost", state, DownloadEvent::Begin), None);
}

#[test]
fn only_the_two_hundreds_are_a_success() {
    for code in [200, 201, 204, 206, 299] {
        let told = DownloadEvent::Responded(status(code));
        let step = download_voice("v", DownloadState::AwaitingResponse, told);
        assert_eq!(step, Some((DownloadState::AwaitingBody, DownloadAction::ReadBody)));
    }
    for code in [100, 199, 300, 301, 304, 400, 403, 500, 503, 999] {
        let told = DownloadEvent::Responded(status(code));
        let step = download_voice("v", DownloadState::AwaitingResponse, told);
        assert_eq!(
            step,
            Some((
                DownloadState::Done,
                DownloadAction::Finish(Err(AssetError::HttpStatus(status(code))))
            ))
        );
    }
}

#[test]
fn a_request_that_failed_ends_the_download() {
    let step = download_voice(
        "v",
        DownloadState::AwaitingResponse,
        DownloadEvent::RequestFailed("error sending request".to_string()),
    );
    assert_eq!(
        step,
        Some((
            DownloadState::Done,
            DownloadAction::Finish(Err(AssetError::NetworkFailed(
                "error sending request".to_string()
            )))
        ))
    );
}

#[test]
fn a_body_that_failed_ends_the_download() {
    let step = download_voice(
        "v",
        DownloadState::AwaitingBody,
        DownloadEvent::BodyFailed("error decoding response body".to_string()),
    );
    assert_eq!(
        step,
        Some((
            DownloadState::Done,
            DownloadAction::Finish(Err(AssetError::BodyFailed(
                "error decoding response body".to_string()
            )))
        ))
    );
}

#[test]
fn a_write_that_failed_ends_the_download() {
    let step = download_voice(
        "v",
        DownloadState::AwaitingWrite,
        DownloadEvent::WriteFailed("Read-only file system (os error 30)".to_string()),
    );
    assert_eq!(
        step,
        Some((
            DownloadState::Done,
            DownloadAction::Finish(Err(AssetError::IoFailed(
                "Read-only file system (os error 30)".to_string()
            )))
        ))
    );
}

#[test]
fn an_event_that_answers_nothing_is_no_step() {
    assert_eq!(download_voice("v", DownloadState::Idle, DownloadEvent::BodyRead(vec![])), None);
    assert_eq!(
        download_voice("v", DownloadState::Idle, DownloadEvent::Responded(status(200))),
        None
    );
    assert_eq!(download_voice("v", DownloadState::AwaitingResponse, DownloadEvent::Begin), None);
    assert_eq!(
        download_voice("v", DownloadState::AwaitingResponse, DownloadEvent::BodyRead(vec![1])),
        None
    );
    assert_eq!(
        download_voice("v", DownloadState::AwaitingBody, DownloadEvent::Written("p".to_string())),
        None
    );
    assert_eq!(
        download_voice("v", DownloadState::AwaitingWrite, DownloadEvent::BodyRead(vec![1])),
        None
    );
    assert_eq!(
        download_voice("v", DownloadState::Done, DownloadEvent::Written("p".to_string())),
        None
    );
}

#[test]
fn status_codes_run_from_100_to_999() {
    assert_eq!(HttpStatus::new(0), None);
    assert_eq!(HttpStatus::new(99), None);
    assert_eq!(HttpStatus::new(1000), None);
    assert_eq!(HttpStatus::new(u16::MAX), None);
    assert_eq!(HttpStatus::new(100).map(|s| s.as_u16()), Some(100));
    assert_eq!(HttpStatus::new(999).map(|s| s.as_u16()), Some(999));
    assert_eq!(HttpStatus::new(404).map(|s| s.as_u16()), Some(404));
}

#[test]
fn success_is_asked_of_the_status() {
    assert!(status(200).is_success());
    assert!(status(299).is_success());
    assert!(!status(199).is_success());
    assert!(!status(300).is_success());
    assert!(!status(404).is_success());
}

#[test]
fn a_status_is_worded_with_its_reason() {
    assert_eq!(status(404).describe(), "404 Not Found");
    assert_eq!(status(200).describe(), "200 OK");
    assert_eq!(status(503).describe(), "503 Service Unavailable");
    assert_eq!(status(799).describe(), "799 <unknown status code>");
    assert_eq!(status(404).describe(), reqwest::StatusCode::NOT_FOUND.to_string());
}

#[test]
fn each_error_has_its_line() {
    assert_eq!(
        AssetError::NetworkFailed("dns error".to_string()).message(),
        "Failed to download: dns error"
    );
    assert_eq!(
        AssetError::HttpStatus(status(500)).message(),
        "Failed to download: HTTP 500 Internal Server Error"
    );
    assert_eq!(
        AssetError::BodyFailed("connection reset".to_string()).message(),
        "Failed to read response: connection reset"
    );
    assert_eq!(AssetError::IoFailed("disk full".to_string()).message(), "disk full");
    assert_eq!(AssetError::IoFailed(String::new()).message(), "");
}
