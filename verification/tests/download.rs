use wikdict::{
    download_step, partial_extension, Dictionary, DownloadAction, DownloadEvent, DownloadProgress,
    DownloadState, HttpClient, Language, WikDictDownloader, WikDictVersion, DEFAULT_VERSION,
};

#[test]
fn versions() {
    assert_eq!(WikDictVersion::latest().as_str(), DEFAULT_VERSION);
    assert_eq!(WikDictVersion::new("2_2025-01").as_str(), "2_2025-01");
}

#[test]
fn partial_file_extension() {
    assert_eq!(partial_extension(Some("sqlite3")), "sqlite3.part");
    assert_eq!(partial_extension(None), "part");
}

#[test]
fn download_not_found() {
    let (state, action) = download_step(
        DownloadState::AwaitingResponse,
        DownloadEvent::Responded { status: 404, content_length: None },
    );
    assert_eq!(state, DownloadState::Finished);
    assert_eq!(action, DownloadAction::ReportNotFound);
}

#[test]
fn download_accumulates_chunks() {
    let (mut state, action) = download_step(
        DownloadState::AwaitingResponse,
        DownloadEvent::Responded { status: 200, content_length: Some(10) },
    );
    assert_eq!(action, DownloadAction::CheckStatusAndReceive);
    let mut reported = Vec::new();
    for len in [3u64, 0, 7] {
        let (next, action) = download_step(state, DownloadEvent::ChunkReceived { len });
        if let DownloadAction::WriteChunk { progress } = action {
            reported.push(progress);
        }
        state = next;
    }
    assert_eq!(
        reported,
        vec![
            DownloadProgress { downloaded: 3, total: Some(10) },
            DownloadProgress { downloaded: 3, total: Some(10) },
            DownloadProgress { downloaded: 10, total: Some(10) },
        ]
    );
    let (state, action) = download_step(state, DownloadEvent::BodyEnded);
    assert_eq!(state, DownloadState::Finished);
    assert_eq!(action, DownloadAction::Complete);
    assert_eq!(DownloadProgress::default(), DownloadProgress { downloaded: 0, total: None });
}

#[test]
fn downloader_url() {
    let d = Dictionary::new(Language::De, Language::En).unwrap();
    let downloader = WikDictDownloader::with_version(WikDictVersion::new("2_2025-01")).unwrap();
    assert_eq!(downloader.version().as_str(), "2_2025-01");
    assert_eq!(
        downloader.url(d),
        "https://download.wikdict.com/dictionaries/sqlite/2_2025-01/de-en.sqlite3"
    );
    let latest = WikDictDownloader::new().unwrap();
    assert_eq!(latest.version(), WikDictVersion::latest());
}

#[test]
fn downloader_from_built_client() {
    let client = HttpClient::new("tester/1.0");
    let d = WikDictDownloader::from_built_client(client, WikDictVersion::new("2_2024-05")).unwrap();
    assert_eq!(d.version().as_str(), "2_2024-05");
    let _ = d.client();
}
