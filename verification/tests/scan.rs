use altbase_epic::request::EpicRequest;
use altbase_epic::scan::{
    ensure_recent_restore_scan, ensure_restore_scan, mark_failure, marker_scanned_height,
    marker_start_height, marker_u64, restore_scan_marker, start_height, write_restore_scan_marker,
    InitStep, MarkerFile, RecentAction, RecentEvent, RestoreAction, RestoreEvent,
};

fn request(restore_start_height: Option<u64>) -> EpicRequest {
    EpicRequest {
        action: "snapshot".to_string(),
        phrase: None,
        password: None,
        data_dir: None,
        node_url: None,
        restore_start_height,
        to: None,
        amount: None,
        fee: None,
        send_max: None,
        memo: None,
        address: None,
        slate: None,
    }
}

fn marker(start: u64, scanned: u64) -> MarkerFile {
    MarkerFile::Text(write_restore_scan_marker(start, scanned))
}

#[test]
fn marker_has_one_line_for_each_height() {
    assert_eq!(restore_scan_marker(), "altbase.restore-scan.done");
    assert_eq!(write_restore_scan_marker(5, 70), "startHeight=5\nscannedHeight=70\n");
}

#[test]
fn marker_that_was_written_is_read() {
    for (start, scanned) in [(0, 0), (3_540_000, 3_600_001), (u64::MAX, 1)] {
        let text = write_restore_scan_marker(start, scanned);
        assert_eq!(marker_start_height(&text), Some(start));
        assert_eq!(marker_scanned_height(&text), Some(scanned));
    }
}

#[test]
fn marker_lines_are_read_with_white_space() {
    assert_eq!(marker_u64("a=1\r\nb= 2 \r\n", "b"), Some(2));
    assert_eq!(marker_u64("a=1\nb=2", "b"), Some(2));
    assert_eq!(marker_u64("b=x\nb=2", "b"), None);
    assert_eq!(marker_u64(" b=2", "b"), None);
    assert_eq!(marker_u64("bb=2", "b"), None);
    assert_eq!(marker_u64("b=2 ", "b"), Some(2));
    assert_eq!(marker_u64("", "b"), None);
    assert_eq!(marker_u64("\n\n", "b"), None);
    assert_eq!(marker_u64("b=\n", "b"), None);
}

#[test]
fn restore_starts_where_the_request_says() {
    assert_eq!(start_height(&request(None)), 3_540_000);
    assert_eq!(start_height(&request(Some(0))), 3_540_000);
    assert_eq!(start_height(&request(Some(12))), 12);
}

#[test]
fn wallet_is_restored_once() {
    let req = request(Some(100));
    assert!(matches!(
        ensure_restore_scan(&req, RestoreEvent::Looked(MarkerFile::Missing)),
        RestoreAction::Scan { from: 100, remove_marker: false }
    ));
    assert!(matches!(
        ensure_restore_scan(&req, RestoreEvent::Looked(MarkerFile::Unreadable)),
        RestoreAction::Mark
    ));
    assert!(matches!(
        ensure_restore_scan(&req, RestoreEvent::Looked(MarkerFile::Text("no height".to_string()))),
        RestoreAction::Mark
    ));
    for start in [0, 99, 100] {
        assert!(matches!(
            ensure_restore_scan(&req, RestoreEvent::Looked(marker(start, 5))),
            RestoreAction::Mark
        ));
    }
    assert!(matches!(
        ensure_restore_scan(&req, RestoreEvent::Looked(marker(101, 5))),
        RestoreAction::Scan { from: 100, remove_marker: true }
    ));
}

#[test]
fn restore_scan_is_marked_and_remembered() {
    let req = request(Some(100));
    assert!(matches!(
        ensure_restore_scan(&req, RestoreEvent::Scanned(Ok(()))),
        RestoreAction::MarkAfterScan
    ));
    assert!(matches!(
        ensure_restore_scan(&req, RestoreEvent::Scanned(Err("no node".to_string()))),
        RestoreAction::Return(Err(message)) if message == "Epic restore scan: no node"
    ));
    assert!(matches!(
        ensure_restore_scan(&req, RestoreEvent::MarkedAfterScan(Ok(()))),
        RestoreAction::Write(text) if text == "startHeight=100\nscannedHeight=100\n"
    ));
    assert!(matches!(
        ensure_restore_scan(&req, RestoreEvent::MarkedAfterScan(Err("x".to_string()))),
        RestoreAction::Return(Err(message)) if message == "x"
    ));
    assert!(matches!(
        ensure_restore_scan(&req, RestoreEvent::Marked(Ok(()))),
        RestoreAction::Return(Ok(()))
    ));
    assert!(matches!(
        ensure_restore_scan(&req, RestoreEvent::Written(Err("disk".to_string()))),
        RestoreAction::Return(Err(message)) if message == "Epic restore scan marker: disk"
    ));
    assert!(matches!(
        ensure_restore_scan(&req, RestoreEvent::Written(Ok(()))),
        RestoreAction::Return(Ok(()))
    ));
}

#[test]
fn recent_blocks_are_scanned_with_an_overlap() {
    let req = request(Some(1000));
    let scan = ensure_recent_restore_scan(&req, &marker(1000, 2000), 2500).unwrap();
    assert_eq!((scan.scan_from, scan.restore_start, scan.tip_height), (1970, 1000, 2500));
    let scan = ensure_recent_restore_scan(&req, &marker(1000, 1000), 2500).unwrap();
    assert_eq!(scan.scan_from, 2470);
    let scan = ensure_recent_restore_scan(&req, &marker(1000, 1010), 2500).unwrap();
    assert_eq!(scan.scan_from, 1000);
    let scan = ensure_recent_restore_scan(&req, &marker(900, 1000), 2500).unwrap();
    assert_eq!((scan.scan_from, scan.restore_start), (970, 900));
    let scan = ensure_recent_restore_scan(&req, &marker(1100, 1000), 2500).unwrap();
    assert_eq!((scan.scan_from, scan.restore_start), (2470, 1000));
    let scan = ensure_recent_restore_scan(&req, &MarkerFile::Missing, 20).unwrap();
    assert_eq!((scan.scan_from, scan.restore_start), (20, 1000));
    assert!(ensure_recent_restore_scan(&req, &MarkerFile::Missing, 0).is_none());
    assert!(ensure_recent_restore_scan(&req, &marker(1000, 2500), 2500).is_none());
    assert!(ensure_recent_restore_scan(&req, &marker(1000, 2501), 2500).is_none());
}

#[test]
fn finished_recent_scan_is_not_repeated() {
    let req = request(None);
    let scan = ensure_recent_restore_scan(&req, &MarkerFile::Unreadable, 3_600_000).unwrap();
    assert_eq!(scan.scan_from, 3_599_970);
    assert!(matches!(scan.proceed(RecentEvent::Scanned(Ok(()))), RecentAction::Mark));
    let text = match scan.proceed(RecentEvent::Marked(Ok(()))) {
        RecentAction::Write(text) => text,
        _ => panic!("nothing is written"),
    };
    assert_eq!(text, "startHeight=3540000\nscannedHeight=3600000\n");
    assert!(matches!(
        scan.proceed(RecentEvent::Written(Ok(()))),
        RecentAction::Return(Ok(true))
    ));
    let after = MarkerFile::Text(text);
    for tip in [0, 1, 3_540_000, 3_599_999, 3_600_000] {
        assert!(ensure_recent_restore_scan(&req, &after, tip).is_none());
    }
    assert!(ensure_recent_restore_scan(&req, &after, 3_600_001).is_some());
}

#[test]
fn recent_scan_fails_with_its_reason() {
    let req = request(None);
    let scan = ensure_recent_restore_scan(&req, &MarkerFile::Missing, 3_600_000).unwrap();
    assert!(matches!(
        scan.proceed(RecentEvent::Scanned(Err("e".to_string()))),
        RecentAction::Return(Err(message)) if message == "Epic recent scan: e"
    ));
    assert!(matches!(
        scan.proceed(RecentEvent::Marked(Err("e".to_string()))),
        RecentAction::Return(Err(message)) if message == "e"
    ));
    assert!(matches!(
        scan.proceed(RecentEvent::Written(Err("e".to_string()))),
        RecentAction::Return(Err(message)) if message == "Epic restore scan marker: e"
    ));
}

#[test]
fn each_step_of_marking_has_its_label() {
    for (step, words) in [
        (InitStep::Provider, "Epic lifecycle provider: e"),
        (InitStep::Instance, "Epic wallet instance: e"),
        (InitStep::Batch, "Epic wallet batch: e"),
        (InitStep::Status, "Epic restore scan status: e"),
        (InitStep::Commit, "Epic restore scan status commit: e"),
    ] {
        assert_eq!(mark_failure(step, "e"), words);
    }
}
