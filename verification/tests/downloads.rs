use dezleks::download::{status_is_success, DownloadProgress, PROGRESS_STEP};

#[test]
fn progress_reports_every_half_mebibyte() {
    let mut p = DownloadProgress::new();
    assert!(!p.record_chunk(100_000));
    assert!(!p.record_chunk(400_000));
    assert!(p.record_chunk(24_288));
    assert_eq!(p.downloaded(), 524_288);
    assert!(!p.record_chunk(1));
    assert!(!p.record_chunk(524_286));
    assert!(p.record_chunk(1));
    assert_eq!(p.downloaded(), 1_048_576);
}

#[test]
fn progress_reports_large_chunk_at_once() {
    let mut p = DownloadProgress::new();
    assert!(p.record_chunk(3 * PROGRESS_STEP as usize));
    assert!(!p.record_chunk(0));
}

#[test]
fn progress_report_carries_total() {
    let mut p = DownloadProgress::new();
    p.record_chunk(10);
    let r = p.progress(Some(99));
    assert_eq!(r.downloaded_bytes, 10);
    assert_eq!(r.total_bytes, Some(99));
    assert_eq!(p.progress(None).total_bytes, None);
}

#[test]
fn progress_count_saturates() {
    let mut p = DownloadProgress::new();
    p.record_chunk(usize::MAX);
    p.record_chunk(usize::MAX);
    if usize::BITS == 64 {
        assert_eq!(p.downloaded(), u64::MAX);
    }
}

#[test]
fn count_is_the_total_of_the_chunks() {
    let chunks = [7usize, 0, 1_000_000, 3, 65_536];
    let mut p = DownloadProgress::new();
    for c in chunks {
        p.record_chunk(c);
    }
    assert_eq!(p.downloaded(), chunks.iter().map(|c| *c as u64).sum::<u64>());
}

#[test]
fn success_statuses_are_the_two_hundreds() {
    assert!(status_is_success(200));
    assert!(status_is_success(206));
    assert!(status_is_success(299));
    assert!(!status_is_success(199));
    assert!(!status_is_success(300));
    assert!(!status_is_success(404));
}
