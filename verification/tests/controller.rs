use testcase_stream::TestCaseController;
use testcase_stream::TestCaseError;
use testcase_stream::TestCaseReader;
use testcase_stream::TARGET_SIZE;

#[test]
fn reading_count_tracks_live_readers() {
    let mut c = TestCaseController::new(String::from("/dev/zero"));
    assert_eq!(c.reading_count(), 0);
    let r1 = c.get_reader(None).unwrap();
    let r2 = c.get_reader(None).unwrap();
    assert_eq!(c.reading_count(), 2);
    assert!(!c.is_writing());
    c.release_reader(r1);
    assert_eq!(c.reading_count(), 1);
    c.release_reader(r2);
    assert_eq!(c.reading_count(), 0);
}

#[test]
fn writer_blocks_new_readers() {
    let mut c = TestCaseController::new(String::from("/dev/zero"));
    let r1 = c.get_reader(None).unwrap();
    let w = c.get_writer();
    assert!(c.is_writing());
    match c.get_reader(None) {
        Err(e) => assert_eq!(e, TestCaseError::WriteInProgress),
        Ok(_) => panic!("reader granted while a writer token is alive"),
    }
    assert_eq!(c.reading_count(), 1);
    c.release_writer(w);
    assert!(!c.is_writing());
    let r2 = c.get_reader(None).unwrap();
    assert_eq!(c.reading_count(), 2);
    c.release_reader(r1);
    c.release_reader(r2);
    assert_eq!(c.reading_count(), 0);
}

#[test]
fn size_is_fixed() {
    let c = TestCaseController::new(String::from("/dev/zero"));
    assert_eq!(c.size(), 512 * 1024 * 1024);
    assert_eq!(c.size(), TARGET_SIZE);
}

#[test]
fn mount_check_reports_not_mounted() {
    let c = TestCaseController::new(String::from("/dev/zero"));
    assert!(!c.is_mounted());
}

#[test]
fn path_is_kept() {
    let c = TestCaseController::new(String::from("/dev/zero"));
    assert_eq!(c.path().as_str(), "/dev/zero");
}

#[test]
fn reader_streams_the_pattern_sized_to_the_target() {
    let mut c = TestCaseController::new(String::from("/dev/zero"));
    let mut r = c.get_reader(None).unwrap();
    match &r {
        TestCaseReader::Mock { inner, .. } => {
            assert_eq!(inner.limit(), c.size());
            assert_eq!(inner.position(), 0);
        }
        TestCaseReader::Real { .. } => panic!("expected the synthetic variant"),
    }
    assert_eq!(r.read(4), vec![0, 1, 2, 3]);
    assert_eq!(r.read(3), vec![4, 5, 6]);
    c.release_reader(r);
    assert_eq!(c.reading_count(), 0);
}
