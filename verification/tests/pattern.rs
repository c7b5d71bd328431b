use testcase_stream::AsyncMockStream;
use testcase_stream::SeekFrom;
use testcase_stream::TestCaseError;

#[test]
fn fresh_stream_starts_at_zero() {
    let s = AsyncMockStream::new(7);
    assert_eq!(s.position(), 0);
    assert_eq!(s.limit(), 7);
}

#[test]
fn bytes_follow_offset_modulo_256() {
    let mut s = AsyncMockStream::new(600);
    assert_eq!(s.seek(SeekFrom::Start(250)), Ok(250));
    let data = s.read(12);
    assert_eq!(data, vec![250, 251, 252, 253, 254, 255, 0, 1, 2, 3, 4, 5]);
    assert_eq!(s.position(), 262);
}

#[test]
fn chunk_boundaries_do_not_change_bytes() {
    let limit: u64 = 70000;
    let mut s = AsyncMockStream::new(limit);
    let mut whole: Vec<u8> = Vec::new();
    loop {
        let chunk = s.read(65536);
        if chunk.is_empty() {
            break;
        }
        whole.extend_from_slice(&chunk);
    }
    assert_eq!(whole.len(), limit as usize);
    assert_eq!(whole[0], 0);
    assert_eq!(whole[255], 255);
    assert_eq!(whole[256], 0);
    assert_eq!(whole[65535], 255);
    for size in [1usize, 7] {
        let mut t = AsyncMockStream::new(limit);
        let mut out: Vec<u8> = Vec::new();
        loop {
            let chunk = t.read(size);
            if chunk.is_empty() {
                break;
            }
            out.extend_from_slice(&chunk);
        }
        assert_eq!(out, whole);
    }
}

#[test]
fn seek_respects_the_addressable_range() {
    let mut s = AsyncMockStream::new(100);
    assert_eq!(s.seek(SeekFrom::Start(100)), Err(TestCaseError::InvalidSeek));
    assert_eq!(s.position(), 0);
    assert_eq!(s.seek(SeekFrom::Start(99)), Ok(99));
    assert_eq!(s.position(), 99);
    assert_eq!(s.seek(SeekFrom::End(-101)), Err(TestCaseError::InvalidSeek));
    assert_eq!(s.position(), 99);
    assert_eq!(s.seek(SeekFrom::End(-100)), Ok(0));
    assert_eq!(s.seek(SeekFrom::Current(-1)), Err(TestCaseError::InvalidSeek));
    assert_eq!(s.position(), 0);
}

#[test]
fn read_to_exhaustion_ends_with_a_zero_length_read() {
    let mut s = AsyncMockStream::new(5);
    assert_eq!(s.read(10), vec![0, 1, 2, 3, 4]);
    assert_eq!(s.position(), 5);
    let terminal = s.read(10);
    assert_eq!(terminal.len(), 0);
    assert_eq!(s.position(), 5);
}

#[test]
fn read_seek_read_scenario() {
    let mut s = AsyncMockStream::new(10);
    assert_eq!(s.read(4), vec![0, 1, 2, 3]);
    assert_eq!(s.position(), 4);
    assert_eq!(s.seek(SeekFrom::Current(2)), Ok(6));
    assert_eq!(s.read(4), vec![6, 7, 8, 9]);
    assert_eq!(s.read(4), Vec::<u8>::new());
}
