use audio_core::stream::{
    ProgressiveStream, ReadStep, Received, SeekStep, SeekTarget, SharedStreamData, CHUNK_SIZE,
};

fn fetched(bytes: &[u8]) -> SharedStreamData {
    let mut shared = SharedStreamData::new();
    assert!(shared.record(Received::Bytes(bytes)));
    shared
}

#[test]
fn downloader_asks_for_32_kib_at_a_time() {
    assert_eq!(CHUNK_SIZE, 32 * 1024);
}

#[test]
fn download_appends_and_never_rewrites() {
    let mut shared = SharedStreamData::new();
    assert!(shared.buffer.is_empty() && !shared.is_eof && !shared.has_error);
    assert!(shared.record(Received::Bytes(&[1, 2, 3])));
    assert!(shared.record(Received::Bytes(&[4])));
    assert_eq!(shared.buffer, vec![1, 2, 3, 4]);
    assert!(!shared.record(Received::Bytes(&[])));
    assert!(shared.is_eof);
    assert!(!shared.has_error);
    assert_eq!(shared.buffer, vec![1, 2, 3, 4]);
}

#[test]
fn download_error_is_recorded() {
    let mut shared = fetched(&[1, 2]);
    assert!(!shared.record(Received::Error));
    assert!(shared.has_error);
    assert!(!shared.is_eof);
    assert_eq!(shared.buffer, vec![1, 2]);
}

#[test]
fn read_serves_what_is_there() {
    let shared = fetched(&[10, 11, 12, 13, 14]);
    let mut stream = ProgressiveStream::new(Some(5));
    let mut buf = [0u8; 3];
    assert_eq!(stream.read(&shared, &mut buf), ReadStep::Data(3));
    assert_eq!(buf, [10, 11, 12]);
    assert_eq!(stream.pos, 3);
    assert_eq!(stream.read(&shared, &mut buf), ReadStep::Data(2));
    assert_eq!(buf, [13, 14, 12]);
    assert_eq!(stream.pos, 5);
}

#[test]
fn read_into_no_room_reads_nothing() {
    let shared = fetched(&[1, 2, 3]);
    let mut stream = ProgressiveStream::new(None);
    let mut none: [u8; 0] = [];
    assert_eq!(stream.read(&shared, &mut none), ReadStep::Data(0));
    assert_eq!(stream.pos, 0);
}

#[test]
fn read_at_the_tail_waits_for_the_downloader() {
    let mut shared = fetched(&[1, 2, 3]);
    let mut stream = ProgressiveStream::new(None);
    let mut buf = [0u8; 8];
    assert_eq!(stream.read(&shared, &mut buf), ReadStep::Data(3));
    assert_eq!(stream.read(&shared, &mut buf), ReadStep::Wait);
    assert_eq!(stream.pos, 3);
    assert_eq!(buf, [1, 2, 3, 0, 0, 0, 0, 0]);
    shared.record(Received::Bytes(&[4, 5]));
    assert_eq!(stream.read(&shared, &mut buf), ReadStep::Data(2));
    assert_eq!(buf, [4, 5, 3, 0, 0, 0, 0, 0]);
    assert_eq!(stream.read(&shared, &mut buf), ReadStep::Wait);
    shared.record(Received::Bytes(&[]));
    assert_eq!(stream.read(&shared, &mut buf), ReadStep::End);
    assert_eq!(stream.pos, 5);
}

#[test]
fn read_serves_what_is_there_before_it_reports_an_error() {
    let mut shared = fetched(&[1, 2, 3]);
    shared.record(Received::Error);
    let mut stream = ProgressiveStream::new(None);
    let mut buf = [0u8; 2];
    assert_eq!(stream.read(&shared, &mut buf), ReadStep::Data(2));
    assert_eq!(stream.read(&shared, &mut buf), ReadStep::Data(1));
    assert_eq!(stream.read(&shared, &mut buf), ReadStep::Failed);
    assert_eq!(stream.pos, 3);
}

#[test]
fn read_reports_an_error_rather_than_the_end() {
    let mut shared = fetched(&[1]);
    shared.record(Received::Bytes(&[]));
    shared.has_error = true;
    let mut stream = ProgressiveStream::new(None);
    stream.pos = 1;
    let mut buf = [0u8; 2];
    assert_eq!(stream.read(&shared, &mut buf), ReadStep::Failed);
}

#[test]
fn seek_from_start_and_position_does_not_wait() {
    let shared = fetched(&[0; 10]);
    let mut stream = ProgressiveStream::new(None);
    assert_eq!(stream.seek(&shared, SeekTarget::Start(4)), SeekStep::Moved(4));
    assert_eq!(stream.seek(&shared, SeekTarget::Current(3)), SeekStep::Moved(7));
    assert_eq!(stream.seek(&shared, SeekTarget::Current(-7)), SeekStep::Moved(0));
    assert_eq!(stream.seek(&shared, SeekTarget::Start(1_000)), SeekStep::Moved(1_000));
    assert_eq!(stream.pos, 1_000);
}

#[test]
fn seek_past_the_tail_parks_the_reader() {
    // The reader seeks to near the end of a large file right away: it waits
    // without an error until the downloader has caught up, then goes on.
    let mut shared = fetched(&[7; 16]);
    let mut stream = ProgressiveStream::new(Some(200));
    assert_eq!(stream.seek(&shared, SeekTarget::Start(195)), SeekStep::Moved(195));
    let mut buf = [0u8; 4];
    assert_eq!(stream.read(&shared, &mut buf), ReadStep::Wait);
    shared.record(Received::Bytes(&[8; 100]));
    assert_eq!(stream.read(&shared, &mut buf), ReadStep::Wait);
    shared.record(Received::Bytes(&[9; 84]));
    assert_eq!(stream.read(&shared, &mut buf), ReadStep::Data(4));
    assert_eq!(buf, [9, 9, 9, 9]);
    assert_eq!(stream.read(&shared, &mut buf), ReadStep::Data(1));
    assert_eq!(stream.read(&shared, &mut buf), ReadStep::Wait);
    shared.record(Received::Bytes(&[]));
    assert_eq!(stream.read(&shared, &mut buf), ReadStep::End);
}

#[test]
fn seek_from_the_end_waits_for_the_end() {
    let mut shared = fetched(&[0; 10]);
    let mut stream = ProgressiveStream::new(None);
    stream.pos = 2;
    assert_eq!(stream.seek(&shared, SeekTarget::End(-4)), SeekStep::Wait);
    assert_eq!(stream.pos, 2);
    shared.record(Received::Bytes(&[0; 5]));
    assert_eq!(stream.seek(&shared, SeekTarget::End(-4)), SeekStep::Wait);
    shared.record(Received::Bytes(&[]));
    assert_eq!(stream.seek(&shared, SeekTarget::End(-4)), SeekStep::Moved(11));
    assert_eq!(stream.seek(&shared, SeekTarget::End(0)), SeekStep::Moved(15));
    assert_eq!(stream.seek(&shared, SeekTarget::End(3)), SeekStep::Moved(18));
}

#[test]
fn seek_from_the_end_fails_with_the_download() {
    let mut shared = fetched(&[0; 10]);
    shared.record(Received::Error);
    let mut stream = ProgressiveStream::new(None);
    stream.pos = 2;
    assert_eq!(stream.seek(&shared, SeekTarget::End(0)), SeekStep::Failed);
    assert_eq!(stream.pos, 2);
    // Seeks from the start do not look at the download.
    assert_eq!(stream.seek(&shared, SeekTarget::Start(1)), SeekStep::Moved(1));
}

#[test]
fn seek_before_the_start_is_refused() {
    let mut shared = fetched(&[0; 10]);
    shared.record(Received::Bytes(&[]));
    let mut stream = ProgressiveStream::new(None);
    stream.pos = 5;
    assert_eq!(stream.seek(&shared, SeekTarget::Current(-6)), SeekStep::Invalid);
    assert_eq!(stream.seek(&shared, SeekTarget::End(-11)), SeekStep::Invalid);
    assert_eq!(stream.seek(&shared, SeekTarget::Current(i64::MIN)), SeekStep::Invalid);
    assert_eq!(stream.pos, 5);
}

#[test]
fn seek_too_far_out_is_refused() {
    let shared = fetched(&[0; 10]);
    let mut stream = ProgressiveStream::new(None);
    stream.pos = 5;
    assert_eq!(stream.seek(&shared, SeekTarget::Start(u64::MAX)), SeekStep::Invalid);
    assert_eq!(stream.seek(&shared, SeekTarget::Start(1 << 63)), SeekStep::Invalid);
    assert_eq!(stream.seek(&shared, SeekTarget::Current(i64::MAX)), SeekStep::Invalid);
    assert_eq!(stream.pos, 5);
    assert_eq!(
        stream.seek(&shared, SeekTarget::Start(i64::MAX as u64)),
        SeekStep::Moved(i64::MAX as u64)
    );
}

#[test]
fn stream_can_seek_and_knows_the_stated_length() {
    let stream = ProgressiveStream::new(Some(1_234));
    assert!(stream.is_seekable());
    assert_eq!(stream.byte_len(), Some(1_234));
    assert_eq!(ProgressiveStream::new(None).byte_len(), None);
    assert_eq!(stream.pos, 0);
}
