use haru::reader::{
    seek_target, Pull, PullEnd, PullReply, ReadOutcome, ReaderBridge, SeekTarget, Whence,
    SEEK_CUR, SEEK_END, SEEK_SET, SIZE_UNKNOWN,
};
use haru::status::{FILE_IO_ERROR, STATUS_OK, STREAM_EOF};
use std::io::{Cursor, Read, Seek, SeekFrom};

/// A source that hands out at most `chunk` bytes per read.
struct Trickle {
    inner: Cursor<Vec<u8>>,
    chunk: usize,
}

impl Read for Trickle {
    fn read(&mut self, buf: &mut [u8]) -> std::io::Result<usize> {
        let n = buf.len().min(self.chunk);
        self.inner.read(&mut buf[..n])
    }
}

/// A source whose reads always fail.
struct Broken;

impl Read for Broken {
    fn read(&mut self, _buf: &mut [u8]) -> std::io::Result<usize> {
        Err(std::io::Error::new(std::io::ErrorKind::Other, "broken"))
    }
}

fn pull_from<R: Read>(src: &mut R, bridge: &mut ReaderBridge, buf: &mut [u8]) -> PullReply {
    let mut pull = Pull::new(buf.len());
    loop {
        if let Some(reply) = pull.reply() {
            return reply;
        }
        let start = pull.filled();
        let outcome = match src.read(&mut buf[start..]) {
            Ok(n) => ReadOutcome::Read(n),
            Err(_) => ReadOutcome::Failed,
        };
        pull.record(bridge, outcome);
    }
}

fn to_seek_from(t: SeekTarget) -> SeekFrom {
    match t {
        SeekTarget::Start(p) => SeekFrom::Start(p),
        SeekTarget::Current(d) => SeekFrom::Current(d),
        SeekTarget::End(d) => SeekFrom::End(d),
    }
}

fn size_of<S: Seek>(src: &mut S, bridge: &mut ReaderBridge) -> u32 {
    let mut q = bridge.size_query();
    let measured = src.seek(to_seek_from(q.probe())).ok();
    let back = q.record_end(measured);
    let restored = src.seek(to_seek_from(back)).ok();
    q.reply(bridge, restored)
}

#[test]
fn pull_fills_whole_buffer_across_partial_reads() {
    let mut src = Trickle { inner: Cursor::new((0u8..20).collect()), chunk: 3 };
    let mut bridge = ReaderBridge::new();
    let mut buf = [0u8; 10];
    let reply = pull_from(&mut src, &mut bridge, &mut buf);
    assert_eq!(reply, PullReply { status: STATUS_OK, size: 10 });
    assert_eq!(buf, [0, 1, 2, 3, 4, 5, 6, 7, 8, 9]);
    assert_eq!(bridge.position(), 10);
    assert_eq!(bridge.tell(), 10);
}

#[test]
fn pull_from_short_source_reports_end_with_available_bytes() {
    let mut src = Trickle { inner: Cursor::new(vec![7u8, 8, 9, 10, 11]), chunk: 2 };
    let mut bridge = ReaderBridge::new();
    let mut buf = [0u8; 8];
    let reply = pull_from(&mut src, &mut bridge, &mut buf);
    assert_eq!(reply, PullReply { status: STREAM_EOF, size: 5 });
    assert_eq!(&buf[..5], &[7, 8, 9, 10, 11]);
    assert_eq!(bridge.position(), 5);
}

#[test]
fn pull_from_empty_source_reports_end_with_nothing() {
    let mut src = Cursor::new(Vec::<u8>::new());
    let mut bridge = ReaderBridge::new();
    let mut buf = [0u8; 4];
    let reply = pull_from(&mut src, &mut bridge, &mut buf);
    assert_eq!(reply, PullReply { status: STREAM_EOF, size: 0 });
    assert_eq!(bridge.position(), 0);
}

#[test]
fn pull_of_nothing_reads_nothing() {
    let mut bridge = ReaderBridge::new();
    let mut buf = [0u8; 0];
    let reply = pull_from(&mut Broken, &mut bridge, &mut buf);
    assert_eq!(reply, PullReply { status: STATUS_OK, size: 0 });
}

#[test]
fn pull_from_failing_source_reports_io_error_and_no_bytes() {
    let mut bridge = ReaderBridge::new();
    let mut buf = [0u8; 4];
    let reply = pull_from(&mut Broken, &mut bridge, &mut buf);
    assert_eq!(reply, PullReply { status: FILE_IO_ERROR, size: 0 });
    assert_eq!(bridge.position(), 0);
}

#[test]
fn pull_records_each_outcome() {
    let mut bridge = ReaderBridge::new();
    let mut pull = Pull::new(6);
    pull.record(&mut bridge, ReadOutcome::Read(4));
    assert_eq!(pull, Pull { requested: 6, filled: 4, end: PullEnd::Reading });
    assert_eq!(pull.reply(), None);
    pull.record(&mut bridge, ReadOutcome::Failed);
    assert_eq!(pull.end, PullEnd::Failed);
    assert_eq!(pull.reply(), Some(PullReply { status: FILE_IO_ERROR, size: 0 }));
    assert_eq!(bridge.position(), 4);
}

#[test]
fn pull_fails_when_position_would_overflow() {
    let mut bridge = ReaderBridge::new();
    assert_eq!(bridge.record_seek(Some(u64::MAX - 1)), STATUS_OK);
    let mut pull = Pull::new(8);
    pull.record(&mut bridge, ReadOutcome::Read(2));
    assert_eq!(pull.reply(), Some(PullReply { status: FILE_IO_ERROR, size: 0 }));
    assert_eq!(bridge.position(), u64::MAX - 1);
}

#[test]
fn whence_codes() {
    assert_eq!(Whence::from_native(SEEK_SET), Whence::Start);
    assert_eq!(Whence::from_native(SEEK_CUR), Whence::Current);
    assert_eq!(Whence::from_native(SEEK_END), Whence::End);
    assert_eq!(Whence::from_native(9), Whence::Start);
}

#[test]
fn seek_targets() {
    assert_eq!(seek_target(12, Whence::Start), Some(SeekTarget::Start(12)));
    assert_eq!(seek_target(-1, Whence::Start), None);
    assert_eq!(seek_target(-3, Whence::Current), Some(SeekTarget::Current(-3)));
    assert_eq!(seek_target(-4, Whence::End), Some(SeekTarget::End(-4)));
}

#[test]
fn seek_updates_tracked_position_only_on_success() {
    let mut bridge = ReaderBridge::new();
    assert_eq!(bridge.record_seek(Some(42)), STATUS_OK);
    assert_eq!(bridge.position(), 42);
    assert_eq!(bridge.record_seek(None), FILE_IO_ERROR);
    assert_eq!(bridge.position(), 42);
}

#[test]
fn seek_on_a_source_then_read() {
    let mut src = Cursor::new(vec![1u8, 2, 3, 4, 5, 6]);
    let mut bridge = ReaderBridge::new();
    let target = seek_target(-2, Whence::from_native(SEEK_END)).unwrap();
    let status = bridge.record_seek(src.seek(to_seek_from(target)).ok());
    assert_eq!(status, STATUS_OK);
    assert_eq!(bridge.tell(), 4);
    let mut buf = [0u8; 2];
    assert_eq!(pull_from(&mut src, &mut bridge, &mut buf), PullReply { status: STATUS_OK, size: 2 });
    assert_eq!(buf, [5, 6]);
    assert_eq!(bridge.tell(), 6);
}

#[test]
fn tell_past_32_bits_is_negative() {
    let mut bridge = ReaderBridge::new();
    bridge.record_seek(Some(0x7fff_ffff));
    assert_eq!(bridge.tell(), i32::MAX);
    bridge.record_seek(Some(0x8000_0000));
    assert_eq!(bridge.tell(), -1);
}

#[test]
fn size_query_keeps_position_everywhere() {
    let data: Vec<u8> = (0u8..50).collect();
    for start in [0u64, 1, 25, 49, 50] {
        let mut src = Cursor::new(data.clone());
        let mut bridge = ReaderBridge::new();
        bridge.record_seek(src.seek(SeekFrom::Start(start)).ok());
        assert_eq!(size_of(&mut src, &mut bridge), 50);
        assert!(!bridge.failed());
        assert_eq!(src.position(), start);
        assert_eq!(bridge.position(), start);
    }
}

#[test]
fn size_of_empty_source_is_zero() {
    let mut src = Cursor::new(Vec::<u8>::new());
    let mut bridge = ReaderBridge::new();
    assert_eq!(size_of(&mut src, &mut bridge), 0);
    assert!(!bridge.failed());
}

#[test]
fn size_query_reports_unknown_when_seek_back_fails() {
    let mut bridge = ReaderBridge::new();
    bridge.record_seek(Some(3));
    let mut q = bridge.size_query();
    assert_eq!(q.probe(), SeekTarget::End(0));
    assert_eq!(q.record_end(Some(10)), SeekTarget::Start(3));
    assert_eq!(q.reply(&mut bridge, None), SIZE_UNKNOWN);
    // The source was last reported at its end.
    assert_eq!(bridge.position(), 10);
    assert!(bridge.failed());
}

#[test]
fn size_query_follows_source_that_lands_elsewhere() {
    let mut bridge = ReaderBridge::new();
    bridge.record_seek(Some(3));
    let mut q = bridge.size_query();
    q.record_end(Some(10));
    assert_eq!(q.reply(&mut bridge, Some(4)), SIZE_UNKNOWN);
    assert_eq!(bridge.position(), 4);
    assert!(bridge.failed());
}

#[test]
fn size_query_confirmed_gives_length() {
    let mut bridge = ReaderBridge::new();
    bridge.record_seek(Some(3));
    let mut q = bridge.size_query();
    q.record_end(Some(10));
    assert_eq!(q.reply(&mut bridge, Some(3)), 10);
    assert_eq!(bridge.position(), 3);
    assert!(!bridge.failed());
}

#[test]
fn size_query_reports_unknown_when_measure_fails_or_overflows() {
    let mut bridge = ReaderBridge::new();
    let mut q = bridge.size_query();
    q.record_end(None);
    assert_eq!(q.reply(&mut bridge, Some(0)), SIZE_UNKNOWN);
    assert!(bridge.failed());
    let mut clean = ReaderBridge::new();
    let mut big = clean.size_query();
    big.record_end(Some(1u64 << 32));
    assert_eq!(big.reply(&mut clean, Some(0)), SIZE_UNKNOWN);
    let mut edge = clean.size_query();
    edge.record_end(Some(u32::MAX as u64));
    assert_eq!(edge.reply(&mut clean, Some(0)), SIZE_UNKNOWN);
    let mut below = clean.size_query();
    below.record_end(Some(u32::MAX as u64 - 1));
    assert_eq!(below.reply(&mut clean, Some(0)), u32::MAX - 1);
    assert!(!clean.failed());
}

#[test]
fn failures_are_remembered() {
    let mut bridge = ReaderBridge::new();
    assert!(!bridge.failed());
    let mut buf = [0u8; 4];
    pull_from(&mut Broken, &mut bridge, &mut buf);
    assert!(bridge.failed());
    let mut other = ReaderBridge::new();
    assert_eq!(other.record_seek(None), FILE_IO_ERROR);
    assert!(other.failed());
    let mut fine = ReaderBridge::new();
    let mut src = Cursor::new(vec![1u8, 2]);
    pull_from(&mut src, &mut fine, &mut buf);
    assert!(!fine.failed());
}
