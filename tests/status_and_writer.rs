use haru::status::{Error, FILE_IO_ERROR, STATUS_OK};
use haru::writer::WriterBridge;
use std::io::Write;

#[test]
fn zero_status_is_success() {
    assert_eq!(Error::from_status(STATUS_OK), Ok(()));
}

#[test]
fn nonzero_status_carries_its_code() {
    assert_eq!(Error::from_status(0x1025), Err(Error::NativeStatus(0x1025)));
    assert_eq!(Error::from_status(FILE_IO_ERROR), Err(Error::NativeStatus(0x1016)));
}

#[test]
fn missing_handle_resolves_last_error() {
    assert_eq!(Error::from_last_error(0x1051), Error::NullHandle(0x1051));
    assert_eq!(Error::from_last_error(0), Error::Unknown);
}

/// A sink that takes `room` bytes and then fails.
struct Full {
    taken: Vec<u8>,
    room: usize,
}

impl Write for Full {
    fn write(&mut self, buf: &[u8]) -> std::io::Result<usize> {
        if self.taken.len() + buf.len() > self.room {
            return Err(std::io::Error::new(std::io::ErrorKind::Other, "full"));
        }
        self.taken.extend_from_slice(buf);
        Ok(buf.len())
    }
    fn flush(&mut self) -> std::io::Result<()> {
        Ok(())
    }
}

fn push<W: Write>(w: &mut W, bridge: &mut WriterBridge, bytes: &[u8]) -> u32 {
    bridge.record_write(w.write_all(bytes).is_ok())
}

#[test]
fn writes_reach_the_sink() {
    let mut sink: Vec<u8> = Vec::new();
    let mut bridge = WriterBridge::new();
    assert_eq!(push(&mut sink, &mut bridge, b"%PDF-1.3\n"), STATUS_OK);
    assert_eq!(push(&mut sink, &mut bridge, b"%%EOF\n"), STATUS_OK);
    assert_eq!(sink, b"%PDF-1.3\n%%EOF\n".to_vec());
    assert_eq!(bridge.finish(STATUS_OK), Ok(()));
}

#[test]
fn failed_write_surfaces_as_io_failure() {
    let mut sink = Full { taken: Vec::new(), room: 4 };
    let mut bridge = WriterBridge::new();
    assert_eq!(push(&mut sink, &mut bridge, b"abc"), STATUS_OK);
    assert_eq!(push(&mut sink, &mut bridge, b"defg"), FILE_IO_ERROR);
    assert_eq!(bridge.finish(FILE_IO_ERROR), Err(Error::IoFailure));
    assert_eq!(bridge.finish(STATUS_OK), Err(Error::IoFailure));
}

#[test]
fn engine_failure_without_write_failure_keeps_its_code() {
    let bridge = WriterBridge::new();
    assert_eq!(bridge.finish(0x1025), Err(Error::NativeStatus(0x1025)));
}

#[test]
fn failed_font_load_prefers_the_source_failure() {
    assert_eq!(Error::from_load_failure(true, 0x1058), Error::IoFailure);
    assert_eq!(Error::from_load_failure(false, 0x1058), Error::NullHandle(0x1058));
    assert_eq!(Error::from_load_failure(false, 0), Error::Unknown);
}
