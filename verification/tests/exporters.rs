use opentrace_bpf::exporter::helper::{load_and_dispatch, load_and_dispath_with};
use opentrace_bpf::exporter::{DefaultStdoutExporter, Exporter, StreamWriterExpoter};
use opentrace_bpf::formatter::{FormatError, StreamFormatter};
use opentrace_bpf::sink::helper::{
    load_and_dispatch as sink_load_and_dispatch, load_and_dispath_with as sink_load_and_dispath_with,
};
use opentrace_bpf::sink::{EventSink, StreamWriterSink};

#[derive(Default)]
struct VecExporter<T> {
    events: Vec<T>,
}

impl<T> Exporter<T> for VecExporter<T> {
    fn dispatch(&mut self, event: T) {
        self.events.push(event);
    }
}

impl<T> EventSink<T> for VecExporter<T> {
    fn dispatch(&mut self, event: T) {
        self.events.push(event);
    }
}

#[derive(Default)]
struct TestFormatter;

impl StreamFormatter<u32> for TestFormatter {
    fn format(&self, w: &mut Vec<u8>, value: &u32) -> Result<(), FormatError> {
        w.extend_from_slice(format!("value={value}").as_bytes());
        Ok(())
    }
}

#[derive(Default)]
struct FailingFormatter;

impl StreamFormatter<u32> for FailingFormatter {
    fn format(&self, _w: &mut Vec<u8>, _value: &u32) -> Result<(), FormatError> {
        Err(FormatError { message: "format failed".to_string() })
    }
}

#[test]
fn load_and_dispatch_ignores_short_buffers() {
    let mut exporter = VecExporter::<u32>::default();

    load_and_dispatch::<u32, _>(&[1, 2], &mut exporter);

    assert!(exporter.events.is_empty());
}

#[test]
fn load_and_dispatch_reads_plain_old_data() {
    let mut exporter = VecExporter::<u32>::default();
    let bytes = 42_u32.to_ne_bytes();

    load_and_dispatch::<u32, _>(&bytes, &mut exporter);

    assert_eq!(exporter.events, vec![42]);
}

#[test]
fn load_and_dispatch_with_uses_handler_result() {
    let mut exporter = VecExporter::<u32>::default();

    load_and_dispath_with(&[1, 2, 3], &mut exporter, |data: &[u8]| Some(data.len() as u32));
    load_and_dispath_with(&[], &mut exporter, |_: &[u8]| None);

    assert_eq!(exporter.events, vec![3]);
}

#[test]
fn helper_load_and_dispatch_ignores_short_buffers() {
    let mut sink = VecExporter::<u32>::default();

    sink_load_and_dispatch::<u32, _>(&[1, 2], &mut sink);

    assert!(sink.events.is_empty());
}

#[test]
fn helper_load_and_dispatch_reads_plain_old_data() {
    let mut sink = VecExporter::<u32>::default();
    let bytes = 42_u32.to_ne_bytes();

    sink_load_and_dispatch::<u32, _>(&bytes, &mut sink);

    assert_eq!(sink.events, vec![42]);
}

#[test]
fn helper_load_and_dispatch_with_uses_handler_result() {
    let mut sink = VecExporter::<u32>::default();

    sink_load_and_dispath_with(&[1, 2, 3], &mut sink, |data: &[u8]| Some(data.len() as u32));
    sink_load_and_dispath_with(&[], &mut sink, |_: &[u8]| None);

    assert_eq!(sink.events, vec![3]);
}

#[test]
fn dispatch_writes_formatted_event_to_writer() {
    let mut exporter = StreamWriterExpoter::new(Vec::new(), TestFormatter);

    exporter.dispatch(42);

    assert_eq!(String::from_utf8(exporter.writer).unwrap(), "value=42");
}

#[test]
fn dispatch_ignores_formatter_errors() {
    let mut exporter = StreamWriterExpoter::new(Vec::new(), FailingFormatter);

    exporter.dispatch(42);

    assert!(exporter.writer.is_empty());
}

#[test]
fn multiple_dispatches_accumulate() {
    let mut exporter = StreamWriterExpoter::new(Vec::new(), TestFormatter);

    exporter.dispatch(1);
    exporter.dispatch(2);
    exporter.dispatch(3);

    assert_eq!(String::from_utf8(exporter.writer).unwrap(), "value=1value=2value=3");
}

#[test]
fn dispatches_into_non_empty_writer() {
    let buf = Vec::from(b"prefix|".as_slice());
    let mut exporter = StreamWriterExpoter::new(buf, TestFormatter);

    exporter.dispatch(99);

    let output = String::from_utf8(exporter.writer).unwrap();
    assert!(output.starts_with("prefix|"));
    assert!(output.contains("value=99"));
}

#[test]
fn stream_writer_dispatch_writes_formatted_event_to_writer() {
    let mut sink = StreamWriterSink::new(Vec::new(), TestFormatter);

    sink.dispatch(42);

    assert_eq!(String::from_utf8(sink.writer).unwrap(), "value=42");
}

#[test]
fn stream_writer_dispatch_ignores_formatter_errors() {
    let mut sink = StreamWriterSink::new(Vec::new(), FailingFormatter);

    sink.dispatch(42);

    assert!(sink.writer.is_empty());
}

#[test]
fn stream_writer_multiple_dispatches_accumulate() {
    let mut sink = StreamWriterSink::new(Vec::new(), TestFormatter);

    sink.dispatch(1);
    sink.dispatch(2);
    sink.dispatch(3);

    assert_eq!(String::from_utf8(sink.writer).unwrap(), "value=1value=2value=3");
}

#[test]
fn stream_writer_dispatches_into_non_empty_writer() {
    let buf = Vec::from(b"prefix|".as_slice());
    let mut sink = StreamWriterSink::new(buf, TestFormatter);

    sink.dispatch(99);

    let output = String::from_utf8(sink.writer).unwrap();
    assert!(output.starts_with("prefix|"));
    assert!(output.contains("value=99"));
}

#[test]
fn stdout_exporter_renders_what_the_formatter_writes() {
    let exporter = DefaultStdoutExporter::new(TestFormatter);
    assert_eq!(exporter.render(&7).unwrap(), b"value=7".to_vec());
    let failing = DefaultStdoutExporter::new(FailingFormatter);
    assert_eq!(failing.render(&7).unwrap_err().message, "format failed");
}
