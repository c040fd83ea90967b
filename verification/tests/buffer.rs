use hyprland_app_timer::buffer::RecordBuffer;
use hyprland_app_timer::buffer::FLUSH_THRESHOLD;
use hyprland_app_timer::Window;

fn record(n: u64) -> Window {
    Window {
        datetime: n * 1_000,
        title: format!("title{}", n),
        class: format!("class{}", n),
        duration: 1_000,
    }
}

#[test]
fn drain_returns_contents_in_insertion_order() {
    let mut buffer = RecordBuffer::new();
    buffer.append(record(1));
    buffer.append(record(2));
    buffer.append(record(3));
    let drained = buffer.drain();
    assert_eq!(drained, vec![record(1), record(2), record(3)]);
    assert_eq!(buffer.len(), 0);
}

#[test]
fn second_drain_without_append_is_empty() {
    let mut buffer = RecordBuffer::new();
    buffer.append(record(1));
    buffer.append(record(2));
    let first = buffer.drain();
    assert_eq!(first.len(), 2);
    let second = buffer.drain();
    assert_eq!(second, Vec::<Window>::new());
}

#[test]
fn size_trigger_fires_at_the_threshold() {
    let mut buffer = RecordBuffer::new();
    for n in 0..(FLUSH_THRESHOLD as u64 - 1) {
        buffer.append(record(n));
        assert!(!buffer.should_flush_on_size());
    }
    buffer.append(record(FLUSH_THRESHOLD as u64));
    assert!(buffer.should_flush_on_size());
}

#[test]
fn one_automatic_flush_in_150_appends() {
    // 150 records appended one at a time with threshold 100: exactly one
    // flush, after the 100th append, and 50 records left afterwards.
    let mut buffer = RecordBuffer::new();
    let mut flushes: Vec<usize> = Vec::new();
    for n in 0..150u64 {
        buffer.append(record(n));
        if buffer.should_flush_on_size() {
            flushes.push(buffer.drain().len());
        }
    }
    assert_eq!(flushes, vec![100]);
    assert_eq!(buffer.len(), 50);
}

#[test]
fn restore_puts_failed_batch_back_in_front() {
    let mut buffer = RecordBuffer::new();
    buffer.append(record(1));
    buffer.append(record(2));
    let batch = buffer.drain();
    // A record completes while the failed persist is reported.
    buffer.append(record(3));
    buffer.restore(batch);
    let all = buffer.drain();
    assert_eq!(all, vec![record(1), record(2), record(3)]);
}

#[test]
fn empty_buffer_reports_empty() {
    let mut buffer = RecordBuffer::new();
    assert!(buffer.is_empty());
    assert_eq!(buffer.len(), 0);
    assert!(!buffer.should_flush_on_size());
    buffer.append(record(1));
    assert!(!buffer.is_empty());
}
