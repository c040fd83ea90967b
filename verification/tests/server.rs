use hyprland_app_timer::protocol::MSG_PING;
use hyprland_app_timer::protocol::MSG_SAVE;
use hyprland_app_timer::protocol::MSG_STOP;
use hyprland_app_timer::protocol::RESPONSE_FAILED;
use hyprland_app_timer::protocol::RESPONSE_SUCCESS;
use hyprland_app_timer::protocol::RESPONSE_UNKNOWN_MESSAGE;
use hyprland_app_timer::server::ControlOutcome;
use hyprland_app_timer::server::Phase;
use hyprland_app_timer::tracker::FocusEvent;
use hyprland_app_timer::tracker::PendingWindow;
use hyprland_app_timer::tracker::WindowIdentity;
use hyprland_app_timer::Server;
use hyprland_app_timer::Window;

fn record(n: u64) -> Window {
    Window {
        datetime: n * 1_000,
        title: format!("title{}", n),
        class: format!("class{}", n),
        duration: 1_000,
    }
}

fn active(title: &str, class: &str) -> FocusEvent {
    FocusEvent::WindowActive { title: title.to_string(), class: class.to_string() }
}

#[test]
fn new_server_is_running_and_empty() {
    let server = Server::new();
    assert_eq!(server.phase, Phase::Running);
    assert_eq!(server.buffer.len(), 0);
    assert_eq!(server.pending.window, None);
}

#[test]
fn ping_answers_success_and_changes_nothing() {
    // The singleton probe: a Ping must not modify any state of the
    // running instance.
    let mut server = Server::new();
    server.buffer.append(record(1));
    server.pending = PendingWindow {
        window: Some(WindowIdentity { title: "T".to_string(), class: "c".to_string() }),
        since: 5_000,
    };
    let outcome = server.on_control_request(MSG_PING);
    match outcome {
        ControlOutcome::Reply { response } => assert_eq!(response, RESPONSE_SUCCESS),
        ControlOutcome::PersistThenReply { .. } => panic!("ping must not flush"),
    }
    assert_eq!(server.phase, Phase::Running);
    assert_eq!(server.buffer.len(), 1);
    assert_eq!(
        server.pending,
        PendingWindow {
            window: Some(WindowIdentity { title: "T".to_string(), class: "c".to_string() }),
            since: 5_000,
        }
    );
}

#[test]
fn save_flushes_records_received_before_the_message() {
    // Every record appended before the Save goes into exactly one
    // persistence batch; records appended after it do not.
    let mut server = Server::new();
    server.buffer.append(record(1));
    server.buffer.append(record(2));
    server.buffer.append(record(3));
    let outcome = server.on_control_request(MSG_SAVE);
    let batch = match outcome {
        ControlOutcome::PersistThenReply { batch } => batch,
        ControlOutcome::Reply { .. } => panic!("save must flush"),
    };
    assert_eq!(batch, vec![record(1), record(2), record(3)]);
    assert_eq!(server.buffer.len(), 0);

    // Appended after the message was read: stays out of that batch.
    server.buffer.append(record(4));
    assert_eq!(batch.len(), 3);
    let response = server.on_persist_outcome(batch, true);
    assert_eq!(response, RESPONSE_SUCCESS);
    assert_eq!(server.buffer.len(), 1);
}

#[test]
fn failed_persist_restores_the_batch_for_retry() {
    let mut server = Server::new();
    server.buffer.append(record(1));
    server.buffer.append(record(2));
    let batch = match server.on_control_request(MSG_SAVE) {
        ControlOutcome::PersistThenReply { batch } => batch,
        ControlOutcome::Reply { .. } => panic!("save must flush"),
    };
    server.buffer.append(record(3));
    let response = server.on_persist_outcome(batch, false);
    assert_eq!(response, RESPONSE_FAILED);
    // Retained for the next trigger, oldest first: nothing lost.
    let retried = server.on_timer_tick();
    assert_eq!(retried, vec![record(1), record(2), record(3)]);
}

#[test]
fn stop_request_starts_draining_and_answers_success() {
    let mut server = Server::new();
    server.buffer.append(record(1));
    let outcome = server.on_control_request(MSG_STOP);
    match outcome {
        ControlOutcome::Reply { response } => assert_eq!(response, RESPONSE_SUCCESS),
        ControlOutcome::PersistThenReply { .. } => panic!("stop does not flush by itself"),
    }
    assert_eq!(server.phase, Phase::Draining);
    assert_eq!(server.buffer.len(), 1);
}

#[test]
fn unknown_request_byte_changes_nothing() {
    let mut server = Server::new();
    server.buffer.append(record(1));
    let outcome = server.on_control_request(9);
    match outcome {
        ControlOutcome::Reply { response } => assert_eq!(response, RESPONSE_UNKNOWN_MESSAGE),
        ControlOutcome::PersistThenReply { .. } => panic!("unknown byte must not flush"),
    }
    assert_eq!(server.phase, Phase::Running);
    assert_eq!(server.buffer.len(), 1);
}

#[test]
fn timer_tick_drains_even_an_empty_buffer() {
    let mut server = Server::new();
    let batch = server.on_timer_tick();
    assert_eq!(batch, Vec::<Window>::new());
    assert_eq!(server.phase, Phase::Running);
}

#[test]
fn stop_with_pending_window_persists_it_with_its_elapsed_time() {
    // Stop with 3 unflushed records and a pending window of elapsed 2s:
    // the final batch is those 3 plus one synthesized 2s record.
    let mut server = Server::new();
    server.buffer.append(record(1));
    server.buffer.append(record(2));
    server.buffer.append(record(3));
    server.pending = PendingWindow {
        window: Some(WindowIdentity { title: "Term".to_string(), class: "term".to_string() }),
        since: 40_000,
    };
    server.on_shutdown_notice();
    assert_eq!(server.phase, Phase::Draining);

    let batch = server.shutdown_drain(42_000);
    assert_eq!(batch.len(), 4);
    assert_eq!(batch[0], record(1));
    assert_eq!(batch[1], record(2));
    assert_eq!(batch[2], record(3));
    assert_eq!(
        batch[3],
        Window {
            datetime: 40_000,
            title: "Term".to_string(),
            class: "term".to_string(),
            duration: 2_000,
        }
    );
    assert_eq!(server.phase, Phase::Stopped);
    assert_eq!(server.buffer.len(), 0);
    assert_eq!(server.pending.window, None);
}

#[test]
fn one_automatic_flush_across_151_focus_events() {
    // 151 events produce 150 records; the one size-triggered flush fires
    // when the buffer reaches 100, and 50 records remain buffered.
    let mut server = Server::new();
    let mut batches: Vec<usize> = Vec::new();
    for n in 0..151u64 {
        let name = format!("w{}", n);
        if let Some(batch) = server.on_focus_event(active(&name, "cls"), n * 10) {
            batches.push(batch.len());
        }
    }
    assert_eq!(batches, vec![100]);
    assert_eq!(server.buffer.len(), 50);
}

#[test]
fn focus_event_buffers_the_closed_interval() {
    let mut server = Server::new();
    assert_eq!(server.on_focus_event(active("A", "a"), 1_000), None);
    assert_eq!(server.buffer.len(), 0);
    assert_eq!(server.on_focus_event(FocusEvent::WindowClosed, 4_000), None);
    let batch = server.on_timer_tick();
    assert_eq!(
        batch,
        vec![Window {
            datetime: 1_000,
            title: "A".to_string(),
            class: "a".to_string(),
            duration: 3_000,
        }]
    );
}
