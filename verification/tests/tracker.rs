use hyprland_app_timer::tracker::new_window;
use hyprland_app_timer::tracker::FocusEvent;
use hyprland_app_timer::tracker::PendingWindow;
use hyprland_app_timer::tracker::WindowIdentity;
use hyprland_app_timer::Window;

fn active(title: &str, class: &str) -> FocusEvent {
    FocusEvent::WindowActive { title: title.to_string(), class: class.to_string() }
}

#[test]
fn first_event_emits_nothing() {
    let mut tracker = PendingWindow::new();
    let emitted = tracker.transition(active("Browser", "web"), 0);
    assert_eq!(emitted, None);
    assert_eq!(tracker.since, 0);
}

#[test]
fn browser_then_editor_then_closed_yields_two_records() {
    // Active("Browser","web") at t=0s, Active("Editor","code") at t=5s,
    // Closed at t=12s: two records, none for the terminal closed state.
    let mut tracker = PendingWindow::new();
    assert_eq!(tracker.transition(active("Browser", "web"), 0), None);

    let first = tracker.transition(active("Editor", "code"), 5_000);
    assert_eq!(
        first,
        Some(Window {
            datetime: 0,
            title: "Browser".to_string(),
            class: "web".to_string(),
            duration: 5_000,
        })
    );

    let second = tracker.transition(FocusEvent::WindowClosed, 12_000);
    assert_eq!(
        second,
        Some(Window {
            datetime: 5_000,
            title: "Editor".to_string(),
            class: "code".to_string(),
            duration: 7_000,
        })
    );

    // Nothing was pending after the close, so the final drain is empty.
    assert_eq!(tracker.finalize(12_000), None);
}

#[test]
fn closed_to_closed_emits_nothing() {
    let mut tracker = PendingWindow::new();
    assert_eq!(tracker.transition(FocusEvent::WindowClosed, 10), None);
    assert_eq!(tracker.transition(FocusEvent::WindowClosed, 20), None);
}

#[test]
fn zero_duration_flap_still_produces_a_record() {
    let mut tracker = PendingWindow::new();
    assert_eq!(tracker.transition(active("A", "a"), 1_000), None);
    let emitted = tracker.transition(active("B", "b"), 1_000);
    assert_eq!(
        emitted,
        Some(Window {
            datetime: 1_000,
            title: "A".to_string(),
            class: "a".to_string(),
            duration: 0,
        })
    );
}

#[test]
fn finalize_closes_the_still_active_interval() {
    let mut tracker = PendingWindow::new();
    assert_eq!(tracker.transition(active("Editor", "code"), 3_000), None);
    let last = tracker.finalize(10_000);
    assert_eq!(
        last,
        Some(Window {
            datetime: 3_000,
            title: "Editor".to_string(),
            class: "code".to_string(),
            duration: 7_000,
        })
    );
    assert_eq!(tracker.window, None);
}

#[test]
fn record_start_is_backdated_by_its_duration() {
    let identity = WindowIdentity { title: "T".to_string(), class: "c".to_string() };
    let w = new_window(identity, 10_000, 1_500);
    assert_eq!(w.datetime, 8_500);
    assert_eq!(w.duration, 1_500);
    assert_eq!(w.title, "T");
    assert_eq!(w.class, "c");
}

#[test]
fn durations_sum_to_elapsed_time_without_gaps() {
    // A gapless run: a window is active from t=2s until the final drain at
    // t=60s, so the durations must add up to 58s exactly.
    let mut tracker = PendingWindow::new();
    let times: [u64; 5] = [2_000, 7_500, 7_500, 30_000, 44_000];
    let mut emitted: Vec<Window> = Vec::new();
    for (i, t) in times.iter().enumerate() {
        let name = format!("w{}", i);
        if let Some(w) = tracker.transition(active(&name, "cls"), *t) {
            emitted.push(w);
        }
    }
    if let Some(w) = tracker.finalize(60_000) {
        emitted.push(w);
    }
    assert_eq!(emitted.len(), 5);
    let total: u64 = emitted.iter().map(|w| w.duration).sum();
    assert_eq!(total, 58_000);
}
