use timers::clock::TimerState;
use timers::countdown::CountdownState;

fn filled(n: usize) -> CountdownState {
    let mut cd = CountdownState::new();
    for i in 0..n {
        assert!(cd.add_entry(format!("timer {}", i), (i as u64 + 1) * 1000));
    }
    cd
}

#[test]
fn capacity_is_twenty_and_the_next_add_changes_nothing() {
    let mut cd = filled(20);
    assert_eq!(cd.entries.len(), 20);

    let before: Vec<(String, u64)> =
        cd.entries.iter().map(|e| (e.name.clone(), e.duration_ms)).collect();
    assert!(!cd.add_entry(String::from("one too many"), 42));
    let after: Vec<(String, u64)> =
        cd.entries.iter().map(|e| (e.name.clone(), e.duration_ms)).collect();
    assert_eq!(before, after);
}

#[test]
fn deleting_the_active_entry_clears_the_active_clock() {
    let mut cd = filled(3);
    cd.cursor = 1;
    cd.start_selected();
    assert_eq!(cd.active_index, Some(1));
    assert!(cd.active_timer.is_some());

    cd.delete_selected();
    assert_eq!(cd.active_index, None);
    assert!(cd.active_timer.is_none());
    assert_eq!(cd.entries.len(), 2);
}

#[test]
fn deleting_before_the_active_entry_shifts_its_index_down_by_one() {
    let mut cd = filled(3);
    cd.cursor = 2;
    cd.start_selected();
    assert_eq!(cd.active_index, Some(2));

    cd.cursor = 0;
    cd.delete_selected();
    assert_eq!(cd.active_index, Some(1));
    assert_eq!(cd.active_name(), Some("timer 2"));
    assert_eq!(cd.active_duration_ms(), Some(3000));
}

#[test]
fn deleting_after_the_active_entry_leaves_it_alone() {
    let mut cd = filled(3);
    cd.cursor = 0;
    cd.start_selected();
    cd.cursor = 2;
    cd.delete_selected();
    assert_eq!(cd.active_index, Some(0));
    assert_eq!(cd.active_name(), Some("timer 0"));
}

#[test]
fn cursor_clamps_to_the_last_entry_and_rests_at_zero_when_empty() {
    let mut cd = filled(2);
    cd.cursor = 1;
    cd.delete_selected();
    assert_eq!(cd.cursor, 0);
    cd.delete_selected();
    assert_eq!(cd.cursor, 0);
    assert!(cd.entries.is_empty());
    // Deleting from an empty list is a no-op.
    cd.delete_selected();
    assert!(cd.entries.is_empty());
}

#[test]
fn start_selected_builds_a_stopped_countdown_of_the_entry_duration() {
    let mut cd = filled(2);
    cd.cursor = 1;
    cd.start_selected();
    let t = cd.active_timer.as_ref().unwrap();
    assert_eq!(t.state, TimerState::Stopped);
    assert_eq!(t.target_ms(), Some(2000));
}

#[test]
fn stop_active_keeps_the_entries() {
    let mut cd = filled(2);
    cd.start_selected();
    cd.stop_active();
    assert!(cd.active_timer.is_none());
    assert_eq!(cd.active_index, None);
    assert_eq!(cd.entries.len(), 2);
}
