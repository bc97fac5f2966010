use ppt2::history::append;
use ppt2::outcome::MatchResult;

fn entry(tag: u8) -> MatchResult {
    MatchResult { player_choice: tag % 3, program_choice: (tag / 3) % 3, result: tag }
}

#[test]
fn append_with_room_goes_to_the_end() {
    let mut history = vec![entry(1), entry(2)];
    append(&mut history, 5, entry(3));
    assert_eq!(history, vec![entry(1), entry(2), entry(3)]);
}

#[test]
fn append_to_empty_log() {
    let mut history = Vec::new();
    append(&mut history, 1, entry(9));
    assert_eq!(history, vec![entry(9)]);
}

#[test]
fn append_to_full_log_evicts_the_oldest() {
    let mut history = vec![entry(1), entry(2), entry(3)];
    append(&mut history, 3, entry(4));
    assert_eq!(history, vec![entry(2), entry(3), entry(4)]);
    append(&mut history, 3, entry(5));
    assert_eq!(history, vec![entry(3), entry(4), entry(5)]);
}

#[test]
fn log_of_one_slot_keeps_the_latest() {
    let mut history = vec![entry(1)];
    append(&mut history, 1, entry(2));
    assert_eq!(history, vec![entry(2)]);
}

#[test]
fn log_without_slots_stays_empty() {
    let mut history = Vec::new();
    append(&mut history, 0, entry(1));
    assert!(history.is_empty());
}

#[test]
fn length_is_appends_capped_at_capacity() {
    let capacity = 7usize;
    let mut history = Vec::new();
    for n in 0usize..30 {
        assert_eq!(history.len(), n.min(capacity));
        append(&mut history, capacity, entry(n as u8));
    }
    assert_eq!(history.len(), capacity);
}

#[test]
fn full_log_is_a_sliding_window() {
    let capacity = 4usize;
    let mut history = Vec::new();
    for n in 0u8..20 {
        append(&mut history, capacity, entry(n));
        if (n as usize) + 1 >= capacity {
            assert_eq!(history[capacity - 1], entry(n));
            assert_eq!(history[0], entry(n + 1 - capacity as u8));
            for i in 0..capacity {
                assert_eq!(history[i], entry(n + 1 - capacity as u8 + i as u8));
            }
        }
    }
}
