use modmail::directory::ModmailState;

/// Whether the two maps agree on every number up to `bound`.
fn inverse_up_to(state: &ModmailState, bound: u64) -> bool {
    let mut pairs = 0;
    let mut n = 0;
    while n <= bound {
        if let Some(thread) = state.lookup_thread(n) {
            if state.lookup_correspondent(thread) != Some(n) {
                return false;
            }
            pairs += 1;
        }
        if let Some(user) = state.lookup_correspondent(n) {
            if state.lookup_thread(user) != Some(n) {
                return false;
            }
        }
        n += 1;
    }
    pairs == state.len()
}

#[test]
fn a_new_directory_is_empty() {
    let state = ModmailState::new();
    assert_eq!(state.len(), 0);
    assert_eq!(state.lookup_thread(1), None);
    assert_eq!(state.lookup_correspondent(1), None);
}

#[test]
fn insert_pairs_both_ways() {
    let mut state = ModmailState::new();
    state.insert(1, 100);
    state.insert(2, 200);
    assert_eq!(state.len(), 2);
    assert_eq!(state.lookup_thread(1), Some(100));
    assert_eq!(state.lookup_correspondent(100), Some(1));
    assert_eq!(state.lookup_thread(2), Some(200));
    assert_eq!(state.lookup_correspondent(200), Some(2));
    assert_eq!(state.lookup_thread(100), None);
}

#[test]
fn insert_replaces_a_stale_thread() {
    let mut state = ModmailState::new();
    state.insert(1, 100);
    state.insert(1, 101);
    assert_eq!(state.len(), 1);
    assert_eq!(state.lookup_thread(1), Some(101));
    assert_eq!(state.lookup_correspondent(101), Some(1));
    assert_eq!(state.lookup_correspondent(100), None);
}

#[test]
fn insert_replaces_the_former_owner_of_a_thread() {
    let mut state = ModmailState::new();
    state.insert(1, 100);
    state.insert(2, 100);
    assert_eq!(state.len(), 1);
    assert_eq!(state.lookup_thread(2), Some(100));
    assert_eq!(state.lookup_correspondent(100), Some(2));
    assert_eq!(state.lookup_thread(1), None);
}

#[test]
fn insert_of_two_known_halves_drops_both_former_pairs() {
    let mut state = ModmailState::new();
    state.insert(1, 100);
    state.insert(2, 200);
    state.insert(1, 200);
    assert_eq!(state.len(), 1);
    assert_eq!(state.lookup_thread(1), Some(200));
    assert_eq!(state.lookup_correspondent(200), Some(1));
    assert_eq!(state.lookup_thread(2), None);
    assert_eq!(state.lookup_correspondent(100), None);
}

#[test]
fn insert_of_the_same_pair_changes_nothing() {
    let mut state = ModmailState::new();
    state.insert(1, 100);
    state.insert(1, 100);
    assert_eq!(state.len(), 1);
    assert_eq!(state.lookup_thread(1), Some(100));
    assert_eq!(state.lookup_correspondent(100), Some(1));
}

#[test]
fn remove_by_thread_removes_both_entries() {
    let mut state = ModmailState::new();
    state.insert(1, 100);
    state.insert(2, 200);
    state.remove_by_thread(100);
    assert_eq!(state.len(), 1);
    assert_eq!(state.lookup_thread(1), None);
    assert_eq!(state.lookup_correspondent(100), None);
    assert_eq!(state.lookup_thread(2), Some(200));
}

#[test]
fn remove_by_thread_of_an_unknown_thread_does_nothing() {
    let mut state = ModmailState::new();
    state.insert(1, 100);
    state.remove_by_thread(1);
    state.remove_by_thread(999);
    assert_eq!(state.len(), 1);
    assert_eq!(state.lookup_thread(1), Some(100));
}

#[test]
fn replace_all_discards_what_was_there() {
    let mut state = ModmailState::new();
    state.insert(1, 100);
    state.insert(2, 200);
    state.replace_all(&vec![(3, 300), (4, 400)]);
    assert_eq!(state.len(), 2);
    assert_eq!(state.lookup_thread(1), None);
    assert_eq!(state.lookup_correspondent(200), None);
    assert_eq!(state.lookup_thread(3), Some(300));
    assert_eq!(state.lookup_correspondent(400), Some(4));
}

#[test]
fn replace_all_with_nothing_empties_the_directory() {
    let mut state = ModmailState::new();
    state.insert(1, 100);
    state.replace_all(&Vec::new());
    assert_eq!(state.len(), 0);
    assert_eq!(state.lookup_thread(1), None);
}

#[test]
fn replace_all_lets_the_later_pair_win() {
    let mut state = ModmailState::new();
    state.replace_all(&vec![(1, 100), (1, 101), (2, 101)]);
    assert_eq!(state.len(), 1);
    assert_eq!(state.lookup_thread(2), Some(101));
    assert_eq!(state.lookup_thread(1), None);
    assert_eq!(state.lookup_correspondent(100), None);
}

#[test]
fn the_maps_stay_inverse_over_many_changes() {
    let mut state = ModmailState::new();
    let mut seed: u64 = 12345;
    let mut step = 0;
    while step < 2000 {
        seed = seed.wrapping_mul(6364136223846793005).wrapping_add(1442695040888963407);
        let a = (seed >> 33) % 12;
        let b = (seed >> 40) % 12;
        if (seed >> 50) % 3 == 0 {
            state.remove_by_thread(b);
            assert_eq!(state.lookup_correspondent(b), None);
        } else {
            state.insert(a, b);
            assert_eq!(state.lookup_thread(a), Some(b));
            assert_eq!(state.lookup_correspondent(b), Some(a));
        }
        assert!(inverse_up_to(&state, 12));
        step += 1;
    }
}
