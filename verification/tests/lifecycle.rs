use chore_tracker::chore::{Chore, Priority};
use chore_tracker::store::{ChoreStore, Disposition, TransitionError};

fn chore(title: &str, cost: u32, priority: Priority) -> Chore {
    Chore::new(title.to_string(), cost, priority)
}

fn abc_store() -> ChoreStore {
    let due = vec![
        chore("A", 1, Priority::Low),
        chore("B", 2, Priority::Mid),
        chore("C", 3, Priority::High),
    ];
    ChoreStore::new("tester".to_string(), due)
}

#[test]
fn transition_correctness() {
    let mut store = abc_store();
    let r = store.transition_due(1, Disposition::Completed);
    assert!(r.is_ok());
    assert_eq!(store.due(), &vec![chore("A", 1, Priority::Low), chore("C", 3, Priority::High)]);
    assert_eq!(store.completed(), &vec![chore("B", 2, Priority::Mid)]);
    let b = &store.completed()[0];
    assert_eq!(b.title, "B");
    assert_eq!(b.cost, 2);
    assert_eq!(b.priority, Priority::Mid);
}

#[test]
fn order_preserved_for_every_position() {
    for index in 0..3 {
        let mut store = abc_store();
        let before: Vec<Chore> = store.due().clone();
        store.transition_due(index, Disposition::Obviated).unwrap();
        let mut expected = before;
        expected.remove(index);
        assert_eq!(store.due(), &expected);
    }
}

#[test]
fn out_of_range_rejected() {
    let mut store = abc_store();
    let due_before = store.due().clone();
    let r = store.transition_due(5, Disposition::Completed);
    assert_eq!(r, Err(TransitionError::OutOfRange));
    assert_eq!(store.due(), &due_before);
    assert_eq!(store.completed(), &Vec::<Chore>::new());
    assert_eq!(store.obviated(), &Vec::<Chore>::new());
    assert_eq!(store.abrogated(), &Vec::<Chore>::new());
}

#[test]
fn out_of_range_on_empty_due() {
    let mut store = ChoreStore::new("tester".to_string(), Vec::new());
    let r = store.transition_due(0, Disposition::Abrogated);
    assert_eq!(r, Err(TransitionError::OutOfRange));
    assert!(store.due().is_empty());
}

#[test]
fn each_disposition_targets_its_own_list() {
    let mut store = abc_store();
    store.transition_due(0, Disposition::Completed).unwrap();
    store.transition_due(0, Disposition::Obviated).unwrap();
    store.transition_due(0, Disposition::Abrogated).unwrap();
    assert!(store.due().is_empty());
    assert_eq!(store.completed(), &vec![chore("A", 1, Priority::Low)]);
    assert_eq!(store.obviated(), &vec![chore("B", 2, Priority::Mid)]);
    assert_eq!(store.abrogated(), &vec![chore("C", 3, Priority::High)]);
}

#[test]
fn partition_count_constant_across_transitions() {
    let mut store = abc_store();
    let total = |s: &ChoreStore| {
        s.due().len() + s.completed().len() + s.obviated().len() + s.abrogated().len()
    };
    assert_eq!(total(&store), 3);
    store.transition_due(2, Disposition::Completed).unwrap();
    assert_eq!(total(&store), 3);
    store.transition_due(0, Disposition::Abrogated).unwrap();
    assert_eq!(total(&store), 3);
    let _ = store.transition_due(9, Disposition::Obviated);
    assert_eq!(total(&store), 3);
    store.transition_due(0, Disposition::Obviated).unwrap();
    assert_eq!(total(&store), 3);
}

#[test]
fn listing_idempotent() {
    let store = abc_store();
    let first = store.list_due();
    let second = store.list_due();
    assert_eq!(first, second);
}

#[test]
fn terminal_states_are_terminal() {
    let mut store = abc_store();
    store.transition_due(1, Disposition::Obviated).unwrap();
    let b = chore("B", 2, Priority::Mid);
    assert_eq!(store.obviated(), &vec![b.clone()]);
    store.transition_due(0, Disposition::Completed).unwrap();
    store.transition_due(0, Disposition::Abrogated).unwrap();
    assert_eq!(store.obviated(), &vec![b.clone()]);
    assert!(!store.completed().contains(&b));
    assert!(!store.abrogated().contains(&b));
    assert!(!store.due().contains(&b));
}

#[test]
fn end_to_end_scenario() {
    let mut store = chore_tracker::store::initial_store();
    assert_eq!(store.profile_name(), "Username");
    assert_eq!(
        store.due(),
        &vec![
            chore("Chore 1", 5, Priority::High),
            chore("Chore 2", 3, Priority::Mid),
            chore("Chore 3", 1, Priority::Low),
        ]
    );
    store.transition_due(0, Disposition::Abrogated).unwrap();
    assert_eq!(
        store.due(),
        &vec![chore("Chore 2", 3, Priority::Mid), chore("Chore 3", 1, Priority::Low)]
    );
    assert_eq!(store.abrogated(), &vec![chore("Chore 1", 5, Priority::High)]);
    assert_eq!(store.completed(), &Vec::<Chore>::new());
    assert_eq!(store.obviated(), &Vec::<Chore>::new());
}

#[test]
fn listing_pairs_positions_with_labels() {
    let store = abc_store();
    let listing = store.list_due();
    assert_eq!(
        listing,
        vec![
            (0, "A (low) [1]".to_string()),
            (1, "B (mid) [2]".to_string()),
            (2, "C (high) [3]".to_string()),
        ]
    );
}

#[test]
fn listing_tracks_mutation() {
    let mut store = abc_store();
    store.transition_due(0, Disposition::Completed).unwrap();
    let listing = store.list_due();
    assert_eq!(
        listing,
        vec![(0, "B (mid) [2]".to_string()), (1, "C (high) [3]".to_string())]
    );
}
