use waybar_timer::broadcast::{Broadcaster, Round};

fn filled(ids: &[u32]) -> Broadcaster<u32> {
    let mut broadcaster = Broadcaster::new();
    for id in ids {
        broadcaster.attach(*id);
    }
    broadcaster
}

fn contents(broadcaster: &Broadcaster<u32>) -> Vec<u32> {
    let mut round = broadcaster.begin();
    let mut ids = Vec::new();
    while let Some(id) = broadcaster.current(&round) {
        ids.push(*id);
        round.next += 1;
    }
    ids
}

/// Runs one round in which exactly the connections in `closed` fail, and
/// returns the connections in the order in which delivery was attempted.
fn run_round(broadcaster: &mut Broadcaster<u32>, closed: &[u32]) -> Vec<u32> {
    let mut visited = Vec::new();
    let mut round = broadcaster.begin();
    while let Some(id) = broadcaster.current(&round) {
        let id = *id;
        visited.push(id);
        let delivered = !closed.contains(&id);
        let dropped = broadcaster.settle(&mut round, delivered);
        assert_eq!(dropped, if delivered { None } else { Some(id) });
    }
    visited
}

#[test]
fn new_broadcaster_has_no_subscribers() {
    let broadcaster: Broadcaster<u32> = Broadcaster::new();
    assert_eq!(broadcaster.len(), 0);
    assert_eq!(broadcaster.current(&broadcaster.begin()), None);
}

#[test]
fn attach_appends() {
    let broadcaster = filled(&[7, 8, 9]);
    assert_eq!(broadcaster.len(), 3);
    assert_eq!(contents(&broadcaster), [7, 8, 9]);
}

#[test]
fn round_starts_at_the_first_subscriber() {
    let broadcaster = filled(&[7, 8]);
    let round = broadcaster.begin();
    assert_eq!(round, Round { next: 0 });
    assert_eq!(broadcaster.current(&round), Some(&7));
}

#[test]
fn delivery_moves_on_and_keeps_everyone() {
    let mut broadcaster = filled(&[7, 8]);
    let mut round = broadcaster.begin();
    assert_eq!(broadcaster.settle(&mut round, true), None);
    assert_eq!(round, Round { next: 1 });
    assert_eq!(broadcaster.current(&round), Some(&8));
    assert_eq!(broadcaster.settle(&mut round, true), None);
    assert_eq!(round, Round { next: 2 });
    assert_eq!(broadcaster.current(&round), None);
    assert_eq!(contents(&broadcaster), [7, 8]);
}

#[test]
fn failure_drops_the_subscriber_and_puts_the_last_in_its_place() {
    let mut broadcaster = filled(&[1, 2, 3, 4]);
    let mut round = Round { next: 1 };
    assert_eq!(broadcaster.settle(&mut round, false), Some(2));
    assert_eq!(round, Round { next: 1 });
    assert_eq!(contents(&broadcaster), [1, 4, 3]);
    assert_eq!(broadcaster.current(&round), Some(&4));
}

#[test]
fn failure_of_the_last_subscriber_ends_the_round() {
    let mut broadcaster = filled(&[1, 2]);
    let mut round = Round { next: 1 };
    assert_eq!(broadcaster.settle(&mut round, false), Some(2));
    assert_eq!(contents(&broadcaster), [1]);
    assert_eq!(broadcaster.current(&round), None);
}

#[test]
fn settle_after_the_round_is_over_does_nothing() {
    let mut broadcaster = filled(&[1, 2]);
    let mut round = Round { next: 2 };
    assert_eq!(broadcaster.settle(&mut round, false), None);
    assert_eq!(broadcaster.settle(&mut round, true), None);
    assert_eq!(round, Round { next: 2 });
    assert_eq!(contents(&broadcaster), [1, 2]);
}

#[test]
fn round_attempts_every_subscriber_once_and_keeps_who_accepted() {
    let all = [1u32, 2, 3, 4, 5, 6];
    for mask in 0u32..64 {
        let closed: Vec<u32> = all.iter().copied().filter(|id| mask >> (id - 1) & 1 == 1).collect();
        let mut broadcaster = filled(&all);
        let mut visited = run_round(&mut broadcaster, &closed);
        visited.sort();
        assert_eq!(visited, all, "closed {closed:?}");
        let mut left = contents(&broadcaster);
        left.sort();
        let open: Vec<u32> = all.iter().copied().filter(|id| !closed.contains(id)).collect();
        assert_eq!(left, open, "closed {closed:?}");
    }
}

#[test]
fn round_visits_in_swap_remove_order() {
    let mut broadcaster = filled(&[1, 2, 3, 4, 5]);
    let visited = run_round(&mut broadcaster, &[1, 5]);
    assert_eq!(visited, [1, 5, 4, 2, 3]);
    assert_eq!(contents(&broadcaster), [4, 2, 3]);
}

#[test]
fn round_with_every_subscriber_closed_leaves_none() {
    let mut broadcaster = filled(&[1, 2, 3]);
    let visited = run_round(&mut broadcaster, &[1, 2, 3]);
    assert_eq!(visited, [1, 3, 2]);
    assert_eq!(broadcaster.len(), 0);
}
