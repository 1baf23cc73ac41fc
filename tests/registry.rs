use planet_lookup::registry::Registry;

fn registry_of(ids: &[u32]) -> Registry<u32> {
    let mut r = Registry::new();
    for id in ids {
        r.register(*id);
    }
    r
}

#[test]
fn register_appends_in_order() {
    let r = registry_of(&[4, 2, 9]);
    assert_eq!(r.len(), 3);
    assert_eq!(r.subscribers(), &vec![4, 2, 9]);
}

#[test]
fn prune_drops_only_failed_deliveries() {
    let mut r = registry_of(&[1, 2, 3, 4, 5]);
    r.prune(&vec![true, false, true, false, true]);
    assert_eq!(r.subscribers(), &vec![1, 3, 5]);
}

#[test]
fn prune_with_all_delivered_keeps_everyone() {
    let mut r = registry_of(&[1, 2, 3]);
    r.prune(&vec![true, true, true]);
    assert_eq!(r.subscribers(), &vec![1, 2, 3]);
}

#[test]
fn prune_with_all_failed_empties_registry() {
    let mut r = registry_of(&[1, 2, 3]);
    r.prune(&vec![false, false, false]);
    assert_eq!(r.len(), 0);
}

#[test]
fn prune_on_empty_registry() {
    let mut r: Registry<u32> = Registry::new();
    r.prune(&Vec::new());
    assert_eq!(r.len(), 0);
}

#[test]
fn failing_subscriber_removed_once_over_passes() {
    // Subscriber 2 fails in the first pass and is gone before the second.
    let mut r = registry_of(&[1, 2, 3]);
    r.prune(&vec![true, false, true]);
    assert_eq!(r.subscribers(), &vec![1, 3]);
    r.prune(&vec![true, true]);
    assert_eq!(r.subscribers(), &vec![1, 3]);
    r.prune(&vec![false, true]);
    assert_eq!(r.subscribers(), &vec![3]);
}

#[test]
fn duplicate_subscribers_pruned_by_position() {
    let mut r = registry_of(&[6, 6, 6]);
    r.prune(&vec![true, false, true]);
    assert_eq!(r.subscribers(), &vec![6, 6]);
}
