use transfer::dynref::{transfer_if_odd, DynRef, Lifetime};
use transfer::{transfer, Transfer};

#[test]
fn new_cell_observes_nothing() {
    let dr = DynRef::new();
    assert!(dr.is_none());
    assert!(!dr.is_some());
}

#[test]
fn lock_then_release_clears_the_cell() {
    let mut cells = vec![DynRef::new()];
    let mut lifetime = DynRef::lock(&mut cells, 0, 0);
    assert!(cells[0].is_some());
    lifetime.release(&mut cells);
    assert!(cells[0].is_none());
}

#[test]
fn relocated_guard_keeps_the_cell_until_released() {
    let mut cells = vec![DynRef::new()];
    let mut outer = Lifetime::empty();
    let mut inner = DynRef::lock(&mut cells, 0, 0);
    let moved = transfer(&mut inner, &mut outer);
    inner.release(&mut cells);
    assert!(cells[0].is_some());
    let mut relocated = Lifetime::empty();
    let last = transfer(moved, &mut relocated);
    last.release(&mut cells);
    assert!(cells[0].is_none());
    last.release(&mut cells);
    assert!(cells[0].is_none());
}

#[test]
fn releasing_an_empty_guard_changes_nothing() {
    let mut cells = vec![DynRef::new(), DynRef::new()];
    let mut held = DynRef::lock(&mut cells, 1, 3);
    let mut placeholder = Lifetime::empty();
    let mut fresh = DynRef::lock(&mut cells, 0, 2);
    let moved = transfer(&mut fresh, &mut placeholder);
    fresh.release(&mut cells);
    assert!(cells[0].is_some());
    assert!(cells[1].is_some());
    moved.release(&mut cells);
    assert!(cells[0].is_none());
    assert!(cells[1].is_some());
    held.release(&mut cells);
    assert!(cells[1].is_none());
}

#[test]
fn map_reads_the_observed_value() {
    let values = vec![String::from("foo"), String::from("bar")];
    let mut cells = vec![DynRef::new()];
    assert_eq!(cells[0].map(&values, |s: &String| s.len()), None);
    let mut lifetime = DynRef::lock(&mut cells, 0, 1);
    assert_eq!(cells[0].map(&values, |s: &String| s.clone()), Some(String::from("bar")));
    lifetime.release(&mut cells);
    assert_eq!(cells[0].map(&values, |s: &String| s.clone()), None);
}

#[test]
fn transfer_if_odd_keeps_reference_for_odd_length() {
    assert!(transfer_if_odd("foo"));
}

#[test]
fn transfer_if_odd_drops_reference_for_even_length() {
    assert!(!transfer_if_odd("foobar"));
}

#[test]
fn transfer_if_odd_on_empty_string() {
    assert!(!transfer_if_odd(""));
}
