use std::cell::Cell;
use std::collections::{BTreeSet, HashSet};

use arena_graph::graph::{ArenaIds, Graph};
use arena_graph::handle::{HandleError, NodePtr};

struct Linked {
    payload: u32,
    link: Cell<Option<NodePtr>>,
}

fn linked(payload: u32) -> Linked {
    Linked { payload, link: Cell::new(None) }
}

#[test]
fn raw_it_works() {}

#[test]
fn scenario_link_persists_across_sessions() {
    let g = Graph::<Linked>::new(1);
    let mut s = g.with();
    let a = s.insert(linked(1));
    let b = s.insert(linked(2));
    a.node(&s).link.set(Some(b.make_ptr()));
    let stored = a.node(&s).link.get().unwrap();
    let back = s.lookup_ptr(stored).unwrap();
    assert_eq!(back.node(&s).payload, 2);
    assert_eq!(s.get(back).unwrap().payload, 2);
    let g = s.finish();
    assert_eq!(g.len(), 2);

    let s = g.with();
    assert_eq!(s.len(), 2);
    let a2 = s.lookup_ptr(a.make_ptr()).unwrap();
    assert_eq!(a2.node(&s).payload, 1);
    let b2 = s.lookup_ptr(a2.node(&s).link.get().unwrap()).unwrap();
    assert_eq!(b2.node(&s).payload, 2);
}

#[test]
fn raw_handles_of_one_node_are_equal() {
    let mut s = Graph::<u32>::new(3).with();
    let a = s.insert(10);
    let b = s.insert(10);
    let again = s.lookup_ptr(a.make_ptr()).unwrap();
    assert_eq!(a.make_ptr(), a.make_ptr());
    assert_eq!(again.make_ptr(), a.make_ptr());
    assert!(a.make_ptr().ptr_eq(again.make_ptr()));
    assert_ne!(a.make_ptr(), b.make_ptr());
    assert!(!a.make_ptr().ptr_eq(b.make_ptr()));
    let c = s.insert(10);
    assert_ne!(c.make_ptr(), a.make_ptr());
    assert_ne!(c.make_ptr(), b.make_ptr());
    assert!(a == again);
    assert!(a != b);
}

#[test]
fn round_trip_gives_same_value() {
    let mut s = Graph::<String>::new(4).with();
    let h = s.insert("leaf".to_string());
    let back = s.lookup_ptr(h.make_ptr()).unwrap();
    assert_eq!(back.node(&s), "leaf");
    assert_eq!(back.index(), h.index());
    assert_eq!(back.brand(), s.brand_of());
}

#[test]
fn foreign_arena_handle_is_refused() {
    let mut a = Graph::<u32>::new(5).with();
    let mut b = Graph::<u32>::new(6).with();
    let x = a.insert(7);
    let _y = b.insert(8);
    assert_eq!(b.lookup_ptr(x.make_ptr()).unwrap_err(), HandleError::Foreign);
    assert_eq!(b.get(x).unwrap_err(), HandleError::Foreign);
    assert_eq!(x.make_ptr().arena(), 5);
}

#[test]
fn slot_beyond_arena_is_foreign() {
    let mut big = Graph::<u32>::new(7).with();
    big.insert(1);
    let far = big.insert(2);
    let small = Graph::<u32>::new(7).with();
    assert_eq!(small.lookup_ptr(far.make_ptr()), Err(HandleError::Foreign));
}

#[test]
fn inserting_more_keeps_earlier_handles() {
    let mut s = Graph::<u64>::new(8).with();
    let first = s.insert(42);
    let p = first.make_ptr();
    for i in 0..1000u64 {
        s.insert(i);
    }
    assert_eq!(s.len(), 1001);
    assert_eq!(*first.node(&s), 42);
    assert_eq!(*s.lookup_ptr(p).unwrap().node(&s), 42);
    assert_eq!(p.index(), 0);
}

#[test]
fn handle_of_finished_session_is_stale() {
    let mut s = Graph::<u32>::new(9).with();
    let h = s.insert(1);
    let g = s.finish();
    let s2 = g.with();
    assert_eq!(s2.get(h), Err(HandleError::Stale));
    assert_eq!(s2.brand_of(), 1);
    assert_eq!(h.brand(), 0);
    let fresh = s2.lookup_ptr(h.make_ptr()).unwrap();
    assert_eq!(*s2.get(fresh).unwrap(), 1);
}

#[test]
fn node_guard_lookup_checks_its_session() {
    let mut s = Graph::<u32>::new(10).with();
    let a = s.insert(1);
    let b = s.insert(2);
    let got = a.lookup_ptr(&s, b.make_ptr()).unwrap();
    assert_eq!(*got.node(&s), 2);
    let other = Graph::<u32>::new(11).with();
    assert_eq!(a.lookup_ptr(&other, b.make_ptr()), Err(HandleError::Stale));
    let s2 = s.finish().with();
    assert_eq!(a.lookup_ptr(&s2, b.make_ptr()), Err(HandleError::Stale));
    let c = s2.lookup_ptr(a.make_ptr()).unwrap();
    assert!(c.lookup_ptr(&s2, b.make_ptr()).is_ok());
    let mut other = Graph::<u32>::new(12).with();
    let stranger = other.insert(9);
    assert_eq!(c.lookup_ptr(&s2, stranger.make_ptr()), Err(HandleError::Foreign));
}

#[test]
fn unchecked_lookup_skips_arena_check() {
    let mut s = Graph::<u32>::new(13).with();
    let a = s.insert(5);
    let h = a.make_ptr().lookup_unchecked(&s);
    assert_eq!(*h.node(&s), 5);
    assert_eq!(h.brand(), s.brand_of());
    assert_eq!(h.arena(), 13);
}

#[test]
fn raw_handles_order_and_hash_by_identity() {
    let mut s = Graph::<u32>::new(14).with();
    let a = s.insert(3).make_ptr();
    let b = s.insert(2).make_ptr();
    let c = s.insert(1).make_ptr();
    assert!(a < b && b < c);
    let sorted: Vec<NodePtr> = vec![c, a, b].into_iter().collect::<BTreeSet<_>>().into_iter().collect();
    assert_eq!(sorted, vec![a, b, c]);
    let set: HashSet<NodePtr> = vec![a, b, a, c, b].into_iter().collect();
    assert_eq!(set.len(), 3);
}

#[test]
fn new_graph_is_empty() {
    let g = Graph::<u32>::new(15);
    assert_eq!(g.len(), 0);
    assert_eq!(g.id(), 15);
    let s = g.with();
    assert_eq!(s.len(), 0);
    assert_eq!(s.id(), 15);
    assert_eq!(s.brand_of(), 0);
}

#[test]
fn id_source_gives_distinct_arenas() {
    let mut ids = ArenaIds::new();
    let a = ids.graph::<u32>();
    let b = ids.graph::<u32>();
    assert_eq!(a.id(), 0);
    assert_eq!(b.id(), 1);
    let mut sa = a.with();
    let sb = b.with();
    let x = sa.insert(1);
    assert_eq!(sb.lookup_ptr(x.make_ptr()), Err(HandleError::Foreign));
}
