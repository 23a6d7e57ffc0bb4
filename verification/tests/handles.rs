use scene_registry::size::Size2d;
use scene_registry::store::{Handle, Store};
use scene_registry::texture::{InspectorTextureId, TextureRegistry};

#[test]
fn store_starts_empty() {
    let store: Store<&str> = Store::new();
    assert_eq!(store.len(), 0);
    assert!(store.handles().is_empty());
}

#[test]
fn insert_issues_handles_that_find_their_values() {
    let mut store = Store::new();
    let a = store.insert("a");
    let b = store.insert("b");
    assert_ne!(a, b);
    assert_eq!(store.get(a), Some(&"a"));
    assert_eq!(store.get(b), Some(&"b"));
    assert!(store.contains(a));
    assert_eq!(store.len(), 2);
}

#[test]
fn get_mut_changes_one_value_in_place() {
    let mut store = Store::new();
    let a = store.insert(1u32);
    let b = store.insert(2u32);
    *store.get_mut(a).unwrap() = 10;
    assert_eq!(store.get(a), Some(&10));
    assert_eq!(store.get(b), Some(&2));
}

#[test]
fn remove_hands_the_value_back_once() {
    let mut store = Store::new();
    let a = store.insert(String::from("value"));
    assert_eq!(store.remove(a), Some(String::from("value")));
    assert_eq!(store.remove(a), None);
    assert_eq!(store.get(a), None);
    assert!(!store.contains(a));
    assert!(store.get_mut(a).is_none());
    assert_eq!(store.len(), 0);
}

#[test]
fn removed_handle_stays_dead_when_its_slot_is_used_again() {
    let mut store = Store::new();
    let first = store.insert(1u32);
    let other = store.insert(2u32);
    assert_eq!(store.remove(first), Some(1));
    let second = store.insert(3u32);
    assert_ne!(second, first);
    assert_eq!(store.get(first), None);
    assert_eq!(store.get(second), Some(&3));
    assert_eq!(store.get(other), Some(&2));
    assert_eq!(store.len(), 2);
}

#[test]
fn many_rounds_of_reuse_never_revive_a_handle() {
    let mut store = Store::new();
    let mut dead: Vec<Handle> = Vec::new();
    for round in 0..50u32 {
        let h = store.insert(round);
        assert!(!dead.contains(&h));
        assert_eq!(store.remove(h), Some(round));
        dead.push(h);
    }
    let live = store.insert(1000);
    for h in &dead {
        assert_eq!(store.get(*h), None);
        assert_ne!(*h, live);
    }
    assert_eq!(store.get(live), Some(&1000));
}

#[test]
fn handles_lists_every_live_handle_once() {
    let mut store = Store::new();
    let a = store.insert('a');
    let b = store.insert('b');
    let c = store.insert('c');
    store.remove(b);
    let mut listed = store.handles();
    assert_eq!(listed.len(), 2);
    assert!(listed.contains(&a));
    assert!(listed.contains(&c));
    assert!(!listed.contains(&b));
    listed.dedup();
    assert_eq!(listed.len(), 2);
}

#[test]
fn a_handle_of_another_store_is_checked_like_any_other() {
    let mut a: Store<u8> = Store::new();
    let b: Store<u8> = Store::new();
    let h = a.insert(1);
    assert_eq!(b.get(h), None);
    assert!(!b.contains(h));
}

#[test]
fn size_clamps_degenerate_dimensions() {
    let size = Size2d::new(0, 0);
    assert_eq!(size.width(), 1);
    assert_eq!(size.height(), 1);
    let size = Size2d::new(640, 0);
    assert_eq!((size.width(), size.height()), (640, 1));
    let size = Size2d::new(3, 5);
    assert_eq!((size.width(), size.height()), (3, 5));
    assert_eq!(Size2d::new(0, 7), Size2d::new(1, 7));
}

#[test]
fn texture_registry_registers_and_resizes_in_place() {
    let mut registry: TextureRegistry<&str> = TextureRegistry::new();
    assert_eq!(registry.len(), 0);
    let id = registry.register("albedo", "gpu-1", InspectorTextureId::User(4), Size2d::new(8, 8));
    let other = registry.register("depth", "gpu-2", InspectorTextureId::User(5), Size2d::new(2, 2));
    assert_eq!(registry.len(), 2);
    {
        let entry = registry.get(id).unwrap();
        assert_eq!(entry.name(), "albedo");
        assert_eq!(*entry.texture(), "gpu-1");
        assert_eq!(entry.egui_id(), InspectorTextureId::User(4));
        assert_eq!(entry.size(), Size2d::new(8, 8));
    }
    registry.get_mut(id).unwrap().resize(Size2d::new(0, 16), "gpu-3");
    let entry = registry.get(id).unwrap();
    assert_eq!(entry.name(), "albedo");
    assert_eq!(*entry.texture(), "gpu-3");
    assert_eq!(entry.egui_id(), InspectorTextureId::User(4));
    assert_eq!(entry.size(), Size2d::new(1, 16));
    assert_eq!(registry.get(other).unwrap().name(), "depth");
    let listed = registry.list();
    assert_eq!(listed.len(), 2);
    assert!(listed.contains(&id) && listed.contains(&other));
    let fresh: TextureRegistry<&str> = TextureRegistry::default();
    assert_eq!(fresh.len(), 0);
    assert!(fresh.get(id).is_none());
}

#[test]
fn handles_keep_their_order_while_the_store_is_not_changed() {
    let mut store = Store::new();
    let a = store.insert(1u8);
    let b = store.insert(2u8);
    let c = store.insert(3u8);
    store.remove(b);
    let d = store.insert(4u8);
    let first = store.handles();
    let second = store.handles();
    assert_eq!(first, second);
    *store.get_mut(c).unwrap() = 30;
    assert_eq!(store.handles(), first);
    assert_eq!(first.len(), 3);
    assert!(first.contains(&a) && first.contains(&c) && first.contains(&d));
}
