use openfx_driver::images::ClipImages;
use std::collections::HashMap;
use openfx_driver::images::ImageTracker;
use openfx_driver::strmap::StrMap;
use openfx_driver::{HandleManager, IntoObject, PropertySet};

#[test]
fn handles_resolve_to_registered_objects() {
    let mut m: HandleManager<&str> = HandleManager::new();
    assert!(!m.is_valid(0x1000));
    let h = m.get_handle(0x1000, "first");
    assert_eq!(h, 0x1000);
    let h2 = m.get_handle(0x2000, "second");
    assert_eq!(m.lookup(h), Some(&"first"));
    assert_eq!(m.lookup(h2), Some(&"second"));
    assert_eq!(m.lookup(0x3000), None);
}

#[test]
fn objects_share_their_contents() {
    let obj = PropertySet::new("x", &[]).into_object();
    let other = obj.clone();
    other.0.lock().unwrap().set_name("renamed".to_string());
    assert_eq!(obj.0.lock().unwrap().name(), "renamed");
    assert!(std::sync::Arc::ptr_eq(&obj.0, &other.0));
}

#[test]
fn release_undoes_acquire() {
    let mut t: ImageTracker<&str> = ImageTracker::new();
    assert!(t.is_empty());
    t.acquire(7, "a");
    t.acquire(9, "b");
    assert_eq!(t.len(), 2);
    assert_eq!(t.release(7), Some("a"));
    assert_eq!(t.len(), 1);
    assert_eq!(*t.get(0), "b");
    assert_eq!(t.release(7), None);
    assert_eq!(t.release(9), Some("b"));
    assert!(t.is_empty());
}

#[test]
fn release_takes_first_of_equal_handles() {
    let mut t: ImageTracker<&str> = ImageTracker::new();
    t.acquire(1, "x");
    t.acquire(1, "y");
    assert_eq!(t.release(1), Some("x"));
    assert_eq!(t.release(1), Some("y"));
    assert_eq!(t.release(1), None);
}

#[test]
fn strmap_insert_get_remove() {
    let mut m: StrMap<i32> = StrMap::new();
    assert_eq!(m.insert("a".to_string(), 1), None);
    assert_eq!(m.insert("b".to_string(), 2), None);
    assert_eq!(m.insert("a".to_string(), 3), Some(1));
    assert_eq!(m.len(), 2);
    assert_eq!(m.get("a"), Some(&3));
    assert!(m.contains_key("b"));
    assert_eq!(m.remove("b"), Some(2));
    assert_eq!(m.remove("b"), None);
    assert_eq!(m.get("b"), None);
    assert_eq!(m.len(), 1);
    let (k, v) = m.entry_at(0);
    assert_eq!((k.as_str(), *v), ("a", 3));
}

#[test]
fn clip_images_by_frame() {
    let none: ClipImages<&str> = ClipImages::NoImage;
    assert_eq!(none.image_at_frame(0), None);
    let single = ClipImages::Static("still");
    assert_eq!(single.image_at_frame(12), Some(&"still"));
    let mut m = HashMap::new();
    m.insert(0u32, "f0");
    m.insert(1u32, "f1");
    let seq = ClipImages::Sequence(m);
    assert_eq!(seq.image_at_frame(1), Some(&"f1"));
    assert_eq!(seq.image_at_frame(2), None);
}
