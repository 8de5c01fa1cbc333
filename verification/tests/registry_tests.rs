use clipsync::registry::PeerRegistry;

#[test]
fn empty_registry() {
    let r: PeerRegistry<u32> = PeerRegistry::new();
    assert_eq!(r.count(), 0);
    assert!(r.snapshot().is_empty());
}

#[test]
fn insert_and_snapshot_keep_order() {
    let mut r: PeerRegistry<u32> = PeerRegistry::new();
    r.insert("a".to_string(), 1);
    r.insert("b".to_string(), 2);
    r.insert("c".to_string(), 3);
    assert_eq!(r.count(), 3);
    let snap = r.snapshot();
    assert_eq!(snap[0], ("a".to_string(), 1));
    assert_eq!(snap[1], ("b".to_string(), 2));
    assert_eq!(snap[2], ("c".to_string(), 3));
}

#[test]
fn insert_supersedes_prior_entry() {
    let mut r: PeerRegistry<u32> = PeerRegistry::new();
    r.insert("id".to_string(), 1);
    r.insert("id".to_string(), 2);
    assert_eq!(r.count(), 1);
    let snap = r.snapshot();
    assert_eq!(snap.len(), 1);
    assert_eq!(snap[0], ("id".to_string(), 2));
}

#[test]
fn remove_takes_out_one_peer() {
    let mut r: PeerRegistry<u32> = PeerRegistry::new();
    r.insert("a".to_string(), 1);
    r.insert("b".to_string(), 2);
    r.remove(&"a".to_string());
    assert_eq!(r.count(), 1);
    assert_eq!(r.snapshot()[0], ("b".to_string(), 2));
}

#[test]
fn remove_of_absent_id_changes_nothing() {
    let mut r: PeerRegistry<u32> = PeerRegistry::new();
    r.insert("a".to_string(), 1);
    r.remove(&"ghost".to_string());
    assert_eq!(r.count(), 1);
    assert_eq!(r.snapshot()[0], ("a".to_string(), 1));
}

#[test]
fn failed_peer_is_swept_others_stay() {
    let mut r: PeerRegistry<u32> = PeerRegistry::new();
    r.insert("a".to_string(), 1);
    r.insert("b".to_string(), 2);
    r.insert("c".to_string(), 3);
    // peer "b" turned out unwritable during a broadcast
    r.remove_failed(&vec!["b".to_string()]);
    assert_eq!(r.count(), 2);
    let snap = r.snapshot();
    assert_eq!(snap[0], ("a".to_string(), 1));
    assert_eq!(snap[1], ("c".to_string(), 3));
}

#[test]
fn clear_empties_the_registry() {
    let mut r: PeerRegistry<u32> = PeerRegistry::new();
    r.insert("a".to_string(), 1);
    r.insert("b".to_string(), 2);
    r.clear();
    assert_eq!(r.count(), 0);
}
