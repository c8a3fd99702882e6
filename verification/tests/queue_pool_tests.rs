use tinymemory::queue_pool::{normalize_path, QueuePoolClaim, QueuePoolSlot};

#[test]
fn the_first_claim_starts_the_pool_and_later_ones_are_told_who_drains() {
    let mut slot = QueuePoolSlot::new();
    assert_eq!(slot.claim_queue_pool("/tmp/ws-a"), QueuePoolClaim::Start);
    assert_eq!(slot.claim_queue_pool("/tmp/ws-a"), QueuePoolClaim::AlreadyDraining);
    assert_eq!(slot.claim_queue_pool("/tmp/ws-b"), QueuePoolClaim::Foreign);
    assert_eq!(slot.claim_queue_pool("/tmp/ws-a"), QueuePoolClaim::AlreadyDraining);
    assert_eq!(slot.workspace.as_deref(), Some("/tmp/ws-a"));
}

#[test]
fn a_workspace_is_the_same_path_however_it_is_spelled() {
    let mut slot = QueuePoolSlot::new();
    assert_eq!(slot.claim_queue_pool("/w1"), QueuePoolClaim::Start);
    assert_eq!(slot.claim_queue_pool("/w1/"), QueuePoolClaim::AlreadyDraining);
    assert_eq!(slot.claim_queue_pool("//w1/./"), QueuePoolClaim::AlreadyDraining);
    assert_eq!(slot.claim_queue_pool("/w2"), QueuePoolClaim::Foreign);
    assert_eq!(slot.claim_queue_pool("w1"), QueuePoolClaim::Foreign);
}

#[test]
fn paths_normalise_as_paths_compare() {
    for (raw, normal) in [
        ("/a/b/", "/a/b"),
        ("/a//b", "/a/b"),
        ("a/./b", "a/b"),
        ("./a/b", "./a/b"),
        ("/./a", "/a"),
        ("a/b/.", "a/b"),
        ("/", "/"),
        ("", ""),
        ("a/../b", "a/../b"),
    ] {
        assert_eq!(normalize_path(raw), normal, "{raw:?}");
        let same = std::path::Path::new(raw) == std::path::Path::new(normal);
        assert!(same, "{raw:?} and {normal:?} are one path");
    }
    assert_ne!(std::path::Path::new("./a"), std::path::Path::new("a"));
}
