use index_watcher::event::{FLAG_CREATE, FLAG_REMOVE};
use index_watcher::{
    AttributeSnapshot, ChangeEvent, Directive, EpochOffset, FollowUp, FsWatcher, IndexEntry,
    IndexOp, MemoryIndex, Notification, Observation, OperationKind, RawAttributes, Resolved,
};

fn at(secs: u64) -> Option<EpochOffset> {
    Some(EpochOffset { before_epoch: false, secs, nanos: 0 })
}

fn file(size_bytes: u64) -> Option<RawAttributes> {
    Some(RawAttributes { created: at(1), modified: at(2), size_bytes, is_directory: false })
}

fn directory() -> Option<RawAttributes> {
    Some(RawAttributes { created: at(1), modified: at(2), size_bytes: 0, is_directory: true })
}

fn resolved(path: &str, stat: Option<RawAttributes>) -> Resolved {
    Resolved { path: path.to_string(), snapshot: FsWatcher::resolve(path, stat).ok() }
}

fn event(path: &str, operation: OperationKind) -> ChangeEvent {
    ChangeEvent { path: path.to_string(), operation, rename_cookie: None }
}

fn add(abs_path: &str, name: &str) -> IndexOp {
    IndexOp::Add(IndexEntry { abs_path: abs_path.to_string(), name: name.to_string() })
}

fn vanished() -> Observation {
    Observation { subject: None, descendants: vec![], parent: None }
}

#[test]
fn scenario_file_created_adds_parent_and_file() {
    let mut watcher = FsWatcher::new("/a".to_string());
    assert_eq!(watcher.start(), Directive::Register("/a".to_string()));
    assert_eq!(watcher.registered(Ok(())), Directive::BeginWatching);
    let directive = watcher.notified(Notification {
        path: Some("/a/b.txt".to_string()),
        flags: Some(FLAG_CREATE),
        cookie: None,
    });
    let created = match directive {
        Directive::Process(event) => event,
        other => panic!("no event: {:?}", other),
    };
    assert_eq!(created, event("/a/b.txt", OperationKind::Create));

    let subject = FsWatcher::resolve("/a/b.txt", file(10)).ok();
    let snapshot = subject.clone().unwrap();
    assert_eq!(snapshot.name, "b.txt");
    assert_eq!(snapshot.size_bytes, 10);
    assert!(!snapshot.is_directory);

    let next = FsWatcher::follow_up(&created, &subject);
    assert_eq!(next, FollowUp { enumerate: None, parent: Some("/a".to_string()) });

    let observed = Observation {
        subject,
        descendants: vec![],
        parent: Some(resolved("/a", directory())),
    };
    let ops = FsWatcher::process_event(&created, &observed);
    assert_eq!(ops, vec![add("/a", "a"), add("/a/b.txt", "b.txt")]);

    let mut index = MemoryIndex::new();
    index.apply_all(&ops);
    assert_eq!(index.len(), 2);
    assert_eq!(index.name_of("/a/b.txt"), Some("b.txt".to_string()));
    assert!(index.contains("/a"));
}

#[test]
fn scenario_removal_is_sent_and_repeats_as_no_op() {
    let mut watcher = FsWatcher::new("/a".to_string());
    watcher.start();
    watcher.registered(Ok(()));
    let mut index = MemoryIndex::new();
    index.add(IndexEntry { abs_path: "/a".to_string(), name: "a".to_string() });
    index.add(IndexEntry { abs_path: "/a/b.txt".to_string(), name: "b.txt".to_string() });

    for round in 0..2 {
        let directive = watcher.notified(Notification {
            path: Some("/a/b.txt".to_string()),
            flags: Some(FLAG_REMOVE),
            cookie: None,
        });
        let removed = match directive {
            Directive::Process(event) => event,
            other => panic!("no event: {:?}", other),
        };
        let subject = FsWatcher::resolve("/a/b.txt", None).ok();
        assert_eq!(
            FsWatcher::follow_up(&removed, &subject),
            FollowUp { enumerate: None, parent: None }
        );
        let ops = FsWatcher::process_event(&removed, &vanished());
        assert_eq!(ops, vec![IndexOp::Remove("/a/b.txt".to_string())]);
        index.apply_all(&ops);
        assert!(!index.contains("/a/b.txt"), "round {}", round);
        assert!(index.contains("/a"));
        assert_eq!(index.len(), 1);
    }
}

#[test]
fn scenario_directory_appears_with_contents() {
    let appeared = event("/a/c", OperationKind::Create);
    let subject = FsWatcher::resolve("/a/c", directory()).ok();
    let next = FsWatcher::follow_up(&appeared, &subject);
    assert_eq!(
        next,
        FollowUp { enumerate: Some("/a/c".to_string()), parent: Some("/a".to_string()) }
    );
    let observed = Observation {
        subject,
        descendants: vec![resolved("/a/c/x", file(1)), resolved("/a/c/y", file(2))],
        parent: None,
    };
    let ops = FsWatcher::process_event(&appeared, &observed);
    assert_eq!(ops, vec![add("/a/c/x", "x"), add("/a/c/y", "y"), add("/a/c", "c")]);

    let mut index = MemoryIndex::new();
    index.apply_all(&ops);
    assert!(index.contains("/a/c"));
    assert!(index.contains("/a/c/x"));
    assert!(index.contains("/a/c/y"));
    assert_eq!(index.len(), 3);
}

#[test]
fn subtree_completeness_with_parent() {
    let appeared = event("/a/c", OperationKind::Create);
    let observed = Observation {
        subject: FsWatcher::resolve("/a/c", directory()).ok(),
        descendants: vec![resolved("/a/c/x", file(1)), resolved("/a/c/y", file(2))],
        parent: Some(resolved("/a", directory())),
    };
    let ops = FsWatcher::process_event(&appeared, &observed);
    assert_eq!(
        ops,
        vec![add("/a/c/x", "x"), add("/a/c/y", "y"), add("/a", "a"), add("/a/c", "c")]
    );
}

#[test]
fn vanished_descendants_are_passed_over() {
    let appeared = event("/a/c", OperationKind::Modify);
    let observed = Observation {
        subject: FsWatcher::resolve("/a/c", directory()).ok(),
        descendants: vec![
            resolved("/a/c/x", file(1)),
            resolved("/a/c/gone", None),
            resolved("/a/c/y", file(2)),
        ],
        parent: None,
    };
    let ops = FsWatcher::process_event(&appeared, &observed);
    assert_eq!(ops, vec![add("/a/c/x", "x"), add("/a/c/y", "y"), add("/a/c", "c")]);
}

#[test]
fn descendants_of_a_file_are_ignored() {
    let changed = event("/a/f", OperationKind::Modify);
    let observed = Observation {
        subject: FsWatcher::resolve("/a/f", file(3)).ok(),
        descendants: vec![resolved("/a/f/x", file(1))],
        parent: None,
    };
    assert_eq!(FsWatcher::process_event(&changed, &observed), vec![add("/a/f", "f")]);
}

#[test]
fn empty_directory_adds_only_itself() {
    let appeared = event("/a/empty", OperationKind::Create);
    let observed = Observation {
        subject: FsWatcher::resolve("/a/empty", directory()).ok(),
        descendants: vec![],
        parent: None,
    };
    assert_eq!(FsWatcher::process_event(&appeared, &observed), vec![add("/a/empty", "empty")]);
}

#[test]
fn parent_freshness() {
    let created = event("/d/new.txt", OperationKind::Create);
    let subject = FsWatcher::resolve("/d/new.txt", file(1)).ok();
    let next = FsWatcher::follow_up(&created, &subject);
    let parent_path = next.parent.unwrap();
    assert_eq!(parent_path, "/d");
    let observed = Observation {
        subject,
        descendants: vec![],
        parent: Some(resolved(&parent_path, directory())),
    };
    let ops = FsWatcher::process_event(&created, &observed);
    assert!(ops.contains(&add("/d", "d")));
    let mut index = MemoryIndex::new();
    index.apply_all(&ops);
    assert!(index.contains("/d"));
}

#[test]
fn unresolved_parent_is_not_added() {
    let created = event("/d/new.txt", OperationKind::Create);
    let observed = Observation {
        subject: FsWatcher::resolve("/d/new.txt", file(1)).ok(),
        descendants: vec![],
        parent: Some(resolved("/d", None)),
    };
    assert_eq!(FsWatcher::process_event(&created, &observed), vec![add("/d/new.txt", "new.txt")]);
}

#[test]
fn resolution_race_adds_nothing() {
    let created = event("/a/b", OperationKind::Create);
    let subject = FsWatcher::resolve("/a/b", None).ok();
    assert_eq!(subject, None);
    assert_eq!(
        FsWatcher::follow_up(&created, &subject),
        FollowUp { enumerate: None, parent: None }
    );
    // Whatever else was observed, nothing is added once the path is gone.
    let observed = Observation {
        subject,
        descendants: vec![resolved("/a/b/x", file(1))],
        parent: Some(resolved("/a", directory())),
    };
    let ops = FsWatcher::process_event(&created, &observed);
    assert_eq!(ops, Vec::<IndexOp>::new());
    let mut index = MemoryIndex::new();
    index.apply_all(&ops);
    assert_eq!(index.len(), 0);
}

#[test]
fn ordering_create_then_remove_leaves_path_absent() {
    let mut index = MemoryIndex::new();
    let first = event("/a/b", OperationKind::Create);
    let seen_first = Observation {
        subject: FsWatcher::resolve("/a/b", file(1)).ok(),
        descendants: vec![],
        parent: Some(resolved("/a", directory())),
    };
    index.apply_all(&FsWatcher::process_event(&first, &seen_first));
    assert!(index.contains("/a/b"));
    let second = event("/a/b", OperationKind::Remove);
    index.apply_all(&FsWatcher::process_event(&second, &vanished()));
    assert!(!index.contains("/a/b"));
    assert!(index.contains("/a"));
}

#[test]
fn removal_of_a_path_that_is_back_adds_it_again() {
    let removed = event("/a/b", OperationKind::Remove);
    let observed = Observation {
        subject: FsWatcher::resolve("/a/b", file(1)).ok(),
        descendants: vec![],
        parent: None,
    };
    let ops = FsWatcher::process_event(&removed, &observed);
    assert_eq!(ops, vec![IndexOp::Remove("/a/b".to_string()), add("/a/b", "b")]);
    let mut index = MemoryIndex::new();
    index.apply_all(&ops);
    assert!(index.contains("/a/b"));
}

#[test]
fn save_subs_adds_each_resolved_path_in_order() {
    let subs = vec![
        resolved("/r/one", file(1)),
        resolved("/r/two", None),
        resolved("/r/three", directory()),
    ];
    assert_eq!(FsWatcher::save_subs(&subs), vec![add("/r/one", "one"), add("/r/three", "three")]);
    assert_eq!(FsWatcher::save_subs(&vec![]), Vec::<IndexOp>::new());
}

#[test]
fn save_subs_uses_the_snapshot_name() {
    let snapshot = AttributeSnapshot {
        name: "shown".to_string(),
        created_at: 0,
        modified_at: 0,
        size_bytes: 0,
        is_directory: false,
    };
    let subs = vec![Resolved { path: "/r/stored".to_string(), snapshot: Some(snapshot) }];
    assert_eq!(FsWatcher::save_subs(&subs), vec![add("/r/stored", "shown")]);
}

#[test]
fn follow_up_from_takes_the_parent_given() {
    let changed = event("/a/b", OperationKind::Modify);
    let subject = FsWatcher::resolve("/a/b", directory()).ok();
    assert_eq!(
        FsWatcher::follow_up_from(&changed, &subject, Some("/elsewhere".to_string())),
        FollowUp { enumerate: Some("/a/b".to_string()), parent: Some("/elsewhere".to_string()) }
    );
    assert_eq!(
        FsWatcher::follow_up_from(&changed, &subject, None),
        FollowUp { enumerate: Some("/a/b".to_string()), parent: None }
    );
    assert_eq!(
        FsWatcher::follow_up_from(&changed, &None, Some("/a".to_string())),
        FollowUp { enumerate: None, parent: None }
    );
}

#[test]
fn follow_up_of_the_root_has_no_parent() {
    let changed = event("/", OperationKind::Modify);
    let subject = FsWatcher::resolve("/", directory()).ok();
    assert_eq!(
        FsWatcher::follow_up(&changed, &subject),
        FollowUp { enumerate: Some("/".to_string()), parent: None }
    );
}
