use index_watcher::paths::name_or_empty;
use index_watcher::{
    AttributeSnapshot, EpochOffset, FsWatcher, MetadataResolutionError, RawAttributes,
};

fn after(secs: u64, nanos: u32) -> EpochOffset {
    EpochOffset { before_epoch: false, secs, nanos }
}

fn raw(created: Option<EpochOffset>, modified: Option<EpochOffset>) -> Option<RawAttributes> {
    Some(RawAttributes { created, modified, size_bytes: 10, is_directory: false })
}

#[test]
fn get_filename_is_the_final_component() {
    assert_eq!(FsWatcher::get_filename("/a/b.txt"), "b.txt");
    assert_eq!(FsWatcher::get_filename("/usr/bin/"), "bin");
    assert_eq!(FsWatcher::get_filename("tmp/foo.txt"), "foo.txt");
    assert_eq!(FsWatcher::get_filename("foo.txt/."), "foo.txt");
    assert_eq!(FsWatcher::get_filename("/a"), "a");
}

#[test]
fn get_filename_without_component_is_empty() {
    assert_eq!(FsWatcher::get_filename("/"), "");
    assert_eq!(FsWatcher::get_filename(""), "");
    assert_eq!(FsWatcher::get_filename("foo.txt/.."), "");
    assert_eq!(FsWatcher::get_filename(".."), "");
}

#[test]
fn name_or_empty_keeps_the_component() {
    assert_eq!(name_or_empty(Some("b.txt".to_string())), "b.txt");
    assert_eq!(name_or_empty(Some(String::new())), "");
    assert_eq!(name_or_empty(None), "");
}

#[test]
fn parse_ts_is_whole_milliseconds() {
    assert_eq!(FsWatcher::parse_ts(after(0, 0)), Ok(0));
    assert_eq!(FsWatcher::parse_ts(after(1, 500_000_000)), Ok(1500));
    assert_eq!(FsWatcher::parse_ts(after(1, 999_999)), Ok(1000));
    assert_eq!(FsWatcher::parse_ts(after(1, 1_000_000)), Ok(1001));
    assert_eq!(FsWatcher::parse_ts(after(0, 999_999_999)), Ok(999));
    assert_eq!(FsWatcher::parse_ts(after(1_700_000_000, 123_456_789)), Ok(1_700_000_000_123));
}

#[test]
fn parse_ts_at_the_edge_of_the_range() {
    // u64::MAX = 18_446_744_073_709_551_615 milliseconds.
    assert_eq!(
        FsWatcher::parse_ts(after(18_446_744_073_709_551, 615_000_000)),
        Ok(u64::MAX)
    );
    assert_eq!(
        FsWatcher::parse_ts(after(18_446_744_073_709_551, 616_000_000)),
        Err(MetadataResolutionError::TimestampOutOfRange)
    );
    assert_eq!(
        FsWatcher::parse_ts(after(18_446_744_073_709_552, 0)),
        Err(MetadataResolutionError::TimestampOutOfRange)
    );
    assert_eq!(
        FsWatcher::parse_ts(after(u64::MAX, 0)),
        Err(MetadataResolutionError::TimestampOutOfRange)
    );
}

#[test]
fn parse_ts_before_the_epoch_is_an_error() {
    let time = EpochOffset { before_epoch: true, secs: 5, nanos: 0 };
    assert_eq!(FsWatcher::parse_ts(time), Err(MetadataResolutionError::TimestampBeforeEpoch));
    let huge = EpochOffset { before_epoch: true, secs: u64::MAX, nanos: 0 };
    assert_eq!(FsWatcher::parse_ts(huge), Err(MetadataResolutionError::TimestampBeforeEpoch));
}

#[test]
fn resolve_makes_the_snapshot() {
    let stat = Some(RawAttributes {
        created: Some(after(10, 0)),
        modified: Some(after(20, 5_000_000)),
        size_bytes: 10,
        is_directory: false,
    });
    assert_eq!(
        FsWatcher::resolve("/a/b.txt", stat),
        Ok(AttributeSnapshot {
            name: "b.txt".to_string(),
            created_at: 10_000,
            modified_at: 20_005,
            size_bytes: 10,
            is_directory: false,
        })
    );
}

#[test]
fn resolve_of_a_directory() {
    let stat = Some(RawAttributes {
        created: Some(after(1, 0)),
        modified: Some(after(1, 0)),
        size_bytes: 4096,
        is_directory: true,
    });
    let snapshot = FsWatcher::resolve("/a/c/", stat).unwrap();
    assert_eq!(snapshot.name, "c");
    assert!(snapshot.is_directory);
    assert_eq!(snapshot.size_bytes, 4096);
}

#[test]
fn resolve_of_an_unreadable_path() {
    assert_eq!(FsWatcher::resolve("/a/b.txt", None), Err(MetadataResolutionError::Inaccessible));
}

#[test]
fn resolve_without_a_time() {
    assert_eq!(
        FsWatcher::resolve("/a", raw(None, Some(after(1, 0)))),
        Err(MetadataResolutionError::TimestampUnavailable)
    );
    assert_eq!(
        FsWatcher::resolve("/a", raw(Some(after(1, 0)), None)),
        Err(MetadataResolutionError::TimestampUnavailable)
    );
}

#[test]
fn resolve_with_a_bad_time() {
    let early = EpochOffset { before_epoch: true, secs: 1, nanos: 0 };
    assert_eq!(
        FsWatcher::resolve("/a", raw(Some(early), Some(after(1, 0)))),
        Err(MetadataResolutionError::TimestampBeforeEpoch)
    );
    assert_eq!(
        FsWatcher::resolve("/a", raw(Some(after(1, 0)), Some(after(u64::MAX, 0)))),
        Err(MetadataResolutionError::TimestampOutOfRange)
    );
}

#[test]
fn resolve_reports_the_creation_time_first() {
    let early = EpochOffset { before_epoch: true, secs: 1, nanos: 0 };
    assert_eq!(
        FsWatcher::resolve("/a", raw(Some(after(u64::MAX, 0)), Some(early))),
        Err(MetadataResolutionError::TimestampOutOfRange)
    );
    assert_eq!(
        FsWatcher::resolve("/a", raw(None, Some(early))),
        Err(MetadataResolutionError::TimestampUnavailable)
    );
}
