use sftp_bridge::errors::{ProtoError, NO_MORE_ENTRIES_CODE};
use sftp_bridge::listing::{
    collect_entries, join_path, name_is_pseudo, readdir_step, DirEvent, DirStep, Listing,
};
use sftp_bridge::stat::FileStat;

fn proto(code: i32, msg: &str) -> ProtoError {
    ProtoError {
        code,
        msg: String::from(msg),
    }
}

fn end_event() -> DirEvent {
    Err(proto(NO_MORE_ENTRIES_CODE, "no more files"))
}

fn entry(name: &str, size: u64) -> DirEvent {
    let mut st = FileStat::empty();
    st.size = Some(size);
    Ok((name.as_bytes().to_vec(), st))
}

#[test]
fn skips_self_and_parent_entries() {
    let dir = b"/tmp".to_vec();
    let events = vec![entry(".", 0), entry("..", 0), entry("a", 5), end_event()];
    match collect_entries(&dir, events) {
        Listing::Complete(es) => {
            assert_eq!(es.len(), 1);
            assert_eq!(es[0].0, b"/tmp/a".to_vec());
            assert_eq!(es[0].1.size, Some(5));
        }
        other => panic!("expected a complete listing, got {:?}", other),
    }
}

#[test]
fn empty_directory_lists_as_empty_not_error() {
    let dir = b"/empty".to_vec();
    let events = vec![end_event()];
    assert_eq!(collect_entries(&dir, events), Listing::Complete(vec![]));
}

#[test]
fn pseudo_only_directory_lists_as_empty() {
    let dir = b"/empty".to_vec();
    let events = vec![entry(".", 0), entry("..", 0), end_event()];
    assert_eq!(collect_entries(&dir, events), Listing::Complete(vec![]));
}

#[test]
fn other_error_aborts_and_discards_accumulation() {
    let dir = b"/tmp".to_vec();
    let e = proto(-31, "sftp protocol error");
    let events = vec![entry("a", 1), entry("b", 2), Err(e.clone())];
    assert_eq!(collect_entries(&dir, events), Listing::Failed(e));
}

#[test]
fn exhausted_events_leave_the_listing_incomplete() {
    let dir = b"/tmp".to_vec();
    let events = vec![entry("a", 1)];
    assert_eq!(collect_entries(&dir, events), Listing::Incomplete);
}

#[test]
fn entries_keep_directory_order() {
    let dir = b"/d".to_vec();
    let events = vec![entry("b", 1), entry(".", 0), entry("a", 2), end_event()];
    match collect_entries(&dir, events) {
        Listing::Complete(es) => {
            assert_eq!(es.len(), 2);
            assert_eq!(es[0].0, b"/d/b".to_vec());
            assert_eq!(es[1].0, b"/d/a".to_vec());
        }
        other => panic!("expected a complete listing, got {:?}", other),
    }
}

#[test]
fn step_keeps_a_real_entry_with_its_joined_path() {
    let dir = b"/d".to_vec();
    match readdir_step(&dir, entry("a", 3)) {
        DirStep::Keep(path, st) => {
            assert_eq!(path, b"/d/a".to_vec());
            assert_eq!(st.size, Some(3));
        }
        other => panic!("expected the entry to be kept, got {:?}", other),
    }
}

#[test]
fn step_classifies_each_event() {
    let dir = b"/d".to_vec();
    assert_eq!(readdir_step(&dir, entry(".", 0)), DirStep::Skip);
    assert_eq!(readdir_step(&dir, entry("..", 0)), DirStep::Skip);
    assert_eq!(readdir_step(&dir, end_event()), DirStep::End);
    let e = proto(3, "permission denied");
    assert_eq!(readdir_step(&dir, Err(e.clone())), DirStep::Abort(e));
}

#[test]
fn dotted_names_that_are_not_pseudo_are_kept() {
    assert!(name_is_pseudo(&b".".to_vec()));
    assert!(name_is_pseudo(&b"..".to_vec()));
    assert!(!name_is_pseudo(&b"...".to_vec()));
    assert!(!name_is_pseudo(&b".a".to_vec()));
    assert!(!name_is_pseudo(&b"a.".to_vec()));
    assert!(!name_is_pseudo(&b"".to_vec()));
}

#[test]
fn join_inserts_separator_only_when_needed() {
    assert_eq!(join_path(&b"/d".to_vec(), &b"a".to_vec()), b"/d/a".to_vec());
    assert_eq!(join_path(&b"/d/".to_vec(), &b"a".to_vec()), b"/d/a".to_vec());
    assert_eq!(join_path(&b"".to_vec(), &b"a".to_vec()), b"a".to_vec());
    assert_eq!(
        join_path(&b"/d".to_vec(), &b"/abs".to_vec()),
        b"/abs".to_vec()
    );
}
