use batch_rename::engine::{
    compute_new_name, join_path, EngineError, EngineState, FsEntry, RenameEngine,
};

fn file(path: &str, name: &str) -> FsEntry {
    FsEntry {
        path: path.to_string(),
        name: name.to_string(),
        is_dir: false,
    }
}

fn subdir(path: &str, name: &str) -> FsEntry {
    FsEntry {
        path: path.to_string(),
        name: name.to_string(),
        is_dir: true,
    }
}

#[test]
fn new_name_drops_leading_characters() {
    assert_eq!(compute_new_name("alpha.txt", 2), "pha.txt");
    assert_eq!(compute_new_name("beta.txt", 2), "ta.txt");
    assert_eq!(compute_new_name("beta.txt", 0), "beta.txt");
    assert_eq!(compute_new_name("abc", 3), "");
}

#[test]
fn new_name_beyond_length_is_empty() {
    assert_eq!(compute_new_name("abc", 4), "");
    assert_eq!(compute_new_name("", 0), "");
    assert_eq!(compute_new_name("", 7), "");
}

#[test]
fn new_name_counts_characters_not_bytes() {
    assert_eq!(compute_new_name("äöü.txt", 2), "ü.txt");
    assert_eq!(compute_new_name("日本語", 1), "本語");
}

#[test]
fn join_path_inserts_separator() {
    assert_eq!(join_path("/tmp/x", "pha.txt"), "/tmp/x/pha.txt");
    assert_eq!(join_path("", ""), "/");
}

#[test]
fn start_without_directory_fails() {
    let mut e = RenameEngine::new();
    assert_eq!(e.start(0), Err(EngineError::NothingToProcess));
    let s = e.current_state();
    assert_eq!(s.state, EngineState::Idle);
    assert_eq!(s.progress, 0);
    assert_eq!(s.message, "");
    assert_eq!(s.elapsed, 0);
}

#[test]
fn open_failure_keeps_prior_snapshot() {
    let mut e = RenameEngine::new();
    let listing = vec![file("/d/a.txt", "a.txt"), subdir("/d/s", "s")];
    assert_eq!(e.open_directory("/d", Some(listing.clone())), Ok(()));
    assert_eq!(
        e.open_directory("/missing", None),
        Err(EngineError::DirectoryUnreadable)
    );
    assert_eq!(e.entries(), &listing);
    assert_eq!(e.current_state().state, EngineState::Idle);
}

#[test]
fn open_twice_yields_identical_snapshot() {
    let mut e = RenameEngine::new();
    let listing = vec![file("/d/a.txt", "a.txt"), file("/d/b.txt", "b.txt")];
    assert_eq!(e.open_directory("/d", Some(listing.clone())), Ok(()));
    let first = e.entries().clone();
    assert_eq!(e.current_state().progress, 0);
    assert_eq!(e.open_directory("/d", Some(listing.clone())), Ok(()));
    assert_eq!(e.entries(), &first);
    assert_eq!(e.entries(), &listing);
    assert_eq!(e.current_state().progress, 0);
}

#[test]
fn scenario_two_files_one_subdirectory() {
    let mut e = RenameEngine::new();
    let listing = vec![
        file("/tmp/x/alpha.txt", "alpha.txt"),
        file("/tmp/x/beta.txt", "beta.txt"),
        subdir("/tmp/x/sub", "sub"),
    ];
    assert_eq!(e.open_directory("/tmp/x", Some(listing)), Ok(()));
    e.set_skip_count(2);
    assert_eq!(e.start(0), Ok(()));

    let out1 = e.step(10).unwrap();
    let act1 = out1.action.expect("first entry is a file");
    assert_eq!(act1.from, "/tmp/x/alpha.txt");
    assert_eq!(act1.to, "/tmp/x/pha.txt");
    assert_eq!(out1.message, "pha.txt");
    assert_eq!(out1.progress, 33);

    let out2 = e.step(20).unwrap();
    let act2 = out2.action.expect("second entry is a file");
    assert_eq!(act2.from, "/tmp/x/beta.txt");
    assert_eq!(act2.to, "/tmp/x/ta.txt");
    assert_eq!(out2.message, "ta.txt");
    assert_eq!(out2.progress, 66);

    let out3 = e.step(30).unwrap();
    assert_eq!(out3.action, None);
    assert_eq!(out3.message, "ta.txt");
    assert_eq!(out3.progress, 100);

    let s = e.current_state();
    assert_eq!(s.state, EngineState::Idle);
    assert_eq!(s.progress, 100);
}

#[test]
fn directory_entries_advance_without_rename() {
    let mut e = RenameEngine::new();
    let listing = vec![subdir("/d/s", "s"), file("/d/a.txt", "a.txt")];
    assert_eq!(e.open_directory("/d", Some(listing)), Ok(()));
    assert_eq!(e.start(0), Ok(()));
    let out = e.step(1).unwrap();
    assert_eq!(out.action, None);
    assert_eq!(out.message, "");
    assert_eq!(out.progress, 50);
    assert_eq!(e.current_state().state, EngineState::Running { last_tick: 1 });
}

#[test]
fn run_of_n_entries_ends_idle_at_100() {
    let mut e = RenameEngine::new();
    let listing = vec![
        file("/d/one", "one"),
        file("/d/two", "two"),
        subdir("/d/three", "three"),
        file("/d/four", "four"),
    ];
    assert_eq!(e.open_directory("/d", Some(listing)), Ok(()));
    assert_eq!(e.start(0), Ok(()));
    for i in 0..4u64 {
        assert!(e.step(i).is_ok());
    }
    let s = e.current_state();
    assert_eq!(s.state, EngineState::Idle);
    assert_eq!(s.progress, 100);
}

#[test]
fn step_past_end_fails_and_forces_idle() {
    let mut e = RenameEngine::new();
    assert_eq!(e.open_directory("/empty", Some(Vec::new())), Ok(()));
    assert_eq!(e.start(0), Ok(()));
    assert_eq!(
        e.current_state().state,
        EngineState::Running { last_tick: 0 }
    );
    assert_eq!(e.step(1), Err(EngineError::NoCurrentEntry));
    assert_eq!(e.current_state().state, EngineState::Idle);
}

#[test]
fn step_while_idle_changes_nothing() {
    let mut e = RenameEngine::new();
    let listing = vec![file("/d/a.txt", "a.txt")];
    assert_eq!(e.open_directory("/d", Some(listing)), Ok(()));
    let out = e.step(5).unwrap();
    assert_eq!(out.action, None);
    assert_eq!(out.progress, 0);
    assert_eq!(out.elapsed, 0);
    assert_eq!(out.message, "");
    let again = e.step(9).unwrap();
    assert_eq!(again, out);
    assert_eq!(e.current_state().state, EngineState::Idle);
}

#[test]
fn elapsed_accumulates_tick_differences() {
    let mut e = RenameEngine::new();
    let listing = vec![file("/d/a", "a"), file("/d/b", "b")];
    assert_eq!(e.open_directory("/d", Some(listing)), Ok(()));
    assert_eq!(e.start(100), Ok(()));
    let out1 = e.step(150).unwrap();
    assert_eq!(out1.elapsed, 50);
    let out2 = e.step(170).unwrap();
    assert_eq!(out2.elapsed, 70);
    assert_eq!(e.current_state().elapsed, 70);
}

#[test]
fn restart_resets_progress_and_elapsed() {
    let mut e = RenameEngine::new();
    let listing = vec![file("/d/a", "a")];
    assert_eq!(e.open_directory("/d", Some(listing)), Ok(()));
    assert_eq!(e.start(0), Ok(()));
    let out = e.step(30).unwrap();
    assert_eq!(out.elapsed, 30);
    assert_eq!(out.progress, 100);
    assert_eq!(e.start(500), Ok(()));
    let s = e.current_state();
    assert_eq!(s.state, EngineState::Running { last_tick: 500 });
    assert_eq!(s.progress, 0);
    assert_eq!(s.elapsed, 0);
}

#[test]
fn skip_count_is_kept_and_frozen_during_a_run() {
    let mut e = RenameEngine::new();
    e.set_skip_count(1);
    assert_eq!(e.skip_count(), 1);
    let listing = vec![file("/d/name", "name"), file("/d/other", "other")];
    assert_eq!(e.open_directory("/d", Some(listing)), Ok(()));
    assert_eq!(e.start(0), Ok(()));
    e.set_skip_count(5);
    assert_eq!(e.skip_count(), 1);
    let out = e.step(1).unwrap();
    assert_eq!(out.action.unwrap().to, "/d/ame");
    e.set_skip_count(5);
    let out2 = e.step(2).unwrap();
    assert_eq!(out2.action.unwrap().to, "/d/ther");
    assert_eq!(e.current_state().state, EngineState::Idle);
    e.set_skip_count(5);
    assert_eq!(e.skip_count(), 5);
}

#[test]
fn start_while_running_is_a_noop() {
    let mut e = RenameEngine::new();
    let listing = vec![file("/d/a", "a"), file("/d/b", "b")];
    assert_eq!(e.open_directory("/d", Some(listing)), Ok(()));
    assert_eq!(e.start(7), Ok(()));
    let _ = e.step(8).unwrap();
    assert_eq!(e.start(999), Ok(()));
    let s = e.current_state();
    assert_eq!(s.state, EngineState::Running { last_tick: 8 });
    assert_eq!(s.progress, 50);
}

#[test]
fn skip_count_beyond_name_length_requests_empty_name() {
    let mut e = RenameEngine::new();
    let listing = vec![file("/d/ab", "ab")];
    assert_eq!(e.open_directory("/d", Some(listing)), Ok(()));
    e.set_skip_count(9);
    assert_eq!(e.start(0), Ok(()));
    let out = e.step(1).unwrap();
    let act = out.action.unwrap();
    assert_eq!(act.from, "/d/ab");
    assert_eq!(act.to, "/d/");
    assert_eq!(out.message, "");
}
