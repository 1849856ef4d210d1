use virtual_io_hub::process_handle::{FailureLabels, HelperProcessHandle, LaunchSpec};
use virtual_io_hub::protocol::{Action, Event, KillOutcome, RemoveOutcome};

fn labels() -> FailureLabels {
    FailureLabels {
        terminate: "kill: ".to_string(),
        remove: "remove: ".to_string(),
        temp_dir: "dir: ".to_string(),
        write: "write: ".to_string(),
        spawn: "spawn: ".to_string(),
    }
}

fn launch(program: &str, extra: &[&str]) -> LaunchSpec {
    LaunchSpec {
        program: program.to_string(),
        dir_prefix: "prefix".to_string(),
        script_name: "script.txt".to_string(),
        script_content: "content".to_string(),
        extra_args: extra.iter().map(|a| a.to_string()).collect(),
    }
}

fn started(pid: u32, script: &str) -> HelperProcessHandle<u32> {
    let mut handle = HelperProcessHandle::new(labels());
    assert_eq!(
        handle.start(launch("tool", &[])),
        Action::CreateTempDir { prefix: "prefix".to_string() }
    );
    assert!(matches!(
        handle.resume(Event::DirCreated(Ok("/tmp/d".to_string()))),
        Action::WriteArtifact { .. }
    ));
    assert!(matches!(
        handle.resume(Event::ArtifactWritten(Ok(script.to_string()))),
        Action::Spawn { .. }
    ));
    assert_eq!(handle.resume(Event::Spawned(Ok(pid))), Action::Done(Ok(true)));
    handle
}

#[test]
fn new_handle_owns_nothing() {
    let handle: HelperProcessHandle<u32> = HelperProcessHandle::new(labels());
    assert!(!handle.is_running());
    assert!(!handle.is_busy());
    assert!(handle.artifacts().is_empty());
}

#[test]
fn start_walks_through_directory_script_and_spawn() {
    let mut handle: HelperProcessHandle<u32> = HelperProcessHandle::new(labels());
    assert_eq!(
        handle.start(launch("tool", &["--flag", "value"])),
        Action::CreateTempDir { prefix: "prefix".to_string() }
    );
    assert!(handle.is_busy());
    assert_eq!(
        handle.resume(Event::DirCreated(Ok("/tmp/d1".to_string()))),
        Action::WriteArtifact {
            dir: "/tmp/d1".to_string(),
            name: "script.txt".to_string(),
            content: "content".to_string(),
        }
    );
    assert_eq!(
        handle.resume(Event::ArtifactWritten(Ok("/tmp/d1/script.txt".to_string()))),
        Action::Spawn {
            program: "tool".to_string(),
            args: vec![
                "/tmp/d1/script.txt".to_string(),
                "--flag".to_string(),
                "value".to_string()
            ],
        }
    );
    assert!(!handle.is_running());
    assert_eq!(handle.resume(Event::Spawned(Ok(41))), Action::Done(Ok(true)));
    assert!(handle.is_running());
    assert!(!handle.is_busy());
    assert_eq!(
        handle.artifacts(),
        &vec!["/tmp/d1/script.txt".to_string(), "/tmp/d1".to_string()]
    );
}

#[test]
fn stop_releases_process_then_artifacts() {
    let mut handle = started(7, "/tmp/d/script.txt");
    assert_eq!(handle.stop(), Action::Terminate(7));
    assert!(!handle.is_running());
    assert_eq!(
        handle.resume(Event::Terminated(KillOutcome::Killed)),
        Action::RemoveArtifact("/tmp/d/script.txt".to_string())
    );
    assert_eq!(handle.artifacts(), &vec!["/tmp/d".to_string()]);
    assert_eq!(
        handle.resume(Event::ArtifactRemoved(RemoveOutcome::Removed)),
        Action::RemoveArtifact("/tmp/d".to_string())
    );
    assert!(handle.artifacts().is_empty());
    assert_eq!(
        handle.resume(Event::ArtifactRemoved(RemoveOutcome::Removed)),
        Action::Done(Ok(true))
    );
    assert!(!handle.is_busy());
}

#[test]
fn stop_twice_is_idempotent() {
    let mut handle = started(7, "/tmp/d/script.txt");
    assert_eq!(handle.stop(), Action::Terminate(7));
    handle.resume(Event::Terminated(KillOutcome::Killed));
    handle.resume(Event::ArtifactRemoved(RemoveOutcome::Removed));
    assert_eq!(
        handle.resume(Event::ArtifactRemoved(RemoveOutcome::Removed)),
        Action::Done(Ok(true))
    );
    assert_eq!(handle.stop(), Action::Done(Ok(true)));
    assert_eq!(handle.stop(), Action::Done(Ok(true)));
    assert!(!handle.is_running());
    assert!(!handle.is_busy());
    assert!(handle.artifacts().is_empty());
}

#[test]
fn stop_on_a_fresh_handle_is_a_no_op() {
    let mut handle: HelperProcessHandle<u32> = HelperProcessHandle::new(labels());
    assert_eq!(handle.stop(), Action::Done(Ok(true)));
    assert!(!handle.is_busy());
}

#[test]
fn already_exited_and_missing_count_as_success() {
    let mut handle = started(7, "/tmp/d/script.txt");
    assert_eq!(handle.stop(), Action::Terminate(7));
    assert_eq!(
        handle.resume(Event::Terminated(KillOutcome::AlreadyExited)),
        Action::RemoveArtifact("/tmp/d/script.txt".to_string())
    );
    assert_eq!(
        handle.resume(Event::ArtifactRemoved(RemoveOutcome::Missing)),
        Action::RemoveArtifact("/tmp/d".to_string())
    );
    assert_eq!(
        handle.resume(Event::ArtifactRemoved(RemoveOutcome::Missing)),
        Action::Done(Ok(true))
    );
}

#[test]
fn kill_failure_is_reported_and_keeps_the_artifacts() {
    let mut handle = started(7, "/tmp/d/script.txt");
    assert_eq!(handle.stop(), Action::Terminate(7));
    assert_eq!(
        handle.resume(Event::Terminated(KillOutcome::Failed("access denied".to_string()))),
        Action::Done(Err("kill: access denied".to_string()))
    );
    assert!(!handle.is_running());
    assert!(!handle.is_busy());
    assert_eq!(
        handle.artifacts(),
        &vec!["/tmp/d/script.txt".to_string(), "/tmp/d".to_string()]
    );
    assert_eq!(handle.stop(), Action::RemoveArtifact("/tmp/d/script.txt".to_string()));
    assert_eq!(
        handle.resume(Event::ArtifactRemoved(RemoveOutcome::Removed)),
        Action::RemoveArtifact("/tmp/d".to_string())
    );
    assert_eq!(
        handle.resume(Event::ArtifactRemoved(RemoveOutcome::Removed)),
        Action::Done(Ok(true))
    );
}

#[test]
fn removal_failure_is_reported() {
    let mut handle = started(7, "/tmp/d/script.txt");
    handle.stop();
    handle.resume(Event::Terminated(KillOutcome::Killed));
    assert_eq!(
        handle.resume(Event::ArtifactRemoved(RemoveOutcome::Failed("busy".to_string()))),
        Action::Done(Err("remove: busy".to_string()))
    );
    assert!(!handle.is_busy());
    assert_eq!(handle.artifacts(), &vec!["/tmp/d".to_string()]);
    assert_eq!(handle.stop(), Action::RemoveArtifact("/tmp/d".to_string()));
    assert_eq!(
        handle.resume(Event::ArtifactRemoved(RemoveOutcome::Failed("not empty".to_string()))),
        Action::Done(Err("remove: not empty".to_string()))
    );
    assert!(handle.artifacts().is_empty());
    assert_eq!(handle.stop(), Action::Done(Ok(true)));
}

#[test]
fn restart_releases_the_old_process_before_spawning() {
    let mut handle = started(7, "/tmp/old/script.txt");
    let mut seen: Vec<Action<u32>> = Vec::new();
    seen.push(handle.start(launch("tool2", &["x"])));
    assert_eq!(seen[0], Action::Terminate(7));
    seen.push(handle.resume(Event::Terminated(KillOutcome::Killed)));
    assert_eq!(seen[1], Action::RemoveArtifact("/tmp/old/script.txt".to_string()));
    seen.push(handle.resume(Event::ArtifactRemoved(RemoveOutcome::Removed)));
    assert_eq!(seen[2], Action::RemoveArtifact("/tmp/d".to_string()));
    seen.push(handle.resume(Event::ArtifactRemoved(RemoveOutcome::Removed)));
    assert_eq!(seen[3], Action::CreateTempDir { prefix: "prefix".to_string() });
    seen.push(handle.resume(Event::DirCreated(Ok("/tmp/new".to_string()))));
    seen.push(handle.resume(Event::ArtifactWritten(Ok("/tmp/new/script.txt".to_string()))));
    assert_eq!(
        seen[5],
        Action::Spawn {
            program: "tool2".to_string(),
            args: vec!["/tmp/new/script.txt".to_string(), "x".to_string()],
        }
    );
    assert!(!handle.is_running());
    assert!(handle.artifacts().is_empty());
    assert_eq!(handle.resume(Event::Spawned(Ok(8))), Action::Done(Ok(true)));
    assert!(handle.is_running());
    assert_eq!(
        handle.artifacts(),
        &vec!["/tmp/new/script.txt".to_string(), "/tmp/new".to_string()]
    );
    assert_eq!(handle.stop(), Action::Terminate(8));
}

#[test]
fn restart_stops_at_a_kill_failure() {
    let mut handle = started(7, "/tmp/old/script.txt");
    assert_eq!(handle.start(launch("tool2", &[])), Action::Terminate(7));
    assert_eq!(
        handle.resume(Event::Terminated(KillOutcome::Failed("no".to_string()))),
        Action::Done(Err("kill: no".to_string()))
    );
    assert!(!handle.is_busy());
    assert_eq!(
        handle.resume(Event::DirCreated(Ok("/tmp/new".to_string()))),
        Action::Rejected(Event::DirCreated(Ok("/tmp/new".to_string())))
    );
}

#[test]
fn launch_failures_carry_their_heading() {
    let mut handle: HelperProcessHandle<u32> = HelperProcessHandle::new(labels());
    handle.start(launch("tool", &[]));
    assert_eq!(
        handle.resume(Event::DirCreated(Err("no space".to_string()))),
        Action::Done(Err("dir: no space".to_string()))
    );
    assert!(!handle.is_busy());

    handle.start(launch("tool", &[]));
    handle.resume(Event::DirCreated(Ok("/tmp/d".to_string())));
    assert_eq!(
        handle.resume(Event::ArtifactWritten(Err("read-only".to_string()))),
        Action::RemoveArtifact("/tmp/d".to_string())
    );
    assert_eq!(
        handle.resume(Event::ArtifactRemoved(RemoveOutcome::Removed)),
        Action::Done(Err("write: read-only".to_string()))
    );
    assert!(handle.artifacts().is_empty());
    assert!(!handle.is_busy());
}

#[test]
fn failed_spawn_gives_back_script_and_directory() {
    let mut handle: HelperProcessHandle<u32> = HelperProcessHandle::new(labels());
    handle.start(launch("tool", &[]));
    handle.resume(Event::DirCreated(Ok("/tmp/d".to_string())));
    handle.resume(Event::ArtifactWritten(Ok("/tmp/d/script.txt".to_string())));
    assert_eq!(
        handle.resume(Event::Spawned(Err("not found".to_string()))),
        Action::RemoveArtifact("/tmp/d/script.txt".to_string())
    );
    assert!(handle.is_busy());
    assert_eq!(
        handle.resume(Event::ArtifactRemoved(RemoveOutcome::Failed("busy".to_string()))),
        Action::RemoveArtifact("/tmp/d".to_string())
    );
    assert_eq!(
        handle.resume(Event::ArtifactRemoved(RemoveOutcome::Missing)),
        Action::Done(Err("spawn: not found".to_string()))
    );
    assert!(!handle.is_running());
    assert!(handle.artifacts().is_empty());
    assert!(!handle.is_busy());
    assert_eq!(handle.stop(), Action::Done(Ok(true)));
}

#[test]
fn an_event_that_answers_nothing_is_handed_back() {
    let mut handle: HelperProcessHandle<u32> = HelperProcessHandle::new(labels());
    assert_eq!(handle.resume(Event::Spawned(Ok(3))), Action::Rejected(Event::Spawned(Ok(3))));
    assert!(!handle.is_running());
    handle.start(launch("tool", &[]));
    assert_eq!(
        handle.resume(Event::Terminated(KillOutcome::Killed)),
        Action::Rejected(Event::Terminated(KillOutcome::Killed))
    );
    assert_eq!(handle.resume(Event::Probed(true)), Action::Rejected(Event::Probed(true)));
    assert_eq!(
        handle.resume(Event::Located(Ok("x".to_string()))),
        Action::Rejected(Event::Located(Ok("x".to_string())))
    );
    assert!(handle.is_busy());
    assert!(matches!(
        handle.resume(Event::DirCreated(Ok("/tmp/d".to_string()))),
        Action::WriteArtifact { .. }
    ));
}

#[test]
fn a_new_start_supersedes_one_under_way() {
    let mut handle: HelperProcessHandle<u32> = HelperProcessHandle::new(labels());
    handle.start(launch("first", &[]));
    handle.resume(Event::DirCreated(Ok("/tmp/a".to_string())));
    assert_eq!(
        handle.start(launch("second", &[])),
        Action::CreateTempDir { prefix: "prefix".to_string() }
    );
    handle.resume(Event::DirCreated(Ok("/tmp/b".to_string())));
    assert_eq!(
        handle.resume(Event::ArtifactWritten(Ok("/tmp/b/script.txt".to_string()))),
        Action::Spawn { program: "second".to_string(), args: vec!["/tmp/b/script.txt".to_string()] }
    );
}
