use bld::container::{
    build_command, Container, ExecRequest, ShStatus, TtyChunk, CHUNK_DELAY_MS, NOT_STARTED, NO_ID,
};
use bld::logs::LogStream;
use bld::registry::CancellationHandle;
use bld::types::{BldError, StepOutcome};

fn started() -> Container {
    Container::new("rust:latest").start("tcp://127.0.0.1:2376", "abc123".to_string())
}

fn fired() -> CancellationHandle {
    let mut handle = CancellationHandle::new();
    handle.signal();
    handle
}

#[test]
fn new_container_is_not_started() {
    let container = Container::new("alpine");
    assert_eq!(container.img, "alpine");
    assert_eq!(container.client, None);
    assert_eq!(container.id, None);
}

#[test]
fn start_gives_a_started_container_of_the_same_image() {
    let container = started();
    assert_eq!(container.img, "rust:latest");
    assert_eq!(container.client, Some("tcp://127.0.0.1:2376".to_string()));
    assert_eq!(container.id, Some("abc123".to_string()));
}

#[test]
fn get_client_before_start_is_an_error() {
    assert_eq!(
        Container::new("alpine").get_client(),
        Err(BldError::Other("container not started".to_string()))
    );
    assert_eq!(NOT_STARTED, "container not started");
}

#[test]
fn get_id_before_start_is_an_error() {
    assert_eq!(
        Container::new("alpine").get_id(),
        Err(BldError::Other("container id not found".to_string()))
    );
    assert_eq!(NO_ID, "container id not found");
}

#[test]
fn get_client_and_id_after_start() {
    let container = started();
    assert_eq!(container.get_client(), Ok(&"tcp://127.0.0.1:2376".to_string()));
    assert_eq!(container.get_id(), Ok(&"abc123".to_string()));
}

#[test]
fn build_command_without_working_dir_is_the_input() {
    assert_eq!(build_command(&None, "make test"), "make test");
}

#[test]
fn build_command_with_working_dir_changes_directory_first() {
    assert_eq!(
        build_command(&Some("/src/app".to_string()), "make test"),
        "cd /src/app && make test"
    );
}

#[test]
fn build_command_with_empty_parts() {
    assert_eq!(build_command(&Some(String::new()), ""), "cd  && ");
    assert_eq!(build_command(&None, ""), "");
}

#[test]
fn sh_builds_a_shell_request() {
    let request = started().sh(&Some("/work".to_string()), "ls -la");
    assert_eq!(
        request,
        Ok(ExecRequest {
            id: "abc123".to_string(),
            cmd: vec!["bash".to_string(), "-c".to_string(), "cd /work && ls -la".to_string()],
            attach_stdout: true,
            attach_stderr: true,
        })
    );
}

#[test]
fn sh_without_working_dir() {
    let request = started().sh(&None, "echo hi").unwrap();
    assert_eq!(request.cmd, vec!["bash", "-c", "echo hi"]);
}

#[test]
fn sh_before_start_is_an_error() {
    assert_eq!(
        Container::new("alpine").sh(&None, "ls"),
        Err(BldError::Other("container not started".to_string()))
    );
}

#[test]
fn sh_without_id_is_an_error() {
    let container = Container {
        img: "alpine".to_string(),
        client: Some("tcp://host".to_string()),
        id: None,
    };
    assert_eq!(
        container.sh(&None, "ls"),
        Err(BldError::Other("container id not found".to_string()))
    );
}

#[test]
fn dispose_names_the_container() {
    assert_eq!(started().dispose(), Ok(&"abc123".to_string()));
}

#[test]
fn dispose_before_start_is_an_error() {
    assert_eq!(
        Container::new("alpine").dispose(),
        Err(BldError::Other("container not started".to_string()))
    );
    let no_id = Container {
        img: "alpine".to_string(),
        client: Some("tcp://host".to_string()),
        id: None,
    };
    assert_eq!(
        no_id.dispose(),
        Err(BldError::Other("container id not found".to_string()))
    );
}

#[test]
fn pull_is_needed_only_without_a_local_image() {
    let mut log = LogStream::new();
    assert!(!Container::pull("alpine", 1, &mut log));
    assert!(!Container::pull("alpine", 7, &mut log));
    assert_eq!(log.len(), 0);
    assert!(Container::pull("alpine", 0, &mut log));
    assert_eq!(log.as_bytes(), &b"Download image: alpine\n".to_vec());
}

#[test]
fn pulling_logs_progress_as_lines() {
    let mut log = LogStream::new();
    Container::pulling("layer 1", &mut log);
    Container::pulling("layer 2", &mut log);
    assert_eq!(log.as_bytes(), &b"layer 1\nlayer 2\n".to_vec());
}

#[test]
fn chunk_goes_to_the_log() {
    let mut log = LogStream::new();
    let status = Container::chunk(&None, Ok(TtyChunk::StdOut(b"out".to_vec())), &mut log);
    assert_eq!(status, ShStatus::Proceed);
    let status = Container::chunk(
        &Some(CancellationHandle::new()),
        Ok(TtyChunk::StdErr(b"err".to_vec())),
        &mut log,
    );
    assert_eq!(status, ShStatus::Proceed);
    assert_eq!(log.as_bytes(), &b"outerr".to_vec());
}

#[test]
fn chunk_after_stop_is_dropped() {
    let mut log = LogStream::new();
    log.append("before");
    let status = Container::chunk(&Some(fired()), Ok(TtyChunk::StdOut(b"late".to_vec())), &mut log);
    assert_eq!(status, ShStatus::Finished(StepOutcome::Cancelled));
    assert_eq!(log.as_bytes(), &b"before".to_vec());
}

#[test]
fn engine_fault_fails_the_command_and_is_logged() {
    let mut log = LogStream::new();
    let status = Container::chunk(&None, Err("broken pipe".to_string()), &mut log);
    assert_eq!(status, ShStatus::Finished(StepOutcome::Failure));
    assert_eq!(log.as_bytes(), &b"broken pipe\n".to_vec());
}

#[test]
fn stop_wins_over_an_engine_fault() {
    let mut log = LogStream::new();
    let status = Container::chunk(&Some(fired()), Err("broken pipe".to_string()), &mut log);
    assert_eq!(status, ShStatus::Finished(StepOutcome::Cancelled));
    assert_eq!(log.len(), 0);
}

#[test]
fn chunk_delay_is_a_tenth_of_a_second() {
    assert_eq!(CHUNK_DELAY_MS, 100);
}
