use bld::logs::LogStream;
use bld::pipeline::ExecutionRecord;
use bld::registry::{CancellationHandle, ExecutionRegistry};
use bld::socket::{
    ConnState, ExecInfo, ExecutePipelineSocket, Reply, SocketMessage, CLIENT_TIMEOUT_MS,
    HEARTBEAT_INTERVAL_MS, NOT_IDLE, PIPELINE_NOT_FOUND, POLL_INTERVAL_MS, UNABLE_TO_RUN,
};
use bld::types::{BldError, ExecutionOutcome};

fn socket() -> ExecutePipelineSocket {
    ExecutePipelineSocket::new("ann".to_string(), "/var/logs".to_string(), 1000)
}

fn request(name: &str) -> Result<ExecInfo, String> {
    Ok(ExecInfo { name: name.to_string(), variables: None })
}

fn text(name: &str, is_file: bool) -> SocketMessage {
    SocketMessage::Text { request: request(name), is_file }
}

fn is_hyphenated(id: &str) -> bool {
    id.len() == 36
        && id.chars().enumerate().all(|(i, c)| {
            if i == 8 || i == 13 || i == 18 || i == 23 {
                c == '-'
            } else {
                c.is_ascii_digit() || ('a'..='f').contains(&c)
            }
        })
}

#[test]
fn new_socket_is_idle() {
    let socket = socket();
    assert_eq!(socket.status(), ConnState::Idle);
    assert_eq!(socket.execution_id(), None);
}

#[test]
fn timing_constants() {
    assert_eq!(HEARTBEAT_INTERVAL_MS, 500);
    assert_eq!(CLIENT_TIMEOUT_MS, 10_000);
    assert_eq!(POLL_INTERVAL_MS, 10_000);
    assert_eq!(UNABLE_TO_RUN, "Unable to run pipeline");
}

#[test]
fn accept_registers_and_streams() {
    let mut socket = socket();
    let mut registry = ExecutionRegistry::new();
    let info = socket
        .accept(request("build"), true, "id-1".to_string(), "2021-01-01".to_string(), &mut registry)
        .unwrap();
    assert_eq!(info.id, "id-1");
    assert_eq!(info.name, "build");
    assert_eq!(info.logs, "/var/logs/build-id-1");
    assert_eq!(info.vars, Vec::<(String, String)>::new());
    assert_eq!(
        info.record,
        ExecutionRecord::new(
            "id-1".to_string(),
            "build".to_string(),
            "ann".to_string(),
            "2021-01-01".to_string()
        )
    );
    assert!(info.record.is_running());
    assert_eq!(socket.status(), ConnState::Streaming);
    assert_eq!(socket.execution_id(), Some(&"id-1".to_string()));
    assert_eq!(registry.len(), 1);
    assert_eq!(registry.handle("id-1"), Some(CancellationHandle::new()));
}

#[test]
fn accept_hands_the_variables_on() {
    let mut socket = socket();
    let mut registry = ExecutionRegistry::new();
    let vars = vec![("a".to_string(), "1".to_string()), ("b".to_string(), "2".to_string())];
    let asked = Ok(ExecInfo { name: "build".to_string(), variables: Some(vars.clone()) });
    let info = socket
        .accept(asked, true, "id-1".to_string(), String::new(), &mut registry)
        .unwrap();
    assert_eq!(info.vars, vars);
}

#[test]
fn missing_pipeline_file_is_refused_without_a_trace() {
    let mut socket = socket();
    let mut registry = ExecutionRegistry::new();
    assert!(registry.register("other".to_string(), CancellationHandle::new()).is_ok());
    let result = socket.accept(request("nope"), false, "id-1".to_string(), String::new(), &mut registry);
    assert_eq!(result, Err(BldError::IoError("pipeline file not found".to_string())));
    assert_eq!(PIPELINE_NOT_FOUND, "pipeline file not found");
    assert_eq!(socket.status(), ConnState::Idle);
    assert_eq!(socket.execution_id(), None);
    assert_eq!(registry.len(), 1);
    assert!(!registry.contains("id-1"));
    assert_eq!(socket.scan(&LogStream::from_bytes(b"x\n".to_vec())), Vec::<Vec<u8>>::new());
}

#[test]
fn unreadable_request_is_refused() {
    let mut socket = socket();
    let mut registry = ExecutionRegistry::new();
    let result = socket.accept(
        Err("expected value at line 1".to_string()),
        true,
        "id-1".to_string(),
        String::new(),
        &mut registry,
    );
    assert_eq!(result, Err(BldError::SerdeError("expected value at line 1".to_string())));
    assert_eq!(socket.status(), ConnState::Idle);
    assert_eq!(registry.len(), 0);
}

#[test]
fn second_request_is_refused() {
    let mut socket = socket();
    let mut registry = ExecutionRegistry::new();
    assert!(socket
        .accept(request("build"), true, "id-1".to_string(), String::new(), &mut registry)
        .is_ok());
    let second = socket.accept(request("build"), true, "id-2".to_string(), String::new(), &mut registry);
    assert_eq!(second, Err(BldError::Other(NOT_IDLE.to_string())));
    assert_eq!(socket.status(), ConnState::Streaming);
    assert_eq!(socket.execution_id(), Some(&"id-1".to_string()));
    assert_eq!(registry.len(), 1);
}

#[test]
fn taken_id_is_refused() {
    let mut socket = socket();
    let mut registry = ExecutionRegistry::new();
    assert!(registry.register("id-1".to_string(), CancellationHandle::new()).is_ok());
    let result = socket.accept(request("build"), true, "id-1".to_string(), String::new(), &mut registry);
    assert_eq!(
        result,
        Err(BldError::Other("execution id already registered".to_string()))
    );
    assert_eq!(socket.status(), ConnState::Idle);
    assert_eq!(registry.len(), 1);
}

#[test]
fn get_info_draws_a_fresh_id() {
    let mut registry = ExecutionRegistry::new();
    let mut first = socket();
    let mut second = socket();
    let a = first.get_info(request("build"), true, String::new(), &mut registry).unwrap();
    let b = second.get_info(request("build"), true, String::new(), &mut registry).unwrap();
    assert!(is_hyphenated(&a.id));
    assert!(is_hyphenated(&b.id));
    assert_ne!(a.id, b.id);
    assert_eq!(a.logs, format!("/var/logs/build-{}", a.id));
    assert_eq!(first.execution_id(), Some(&a.id));
    assert!(registry.contains(&a.id));
    assert!(registry.contains(&b.id));
    assert_eq!(registry.len(), 2);
}

#[test]
fn get_info_refuses_a_missing_file() {
    let mut registry = ExecutionRegistry::new();
    let mut socket = socket();
    assert_eq!(
        socket.get_info(request("nope"), false, String::new(), &mut registry),
        Err(BldError::IoError("pipeline file not found".to_string()))
    );
    assert_eq!(registry.len(), 0);
    assert_eq!(socket.status(), ConnState::Idle);
}

#[test]
fn handle_request_spawns() {
    let mut registry = ExecutionRegistry::new();
    let mut socket = socket();
    match socket.handle(text("build", true), 1100, "now".to_string(), &mut registry) {
        Reply::Spawn(info) => {
            assert!(is_hyphenated(&info.id));
            assert_eq!(info.name, "build");
            assert!(registry.contains(&info.id));
            assert_eq!(info.record.start_date(), "now");
        }
        other => panic!("{:?}", other),
    }
    assert_eq!(socket.status(), ConnState::Streaming);
}

#[test]
fn handle_request_for_a_missing_file_closes() {
    let mut registry = ExecutionRegistry::new();
    let mut socket = socket();
    let reply = socket.handle(text("nope", false), 1100, String::new(), &mut registry);
    assert_eq!(reply, Reply::Refuse);
    assert_eq!(socket.status(), ConnState::Closed);
    assert_eq!(socket.execution_id(), None);
    assert_eq!(registry.len(), 0);
}

#[test]
fn handle_unreadable_request_closes() {
    let mut registry = ExecutionRegistry::new();
    let mut socket = socket();
    let msg = SocketMessage::Text { request: Err("bad".to_string()), is_file: true };
    assert_eq!(
        socket.handle_with_id(msg, 1100, "id-1".to_string(), String::new(), &mut registry),
        Reply::Refuse
    );
    assert_eq!(socket.status(), ConnState::Closed);
}

#[test]
fn handle_second_request_closes_the_connection_only() {
    let mut registry = ExecutionRegistry::new();
    let mut socket = socket();
    socket.handle_with_id(text("build", true), 1100, "id-1".to_string(), String::new(), &mut registry);
    let reply =
        socket.handle_with_id(text("build", true), 1200, "id-2".to_string(), String::new(), &mut registry);
    assert_eq!(reply, Reply::Refuse);
    assert_eq!(socket.status(), ConnState::Closed);
    assert!(registry.contains("id-1"));
    assert!(!registry.is_signaled("id-1"));
    assert!(!registry.contains("id-2"));
}

#[test]
fn ping_is_answered_and_counts_as_life() {
    let mut registry = ExecutionRegistry::new();
    let mut socket = socket();
    let reply = socket.handle(SocketMessage::Ping(b"abc".to_vec()), 11_000, String::new(), &mut registry);
    assert_eq!(reply, Reply::Pong(b"abc".to_vec()));
    assert_eq!(socket.status(), ConnState::Idle);
    assert!(socket.heartbeat(21_000));
    assert!(!socket.heartbeat(21_001));
}

#[test]
fn pong_counts_as_life() {
    let mut registry = ExecutionRegistry::new();
    let mut socket = socket();
    assert_eq!(socket.handle(SocketMessage::Pong, 5000, String::new(), &mut registry), Reply::Nothing);
    assert!(socket.heartbeat(15_000));
    assert_eq!(socket.status(), ConnState::Idle);
}

#[test]
fn close_frame_closes() {
    let mut registry = ExecutionRegistry::new();
    let mut socket = socket();
    assert_eq!(socket.handle(SocketMessage::Close, 1100, String::new(), &mut registry), Reply::Close);
    assert_eq!(socket.status(), ConnState::Closed);
}

#[test]
fn other_frames_and_faults_close() {
    for msg in [SocketMessage::Other, SocketMessage::Fault] {
        let mut registry = ExecutionRegistry::new();
        let mut socket = socket();
        assert_eq!(socket.handle(msg, 1100, String::new(), &mut registry), Reply::Stop);
        assert_eq!(socket.status(), ConnState::Closed);
    }
}

#[test]
fn closed_connection_takes_nothing_in() {
    let mut registry = ExecutionRegistry::new();
    let mut socket = socket();
    socket.handle(SocketMessage::Close, 1100, String::new(), &mut registry);
    assert_eq!(
        socket.handle(text("build", true), 1200, String::new(), &mut registry),
        Reply::Nothing
    );
    assert_eq!(socket.handle(SocketMessage::Pong, 1300, String::new(), &mut registry), Reply::Nothing);
    assert_eq!(socket.status(), ConnState::Closed);
    assert_eq!(registry.len(), 0);
    assert!(!socket.heartbeat(1400));
}

#[test]
fn heartbeat_within_the_timeout_keeps_the_connection() {
    let mut socket = socket();
    assert!(socket.heartbeat(1000));
    assert!(socket.heartbeat(1500));
    assert!(socket.heartbeat(11_000));
    assert_eq!(socket.status(), ConnState::Idle);
}

#[test]
fn heartbeat_before_the_last_sign_of_life_keeps_the_connection() {
    let mut socket = socket();
    assert!(socket.heartbeat(0));
    assert_eq!(socket.status(), ConnState::Idle);
}

#[test]
fn silence_closes_the_connection_but_not_the_execution() {
    let mut registry = ExecutionRegistry::new();
    let mut socket = socket();
    socket.handle_with_id(text("build", true), 1000, "id-1".to_string(), String::new(), &mut registry);
    assert!(!socket.heartbeat(11_001));
    assert_eq!(socket.status(), ConnState::Closed);
    assert_eq!(socket.execution_id(), Some(&"id-1".to_string()));
    assert!(registry.contains("id-1"));
    assert!(!registry.is_signaled("id-1"));
}

#[test]
fn scan_without_an_execution_is_empty() {
    let mut socket = socket();
    let stream = LogStream::from_bytes(b"line\n".to_vec());
    assert_eq!(socket.scan(&stream), Vec::<Vec<u8>>::new());
}

#[test]
fn scan_pushes_new_lines_once() {
    let mut registry = ExecutionRegistry::new();
    let mut socket = socket();
    socket.handle_with_id(text("build", true), 1000, "id-1".to_string(), String::new(), &mut registry);
    let mut stream = LogStream::new();
    assert_eq!(socket.scan(&stream), Vec::<Vec<u8>>::new());
    stream.append_line("one");
    stream.append_line("two");
    assert_eq!(socket.scan(&stream), vec![b"one".to_vec(), b"two".to_vec()]);
    assert_eq!(socket.scan(&stream), Vec::<Vec<u8>>::new());
    stream.append("thr");
    assert_eq!(socket.scan(&stream), vec![b"thr".to_vec()]);
    stream.append_line("ee");
    assert_eq!(socket.scan(&stream), vec![b"ee".to_vec()]);
}

#[test]
fn tick_probes_and_pushes() {
    let mut registry = ExecutionRegistry::new();
    let mut socket = socket();
    socket.handle_with_id(text("build", true), 1000, "id-1".to_string(), String::new(), &mut registry);
    let mut stream = LogStream::new();
    stream.append_line("out");
    let tick = socket.tick(1500, &stream);
    assert!(tick.alive);
    assert_eq!(tick.lines, vec![b"out".to_vec()]);
    stream.append_line("more");
    let tick = socket.tick(20_000, &stream);
    assert!(!tick.alive);
    assert_eq!(tick.lines, Vec::<Vec<u8>>::new());
    assert_eq!(socket.status(), ConnState::Closed);
}

#[test]
fn poll_closes_once_the_execution_is_over() {
    let mut registry = ExecutionRegistry::new();
    let mut socket = socket();
    let info = match socket.handle_with_id(
        text("build", true),
        1000,
        "id-1".to_string(),
        String::new(),
        &mut registry,
    ) {
        Reply::Spawn(info) => info,
        other => panic!("{:?}", other),
    };
    let mut record = info.record;
    let mut stream = LogStream::new();
    stream.append_line("working");
    let poll = socket.poll(&stream, Some(&record));
    assert!(!poll.stop);
    assert_eq!(poll.lines, vec![b"working".to_vec()]);
    assert_eq!(socket.status(), ConnState::Streaming);
    stream.append_line("done");
    assert!(record.finish(ExecutionOutcome::Succeeded));
    let poll = socket.poll(&stream, Some(&record));
    assert!(poll.stop);
    assert_eq!(poll.lines, vec![b"done".to_vec()]);
    assert_eq!(socket.status(), ConnState::Closed);
}

#[test]
fn check_finished_needs_an_execution_and_a_record() {
    let mut idle = socket();
    let mut over = ExecutionRecord::new(String::new(), String::new(), String::new(), String::new());
    over.finish(ExecutionOutcome::Failed);
    assert!(!idle.check_finished(Some(&over)));
    assert_eq!(idle.status(), ConnState::Idle);

    let mut registry = ExecutionRegistry::new();
    let mut streaming = socket();
    streaming.handle_with_id(text("build", true), 1000, "id-1".to_string(), String::new(), &mut registry);
    assert!(!streaming.check_finished(None));
    assert_eq!(streaming.status(), ConnState::Streaming);
    assert!(streaming.check_finished(Some(&over)));
    assert!(!streaming.check_finished(Some(&over)));
}
