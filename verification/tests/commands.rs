use bld::commands::{
    monit_url, run_target, AuthCommand, BldCommand, HistCommand, InitCommand, InitStep, RunTarget,
    ServerCommand, ALREADY_INITIALIZED, DEFAULT_PIPELINE,
};
use bld::config::BldServerConfig;
use bld::endpoints::{hist, ws_exec, HttpReply};
use bld::pipeline::{history_info, ExecutionRecord};
use bld::socket::ConnState;
use bld::types::{BldError, ExecutionOutcome};

fn record(id: &str, outcome: Option<ExecutionOutcome>) -> ExecutionRecord {
    ExecutionRecord::restore(
        id.to_string(),
        "build".to_string(),
        "ann".to_string(),
        "2021-01-01".to_string(),
        outcome,
    )
}

#[test]
fn commands_have_their_names() {
    assert_eq!(AuthCommand.id(), "login");
    assert_eq!(HistCommand.id(), "hist");
    assert_eq!(InitCommand.id(), "init");
    assert_eq!(ServerCommand.id(), "server");
}

#[test]
fn boxed_commands_keep_their_names() {
    let commands: Vec<Box<dyn BldCommand>> = vec![
        AuthCommand::boxed(),
        HistCommand::boxed(),
        InitCommand::boxed(),
        ServerCommand::boxed(),
    ];
    let ids: Vec<&str> = commands.iter().map(|c| c.id()).collect();
    assert_eq!(ids, vec!["login", "hist", "init", "server"]);
}

#[test]
fn init_plan_for_a_client() {
    assert_eq!(
        InitCommand::plan(false, false),
        Ok(vec![
            InitStep::BuildDir,
            InitStep::DefaultYaml,
            InitStep::ConfigYaml { server: false }
        ])
    );
}

#[test]
fn init_plan_for_a_server() {
    assert_eq!(
        InitCommand::plan(false, true),
        Ok(vec![
            InitStep::BuildDir,
            InitStep::LogsDir,
            InitStep::DbDir,
            InitStep::DefaultYaml,
            InitStep::ConfigYaml { server: true }
        ])
    );
}

#[test]
fn init_plan_where_the_directory_exists() {
    let refused = Err(BldError::Other(".bld dir already exists in the current directory".to_string()));
    assert_eq!(InitCommand::plan(true, false), refused);
    assert_eq!(InitCommand::plan(true, true), refused);
    assert_eq!(ALREADY_INITIALIZED, ".bld dir already exists in the current directory");
}

#[test]
fn server_address_prefers_the_command_line() {
    assert_eq!(
        ServerCommand::address(Some("0.0.0.0"), Some("8080"), "127.0.0.1", 6080),
        ("0.0.0.0".to_string(), 8080)
    );
}

#[test]
fn server_address_falls_back_to_the_configuration() {
    assert_eq!(
        ServerCommand::address(None, None, "127.0.0.1", 6080),
        ("127.0.0.1".to_string(), 6080)
    );
}

#[test]
fn server_address_with_an_unreadable_port() {
    for port in ["", "eighty", "80 ", "99999999999999999999", "8.0"] {
        assert_eq!(
            ServerCommand::address(None, Some(port), "127.0.0.1", 6080),
            ("127.0.0.1".to_string(), 6080)
        );
    }
}

#[test]
fn server_address_reads_signed_ports() {
    assert_eq!(ServerCommand::address(None, Some("-5"), "h", 1).1, -5);
    assert_eq!(ServerCommand::address(None, Some("+5"), "h", 1).1, 5);
    assert_eq!(ServerCommand::address(None, Some("0"), "h", 1).1, 0);
}

#[test]
fn pick_port_takes_what_was_read() {
    assert_eq!(ServerCommand::pick_port(Some(Some(8080)), 6080), 8080);
    assert_eq!(ServerCommand::pick_port(Some(None), 6080), 6080);
    assert_eq!(ServerCommand::pick_port(None, 6080), 6080);
}

#[test]
fn run_target_defaults() {
    assert_eq!(run_target(None, None), RunTarget::Local { pipeline: "default".to_string() });
    assert_eq!(DEFAULT_PIPELINE, "default");
}

#[test]
fn run_target_with_names() {
    assert_eq!(
        run_target(Some("deploy"), None),
        RunTarget::Local { pipeline: "deploy".to_string() }
    );
    assert_eq!(
        run_target(Some("deploy"), Some("box")),
        RunTarget::Server { pipeline: "deploy".to_string(), server: "box".to_string() }
    );
    assert_eq!(
        run_target(None, Some("box")),
        RunTarget::Server { pipeline: "default".to_string(), server: "box".to_string() }
    );
}

#[test]
fn urls_of_a_server() {
    let server = BldServerConfig { name: "box".to_string(), host: "10.1.2.3".to_string(), port: 6080 };
    assert_eq!(HistCommand::url(&server), "http://10.1.2.3:6080/hist");
    assert_eq!(monit_url(&server), "http://10.1.2.3:6080/ws-monit");
}

#[test]
fn record_lines() {
    assert_eq!(record("id-1", None).to_string(), "id-1 build ann 2021-01-01 running");
    assert_eq!(
        record("id-1", Some(ExecutionOutcome::Succeeded)).to_string(),
        "id-1 build ann 2021-01-01 succeeded"
    );
    assert_eq!(
        record("id-1", Some(ExecutionOutcome::Failed)).to_string(),
        "id-1 build ann 2021-01-01 failed"
    );
    assert_eq!(
        record("id-1", Some(ExecutionOutcome::Cancelled)).to_string(),
        "id-1 build ann 2021-01-01 cancelled"
    );
}

#[test]
fn record_runs_until_it_is_finished_once() {
    let mut kept = record("id-1", None);
    assert!(kept.is_running());
    assert_eq!(kept.result(), None);
    assert!(kept.finish(ExecutionOutcome::Cancelled));
    assert!(!kept.is_running());
    assert_eq!(kept.result(), Some(ExecutionOutcome::Cancelled));
    assert!(!kept.finish(ExecutionOutcome::Succeeded));
    assert_eq!(kept.result(), Some(ExecutionOutcome::Cancelled));
    assert_eq!(kept.id(), "id-1");
    assert_eq!(kept.name(), "build");
    assert_eq!(kept.user(), "ann");
    assert_eq!(kept.start_date(), "2021-01-01");
}

#[test]
fn history_of_nothing_is_empty() {
    assert_eq!(history_info(&Vec::new()), "");
}

#[test]
fn history_wraps_each_record_in_line_ends() {
    let records = vec![record("a", None), record("b", Some(ExecutionOutcome::Failed))];
    assert_eq!(
        history_info(&records),
        "\na build ann 2021-01-01 running\n\nb build ann 2021-01-01 failed\n"
    );
    let folded = records
        .iter()
        .map(|p| p.to_string())
        .fold(String::new(), |acc, n| format!("{}\n{}\n", acc, n));
    assert_eq!(history_info(&records), folded);
}

#[test]
fn hist_endpoint_wants_a_user() {
    let records = vec![record("a", None)];
    assert_eq!(hist(None, Ok(&records)), HttpReply::Unauthorized);
    assert_eq!(hist(None, Err(BldError::Other("db".to_string()))), HttpReply::Unauthorized);
}

#[test]
fn hist_endpoint_answers_with_the_history() {
    let user = "ann".to_string();
    let records = vec![record("a", None)];
    assert_eq!(
        hist(Some(&user), Ok(&records)),
        HttpReply::Found("\na build ann 2021-01-01 running\n".to_string())
    );
    assert_eq!(
        hist(Some(&user), Err(BldError::IoError("db".to_string()))),
        HttpReply::BadRequest
    );
}

#[test]
fn ws_exec_wants_a_user() {
    assert!(matches!(ws_exec(None, "logs".to_string(), 5), Err(HttpReply::Unauthorized)));
    let socket = ws_exec(Some("ann".to_string()), "logs".to_string(), 5).ok().unwrap();
    assert_eq!(socket.status(), ConnState::Idle);
    assert_eq!(socket.execution_id(), None);
}

#[test]
fn errors_show_their_text() {
    assert_eq!(BldError::IoError("a".to_string()).to_string(), "a");
    assert_eq!(BldError::SerdeError("b".to_string()).to_string(), "b");
    assert_eq!(BldError::ShipliftError("c".to_string()).to_string(), "c");
    assert_eq!(BldError::Other("d".to_string()).to_string(), "d");
}

#[test]
fn stop_endpoint_wants_a_user() {
    let mut registry = bld::registry::ExecutionRegistry::new();
    assert!(registry
        .register("a".to_string(), bld::registry::CancellationHandle::new())
        .is_ok());
    assert_eq!(bld::endpoints::stop(None, "a", &mut registry), HttpReply::Unauthorized);
    assert!(!registry.is_signaled("a"));
}

#[test]
fn stop_endpoint_signals_a_running_execution() {
    let user = "ann".to_string();
    let mut registry = bld::registry::ExecutionRegistry::new();
    assert!(registry
        .register("a".to_string(), bld::registry::CancellationHandle::new())
        .is_ok());
    assert_eq!(
        bld::endpoints::stop(Some(&user), "a", &mut registry),
        HttpReply::Found(String::new())
    );
    assert!(registry.is_signaled("a"));
}

#[test]
fn stop_endpoint_for_an_unknown_execution_changes_nothing() {
    let user = "ann".to_string();
    let mut registry = bld::registry::ExecutionRegistry::new();
    assert!(registry
        .register("a".to_string(), bld::registry::CancellationHandle::new())
        .is_ok());
    assert_eq!(
        bld::endpoints::stop(Some(&user), "b", &mut registry),
        HttpReply::Found("pipeline not found".to_string())
    );
    assert!(!registry.is_signaled("a"));
    assert!(!registry.contains("b"));
    assert_eq!(registry.len(), 1);
}
