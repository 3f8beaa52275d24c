use reticle::control::{
    runner_kill, runner_list, runner_send, runner_spawn, settle_kill, settle_send, settle_spawn,
};
use reticle::errors::{KillError, SendError, SpawnError};
use reticle::permissions::RunnerPermissions;
use reticle::registry::RunnerManager;

/// A child that records what it was started with and what was written to it.
#[derive(Debug, PartialEq)]
struct Child {
    line: Vec<String>,
    input: Vec<u8>,
}

fn id(s: &str) -> String {
    s.to_string()
}

fn strings(items: &[&str]) -> Vec<String> {
    items.iter().map(|s| s.to_string()).collect()
}

fn sorted(mut ids: Vec<String>) -> Vec<String> {
    ids.sort();
    ids
}

fn start(line: Vec<String>) -> Result<Child, String> {
    Ok(Child { line, input: Vec::new() })
}

fn spawn_plain(manager: &mut RunnerManager<Child>, run: &str) {
    let started = runner_spawn(manager, id(run), id("main.ts"), Vec::new(), None, start);
    assert!(started.is_ok());
}

#[test]
fn spawn_registers_the_run_and_hands_the_command_line_to_the_launcher() {
    let mut manager: RunnerManager<Child> = RunnerManager::new();
    let permissions = RunnerPermissions {
        allow_net: Some("api.example.com".to_string()),
        allow_read: Some("/data".to_string()),
        allow_write: None,
        allow_env: Some(true),
        allow_run: None,
    };
    let started = runner_spawn(
        &mut manager,
        id("job-1"),
        id("script.ts"),
        strings(&["one", "two"]),
        Some(permissions),
        start,
    );
    let forwarder = started.expect("a free identifier and a launcher that starts");
    assert_eq!(forwarder.id(), "job-1");
    assert!(!forwarder.is_finished());
    assert_eq!(runner_list(&manager), vec![id("job-1")]);
    let child = manager.remove(&id("job-1")).expect("the run is registered");
    assert_eq!(
        child.line,
        strings(&[
            "run",
            "--no-prompt",
            "--allow-net=api.example.com",
            "--allow-read=/data",
            "--allow-env",
            "script.ts",
            "--",
            "one",
            "two",
        ])
    );
}

#[test]
fn spawns_with_distinct_identifiers_are_all_listed() {
    let mut manager: RunnerManager<Child> = RunnerManager::new();
    let runs = ["job-1", "job-2", "", "job-10", "JOB-1"];
    for run in runs.iter() {
        spawn_plain(&mut manager, run);
    }
    assert_eq!(sorted(runner_list(&manager)), sorted(strings(&runs)));
}

#[test]
fn spawn_with_a_live_identifier_fails_and_starts_nothing() {
    let mut manager: RunnerManager<Child> = RunnerManager::new();
    spawn_plain(&mut manager, "job-1");
    let mut launched = false;
    let second = runner_spawn(
        &mut manager,
        id("job-1"),
        id("other.ts"),
        strings(&["x"]),
        None,
        |line: Vec<String>| {
            launched = true;
            start(line)
        },
    );
    assert_eq!(second.err(), Some(SpawnError::DuplicateRun(id("job-1"))));
    assert!(!launched);
    assert_eq!(runner_list(&manager), vec![id("job-1")]);
    let child = manager.remove(&id("job-1")).expect("the first run is still registered");
    assert_eq!(child.line, strings(&["run", "--no-prompt", "main.ts"]));
}

#[test]
fn spawn_reports_a_failed_launch_and_registers_nothing() {
    let mut manager: RunnerManager<Child> = RunnerManager::new();
    let started = runner_spawn(
        &mut manager,
        id("job-1"),
        id("main.ts"),
        Vec::new(),
        None,
        |_line: Vec<String>| Err("executable not found".to_string()),
    );
    assert_eq!(started.err(), Some(SpawnError::Launch("executable not found".to_string())));
    assert_eq!(runner_list(&manager), Vec::<String>::new());
    spawn_plain(&mut manager, "job-1");
    assert_eq!(runner_list(&manager), vec![id("job-1")]);
}

#[test]
fn settle_spawn_for_each_answer_of_the_launcher() {
    let mut manager: RunnerManager<u32> = RunnerManager::new();
    let failed = settle_spawn(&mut manager, id("a"), Err("no".to_string()));
    assert_eq!(failed.err(), Some(SpawnError::Launch("no".to_string())));
    assert_eq!(manager.list(), Vec::<String>::new());
    let started = settle_spawn(&mut manager, id("a"), Ok(1));
    assert!(started.is_ok());
    let again = settle_spawn(&mut manager, id("a"), Ok(2));
    assert_eq!(again.err(), Some(SpawnError::DuplicateRun(id("a"))));
    assert_eq!(manager.remove(&id("a")), Some(1));
}

#[test]
fn send_writes_the_bytes_of_the_input_to_the_run() {
    let mut manager: RunnerManager<Child> = RunnerManager::new();
    spawn_plain(&mut manager, "job-1");
    spawn_plain(&mut manager, "job-2");
    let write = |child: &mut Child, bytes: &[u8]| -> Result<(), String> {
        child.input.extend_from_slice(bytes);
        Ok(())
    };
    assert_eq!(runner_send(&mut manager, &id("job-2"), &id("héllo\n"), write), Ok(()));
    assert_eq!(runner_send(&mut manager, &id("job-2"), &id("x"), write), Ok(()));
    assert_eq!(sorted(runner_list(&manager)), strings(&["job-1", "job-2"]));
    let second = manager.remove(&id("job-2")).expect("still registered");
    assert_eq!(second.input, "héllo\nx".as_bytes().to_vec());
    let first = manager.remove(&id("job-1")).expect("still registered");
    assert_eq!(first.input, Vec::<u8>::new());
}

#[test]
fn send_to_an_unknown_run_fails_without_writing() {
    let mut manager: RunnerManager<Child> = RunnerManager::new();
    spawn_plain(&mut manager, "job-1");
    let mut called = false;
    let sent = runner_send(
        &mut manager,
        &id("job-2"),
        &id("data"),
        |_child: &mut Child, _bytes: &[u8]| {
            called = true;
            Ok(())
        },
    );
    assert_eq!(sent, Err(SendError::NotFound(id("job-2"))));
    assert!(!called);
    assert_eq!(runner_list(&manager), vec![id("job-1")]);
}

#[test]
fn send_reports_a_failed_write_and_keeps_the_run() {
    let mut manager: RunnerManager<Child> = RunnerManager::new();
    spawn_plain(&mut manager, "job-1");
    let sent = runner_send(
        &mut manager,
        &id("job-1"),
        &id("data"),
        |_child: &mut Child, _bytes: &[u8]| Err("broken pipe".to_string()),
    );
    assert_eq!(sent, Err(SendError::Io("broken pipe".to_string())));
    assert_eq!(runner_list(&manager), vec![id("job-1")]);
}

#[test]
fn settle_send_for_each_result_of_the_write() {
    assert_eq!(settle_send(Ok(())), Ok(()));
    assert_eq!(settle_send(Err("closed".to_string())), Err(SendError::Io("closed".to_string())));
}

#[test]
fn kill_of_an_unknown_run_succeeds_and_changes_nothing() {
    let mut manager: RunnerManager<Child> = RunnerManager::new();
    spawn_plain(&mut manager, "job-1");
    let mut called = false;
    let killed = runner_kill(&mut manager, &id("nobody"), |_child: Child| {
        called = true;
        Ok(())
    });
    assert_eq!(killed, Ok(()));
    assert!(!called);
    assert_eq!(runner_list(&manager), vec![id("job-1")]);
    let mut empty: RunnerManager<Child> = RunnerManager::new();
    assert_eq!(runner_kill(&mut empty, &id("job-1"), |_child: Child| Ok(())), Ok(()));
    assert_eq!(runner_list(&empty), Vec::<String>::new());
}

#[test]
fn kill_removes_the_run_and_terminates_its_child() {
    let mut manager: RunnerManager<Child> = RunnerManager::new();
    spawn_plain(&mut manager, "job-1");
    spawn_plain(&mut manager, "job-2");
    let mut terminated: Vec<Vec<String>> = Vec::new();
    let killed = runner_kill(&mut manager, &id("job-1"), |child: Child| {
        terminated.push(child.line);
        Ok(())
    });
    assert_eq!(killed, Ok(()));
    assert_eq!(terminated, vec![strings(&["run", "--no-prompt", "main.ts"])]);
    assert_eq!(runner_list(&manager), vec![id("job-2")]);
    let again = runner_kill(&mut manager, &id("job-1"), |child: Child| {
        terminated.push(child.line);
        Ok(())
    });
    assert_eq!(again, Ok(()));
    assert_eq!(terminated.len(), 1);
}

#[test]
fn kill_reports_a_failed_termination_and_still_removes_the_run() {
    let mut manager: RunnerManager<Child> = RunnerManager::new();
    spawn_plain(&mut manager, "job-1");
    let killed = runner_kill(&mut manager, &id("job-1"), |_child: Child| {
        Err("not permitted".to_string())
    });
    assert_eq!(killed, Err(KillError::Terminate("not permitted".to_string())));
    assert_eq!(runner_list(&manager), Vec::<String>::new());
}

#[test]
fn settle_kill_for_each_result_of_the_termination() {
    assert_eq!(settle_kill(Ok(())), Ok(()));
    assert_eq!(
        settle_kill(Err("gone".to_string())),
        Err(KillError::Terminate("gone".to_string()))
    );
}

#[test]
fn identifier_can_be_spawned_again_after_kill() {
    let mut manager: RunnerManager<Child> = RunnerManager::new();
    spawn_plain(&mut manager, "job-1");
    assert_eq!(runner_kill(&mut manager, &id("job-1"), |_child: Child| Ok(())), Ok(()));
    spawn_plain(&mut manager, "job-1");
    assert_eq!(runner_list(&manager), vec![id("job-1")]);
}
