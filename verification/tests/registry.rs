use reticle::registry::RunnerManager;

fn id(s: &str) -> String {
    s.to_string()
}

fn sorted(mut ids: Vec<String>) -> Vec<String> {
    ids.sort();
    ids
}

#[test]
fn new_table_is_empty() {
    let manager: RunnerManager<u32> = RunnerManager::new();
    assert_eq!(manager.list(), Vec::<String>::new());
    assert!(!manager.contains(&id("a")));
}

#[test]
fn insert_registers_under_a_free_identifier() {
    let mut manager: RunnerManager<u32> = RunnerManager::new();
    assert_eq!(manager.insert(id("a"), 1), Ok(()));
    assert!(manager.contains(&id("a")));
    assert_eq!(manager.list(), vec![id("a")]);
}

#[test]
fn insert_refuses_a_live_identifier_and_returns_the_handle() {
    let mut manager: RunnerManager<u32> = RunnerManager::new();
    assert_eq!(manager.insert(id("a"), 1), Ok(()));
    assert_eq!(manager.insert(id("a"), 2), Err(2));
    assert_eq!(manager.list(), vec![id("a")]);
    assert_eq!(manager.get_mut(&id("a")).map(|h| *h), Some(1));
}

#[test]
fn remove_hands_out_the_handle_once() {
    let mut manager: RunnerManager<u32> = RunnerManager::new();
    assert_eq!(manager.insert(id("a"), 1), Ok(()));
    assert_eq!(manager.insert(id("b"), 2), Ok(()));
    assert_eq!(manager.remove(&id("a")), Some(1));
    assert_eq!(manager.remove(&id("a")), None);
    assert_eq!(manager.list(), vec![id("b")]);
    assert_eq!(manager.get_mut(&id("b")).map(|h| *h), Some(2));
}

#[test]
fn remove_of_an_unknown_identifier_changes_nothing() {
    let mut manager: RunnerManager<u32> = RunnerManager::new();
    assert_eq!(manager.insert(id("a"), 1), Ok(()));
    assert_eq!(manager.remove(&id("zzz")), None);
    assert_eq!(manager.list(), vec![id("a")]);
}

#[test]
fn identifier_is_free_again_after_removal() {
    let mut manager: RunnerManager<u32> = RunnerManager::new();
    assert_eq!(manager.insert(id("a"), 1), Ok(()));
    assert_eq!(manager.remove(&id("a")), Some(1));
    assert_eq!(manager.insert(id("a"), 9), Ok(()));
    assert_eq!(manager.remove(&id("a")), Some(9));
}

#[test]
fn get_mut_changes_the_handle_in_place() {
    let mut manager: RunnerManager<Vec<u8>> = RunnerManager::new();
    assert_eq!(manager.insert(id("a"), vec![1]), Ok(()));
    assert_eq!(manager.insert(id("b"), vec![2]), Ok(()));
    match manager.get_mut(&id("a")) {
        Some(handle) => handle.push(7),
        None => panic!("the run is registered"),
    }
    assert_eq!(manager.remove(&id("a")), Some(vec![1, 7]));
    assert_eq!(manager.remove(&id("b")), Some(vec![2]));
}

#[test]
fn get_mut_of_an_unknown_identifier_is_none() {
    let mut manager: RunnerManager<u32> = RunnerManager::new();
    assert_eq!(manager.insert(id("a"), 1), Ok(()));
    assert!(manager.get_mut(&id("b")).is_none());
    assert!(manager.get_mut(&id("")).is_none());
}

#[test]
fn list_holds_exactly_the_distinct_identifiers_inserted() {
    let mut manager: RunnerManager<usize> = RunnerManager::new();
    let ids = vec![id("job-3"), id("job-1"), id(""), id("job-2"), id("Job-1")];
    for (n, run) in ids.iter().enumerate() {
        assert_eq!(manager.insert(run.clone(), n), Ok(()));
    }
    assert_eq!(sorted(manager.list()), sorted(ids.clone()));
    for (n, run) in ids.iter().enumerate() {
        assert!(manager.contains(run));
        assert_eq!(manager.get_mut(run).map(|h| *h), Some(n));
    }
}

#[test]
fn removal_in_the_middle_keeps_the_other_runs() {
    let mut manager: RunnerManager<u32> = RunnerManager::new();
    for (n, run) in ["a", "b", "c", "d"].iter().enumerate() {
        assert_eq!(manager.insert(id(run), n as u32), Ok(()));
    }
    assert_eq!(manager.remove(&id("b")), Some(1));
    assert_eq!(sorted(manager.list()), vec![id("a"), id("c"), id("d")]);
    assert_eq!(manager.get_mut(&id("c")).map(|h| *h), Some(2));
    assert_eq!(manager.get_mut(&id("d")).map(|h| *h), Some(3));
    assert_eq!(manager.get_mut(&id("a")).map(|h| *h), Some(0));
}
