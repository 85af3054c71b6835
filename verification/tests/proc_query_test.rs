use proc_ctl::common::MaybeHasPid;
use proc_ctl::proc_query::executable_name;
use proc_ctl::{ProcCtlError, ProcInfo, ProcQuery};
use std::path::PathBuf;

fn info(name: &str, pid: u32, parent: Option<u32>) -> ProcInfo {
    ProcInfo {
        name: name.to_string(),
        cmd: vec![format!("/usr/bin/{}", name), "--flag".to_string()],
        exe: Some(PathBuf::from(format!("/usr/bin/{}", name))),
        pid,
        parent,
        env: vec!["HOME=/root".to_string()],
        cwd: Some(PathBuf::from("/")),
    }
}

fn process_table() -> Vec<ProcInfo> {
    vec![
        info("init", 1, None),
        info("sh", 20, Some(1)),
        info("server", 30, Some(20)),
        info("worker", 31, Some(30)),
        info("worker", 32, Some(30)),
        info("sh", 40, Some(1)),
        info("worker", 41, Some(40)),
        info("logger", 33, Some(30)),
    ]
}

fn pids(processes: &[ProcInfo]) -> Vec<u32> {
    processes.iter().map(|info| info.pid).collect()
}

#[test]
fn children_are_the_processes_with_that_parent() {
    let table = process_table();
    let children = ProcQuery::new().process_id(30).children(table.clone()).unwrap();
    assert_eq!(vec![31, 32, 33], pids(&children));
    let children = ProcQuery::new().process_id(1).children(table.clone()).unwrap();
    assert_eq!(vec![20, 40], pids(&children));
    let children = ProcQuery::new().process_id(31).children(table.clone()).unwrap();
    assert_eq!(Vec::<u32>::new(), pids(&children));
    let children = ProcQuery::new().process_id(999).children(table).unwrap();
    assert_eq!(Vec::<u32>::new(), pids(&children));
}

#[test]
fn children_come_back_whole() {
    let children = ProcQuery::new().process_id(40).children(process_table()).unwrap();
    assert_eq!(1, children.len());
    let child = &children[0];
    assert_eq!("worker", child.name);
    assert_eq!(vec!["/usr/bin/worker".to_string(), "--flag".to_string()], child.cmd);
    assert_eq!(Some(PathBuf::from("/usr/bin/worker")), child.exe);
    assert_eq!(41, child.pid);
    assert_eq!(Some(40), child.parent);
    assert_eq!(vec!["HOME=/root".to_string()], child.env);
    assert_eq!(Some(PathBuf::from("/")), child.cwd);
}

#[test]
fn children_pass_over_the_name_filter() {
    let query = ProcQuery::new().process_id(30).process_name("logger");
    assert_eq!(vec![31, 32, 33], pids(&query.children(process_table()).unwrap()));
}

#[test]
fn children_without_a_pid_is_a_configuration_error() {
    let queries = vec![
        ProcQuery::new(),
        ProcQuery::new().process_name("server"),
        ProcQuery::new().expect_min_num_children(0),
        ProcQuery::default().expect_min_num_children(3),
    ];
    for query in queries {
        match query.children(process_table()) {
            Err(ProcCtlError::ConfigurationError(text)) => {
                assert_eq!("unable to resolve a pid", text)
            }
            other => panic!("unexpected result {:?}", other),
        }
    }
}

#[test]
fn children_are_held_against_the_minimum() {
    let query = ProcQuery::new().process_id(30);
    for enough in 0..=3 {
        let children = query.clone().expect_min_num_children(enough).children(process_table());
        assert_eq!(vec![31, 32, 33], pids(&children.unwrap()));
    }
    for too_many in [4, 100, usize::MAX] {
        match query.clone().expect_min_num_children(too_many).children(process_table()) {
            Err(ProcCtlError::TooFewChildren(found, expected)) => {
                assert_eq!(3, found);
                assert_eq!(too_many, expected);
            }
            other => panic!("unexpected result {:?}", other),
        }
    }
}

#[test]
fn no_children_and_a_minimum() {
    for expected_children in [1, 2, 50] {
        let query = ProcQuery::new().process_id(31).expect_min_num_children(expected_children);
        match query.children(process_table()) {
            Err(ProcCtlError::TooFewChildren(found, expected)) => {
                assert_eq!(0, found);
                assert_eq!(expected_children, expected);
            }
            other => panic!("unexpected result {:?}", other),
        }
        match query.children(Vec::new()) {
            Err(ProcCtlError::TooFewChildren(found, expected)) => {
                assert_eq!(0, found);
                assert_eq!(expected_children, expected);
            }
            other => panic!("unexpected result {:?}", other),
        }
    }
    let query = ProcQuery::new().process_id(31).expect_min_num_children(0);
    assert_eq!(0, query.children(process_table()).unwrap().len());
}

#[test]
fn check_min_num_children_hands_the_children_back_or_fails() {
    let children = vec![info("a", 1, None), info("b", 2, None)];
    let query = ProcQuery::new();
    assert_eq!(vec![1, 2], pids(&query.check_min_num_children(children.clone()).unwrap()));
    let query = ProcQuery::new().expect_min_num_children(2);
    assert_eq!(vec![1, 2], pids(&query.check_min_num_children(children.clone()).unwrap()));
    let query = ProcQuery::new().expect_min_num_children(3);
    match query.check_min_num_children(children) {
        Err(ProcCtlError::TooFewChildren(found, expected)) => {
            assert_eq!(2, found);
            assert_eq!(3, expected);
        }
        other => panic!("unexpected result {:?}", other),
    }
}

#[test]
fn list_processes_without_filters_lists_all() {
    let processes = ProcQuery::new().list_processes(process_table()).unwrap();
    assert_eq!(vec![1, 20, 30, 31, 32, 40, 41, 33], pids(&processes));
    let processes = ProcQuery::new().expect_min_num_children(99).list_processes(process_table());
    assert_eq!(8, processes.unwrap().len());
}

#[test]
fn list_processes_by_pid_or_name_or_both() {
    let table = process_table();
    let by_name = ProcQuery::new().process_name("worker").list_processes(table.clone()).unwrap();
    assert_eq!(vec![31, 32, 41], pids(&by_name));
    let by_pid = ProcQuery::new().process_id(40).list_processes(table.clone()).unwrap();
    assert_eq!(vec![40], pids(&by_pid));
    let both = ProcQuery::new().process_id(32).process_name("worker");
    assert_eq!(vec![32], pids(&both.list_processes(table.clone()).unwrap()));
    let neither = ProcQuery::new().process_id(40).process_name("worker");
    assert_eq!(Vec::<u32>::new(), pids(&neither.list_processes(table.clone()).unwrap()));
    let unknown = ProcQuery::new().process_name("work");
    assert_eq!(Vec::<u32>::new(), pids(&unknown.list_processes(table.clone()).unwrap()));
    let cased = ProcQuery::new().process_name("Worker");
    assert_eq!(Vec::<u32>::new(), pids(&cased.list_processes(table).unwrap()));
}

#[test]
fn the_last_name_and_pid_stand() {
    let query = ProcQuery::new()
        .process_name("sh")
        .process_id(1)
        .process_name("worker")
        .process_id(41);
    assert_eq!(Some(41), query.get_pid());
    assert_eq!(vec![41], pids(&query.list_processes(process_table()).unwrap()));
    assert_eq!(None, ProcQuery::new().get_pid());
    assert_eq!(None, ProcQuery::default().get_pid());
}

#[test]
fn executable_names() {
    assert_eq!("waiter.exe", executable_name("waiter"));
    assert_eq!("waiter.exe", executable_name("waiter.exe"));
    assert_eq!("port-binder.exe", executable_name("port-binder"));
    assert_eq!(".exe", executable_name(""));
    assert_eq!(".exe", executable_name(".exe"));
    assert_eq!("exe.exe", executable_name("exe"));
    assert_eq!("a.EXE.exe", executable_name("a.EXE"));
    assert_eq!("a.exe.exe", executable_name("a.exe.exe"));
    assert_eq!("a.exe .exe", executable_name("a.exe "));
    assert_eq!("naïve.exe", executable_name("naïve"));
    assert_eq!("日本語.exe", executable_name("日本語.exe"));
}

#[test]
fn a_query_by_executable_name() {
    let table = vec![info("waiter.exe", 5, None), info("waiter", 6, None)];
    let query = ProcQuery::new().process_name(&executable_name("waiter"));
    assert_eq!(vec![5], pids(&query.list_processes(table).unwrap()));
}
