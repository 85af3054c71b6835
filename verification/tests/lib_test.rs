use proc_ctl::proc_net::{FdTarget, TcpEntry, TcpState, UdpEntry, UdpState};
use proc_ctl::retry::{next_retry_step, RetryStep};
use proc_ctl::{
    PortQuery, ProcCtlError, ProcCtlResult, ProcInfo, ProcQuery, ProtocolPort, SocketTables,
};
use proc_ctl::proc_query::executable_name;
use retry::delay::Fixed;
use std::time::Duration;

const BINDER_PID: u32 = 4242;
const BINDER_PORT: u16 = 43210;
const RUNNER_PID: u32 = 4000;

/// What `/proc` shows of a sample program while it runs. `port-binder` has
/// bound one TCP socket on 127.0.0.1 and listens on it, beside the sockets of
/// other processes.
fn tables_of_sample(name: &str) -> SocketTables {
    if name != "port-binder" {
        panic!("{} is no sample", name);
    }
    SocketTables::Linux {
        fds: vec![
            FdTarget::Other,
            FdTarget::Other,
            FdTarget::Other,
            FdTarget::Socket(9001),
        ],
        tcp: vec![
            TcpEntry { local_port: 22, state: TcpState::Listen, inode: 1200 },
            TcpEntry { local_port: BINDER_PORT, state: TcpState::Listen, inode: 9001 },
            TcpEntry { local_port: 51514, state: TcpState::Established, inode: 7300 },
        ],
        tcp6: vec![TcpEntry { local_port: 22, state: TcpState::Listen, inode: 1201 }],
        udp: vec![UdpEntry { local_port: 68, state: UdpState::Close, inode: 1500 }],
        udp6: vec![],
    }
}

fn info(name: &str, pid: u32, parent: Option<u32>) -> ProcInfo {
    ProcInfo {
        name: name.to_string(),
        cmd: vec![name.to_string()],
        exe: None,
        pid,
        parent,
        env: vec![],
        cwd: None,
    }
}

/// A process table in which `proc-runner` has started `port-binder`.
fn runner_process_table() -> Vec<ProcInfo> {
    vec![
        info("init", 1, None),
        info("sh", 3990, Some(1)),
        info("proc-runner", RUNNER_PID, Some(3990)),
        info("port-binder", BINDER_PID, Some(RUNNER_PID)),
        info("waiter", 4300, Some(3990)),
    ]
}

/// Runs `operation` until it succeeds or `count` retries are used up, and
/// gives its result, the attempts made and the time that the pauses between
/// them add up to. The pauses are counted, not waited for.
fn run_with_retries<T>(
    delay: Duration,
    count: usize,
    mut operation: impl FnMut() -> ProcCtlResult<T>,
) -> (ProcCtlResult<T>, usize, Duration) {
    let mut remaining = count;
    let mut attempts = 0;
    let mut paused = Duration::ZERO;
    loop {
        attempts += 1;
        match next_retry_step(operation(), remaining) {
            RetryStep::Done(result) => return (result, attempts, paused),
            RetryStep::Wait { remaining: left } => {
                paused += delay;
                remaining = left;
            }
        }
    }
}

#[test]
fn port_query() {
    let query = PortQuery::new()
        .tcp_only()
        .ip_v4_only()
        .process_id(BINDER_PID)
        .expect_min_num_ports(1);

    let ports = retry::retry(Fixed::from_millis(100).take(10), move || {
        query.execute(tables_of_sample("port-binder"))
    })
    .unwrap();

    assert_eq!(1, ports.len());
    assert_eq!(vec![ProtocolPort::Tcp(BINDER_PORT)], ports);
}

#[test]
fn port_query_which_expects_too_many_ports() {
    let query = PortQuery::new()
        .tcp_only()
        .ip_v4_only()
        .process_id(BINDER_PID)
        .expect_min_num_ports(2);

    // Only retry once, getting no ports is still a valid test if the child program hasn't bound yet
    let result = retry::retry(Fixed::from_millis(100).take(1), move || {
        query.execute(tables_of_sample("port-binder"))
    });

    let error = result.expect_err("Should have had an error about too few ports");
    match error.error {
        ProcCtlError::TooFewPorts(found, expected) => {
            assert_eq!(vec![ProtocolPort::Tcp(BINDER_PORT)], found);
            assert_eq!(2, expected);
        }
        other => panic!("unexpected error {:?}", other),
    }
}

#[test]
fn port_query_with_sync_retry() {
    let query = PortQuery::new()
        .tcp_only()
        .ip_v4_only()
        .process_id(BINDER_PID)
        .expect_min_num_ports(1);

    let (ports, attempts, paused) = run_with_retries(Duration::from_millis(100), 10, || {
        query.execute(tables_of_sample("port-binder"))
    });

    assert_eq!(1, ports.unwrap().len());
    assert_eq!(1, attempts);
    assert_eq!(Duration::ZERO, paused);
}

#[test]
fn port_query_with_async_retry() {
    let query = PortQuery::new()
        .tcp_only()
        .ip_v4_only()
        .process_id(BINDER_PID)
        .expect_min_num_ports(1);

    // the socket shows up in the tables at the third look
    let mut looks = 0;
    let (ports, attempts, paused) = run_with_retries(Duration::from_millis(100), 10, || {
        looks += 1;
        if looks < 3 {
            query.execute(SocketTables::Linux {
                fds: vec![FdTarget::Other],
                tcp: vec![],
                tcp6: vec![],
                udp: vec![],
                udp6: vec![],
            })
        } else {
            query.execute(tables_of_sample("port-binder"))
        }
    });

    assert_eq!(1, ports.unwrap().len());
    assert_eq!(3, attempts);
    assert_eq!(Duration::from_millis(200), paused);
}

#[test]
fn proc_query_by_name() {
    let query = ProcQuery::new().process_name("waiter");

    let processes = query.list_processes(runner_process_table()).unwrap();

    assert_eq!(1, processes.len());
    assert_eq!(4300, processes[0].pid);
}

#[test]
fn proc_query_for_children() {
    let query = ProcQuery::new()
        .process_id(RUNNER_PID)
        .expect_min_num_children(1);

    let process_names = retry::retry(Fixed::from_millis(100).take(10), move || {
        query
            .children(runner_process_table())
            .map(|v| v.into_iter().map(|p| p.name).collect::<Vec<String>>())
    })
    .unwrap();

    assert_eq!(1, process_names.len());
    assert_eq!("port-binder", process_names.first().unwrap());
    assert_eq!("port-binder.exe", executable_name(process_names.first().unwrap()));
}

#[test]
fn proc_query_for_children_with_retry() {
    let query = ProcQuery::new()
        .process_id(RUNNER_PID)
        .expect_min_num_children(1);

    let (children, _, _) = run_with_retries(Duration::from_millis(100), 10, || {
        query.children(runner_process_table())
    });
    let process_names = children
        .unwrap()
        .into_iter()
        .map(|p| p.name)
        .collect::<Vec<String>>();

    assert_eq!(1, process_names.len());
    assert_eq!("port-binder", process_names.first().unwrap());
    assert_eq!("port-binder.exe", executable_name(process_names.first().unwrap()));
}

#[test]
fn proc_query_for_children_async_with_retry() {
    let query = ProcQuery::new()
        .process_id(RUNNER_PID)
        .expect_min_num_children(1);

    // the child shows up in the process table at the second look
    let mut looks = 0;
    let (children, attempts, paused) = run_with_retries(Duration::from_millis(100), 10, || {
        looks += 1;
        if looks < 2 {
            query.children(vec![info("proc-runner", RUNNER_PID, Some(3990))])
        } else {
            query.children(runner_process_table())
        }
    });
    let process_names = children
        .unwrap()
        .into_iter()
        .map(|p| p.name)
        .collect::<Vec<String>>();

    assert_eq!(2, attempts);
    assert_eq!(Duration::from_millis(100), paused);
    assert_eq!(1, process_names.len());
    assert_eq!("port-binder", process_names.first().unwrap());
    assert_eq!("port-binder.exe", executable_name(process_names.first().unwrap()));
}
