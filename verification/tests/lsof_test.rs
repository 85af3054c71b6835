use proc_ctl::lsof::{find_ports, find_ports_v4, find_ports_v6, lsof_command};
use proc_ctl::{AddressFamily, Protocol};

#[test]
fn finds_the_port_of_the_process() {
    let output = b"p4242\0\nf3\0n127.0.0.1:43210\0\n".to_vec();
    assert_eq!(vec![43210], find_ports_v4(output, 4242));
}

#[test]
fn finds_the_ports_in_order() {
    let output = b"p4242\0\nf3\0n127.0.0.1:8080\0\nf4\0n*:443\0\nf9\0n10.0.0.1:8080\0\n".to_vec();
    assert_eq!(vec![8080, 443, 8080], find_ports_v4(output, 4242));
}

#[test]
fn passes_over_other_processes() {
    let output =
        b"p11\0\nf3\0n*:22\0\np4242\0\nf3\0n*:80\0\np77\0\nf5\0n*:631\0\np4242\0\nf8\0n*:81\0\n"
            .to_vec();
    assert_eq!(vec![80, 81], find_ports_v4(output.clone(), 4242));
    assert_eq!(vec![22], find_ports_v4(output.clone(), 11));
    assert_eq!(vec![631], find_ports_v4(output.clone(), 77));
    assert_eq!(Vec::<u16>::new(), find_ports_v4(output, 5));
}

#[test]
fn a_record_opens_at_every_process_tag() {
    // the first process has no socket: what follows belongs to the second
    let output = b"p11\0\np12\0\nf4\0n*:9090\0\n".to_vec();
    assert_eq!(Vec::<u16>::new(), find_ports_v4(output.clone(), 11));
    assert_eq!(vec![9090], find_ports_v4(output, 12));
}

#[test]
fn finds_ipv6_ports() {
    let output = b"p4242\0\nf3\0n[::1]:43210\0\nf4\0n[fe80::1]:53\0\n".to_vec();
    assert_eq!(vec![43210, 53], find_ports_v6(output, 4242));
}

#[test]
fn an_ipv6_name_needs_the_closing_bracket_and_colon() {
    let output = b"p4242\0\nf3\0n*:80\0\nf4\0n[::1]81\0\nf5\0n[::1]:82\0\nf6\0n]:83\0\n".to_vec();
    assert_eq!(vec![82, 83], find_ports_v6(output, 4242));
}

#[test]
fn an_ipv6_name_ends_at_its_nul() {
    // the name of the first process holds no bracket; the port of the second is not its own
    let output = b"p11\0\nf3\0n*:80\0\np12\0\nf4\0n[::1]:9090\0\n".to_vec();
    assert_eq!(Vec::<u16>::new(), find_ports_v6(output.clone(), 11));
    assert_eq!(vec![9090], find_ports_v6(output, 12));
}

#[test]
fn an_ipv4_port_follows_the_last_colon() {
    let output = b"p19\0\nf3\0na:b:8080\0\nf4\0nno-port-here\0\nf5\0n:17\0\nf6\0n1.2.3.4:\0\n".to_vec();
    assert_eq!(vec![8080, 17], find_ports_v4(output, 19));
}

#[test]
fn a_port_that_is_no_number_is_dropped() {
    let output = b"p19\0\nf3\0n*:http\0\nf4\0n*:65536\0\nf5\0n*:65535\0\nf6\0n*:-1\0\n".to_vec();
    assert_eq!(vec![65535], find_ports_v4(output, 19));
}

#[test]
fn a_record_with_a_pid_that_is_no_number_is_dropped() {
    let output = b"p19\0\nf3\0n*:1\0\npxyz\0\nf3\0n*:2\0\np19\0\nf3\0n*:3\0\n".to_vec();
    assert_eq!(vec![1, 3], find_ports_v4(output, 19));
    let output = b"p99999999999\0\nf3\0n*:1\0\np19\0\nf3\0n*:3\0\n".to_vec();
    assert_eq!(vec![3], find_ports_v4(output, 19));
}

#[test]
fn output_that_opens_with_no_record_gives_nothing() {
    assert_eq!(Vec::<u16>::new(), find_ports_v4(Vec::new(), 19));
    assert_eq!(Vec::<u16>::new(), find_ports_v4(b"lsof: no such command\n".to_vec(), 19));
    assert_eq!(Vec::<u16>::new(), find_ports_v4(b"f3\0n*:1\0\np19\0\nf3\0n*:3\0\n".to_vec(), 19));
    assert_eq!(Vec::<u16>::new(), find_ports_v4(b"\0p19\0\nf3\0n*:3\0\n".to_vec(), 19));
    assert_eq!(Vec::<u16>::new(), find_ports_v6(b"\np19\0\nf3\0n[::]:3\0\n".to_vec(), 19));
}

#[test]
fn a_field_without_its_nul_is_dropped() {
    assert_eq!(Vec::<u16>::new(), find_ports_v4(b"p19".to_vec(), 19));
    assert_eq!(Vec::<u16>::new(), find_ports_v4(b"p19\0\nf3\0n*:80".to_vec(), 19));
    assert_eq!(vec![80], find_ports_v4(b"p19\0\nf3\0n*:80\0".to_vec(), 19));
    assert_eq!(vec![80], find_ports_v4(b"p19\0\nf3\0n*:80\0\nf4\0n*:8".to_vec(), 19));
}

#[test]
fn line_ends_are_optional_and_empty_fields_are_passed_over() {
    assert_eq!(vec![80, 81], find_ports_v4(b"p19\0f3\0n*:80\0\0\0n*:81\0".to_vec(), 19));
}

#[test]
fn find_ports_reads_either_family() {
    let output = b"p19\0\nf3\0n[::1]:80\0\n";
    assert_eq!(vec![80], find_ports(output, 19, AddressFamily::V4));
    assert_eq!(vec![80], find_ports(output, 19, AddressFamily::V6));
    let output = b"p19\0\nf3\0n127.0.0.1:80\0\n";
    assert_eq!(vec![80], find_ports(output, 19, AddressFamily::V4));
    assert_eq!(Vec::<u16>::new(), find_ports(output, 19, AddressFamily::V6));
}

#[test]
fn lsof_commands() {
    assert_eq!(
        vec!["lsof", "-a", "-iTCP", "-i4", "-sTCP:LISTEN", "-nP", "-F0pn"],
        lsof_command(Protocol::Tcp, AddressFamily::V4)
    );
    assert_eq!(
        vec!["lsof", "-a", "-iUDP", "-i4", "-nP", "-F0pn"],
        lsof_command(Protocol::Udp, AddressFamily::V4)
    );
    assert_eq!(
        vec!["lsof", "-a", "-iTCP", "-i6", "-sTCP:LISTEN", "-nP", "-F0pn"],
        lsof_command(Protocol::Tcp, AddressFamily::V6)
    );
    assert_eq!(
        vec!["lsof", "-a", "-iUDP", "-i6", "-nP", "-F0pn"],
        lsof_command(Protocol::Udp, AddressFamily::V6)
    );
}
