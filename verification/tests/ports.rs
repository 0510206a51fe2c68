use dir_server::ports::{BindAttempt, PortStep};
use dir_server::{try_ports, Error};

fn busy() -> BindAttempt {
    BindAttempt::Failed("could not bind: port already in use".to_string())
}

fn no_free_ports() -> Error {
    Error::Io { desc: "server", op: "start", more: Some("no free ports") }
}

fn start_failed() -> Error {
    Error::Io { desc: "server", op: "start", more: None }
}

#[test]
fn the_first_port_is_tried_first() {
    assert_eq!(try_ports(8000, 8010, &vec![]), PortStep::Try(8000));
}

#[test]
fn a_free_port_ends_the_search() {
    assert_eq!(try_ports(8000, 8010, &vec![BindAttempt::Bound]), PortStep::Listening(8000));
}

#[test]
fn busy_ports_are_passed_over() {
    assert_eq!(try_ports(8000, 8010, &vec![busy()]), PortStep::Try(8001));
    assert_eq!(try_ports(8000, 8010, &vec![busy(), busy()]), PortStep::Try(8002));
    assert_eq!(
        try_ports(8000, 8010, &vec![busy(), busy(), BindAttempt::Bound]),
        PortStep::Listening(8002)
    );
}

#[test]
fn no_port_is_tried_after_the_one_that_listens() {
    let attempts = vec![busy(), busy(), BindAttempt::Bound, busy(), BindAttempt::Bound];
    assert_eq!(try_ports(8000, 8010, &attempts), PortStep::Listening(8002));
}

#[test]
fn another_failure_ends_the_search_at_once() {
    let denied = BindAttempt::Failed("permission denied".to_string());
    assert_eq!(try_ports(80, 90, &vec![denied.clone()]), PortStep::Failed(start_failed()));
    assert_eq!(
        try_ports(80, 90, &vec![busy(), denied, BindAttempt::Bound]),
        PortStep::Failed(start_failed())
    );
}

#[test]
fn a_range_of_busy_ports_has_no_free_port() {
    assert_eq!(
        try_ports(8000, 8002, &vec![busy(), busy()]),
        PortStep::Failed(no_free_ports())
    );
    assert_eq!(
        try_ports(8000, 8002, &vec![busy(), busy(), BindAttempt::Bound]),
        PortStep::Failed(no_free_ports())
    );
}

#[test]
fn an_empty_range_has_no_free_port() {
    assert_eq!(try_ports(8000, 8000, &vec![]), PortStep::Failed(no_free_ports()));
    assert_eq!(try_ports(8001, 8000, &vec![]), PortStep::Failed(no_free_ports()));
    assert_eq!(try_ports(8000, 8000, &vec![BindAttempt::Bound]), PortStep::Failed(no_free_ports()));
}

#[test]
fn the_last_port_of_the_range_is_never_tried() {
    assert_eq!(try_ports(65534, 65535, &vec![]), PortStep::Try(65534));
    assert_eq!(try_ports(65534, 65535, &vec![busy()]), PortStep::Failed(no_free_ports()));
}
