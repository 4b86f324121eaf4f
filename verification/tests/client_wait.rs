use rosrust_async::client::{wait_step, Client, ClientError, Probe, WaitStep};

#[test]
fn absence_so_far_is_retried_not_an_error() {
    assert_eq!(wait_step(Probe::TimedOut, false), WaitStep::Retry);
}

#[test]
fn registration_completes_the_wait() {
    assert_eq!(wait_step(Probe::Available, false), WaitStep::Complete(Ok(())));
}

#[test]
fn shutdown_while_waiting_is_terminal() {
    assert_eq!(
        wait_step(Probe::TimedOut, true),
        WaitStep::Complete(Err(ClientError::Shutdown))
    );
}

#[test]
fn probe_failure_is_terminal_with_its_message() {
    assert_eq!(
        wait_step(Probe::Failed("master unreachable".to_string()), false),
        WaitStep::Complete(Err(ClientError::Failed("master unreachable".to_string())))
    );
}

#[test]
fn service_registered_after_quiet_polls_is_waited_out() {
    // a service that appears only after a while: the first polls time
    // out, then one finds it registered
    let probes = vec![Probe::TimedOut, Probe::TimedOut, Probe::Available];
    let mut outcome = None;
    for probe in probes {
        match wait_step(probe, false) {
            WaitStep::Retry => continue,
            WaitStep::Complete(r) => {
                outcome = Some(r);
                break;
            }
        }
    }
    assert_eq!(outcome, Some(Ok(())));
}

#[test]
fn round_trip_returns_the_nested_result() {
    let mut client: Client<u8, u8> = Client::new("calc".to_string());
    assert_eq!(client.topic().as_str(), "calc");
    let (request, tx, rx, mut slot) = client.req(9);
    assert_eq!(request, 9);
    // worker side: the blocking round trip succeeded and the remote
    // handler answered with its own success
    assert_eq!(tx.send(&mut slot, Ok(Ok(18))), Ok(()));
    assert_eq!(rx.recv(&mut slot), Ok(Ok(Ok(18))));
}

#[test]
fn remote_handler_failure_is_carried_inside_the_transport_result() {
    let mut client: Client<u8, u8> = Client::new("calc".to_string());
    let (_request, tx, rx, mut slot) = client.req(3);
    assert_eq!(tx.send(&mut slot, Ok(Err("bad input".to_string()))), Ok(()));
    assert_eq!(rx.recv(&mut slot), Ok(Ok(Err("bad input".to_string()))));
}
