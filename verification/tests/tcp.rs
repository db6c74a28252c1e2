use gpconnect::libs::error::VpnError;
use gpconnect::libs::tcp::{
    bridge_advance, bridge_start, substream_preamble, worker_advance, worker_failure,
    worker_start, BridgeStep, WorkerStep, CMD_TCP, KEEP_ALIVE_SECS,
};

#[test]
fn stream_mode_byte_and_keep_alive() {
    assert_eq!(CMD_TCP, 0x02);
    assert_eq!(KEEP_ALIVE_SECS, 30);
}

#[test]
fn preamble_is_length_then_destination() {
    assert_eq!(
        substream_preamble("8.8.8.8:53"),
        Some(vec![0, 10, b'8', b'.', b'8', b'.', b'8', b'.', b'8', b':', b'5', b'3'])
    );
    assert_eq!(substream_preamble(""), Some(vec![0, 0]));
}

#[test]
fn preamble_counts_bytes_not_characters() {
    let preamble = substream_preamble("h\u{f6}st:1").unwrap();
    assert_eq!(&preamble[..2], &[0, 7]);
    assert_eq!(&preamble[2..], "h\u{f6}st:1".as_bytes());
}

#[test]
fn preamble_of_the_longest_destination() {
    let longest = "a".repeat(65535);
    let preamble = substream_preamble(&longest).unwrap();
    assert_eq!(preamble.len(), 65537);
    assert_eq!(&preamble[..2], &[0xff, 0xff]);
    assert_eq!(substream_preamble(&"a".repeat(65536)), None);
}

#[test]
fn worker_walks_through_one_connection() {
    let mut step = worker_start();
    assert_eq!(step, WorkerStep::Connect);
    step = worker_advance(step, true, true);
    assert_eq!(step, WorkerStep::Announce);
    step = worker_advance(step, true, true);
    assert_eq!(step, WorkerStep::StartSession);
    step = worker_advance(step, true, true);
    assert_eq!(step, WorkerStep::Accept);
    step = worker_advance(step, true, true);
    assert_eq!(step, WorkerStep::OpenSubstream);
    step = worker_advance(step, true, true);
    assert_eq!(step, WorkerStep::Dispatch);
    step = worker_advance(step, true, true);
    assert_eq!(step, WorkerStep::Accept);
    step = worker_advance(step, true, false);
    assert_eq!(step, WorkerStep::OpenSubstream);
    step = worker_advance(step, true, false);
    assert_eq!(step, WorkerStep::Dispatch);
    step = worker_advance(step, true, false);
    assert_eq!(step, WorkerStep::Return);
    step = worker_advance(step, true, true);
    assert_eq!(step, WorkerStep::Return);
}

#[test]
fn worker_returns_on_any_failure() {
    let steps = [
        WorkerStep::Connect,
        WorkerStep::Announce,
        WorkerStep::StartSession,
        WorkerStep::Accept,
        WorkerStep::OpenSubstream,
        WorkerStep::Dispatch,
        WorkerStep::Return,
    ];
    for step in steps {
        assert_eq!(worker_advance(step, false, true), WorkerStep::Return);
        assert_eq!(worker_advance(step, false, false), WorkerStep::Return);
    }
}

#[test]
fn worker_does_not_accept_once_the_flag_is_cleared() {
    assert_eq!(worker_advance(WorkerStep::StartSession, true, false), WorkerStep::Return);
    assert_eq!(worker_advance(WorkerStep::Dispatch, true, false), WorkerStep::Return);
    assert_eq!(worker_advance(WorkerStep::StartSession, true, true), WorkerStep::Accept);
    assert_eq!(worker_advance(WorkerStep::Dispatch, true, true), WorkerStep::Accept);
}

#[test]
fn worker_failure_names_the_error() {
    assert_eq!(worker_failure(WorkerStep::Connect), VpnError::ConnectFailed);
    assert_eq!(worker_failure(WorkerStep::Announce), VpnError::TransportError);
    assert_eq!(worker_failure(WorkerStep::StartSession), VpnError::TransportError);
    assert_eq!(worker_failure(WorkerStep::Accept), VpnError::TransportError);
    assert_eq!(worker_failure(WorkerStep::OpenSubstream), VpnError::TransportError);
    assert_eq!(worker_failure(WorkerStep::Dispatch), VpnError::TransportError);
    assert_eq!(worker_failure(WorkerStep::Return), VpnError::TransportError);
}

#[test]
fn bridge_walks_to_its_end() {
    let mut step = bridge_start();
    assert_eq!(step, BridgeStep::Adopt);
    step = bridge_advance(step, true);
    assert_eq!(step, BridgeStep::SendPreamble);
    step = bridge_advance(step, true);
    assert_eq!(step, BridgeStep::Flush);
    step = bridge_advance(step, true);
    assert_eq!(step, BridgeStep::Relay);
    step = bridge_advance(step, true);
    assert_eq!(step, BridgeStep::Close);
    step = bridge_advance(step, true);
    assert_eq!(step, BridgeStep::Done);
    step = bridge_advance(step, true);
    assert_eq!(step, BridgeStep::Done);
}

#[test]
fn bridge_gives_up_when_its_setup_fails() {
    assert_eq!(bridge_advance(BridgeStep::Adopt, false), BridgeStep::Done);
    assert_eq!(bridge_advance(BridgeStep::SendPreamble, false), BridgeStep::Done);
    assert_eq!(bridge_advance(BridgeStep::Flush, false), BridgeStep::Done);
}

#[test]
fn bridge_closes_its_substream_however_relaying_ended() {
    assert_eq!(bridge_advance(BridgeStep::Relay, false), BridgeStep::Close);
    assert_eq!(bridge_advance(BridgeStep::Relay, true), BridgeStep::Close);
    assert_eq!(bridge_advance(BridgeStep::Close, false), BridgeStep::Done);
    assert_eq!(bridge_advance(BridgeStep::Done, false), BridgeStep::Done);
}
