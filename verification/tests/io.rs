use lightyear::transport::addr::PeerAddr;
use lightyear::transport::channel::Polled;
use lightyear::transport::error::Error;
use lightyear::transport::events::{ClientIoEvent, ClientIoEventReceiver};
use lightyear::transport::io::{Io, IoState};
use lightyear::transport::stats::IoStats;
use lightyear::transport::websocket::server::{
    WebSocketServerSocketBuilder, WebSocketServerSocketReceiver, WebSocketServerSocketSender,
    WebSocketServerTask,
};
use lightyear::transport::{CloseFn, NoClose, PacketReceiver, PacketSender, MTU};
use std::cell::{Cell, RefCell};
use std::rc::Rc;
use tokio::sync::mpsc::error::TryRecvError;
use tokio_tungstenite::tungstenite::Message;

const LOOPBACK: u128 = 0x0000_0000_0000_0000_0000_ffff_7f00_0001;

fn server_addr() -> PeerAddr {
    PeerAddr::new(LOOPBACK, 5000)
}

fn client_addr() -> PeerAddr {
    PeerAddr::new(LOOPBACK, 40001)
}

type ServerIo = Io<WebSocketServerSocketSender, WebSocketServerSocketReceiver, NoClose>;

fn server_io() -> (ServerIo, WebSocketServerTask) {
    let (socket, task) = WebSocketServerSocketBuilder { server_addr: server_addr() }.build();
    (Io::from_transport(socket, IoState::Connected, None), task)
}

/// A teardown that counts how often it ran.
struct CountingClose {
    calls: Rc<Cell<u32>>,
    fails: bool,
}

impl CloseFn for CountingClose {
    fn close(self) -> Result<(), Error> {
        self.calls.set(self.calls.get() + 1);
        if self.fails {
            Err(Error::Setup("teardown failed".to_string()))
        } else {
            Ok(())
        }
    }
}

/// What a scripted transport was asked to do.
#[derive(Default)]
struct Record {
    sent: RefCell<Vec<(Vec<u8>, PeerAddr)>>,
    polls: Cell<usize>,
}

/// A sender that records what it was asked to send, and answers as told.
struct ScriptedSender {
    record: Rc<Record>,
    fails: bool,
}

impl PacketSender for ScriptedSender {
    fn send(&mut self, payload: &[u8], address: &PeerAddr) -> Result<(), Error> {
        self.record.sent.borrow_mut().push((payload.to_vec(), *address));
        if self.fails {
            Err(Error::SendChannelClosed)
        } else {
            Ok(())
        }
    }
}

/// A receiver that hands out what it was given, one answer per poll.
struct ScriptedReceiver {
    buffer: [u8; MTU],
    script: Vec<Result<Option<(Vec<u8>, PeerAddr)>, Error>>,
    record: Rc<Record>,
}

impl ScriptedReceiver {
    fn new(
        mut script: Vec<Result<Option<(Vec<u8>, PeerAddr)>, Error>>,
        record: Rc<Record>,
    ) -> ScriptedReceiver {
        script.reverse();
        ScriptedReceiver { buffer: [0; MTU], script, record }
    }
}

impl PacketReceiver for ScriptedReceiver {
    fn recv(&mut self) -> Result<Option<(&mut [u8], PeerAddr)>, Error> {
        self.record.polls.set(self.record.polls.get() + 1);
        match self.script.pop() {
            Some(Ok(Some((bytes, from)))) => {
                self.buffer[..bytes.len()].copy_from_slice(&bytes);
                Ok(Some((&mut self.buffer[..bytes.len()], from)))
            }
            Some(Ok(None)) | None => Ok(None),
            Some(Err(e)) => Err(e),
        }
    }
}

type ScriptedIo = Io<ScriptedSender, ScriptedReceiver, CountingClose>;

fn recorded_io(
    sender_fails: bool,
    script: Vec<Result<Option<(Vec<u8>, PeerAddr)>, Error>>,
    close: Option<CountingClose>,
    state: IoState,
) -> (ScriptedIo, Rc<Record>) {
    let record = Rc::new(Record::default());
    let io = Io::new(
        server_addr(),
        ScriptedSender { record: record.clone(), fails: sender_fails },
        ScriptedReceiver::new(script, record.clone()),
        close,
        state,
        None,
    );
    (io, record)
}

fn scripted_io(
    sender_fails: bool,
    script: Vec<Result<Option<(Vec<u8>, PeerAddr)>, Error>>,
    close: Option<CountingClose>,
    state: IoState,
) -> ScriptedIo {
    recorded_io(sender_fails, script, close, state).0
}

#[test]
fn new_io_has_the_given_state_and_no_traffic() {
    let io = scripted_io(false, vec![], None, IoState::Connecting);
    assert_eq!(io.local_addr(), server_addr());
    assert_eq!(io.state(), IoState::Connecting);
    assert_eq!(io.stats(), IoStats::new());
}

#[test]
fn from_transport_takes_the_address_of_the_transport() {
    let (io, _task) = server_io();
    assert_eq!(io.local_addr(), server_addr());
    assert_eq!(io.state(), IoState::Connected);
    assert_eq!(io.stats(), IoStats::new());
}

#[test]
fn client_payload_arrives_at_server_and_is_counted() {
    let (mut io, task) = server_io();
    // the client connects, and its inbound task reads one binary frame from the socket
    let client = task.peer_connected(client_addr()).unwrap();
    assert!(client.inbound.forward(Message::Binary(vec![1, 2, 3, 4])));
    {
        let (bytes, from) = io.recv().unwrap().unwrap();
        assert_eq!(bytes, &[1, 2, 3, 4]);
        assert_eq!(from, client_addr());
    }
    assert_eq!(io.stats().packets_received, 1);
    assert_eq!(io.stats().bytes_received, 4);
    assert_eq!(io.stats().packets_sent, 0);
    assert_eq!(io.stats().bytes_sent, 0);
    // the next poll finds nothing, and counts nothing
    assert_eq!(io.recv(), Ok(None));
    assert_eq!(io.stats().packets_received, 1);
    assert_eq!(io.stats().bytes_received, 4);
}

#[test]
fn send_is_counted_and_reaches_the_peer() {
    let (mut io, task) = server_io();
    let mut client = task.peer_connected(client_addr()).unwrap();
    assert_eq!(io.send(&[9, 9, 9], &client_addr()), Ok(()));
    assert_eq!(client.clientbound_rx.try_recv(), Ok(Message::Binary(vec![9, 9, 9])));
    assert_eq!(
        io.stats(),
        IoStats { bytes_sent: 3, bytes_received: 0, packets_sent: 1, packets_received: 0 }
    );
}

#[test]
fn send_to_a_peer_that_is_gone_succeeds_and_is_counted() {
    let (mut io, task) = server_io();
    let mut other = task.peer_connected(PeerAddr::new(LOOPBACK, 40002)).unwrap();
    assert_eq!(io.send(&[1, 2], &client_addr()), Ok(()));
    assert_eq!(other.clientbound_rx.try_recv(), Err(TryRecvError::Empty));
    assert_eq!(io.stats().packets_sent, 1);
    assert_eq!(io.stats().bytes_sent, 2);
}

#[test]
fn n_sends_and_m_receives_are_counted_exactly() {
    let script = vec![
        Ok(Some((vec![1; 10], client_addr()))),
        Ok(None),
        Ok(Some((vec![2; 1472], client_addr()))),
        Ok(Some((vec![], client_addr()))),
    ];
    let mut io = scripted_io(false, script, None, IoState::Connected);
    assert!(io.send(&[0; 100], &client_addr()).is_ok());
    assert_eq!(io.recv().unwrap().unwrap().0.len(), 10);
    assert!(io.send(&[], &client_addr()).is_ok());
    assert_eq!(io.recv(), Ok(None));
    assert_eq!(io.recv().unwrap().unwrap().0.len(), 1472);
    assert!(io.send(&[0; 1472], &client_addr()).is_ok());
    assert_eq!(io.recv().unwrap().unwrap().0.len(), 0);
    assert_eq!(io.recv(), Ok(None));
    assert_eq!(
        io.stats(),
        IoStats { bytes_sent: 1572, bytes_received: 1482, packets_sent: 3, packets_received: 3 }
    );
}

#[test]
fn a_failed_send_is_still_counted_and_the_error_handed_on() {
    let mut io = scripted_io(true, vec![], None, IoState::Connected);
    assert_eq!(io.send(&[1, 2, 3], &client_addr()), Err(Error::SendChannelClosed));
    assert_eq!(io.stats().packets_sent, 1);
    assert_eq!(io.stats().bytes_sent, 3);
}

#[test]
fn a_failed_recv_is_handed_on_and_not_counted() {
    let script = vec![Err(Error::RecvChannelClosed), Ok(Some((vec![7], client_addr())))];
    let mut io = scripted_io(false, script, None, IoState::Connected);
    assert_eq!(io.recv(), Err(Error::RecvChannelClosed));
    assert_eq!(io.stats(), IoStats::new());
    // the consumer decides whether to disconnect: the io itself goes on
    assert_eq!(io.state(), IoState::Connected);
    assert_eq!(io.recv().unwrap().unwrap().0, &[7]);
    assert_eq!(io.stats().packets_received, 1);
}

#[test]
fn split_halves_count_what_passes_through_them() {
    let (mut io, task) = server_io();
    let mut client = task.peer_connected(client_addr()).unwrap();
    client.inbound.forward(Message::Binary(vec![1, 2, 3, 4]));
    {
        let (sender, receiver) = io.split();
        assert_eq!(sender.send(&[5, 6], &client_addr()), Ok(()));
        let (bytes, from) = receiver.recv().unwrap().unwrap();
        assert_eq!(bytes, &[1, 2, 3, 4]);
        assert_eq!(from, client_addr());
        assert_eq!(sender.send(&[7], &client_addr()), Ok(()));
        assert_eq!(receiver.recv(), Ok(None));
        assert_eq!(sender.counters(), (3, 2));
        assert_eq!(receiver.counters(), (4, 1));
    }
    assert_eq!(client.clientbound_rx.try_recv(), Ok(Message::Binary(vec![5, 6])));
    assert_eq!(client.clientbound_rx.try_recv(), Ok(Message::Binary(vec![7])));
    assert_eq!(
        io.stats(),
        IoStats { bytes_sent: 3, bytes_received: 4, packets_sent: 2, packets_received: 1 }
    );
    assert_eq!(io.state(), IoState::Connected);
}

#[test]
fn traffic_through_the_io_and_through_its_halves_adds_up() {
    let script = vec![
        Ok(Some((vec![1; 10], client_addr()))),
        Ok(None),
        Ok(Some((vec![2; 1472], client_addr()))),
        Err(Error::RecvChannelClosed),
        Ok(Some((vec![], client_addr()))),
    ];
    let mut io = scripted_io(false, script, None, IoState::Connected);
    assert!(io.send(&[0; 100], &client_addr()).is_ok());
    {
        let (sender, receiver) = io.split();
        assert_eq!(receiver.recv().unwrap().unwrap().0.len(), 10);
        assert!(sender.send(&[], &client_addr()).is_ok());
        assert_eq!(receiver.recv(), Ok(None));
        assert!(sender.send(&[0; 1472], &client_addr()).is_ok());
    }
    assert_eq!(io.recv().unwrap().unwrap().0.len(), 1472);
    {
        let (sender, receiver) = io.split();
        assert_eq!(receiver.recv(), Err(Error::RecvChannelClosed));
        assert!(sender.send(&[9], &client_addr()).is_ok());
        assert_eq!(receiver.recv().unwrap().unwrap().0.len(), 0);
    }
    assert_eq!(
        io.stats(),
        IoStats { bytes_sent: 1573, bytes_received: 1482, packets_sent: 4, packets_received: 3 }
    );
}

#[test]
fn a_failed_send_through_a_half_is_still_counted() {
    let mut io = scripted_io(true, vec![], None, IoState::Connected);
    {
        let (sender, _receiver) = io.split();
        assert_eq!(sender.send(&[1, 2, 3], &client_addr()), Err(Error::SendChannelClosed));
    }
    assert_eq!(io.stats().packets_sent, 1);
    assert_eq!(io.stats().bytes_sent, 3);
}

#[test]
fn halves_tell_whether_they_can_count() {
    let mut io = scripted_io(false, vec![], None, IoState::Connected);
    {
        let (sender, receiver) = io.split();
        assert!(sender.can_count(MTU));
        assert!(sender.can_count(usize::MAX));
        assert!(receiver.can_count());
        assert!(sender.send(&[1], &client_addr()).is_ok());
        assert!(!sender.can_count(usize::MAX));
        assert!(sender.can_count(usize::MAX - 1));
    }
    assert_eq!(io.close(), Ok(()));
    let (sender, receiver) = io.split();
    assert!(sender.can_count(usize::MAX));
    assert!(receiver.can_count());
}

#[test]
fn close_disconnects_and_runs_the_teardown_once() {
    let calls = Rc::new(Cell::new(0));
    let close = CountingClose { calls: calls.clone(), fails: false };
    let mut io = scripted_io(false, vec![], Some(close), IoState::Connected);
    assert_eq!(io.close(), Ok(()));
    assert_eq!(io.state(), IoState::Disconnected);
    assert_eq!(calls.get(), 1);
}

#[test]
fn close_twice_is_close_once() {
    let calls = Rc::new(Cell::new(0));
    let close = CountingClose { calls: calls.clone(), fails: false };
    let mut io = scripted_io(false, vec![], Some(close), IoState::Connected);
    assert!(io.send(&[1, 2], &client_addr()).is_ok());
    assert_eq!(io.close(), Ok(()));
    let stats_after_one = io.stats();
    assert_eq!(io.close(), Ok(()));
    assert_eq!(io.close(), Ok(()));
    assert_eq!(io.state(), IoState::Disconnected);
    assert_eq!(io.stats(), stats_after_one);
    assert_eq!(io.local_addr(), server_addr());
    assert_eq!(calls.get(), 1);
}

#[test]
fn close_hands_on_the_error_of_the_teardown_and_still_disconnects() {
    let calls = Rc::new(Cell::new(0));
    let close = CountingClose { calls: calls.clone(), fails: true };
    let mut io = scripted_io(false, vec![], Some(close), IoState::Connecting);
    assert_eq!(io.close(), Err(Error::Setup("teardown failed".to_string())));
    assert_eq!(io.state(), IoState::Disconnected);
    // the teardown does not run again
    assert_eq!(io.close(), Ok(()));
    assert_eq!(calls.get(), 1);
}

#[test]
fn close_without_teardown_succeeds() {
    let (mut io, _task) = server_io();
    assert_eq!(io.close(), Ok(()));
    assert_eq!(io.state(), IoState::Disconnected);
    assert_eq!(io.close(), Ok(()));
}

#[test]
fn send_and_recv_fail_cleanly_after_close() {
    let (mut io, task) = server_io();
    let mut client = task.peer_connected(client_addr()).unwrap();
    client.inbound.forward(Message::Binary(vec![1]));
    assert_eq!(io.close(), Ok(()));
    assert_eq!(io.send(&[1, 2, 3], &client_addr()), Err(Error::IoClosed));
    assert_eq!(io.recv(), Err(Error::IoClosed));
    // nothing was sent, nothing was counted
    assert_eq!(client.clientbound_rx.try_recv(), Err(TryRecvError::Empty));
    assert_eq!(io.stats(), IoStats::new());
}

#[test]
fn closed_io_does_not_touch_the_transport() {
    let script = vec![Ok(Some((vec![1], client_addr())))];
    let (mut io, record) = recorded_io(false, script, None, IoState::Disconnected);
    assert_eq!(io.send(&[1], &client_addr()), Err(Error::IoClosed));
    assert_eq!(io.recv(), Err(Error::IoClosed));
    {
        let (sender, receiver) = io.split();
        assert_eq!(sender.send(&[1], &client_addr()), Err(Error::IoClosed));
        assert_eq!(receiver.recv(), Err(Error::IoClosed));
    }
    assert!(record.sent.borrow().is_empty());
    assert_eq!(record.polls.get(), 0);
    assert_eq!(io.stats(), IoStats::new());
}

#[test]
fn halves_fail_cleanly_after_close() {
    let (mut io, record) = recorded_io(false, vec![], None, IoState::Connected);
    {
        let (sender, _receiver) = io.split();
        assert_eq!(sender.send(&[1, 2], &client_addr()), Ok(()));
    }
    assert_eq!(io.close(), Ok(()));
    {
        let (sender, receiver) = io.split();
        assert_eq!(sender.send(&[3], &client_addr()), Err(Error::IoClosed));
        assert_eq!(receiver.recv(), Err(Error::IoClosed));
    }
    assert_eq!(record.sent.borrow().len(), 1);
    assert_eq!(record.polls.get(), 0);
    assert_eq!(
        io.stats(),
        IoStats { bytes_sent: 2, bytes_received: 0, packets_sent: 1, packets_received: 0 }
    );
}

#[test]
fn halves_fail_cleanly_once_the_io_task_reports_a_disconnect() {
    let (mut io, record) = recorded_io(false, vec![], None, IoState::Connected);
    io.apply_event(&ClientIoEvent::Disconnected(Error::RecvChannelClosed));
    let (sender, receiver) = io.split();
    assert_eq!(sender.send(&[3], &client_addr()), Err(Error::IoClosed));
    assert_eq!(receiver.recv(), Err(Error::IoClosed));
    assert!(record.sent.borrow().is_empty());
    assert_eq!(record.polls.get(), 0);
}

#[test]
fn sample_reads_and_resets_the_counters() {
    let mut io = scripted_io(false, vec![], None, IoState::Connected);
    assert!(io.send(&[1, 2, 3], &client_addr()).is_ok());
    assert!(io.sample(0).is_none());
    assert_eq!(io.stats().bytes_sent, 3);
    let sample = io.sample(1_000_000_000).unwrap();
    assert_eq!(
        sample.traffic(),
        IoStats { bytes_sent: 3, bytes_received: 0, packets_sent: 1, packets_received: 0 }
    );
    assert_eq!(sample.rates().bytes_out, 3);
    assert_eq!(io.stats(), IoStats::new());
    assert_eq!(io.state(), IoState::Connected);
    // straight after a sample, the next one sees no traffic
    let next = io.sample(1_000_000_000).unwrap();
    assert_eq!(next.rates().bytes_out, 0);
    assert_eq!(next.rates().packets_out, 0);
}

#[test]
fn state_follows_events() {
    assert_eq!(IoState::Connecting.on_event(&ClientIoEvent::Connected), IoState::Connected);
    assert_eq!(IoState::Connected.on_event(&ClientIoEvent::Connected), IoState::Connected);
    assert_eq!(
        IoState::Connecting.on_event(&ClientIoEvent::Disconnected(Error::RecvChannelClosed)),
        IoState::Disconnected
    );
    assert_eq!(
        IoState::Connected.on_event(&ClientIoEvent::Disconnected(Error::RecvChannelClosed)),
        IoState::Disconnected
    );
}

#[test]
fn disconnected_is_final() {
    assert_eq!(IoState::Disconnected.on_event(&ClientIoEvent::Connected), IoState::Disconnected);
    assert_eq!(
        IoState::Disconnected.on_event(&ClientIoEvent::Disconnected(Error::IoClosed)),
        IoState::Disconnected
    );
}

#[test]
fn apply_event_changes_only_the_state() {
    let mut io = scripted_io(false, vec![], None, IoState::Connecting);
    assert!(io.send(&[1], &client_addr()).is_ok());
    io.apply_event(&ClientIoEvent::Connected);
    assert_eq!(io.state(), IoState::Connected);
    assert_eq!(io.stats().packets_sent, 1);
    io.apply_event(&ClientIoEvent::Disconnected(Error::RecvChannelClosed));
    assert_eq!(io.state(), IoState::Disconnected);
    io.apply_event(&ClientIoEvent::Connected);
    assert_eq!(io.state(), IoState::Disconnected);
}

#[test]
fn poll_event_without_io_task_is_empty() {
    let mut io = scripted_io(false, vec![], None, IoState::Connecting);
    assert_eq!(io.poll_event(), Polled::Empty);
    assert_eq!(io.state(), IoState::Connecting);
}

#[test]
fn poll_event_applies_events_in_order() {
    let (tx, rx) = async_channel::unbounded::<ClientIoEvent>();
    let mut io = Io::new(
        server_addr(),
        ScriptedSender { record: Rc::new(Record::default()), fails: false },
        ScriptedReceiver::new(vec![], Rc::new(Record::default())),
        None::<CountingClose>,
        IoState::Connecting,
        Some(ClientIoEventReceiver(rx)),
    );
    assert_eq!(io.poll_event(), Polled::Empty);
    assert_eq!(io.state(), IoState::Connecting);
    tx.try_send(ClientIoEvent::Connected).unwrap();
    tx.try_send(ClientIoEvent::Disconnected(Error::RecvChannelClosed)).unwrap();
    assert_eq!(io.poll_event(), Polled::Item(ClientIoEvent::Connected));
    assert_eq!(io.state(), IoState::Connected);
    assert_eq!(
        io.poll_event(),
        Polled::Item(ClientIoEvent::Disconnected(Error::RecvChannelClosed))
    );
    assert_eq!(io.state(), IoState::Disconnected);
    assert_eq!(io.poll_event(), Polled::Empty);
    drop(tx);
    assert_eq!(io.poll_event(), Polled::Disconnected);
    assert_eq!(io.state(), IoState::Disconnected);
}

#[test]
fn poll_event_on_a_closed_channel_leaves_the_state() {
    let (tx, rx) = async_channel::unbounded::<ClientIoEvent>();
    let mut io = Io::new(
        server_addr(),
        ScriptedSender { record: Rc::new(Record::default()), fails: false },
        ScriptedReceiver::new(vec![], Rc::new(Record::default())),
        None::<CountingClose>,
        IoState::Connected,
        Some(ClientIoEventReceiver(rx)),
    );
    drop(tx);
    assert_eq!(io.poll_event(), Polled::Disconnected);
    assert_eq!(io.state(), IoState::Connected);
}
