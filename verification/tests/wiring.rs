use futures::sync::mpsc::{channel, Receiver, Sender};
use futures::Stream;
use uarc_emu::{Data, Fatal, InBus, Lane, OutBus, Permission, Transport};

type Tx = Sender<Transport<u32>>;
type Rx = Receiver<Transport<u32>>;

fn signal(bus: u32, data: Data<u32>) -> Transport<u32> {
    Transport { bus, permission: Permission { ownership: 0xF0, network: 0x10 }, data }
}

/// Wires `peers` links from a fresh output bus into a fresh input bus.
fn pair(peers: usize) -> (OutBus<u32>, InBus<u32>) {
    let mut output = OutBus::new();
    let mut input = InBus::new();
    for expected in 0..peers {
        let (it, ir): (Tx, Rx) = channel(4);
        let (kt, kr): (Tx, Rx) = channel(4);
        let (mt, mr): (Tx, Rx) = channel(4);
        let (st, sr): (Tx, Rx) = channel(4);
        assert_eq!(output.connect(it, kt, mt, st), expected);
        assert_eq!(input.connect(ir, kr, mr, sr), expected);
    }
    (output, input)
}

const LANES: [Lane; 4] = [Lane::Inception, Lane::Kill, Lane::Message, Lane::Stream];

#[test]
fn new_buses_have_no_peer() {
    let input: InBus<u32> = InBus::new();
    let output: OutBus<u32> = OutBus::new();
    assert_eq!(input.peer_count(), 0);
    assert_eq!(output.peer_count(), 0);
}

#[test]
fn connect_gives_each_peer_the_next_index() {
    let mut input: InBus<u32> = InBus::new();
    let mut output: OutBus<u32> = OutBus::new();
    for expected in 0..5usize {
        let (it, ir): (Tx, Rx) = channel(4);
        let (kt, kr): (Tx, Rx) = channel(4);
        let (mt, mr): (Tx, Rx) = channel(4);
        let (st, sr): (Tx, Rx) = channel(4);
        assert_eq!(input.connect(ir, kr, mr, sr), expected);
        assert_eq!(output.connect(it, kt, mt, st), expected);
        assert_eq!(input.peer_count(), expected + 1);
        assert_eq!(output.peer_count(), expected + 1);
    }
}

#[test]
fn a_fresh_link_has_nothing_pending_on_any_lane() {
    let (_output, mut input) = pair(3);
    for peer in 0..3 {
        for lane in LANES {
            assert!(input.poll(lane, peer).is_none());
        }
    }
}

#[test]
fn payloads_travel_on_the_lane_of_their_kind() {
    assert_eq!(Data::<u32>::Incept.lane(), Lane::Inception);
    assert_eq!(Data::<u32>::Kill.lane(), Lane::Kill);
    assert_eq!(Data::Message(5u32).lane(), Lane::Message);
    let (_words, stream) = channel::<u32>(1);
    assert_eq!(Data::Stream(stream).lane(), Lane::Stream);
}

#[test]
fn msg_reaches_the_slot_of_the_peer_on_the_lane_of_the_payload() {
    let (mut output, mut input) = pair(3);
    assert_eq!(output.msg(1, signal(7, Data::Kill)), Ok(()));
    assert_eq!(output.msg(2, signal(8, Data::Message(0xBEEF))), Ok(()));
    assert_eq!(output.msg(0, signal(9, Data::Incept)), Ok(()));
    let (mut words, stream) = channel::<u32>(2);
    assert_eq!(output.msg(1, signal(10, Data::Stream(stream))), Ok(()));
    words.try_send(31).unwrap();

    // Nothing arrived anywhere else.
    for (lane, peer) in [
        (Lane::Inception, 1),
        (Lane::Inception, 2),
        (Lane::Kill, 0),
        (Lane::Kill, 2),
        (Lane::Message, 0),
        (Lane::Message, 1),
        (Lane::Stream, 0),
        (Lane::Stream, 2),
    ] {
        assert!(input.poll(lane, peer).is_none());
    }

    let kill = input.poll(Lane::Kill, 1).unwrap();
    assert_eq!(kill.bus, 7);
    assert_eq!(kill.permission, Permission { ownership: 0xF0, network: 0x10 });
    assert!(matches!(kill.data, Data::Kill));

    let message = input.poll(Lane::Message, 2).unwrap();
    assert_eq!(message.bus, 8);
    assert!(matches!(message.data, Data::Message(0xBEEF)));

    let inception = input.poll(Lane::Inception, 0).unwrap();
    assert_eq!(inception.bus, 9);
    assert!(matches!(inception.data, Data::Incept));

    let stream = input.poll(Lane::Stream, 1).unwrap();
    assert_eq!(stream.bus, 10);
    match stream.data {
        Data::Stream(receiver) => {
            assert_eq!(receiver.wait().next(), Some(Ok(31)));
        }
        other => panic!("a stream was sent, {:?} arrived", other),
    }

    // Each signal was taken once.
    assert!(input.poll(Lane::Kill, 1).is_none());
    assert!(input.poll(Lane::Message, 2).is_none());
    assert!(input.poll(Lane::Inception, 0).is_none());
    assert!(input.poll(Lane::Stream, 1).is_none());
}

#[test]
fn poll_yields_the_signals_of_one_channel_oldest_first() {
    let (mut output, mut input) = pair(2);
    for word in [3u32, 1, 2] {
        assert_eq!(output.msg(1, signal(0, Data::Message(word))), Ok(()));
    }
    for word in [3u32, 1, 2] {
        match input.poll(Lane::Message, 1) {
            Some(Transport { data: Data::Message(got), .. }) => assert_eq!(got, word),
            other => panic!("word {} was sent, {:?} arrived", word, other),
        }
    }
    assert!(input.poll(Lane::Message, 1).is_none());
    assert!(input.poll(Lane::Message, 0).is_none());
}

#[test]
fn poll_of_a_closed_channel_yields_what_is_left_and_then_nothing() {
    let (mut output, mut input) = pair(1);
    assert_eq!(output.msg(0, signal(1, Data::Kill)), Ok(()));
    drop(output);
    assert!(matches!(input.poll(Lane::Kill, 0), Some(Transport { bus: 1, .. })));
    assert!(input.poll(Lane::Kill, 0).is_none());
    assert!(input.poll(Lane::Kill, 0).is_none());
}

#[test]
fn msg_to_a_closed_channel_fails_and_costs_that_slot_its_handle() {
    let mut output: OutBus<u32> = OutBus::new();
    let (it, _ir): (Tx, Rx) = channel(4);
    let (kt, kr): (Tx, Rx) = channel(4);
    let (mt, mr): (Tx, Rx) = channel(4);
    let (st, _sr): (Tx, Rx) = channel(4);
    assert_eq!(output.connect(it, kt, mt, st), 0);
    drop(kr);
    assert_eq!(output.msg(0, signal(0, Data::Kill)), Err(Fatal::ChannelClosed));
    assert_eq!(output.msg(0, signal(0, Data::Kill)), Err(Fatal::SenderMissing));
    assert_eq!(output.msg(0, signal(0, Data::Kill)), Err(Fatal::SenderMissing));
    // The other lanes of the link still hold their handles.
    assert_eq!(output.msg(0, signal(0, Data::Message(1))), Ok(()));
    assert_eq!(output.msg(0, signal(0, Data::Incept)), Ok(()));
    drop(mr);
    assert_eq!(output.msg(0, signal(0, Data::Message(2))), Err(Fatal::ChannelClosed));
    assert_eq!(output.msg(0, signal(0, Data::Message(3))), Err(Fatal::SenderMissing));
    assert_eq!(output.msg(0, signal(0, Data::Incept)), Ok(()));
}

#[test]
fn a_lost_handle_on_one_link_leaves_the_other_links_whole() {
    let (mut output, input) = pair(1);
    let (it, ir): (Tx, Rx) = channel(4);
    let (kt, kr): (Tx, Rx) = channel(4);
    let (mt, mr): (Tx, Rx) = channel(4);
    let (st, sr): (Tx, Rx) = channel(4);
    assert_eq!(output.connect(it, kt, mt, st), 1);
    drop(input);
    assert_eq!(output.msg(0, signal(0, Data::Kill)), Err(Fatal::ChannelClosed));
    assert_eq!(output.msg(0, signal(0, Data::Kill)), Err(Fatal::SenderMissing));
    assert_eq!(output.msg(1, signal(5, Data::Kill)), Ok(()));
    let mut other: InBus<u32> = InBus::new();
    assert_eq!(other.connect(ir, kr, mr, sr), 0);
    assert!(matches!(other.poll(Lane::Kill, 0), Some(Transport { bus: 5, .. })));
}
