use futures::sync::mpsc::{channel, Receiver, Sender};
use futures::{Future, Sink, Stream};
use uarc_emu::{Bus, Data, Fatal};

fn next<T>(receiver: Receiver<T>) -> (Option<T>, Receiver<T>) {
    let mut waiting = receiver.wait();
    let item = waiting.next().map(|r| r.unwrap());
    (item, waiting.into_inner())
}

#[test]
fn send_delivers_the_word() {
    let (tx, rx) = channel::<Data<u32>>(4);
    let mut bus = Bus::new(tx);
    assert_eq!(bus.send(0xCAFE), Ok(()));
    let (item, _rx) = next(rx);
    assert!(matches!(item, Some(Data::Message(0xCAFE))));
}

#[test]
fn sends_arrive_in_the_order_they_were_made() {
    let (tx, rx) = channel::<Data<u8>>(8);
    let mut bus = Bus::new(tx);
    assert_eq!(bus.send(1), Ok(()));
    assert_eq!(bus.msg(Data::Kill), Ok(()));
    assert_eq!(bus.send(3), Ok(()));
    assert_eq!(bus.msg(Data::Incept), Ok(()));
    let (a, rx) = next(rx);
    let (b, rx) = next(rx);
    let (c, rx) = next(rx);
    let (d, _rx) = next(rx);
    assert!(matches!(a, Some(Data::Message(1))));
    assert!(matches!(b, Some(Data::Kill)));
    assert!(matches!(c, Some(Data::Message(3))));
    assert!(matches!(d, Some(Data::Incept)));
}

#[test]
fn stream_delivers_the_receiving_end() {
    let (tx, rx) = channel::<Data<u16>>(4);
    let (mut words, stream) = channel::<u16>(4);
    let mut bus = Bus::new(tx);
    assert_eq!(bus.stream(stream), Ok(()));
    words.try_send(11).unwrap();
    words.try_send(12).unwrap();
    let (item, _rx) = next(rx);
    match item {
        Some(Data::Stream(stream)) => {
            let (first, stream) = next(stream);
            let (second, _stream) = next(stream);
            assert_eq!(first, Some(11));
            assert_eq!(second, Some(12));
        }
        other => panic!("a stream was sent, {:?} arrived", other),
    }
}

#[test]
fn send_to_a_closed_channel_fails() {
    let (tx, rx) = channel::<Data<u32>>(4);
    drop(rx);
    let mut bus = Bus::new(tx);
    assert_eq!(bus.send(1), Err(Fatal::ChannelClosed));
}

#[test]
fn msg_after_a_consumed_sender_fails_every_time() {
    let (tx, rx) = channel::<Data<u32>>(4);
    drop(rx);
    let mut bus = Bus::new(tx);
    // The failed send consumes the handle and does not put it back.
    assert_eq!(bus.msg(Data::Message(1)), Err(Fatal::ChannelClosed));
    assert_eq!(bus.msg(Data::Message(2)), Err(Fatal::SenderMissing));
    assert_eq!(bus.send(3), Err(Fatal::SenderMissing));
    assert_eq!(bus.msg(Data::Kill), Err(Fatal::SenderMissing));
    let (_words, stream) = channel::<u32>(1);
    assert_eq!(bus.stream(stream), Err(Fatal::SenderMissing));
}

#[test]
fn rearm_puts_a_handle_back() {
    let (tx, rx) = channel::<Data<u32>>(4);
    drop(rx);
    let mut bus = Bus::new(tx);
    assert_eq!(bus.send(1), Err(Fatal::ChannelClosed));
    assert_eq!(bus.send(2), Err(Fatal::SenderMissing));
    let (fresh, rx) = channel::<Data<u32>>(4);
    assert_eq!(bus.rearm(Ok(fresh)), Ok(()));
    assert_eq!(bus.send(3), Ok(()));
    let (item, _rx) = next(rx);
    assert!(matches!(item, Some(Data::Message(3))));
}

#[test]
fn rearm_reports_a_failed_send_and_keeps_the_bus_as_it_is() {
    let (dead, gone) = channel::<Data<u32>>(4);
    drop(gone);
    let failed: Result<Sender<Data<u32>>, _> = dead.send(Data::Kill).wait();
    assert!(failed.is_err());

    let (tx, rx) = channel::<Data<u32>>(4);
    let mut bus = Bus::new(tx);
    assert_eq!(bus.rearm(failed), Err(Fatal::ChannelClosed));
    // The bus still holds its own handle.
    assert_eq!(bus.send(9), Ok(()));
    let (item, _rx) = next(rx);
    assert!(matches!(item, Some(Data::Message(9))));
}

#[test]
fn many_sends_reuse_the_handle() {
    let (tx, rx) = channel::<Data<u32>>(64);
    let mut bus = Bus::new(tx);
    for word in 0..50u32 {
        assert_eq!(bus.send(word), Ok(()));
    }
    let mut rx = rx;
    for word in 0..50u32 {
        let (item, rest) = next(rx);
        rx = rest;
        match item {
            Some(Data::Message(got)) => assert_eq!(got, word),
            other => panic!("word {} was sent, {:?} arrived", word, other),
        }
    }
}

#[test]
fn fault_messages() {
    assert_eq!(Fatal::SenderMissing.message(), "error: uarc-emu::Bus::sender in invalid state");
    assert_eq!(Fatal::ChannelClosed.message(), "error: uarc-emu::Bus::msg() failed to send word");
    assert_eq!(
        Fatal::PeerOverflow.message(),
        "error: uarc-emu::Uarc::poll_inception() peer index out of range"
    );
    assert_ne!(Fatal::SenderMissing, Fatal::ChannelClosed);
    assert_ne!(Fatal::ChannelClosed, Fatal::PeerOverflow);
}
