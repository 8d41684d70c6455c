use sink_test_utils::{
    test_channel, ChannelCore, Close, ConsumerCall, Forward, ForwardAction, ForwardEvent, ForwardPhase, Offered, Polled,
    Progress, SendClose, SendClosePhase, Status,
};

type Chan = ChannelCore<u32, u32, u32>;

fn offer_to(ch: &mut Chan, x: u32) -> Offered<u32, u32> {
    match ch.offer(Ok(x), 0) {
        Ok(_) => Offered::Accepted,
        Err(Ok(back)) => Offered::Rejected(back),
        Err(Err(e)) => Offered::Failed(e),
    }
}

/// Runs one poll of the forward machine; `true` when it completed.
fn forward_poll(fw: &mut Forward<u32>, producer: &[u32], next: &mut usize, ch: &mut Chan) -> bool {
    let mut ev = ForwardEvent::Resume;
    loop {
        match fw.step(ev) {
            ForwardAction::PollProducer => {
                ev = ForwardEvent::Polled(if *next < producer.len() {
                    *next += 1;
                    Polled::Item(producer[*next - 1])
                } else {
                    Polled::End
                });
            }
            ForwardAction::Offer(x) => ev = ForwardEvent::Offered(offer_to(ch, x)),
            ForwardAction::Flush => ev = ForwardEvent::Flushed(Status::Ready),
            ForwardAction::Suspend => return false,
            ForwardAction::Complete => return true,
            ForwardAction::Fail(_) => panic!("no side fails here"),
        }
    }
}

#[test]
fn forward_into_capacity_one_without_close() {
    let mut ch = test_channel::<u32, u32, u32>(1);
    let producer = [1u32, 2, 3];
    let mut next = 0usize;
    let mut fw = Forward::new();
    let mut got = Vec::new();
    let mut suspensions = 0;
    while !forward_poll(&mut fw, &producer, &mut next, &mut ch) {
        suspensions += 1;
        assert!(fw.has_buffered());
        if let Polled::Item(x) = ch.poll_next(1).0 {
            got.push(x);
        }
    }
    assert_eq!(fw.phase(), ForwardPhase::Finished);
    loop {
        match ch.poll_next(1).0 {
            Polled::Item(x) => got.push(x),
            Polled::Pending => break,
            _ => panic!("the channel must stay open"),
        }
    }
    assert_eq!(got, vec![1, 2, 3]);
    assert!(suspensions >= 2);
    assert!(!ch.is_closed());
}

#[test]
fn forward_flushes_when_producer_stalls() {
    let mut fw: Forward<u32> = Forward::new();
    assert!(matches!(fw.step::<u32>(ForwardEvent::Resume), ForwardAction::PollProducer));
    assert!(matches!(fw.step::<u32>(ForwardEvent::Polled(Polled::Pending)), ForwardAction::Flush));
    assert!(matches!(fw.step::<u32>(ForwardEvent::Flushed(Status::Pending)), ForwardAction::Suspend));
    assert_eq!(fw.phase(), ForwardPhase::Idle);
    assert!(matches!(fw.step::<u32>(ForwardEvent::Resume), ForwardAction::PollProducer));
    assert!(matches!(fw.step::<u32>(ForwardEvent::Polled(Polled::Pending)), ForwardAction::Flush));
    assert!(matches!(fw.step(ForwardEvent::Flushed(Status::Failed(8u32))), ForwardAction::Fail(8)));
    assert_eq!(fw.phase(), ForwardPhase::Finished);
}

#[test]
fn forward_propagates_errors() {
    let mut fw: Forward<u32> = Forward::new();
    assert!(matches!(fw.step::<u32>(ForwardEvent::Resume), ForwardAction::PollProducer));
    assert!(matches!(fw.step(ForwardEvent::Polled(Polled::Failed(3u32))), ForwardAction::Fail(3)));

    let mut fw: Forward<u32> = Forward::new();
    assert!(matches!(fw.step::<u32>(ForwardEvent::Resume), ForwardAction::PollProducer));
    assert!(matches!(fw.step::<u32>(ForwardEvent::Polled(Polled::Item(5))), ForwardAction::Offer(5)));
    assert!(matches!(fw.step(ForwardEvent::Offered(Offered::Failed(4u32))), ForwardAction::Fail(4)));
    assert_eq!(fw.phase(), ForwardPhase::Finished);
}

#[test]
fn forward_retries_buffered_item_before_polling() {
    let mut fw: Forward<u32> = Forward::new();
    assert!(matches!(fw.step::<u32>(ForwardEvent::Resume), ForwardAction::PollProducer));
    assert!(matches!(fw.step::<u32>(ForwardEvent::Polled(Polled::Item(7))), ForwardAction::Offer(7)));
    assert!(matches!(fw.step::<u32>(ForwardEvent::Offered(Offered::Rejected(7))), ForwardAction::Suspend));
    assert!(fw.has_buffered());
    assert!(matches!(fw.step::<u32>(ForwardEvent::Resume), ForwardAction::Offer(7)));
    assert!(!fw.has_buffered());
    assert!(matches!(fw.step::<u32>(ForwardEvent::Offered(Offered::Accepted)), ForwardAction::PollProducer));
    assert!(matches!(fw.step::<u32>(ForwardEvent::Polled(Polled::End)), ForwardAction::Complete));
}

fn drive_send_close(sc: &mut SendClose<Chan, u32>) -> Progress<Chan, u32> {
    loop {
        let progress = match sc.next_call() {
            ConsumerCall::Offer(x) => {
                let ev = offer_to(sc.get_mut(), x);
                sc.on_offer(ev)
            }
            ConsumerCall::Flush => sc.on_status(Status::Ready),
            ConsumerCall::Close => {
                sc.get_mut().close();
                sc.on_status(Status::Ready)
            }
        };
        if !matches!(progress, Progress::Continue) {
            return progress;
        }
    }
}

#[test]
fn send_then_close_delivers_item_then_end() {
    let ch = test_channel::<u32, u32, u32>(1);
    let mut sc = SendClose::new(ch, 42);
    let mut ch = match drive_send_close(&mut sc) {
        Progress::Done(ch) => ch,
        _ => panic!("send-then-close must finish on a fresh channel"),
    };
    assert_eq!(sc.phase_now(), SendClosePhase::Finished);
    assert!(ch.is_closed());
    assert!(matches!(ch.poll_next(1).0, Polled::Item(42)));
    assert!(matches!(ch.poll_next(1).0, Polled::End));
}

#[test]
fn send_then_close_waits_on_full_channel() {
    let mut ch = test_channel::<u32, u32, u32>(1);
    assert!(ch.offer(Ok(1), 0).is_ok());
    let mut sc = SendClose::new(ch, 2);
    assert!(matches!(drive_send_close(&mut sc), Progress::Pending));
    assert_eq!(sc.phase_now(), SendClosePhase::Offering);
    assert!(matches!(sc.get_mut().poll_next(1).0, Polled::Item(1)));
    let mut ch = match drive_send_close(&mut sc) {
        Progress::Done(ch) => ch,
        _ => panic!("the second attempt must finish"),
    };
    assert!(matches!(ch.poll_next(1).0, Polled::Item(2)));
    assert!(matches!(ch.poll_next(1).0, Polled::End));
}

#[test]
fn send_then_close_stops_at_first_failure() {
    let mut sc = SendClose::new(0u8, 'x');
    assert!(matches!(sc.next_call(), ConsumerCall::Offer('x')));
    assert!(matches!(sc.on_offer::<u32>(Offered::Accepted), Progress::Continue));
    assert!(matches!(sc.next_call(), ConsumerCall::Flush));
    assert!(matches!(sc.on_status::<u32>(Status::Pending), Progress::Pending));
    assert!(matches!(sc.next_call(), ConsumerCall::Flush));
    assert!(matches!(sc.on_status(Status::Failed(6u32)), Progress::Failed(6)));
    assert_eq!(sc.phase_now(), SendClosePhase::Finished);
}

#[test]
fn close_retries_until_complete() {
    let mut c = Close::new(test_channel::<u32, u32, u32>(1));
    assert!(!c.is_terminated());
    assert!(matches!(c.on_close::<u32>(Status::Pending), Progress::Pending));
    assert!(!c.is_terminated());
    c.get_mut().close();
    assert!(c.get_ref().is_closed());
    match c.on_close::<u32>(Status::Ready) {
        Progress::Done(ch) => assert!(ch.is_closed()),
        _ => panic!("close completes on Ready"),
    }
    assert!(c.is_terminated());
}

#[test]
fn close_failure_ends_the_future() {
    let mut c = Close::new(5u8);
    assert!(matches!(c.on_close(Status::Failed(9u32)), Progress::Failed(9)));
    assert!(c.is_terminated());
}
