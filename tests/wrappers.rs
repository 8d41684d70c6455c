use sink_test_utils::{test_channel, FlushOp, Intercept, PollOp, Polled, Script, SendOp, TestSink, TestStream};

#[test]
fn send_script_exhaustion_reverts_to_delegate() {
    let ch = test_channel::<u32, u32, u32>(10);
    let mut sink = TestSink::new(ch, vec![SendOp::NotReady, SendOp::Fail(9), SendOp::Delegate], vec![]);
    let mut accepted = Vec::new();
    for x in 0..6u32 {
        match sink.intercept_send(x) {
            Intercept::Delegate(item) => {
                assert!(sink.get_mut().offer(Ok(item), 0).is_ok());
                accepted.push(item);
            }
            Intercept::NotReady(item) => assert_eq!(item, 0),
            Intercept::Fail(e) => {
                assert_eq!(x, 1);
                assert_eq!(e, 9);
            }
        }
    }
    // every send past the script went through, as on the bare channel
    assert_eq!(accepted, vec![2, 3, 4, 5]);
    assert_eq!(sink.get_ref().len(), 4);
}

#[test]
fn flush_script_is_followed_then_delegates() {
    let ch = test_channel::<u32, u32, u32>(1);
    let mut sink = TestSink::new(ch, vec![], vec![FlushOp::Fail(3), FlushOp::NotReady]);
    assert!(matches!(sink.intercept_flush(), Intercept::Fail(3)));
    assert!(matches!(sink.intercept_flush(), Intercept::NotReady(())));
    assert!(matches!(sink.intercept_flush(), Intercept::Delegate(())));
    assert!(matches!(sink.intercept_send(1u8), Intercept::Delegate(1)));
}

#[test]
fn replacing_scripts_affects_later_calls_only() {
    let mut sink = TestSink::new(0u8, vec![SendOp::<u8>::Delegate], vec![FlushOp::Delegate]);
    assert!(matches!(sink.intercept_send('a'), Intercept::Delegate('a')));
    sink.set_send_ops(vec![SendOp::NotReady]);
    sink.set_flush_ops(vec![FlushOp::Fail(2)]);
    assert!(matches!(sink.intercept_send('b'), Intercept::NotReady('b')));
    assert!(matches!(sink.intercept_send('c'), Intercept::Delegate('c')));
    assert!(matches!(sink.intercept_flush(), Intercept::Fail(2)));
    *sink.get_mut() = 5;
    assert_eq!(sink.into_inner(), 5);
}

#[test]
fn poll_script_on_stream() {
    let mut ch = test_channel::<u32, u32, u32>(2);
    assert!(ch.offer(Ok(1), 0).is_ok());
    let mut stream = TestStream::new(ch, vec![PollOp::NotReady, PollOp::Fail(6), PollOp::Delegate]);
    assert!(matches!(stream.intercept_poll(), Intercept::NotReady(())));
    assert!(matches!(stream.intercept_poll(), Intercept::Fail(6)));
    assert!(matches!(stream.intercept_poll(), Intercept::Delegate(())));
    assert!(matches!(stream.get_mut().poll_next(0).0, Polled::Item(1)));
    stream.set_poll_ops(vec![PollOp::NotReady]);
    assert!(matches!(stream.intercept_poll(), Intercept::NotReady(())));
    assert!(matches!(stream.intercept_poll(), Intercept::Delegate(())));
    assert_eq!(stream.get_ref().len(), 0);
    assert_eq!(stream.into_inner().capacity(), 2);
}

#[test]
fn script_hands_out_entries_then_none() {
    let mut s = Script::new(vec![1u8, 2]);
    assert_eq!(s.remaining(), 2);
    assert_eq!(s.next(), Some(1));
    assert_eq!(s.next(), Some(2));
    assert_eq!(s.next(), None);
    assert_eq!(s.next(), None);
    assert_eq!(s.remaining(), 0);
}

#[test]
fn directive_values_compare() {
    assert_eq!(SendOp::<u8>::Fail(1), SendOp::Fail(1));
    assert_ne!(FlushOp::<u8>::Delegate, FlushOp::NotReady);
    assert_eq!(PollOp::<u8>::NotReady.clone(), PollOp::NotReady);
}

#[test]
fn generated_directives_stall_one_in_four() {
    assert_eq!(SendOp::<u8>::from_random_byte(0), SendOp::NotReady);
    assert_eq!(SendOp::<u8>::from_random_byte(63), SendOp::NotReady);
    assert_eq!(SendOp::<u8>::from_random_byte(64), SendOp::Delegate);
    assert_eq!(FlushOp::<u8>::from_random_byte(10), FlushOp::NotReady);
    assert_eq!(FlushOp::<u8>::from_random_byte(255), FlushOp::Delegate);
    assert_eq!(PollOp::<u8>::from_random_byte(63), PollOp::NotReady);
    assert_eq!(PollOp::<u8>::from_random_byte(200), PollOp::Delegate);
    let stalls = (0..=255u8).filter(|&b| SendOp::<u8>::from_random_byte(b) == SendOp::NotReady).count();
    assert_eq!(stalls, 64);
}

#[test]
fn setters_chain() {
    let mut sink = TestSink::new(1u8, vec![SendOp::<u8>::Delegate], vec![FlushOp::Delegate]);
    sink.set_send_ops(vec![SendOp::Fail(4)]).set_flush_ops(vec![FlushOp::NotReady]);
    assert!(matches!(sink.intercept_send(()), Intercept::Fail(4)));
    assert!(matches!(sink.intercept_flush(), Intercept::NotReady(())));
    assert_eq!(*sink.get_ref(), 1);

    let mut stream = TestStream::new(2u8, vec![PollOp::<u8>::Delegate]);
    assert_eq!(*stream.set_poll_ops(vec![PollOp::Fail(7)]).get_ref(), 2);
    assert!(matches!(stream.intercept_poll(), Intercept::Fail(7)));
}
