use futures::sync::mpsc::unbounded;
use futures::Stream;
use simple_http_radio::delivery::ChannelSink;

#[test]
fn chunks_arrive_in_order_then_stream_ends() {
    let (tx, rx) = unbounded::<Vec<u8>>();
    let mut sink = ChannelSink::new(tx);
    let chunks: Vec<Vec<u8>> = vec![b"one".to_vec(), Vec::new(), b"three".to_vec(), vec![4u8; 1000]];
    for c in chunks.iter() {
        assert!(sink.forward(c));
    }
    assert!(sink.is_active());
    drop(sink);
    let received: Vec<Vec<u8>> = rx.wait().map(|r| r.unwrap()).collect();
    assert_eq!(received, chunks);
}

#[test]
fn send_after_consumer_dropped_fails_and_deactivates() {
    let (tx, rx) = unbounded::<Vec<u8>>();
    let mut sink = ChannelSink::new(tx);
    drop(rx);
    assert!(!sink.forward(b"late"));
    assert!(!sink.is_active());
    assert!(!sink.forward(b"later"));
    assert!(!sink.is_active());
}

#[test]
fn inactive_sink_sends_nothing_more() {
    let (tx, rx) = unbounded::<Vec<u8>>();
    let probe = tx.clone();
    let mut sink = ChannelSink::new(tx);
    assert!(sink.forward(b"a"));
    drop(rx);
    assert!(!sink.forward(b"b"));
    assert!(!sink.is_active());
    drop(probe);
}
