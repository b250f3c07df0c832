use bytes::Bytes;
use http_stream_proxy::pump::{Pump, PumpStep, StopReason, TranscoderEvent, UpstreamEvent};
use http_stream_proxy::relay::{relay_step, RelayEvent, RelayStep};

const SECOND: u128 = 1_000_000_000;

fn chunk() -> UpstreamEvent {
    UpstreamEvent::Chunk(Bytes::from_static(&[1, 2, 3]))
}

fn stopped(step: PumpStep) -> Option<StopReason> {
    match step {
        PumpStep::Stop(reason) => Some(reason),
        PumpStep::Broadcast(_) => None,
    }
}

#[test]
fn chunks_reach_listeners_unchanged() {
    let p = Pump::new(false, 8);
    match p.on_upstream(chunk(), 1, 100 * SECOND) {
        PumpStep::Broadcast(bytes) => assert_eq!(bytes, vec![1, 2, 3]),
        PumpStep::Stop(reason) => panic!("{:?}", reason),
    }
}

#[test]
fn stream_stops_without_listeners() {
    let p = Pump::new(false, 8);
    assert_eq!(stopped(p.on_upstream(chunk(), 0, 0)), Some(StopReason::NoSubscribers));
}

#[test]
fn prewarmed_stream_waits() {
    let p = Pump::new(true, 8);
    assert_eq!(stopped(p.on_upstream(chunk(), 0, 8 * SECOND - 1)), None);
    assert_eq!(stopped(p.on_upstream(chunk(), 0, 8 * SECOND)), Some(StopReason::NoSubscribers));
    let p = Pump::new(true, 0);
    assert!(p.keeps_going(0, SECOND - 1));
    assert!(!p.keeps_going(0, SECOND));
}

#[test]
fn upstream_stops() {
    let p = Pump::new(true, 8);
    assert_eq!(
        stopped(p.on_upstream(UpstreamEvent::Cancelled, 1, 0)),
        Some(StopReason::Cancelled)
    );
    assert_eq!(stopped(p.on_upstream(UpstreamEvent::Failed, 1, 0)), Some(StopReason::Failed));
    assert_eq!(stopped(p.on_upstream(UpstreamEvent::Ended, 1, 0)), Some(StopReason::Ended));
}

#[test]
fn transcoder_output_is_copied() {
    let p = Pump::new(false, 8);
    let buffer = vec![9, 8, 7, 6];
    match p.on_transcoder(TranscoderEvent::Read(3), &buffer, 2, 0) {
        PumpStep::Broadcast(bytes) => assert_eq!(bytes, vec![9, 8, 7]),
        PumpStep::Stop(reason) => panic!("{:?}", reason),
    }
}

#[test]
fn transcoder_stops() {
    let p = Pump::new(false, 8);
    let b = vec![0; 4];
    let stop = |event, subscribers| stopped(p.on_transcoder(event, &b, subscribers, 0));
    assert_eq!(stop(TranscoderEvent::Read(0), 1), Some(StopReason::Ended));
    assert_eq!(stop(TranscoderEvent::Read(4), 0), Some(StopReason::NoSubscribers));
    assert_eq!(stop(TranscoderEvent::Cancelled, 1), Some(StopReason::Cancelled));
    assert_eq!(stop(TranscoderEvent::Failed, 1), Some(StopReason::Failed));
}

#[test]
fn consumers_pass_over_gaps() {
    assert!(matches!(relay_step(RelayEvent::Item(5)), RelayStep::Yield(5)));
    assert!(matches!(relay_step::<u8>(RelayEvent::Lagged), RelayStep::Skip));
    assert!(matches!(relay_step::<u8>(RelayEvent::Closed), RelayStep::End));
}

#[test]
fn consumer_receives_both_streams_in_order() {
    let mut seen: Vec<Bytes> = Vec::new();
    let first = Pump::new(false, 8);
    let second = Pump::new(true, 8);
    for (pump, byte) in [(&first, 1u8), (&first, 2), (&second, 3), (&second, 4)] {
        let event = UpstreamEvent::Chunk(Bytes::copy_from_slice(&[byte]));
        match pump.on_upstream(event, 1, 60 * SECOND) {
            PumpStep::Broadcast(bytes) => match relay_step(RelayEvent::Item(bytes)) {
                RelayStep::Yield(bytes) => seen.push(bytes),
                _ => panic!("item was not handed on"),
            },
            PumpStep::Stop(reason) => panic!("{:?}", reason),
        }
    }
    assert_eq!(seen.concat(), vec![1, 2, 3, 4]);
}
