//! Moving an upstream's data to its consumers, one step at a time, and when to stop.
use bytes::Bytes;
use vstd::prelude::*;

use crate::http;

verus! {

/// What the upstream of a passed-through stream did next.
pub enum UpstreamEvent {
    /// Another channel took over.
    Cancelled,
    Chunk(Bytes),
    Failed,
    Ended,
}

/// What the transcoder did next.
#[derive(Debug, Clone, Copy)]
pub enum TranscoderEvent {
    /// Another channel took over.
    Cancelled,
    /// So many bytes of the read buffer were filled.
    Read(usize),
    Failed,
}

/// Why a stream stops.
#[derive(Debug, Clone, Copy, PartialEq, Eq, Structural)]
pub enum StopReason {
    Cancelled,
    NoSubscribers,
    Failed,
    Ended,
}

/// What to do about an event.
pub enum PumpStep {
    Broadcast(Bytes),
    Stop(StopReason),
}

/// What a source of data, of either kind, did next.
pub enum SourceEvent {
    Cancelled,
    Data(Seq<u8>),
    Failed,
    Ended,
}

/// What to do about it.
pub enum SourceStep {
    Broadcast(Seq<u8>),
    Stop(StopReason),
}

impl View for UpstreamEvent {
    type V = SourceEvent;

    open spec fn view(&self) -> SourceEvent {
        match *self {
            UpstreamEvent::Cancelled => SourceEvent::Cancelled,
            UpstreamEvent::Chunk(bytes) => SourceEvent::Data(http::bytes_held(bytes)),
            UpstreamEvent::Failed => SourceEvent::Failed,
            UpstreamEvent::Ended => SourceEvent::Ended,
        }
    }
}

impl View for PumpStep {
    type V = SourceStep;

    open spec fn view(&self) -> SourceStep {
        match *self {
            PumpStep::Broadcast(bytes) => SourceStep::Broadcast(http::bytes_held(bytes)),
            PumpStep::Stop(reason) => SourceStep::Stop(reason),
        }
    }
}

impl TranscoderEvent {
    /// What the transcoder did, with its read buffer. A read of nothing is the end of its output.
    pub open spec fn with_buffer(self, buffer: Seq<u8>) -> SourceEvent {
        match self {
            TranscoderEvent::Cancelled => SourceEvent::Cancelled,
            TranscoderEvent::Read(n) => if n == 0 {
                SourceEvent::Ended
            } else {
                SourceEvent::Data(buffer.take(n as int))
            },
            TranscoderEvent::Failed => SourceEvent::Failed,
        }
    }
}

/// How long a stream may run without consumers.
pub struct Pump {
    /// The stream was started before anyone asked for it.
    pub prewarm: bool,
    /// For how many seconds a prewarmed stream waits for its first consumer.
    pub keepalive_secs: u64,
}

/// How a stream is pumped: a prewarmed one waits for at least a second.
pub open spec fn pump_for(prewarm: bool, keepalive_secs: u64) -> Pump {
    Pump {
        prewarm,
        keepalive_secs: if keepalive_secs < 1 {
            1
        } else {
            keepalive_secs
        },
    }
}

impl Pump {
    /// A prewarmed stream is still waiting for consumers.
    pub open spec fn waiting(self, elapsed_nanos: u128) -> bool {
        self.prewarm && elapsed_nanos < self.keepalive_secs * 1_000_000_000
    }

    /// Data that arrives now is passed on.
    pub open spec fn passes_on(self, subscribers: usize, elapsed_nanos: u128) -> bool {
        subscribers > 0 || self.waiting(elapsed_nanos)
    }

    /// What a stream does about an event.
    pub open spec fn step(
        self,
        event: SourceEvent,
        subscribers: usize,
        elapsed_nanos: u128,
    ) -> SourceStep {
        match event {
            SourceEvent::Cancelled => SourceStep::Stop(StopReason::Cancelled),
            SourceEvent::Data(data) => if self.passes_on(subscribers, elapsed_nanos) {
                SourceStep::Broadcast(data)
            } else {
                SourceStep::Stop(StopReason::NoSubscribers)
            },
            SourceEvent::Failed => SourceStep::Stop(StopReason::Failed),
            SourceEvent::Ended => SourceStep::Stop(StopReason::Ended),
        }
    }

    /// The rules of a stream: a prewarmed one waits for at least a second.
    pub fn new(prewarm: bool, keepalive_secs: u64) -> (r: Self)
        ensures
            r == pump_for(prewarm, keepalive_secs),
            r.prewarm == prewarm,
            r.keepalive_secs >= 1,
            keepalive_secs >= 1 ==> r.keepalive_secs == keepalive_secs,
            keepalive_secs == 0 ==> r.keepalive_secs == 1,
    {
        Pump {
            prewarm,
            keepalive_secs: if keepalive_secs < 1 {
                1
            } else {
                keepalive_secs
            },
        }
    }

    /// Whether data that arrives `elapsed_nanos` after the start, with so many consumers, is
    /// passed on.
    pub fn keeps_going(&self, subscribers: usize, elapsed_nanos: u128) -> (r: bool)
        ensures
            r == self.passes_on(subscribers, elapsed_nanos),
            subscribers > 0 ==> r,
            subscribers == 0 ==> (r <==> self.prewarm && elapsed_nanos < self.keepalive_secs
                * 1_000_000_000),
    {
        subscribers > 0 || (self.prewarm && elapsed_nanos < self.keepalive_secs as u128
            * 1_000_000_000u128)
    }

    /// What a passed-through stream does about an event. A chunk is broadcast as it is.
    pub fn on_upstream(
        &self,
        event: UpstreamEvent,
        subscribers: usize,
        elapsed_nanos: u128,
    ) -> (r: PumpStep)
        ensures
            r@ == self.step(event@, subscribers, elapsed_nanos),
            r matches PumpStep::Broadcast(bytes) ==> event == UpstreamEvent::Chunk(bytes),
            subscribers > 0 ==> (event matches UpstreamEvent::Chunk(bytes) ==> r
                == PumpStep::Broadcast(bytes)),
            event is Cancelled ==> r == PumpStep::Stop(StopReason::Cancelled),
            event is Failed ==> r == PumpStep::Stop(StopReason::Failed),
            event is Ended ==> r == PumpStep::Stop(StopReason::Ended),
    {
        match event {
            UpstreamEvent::Cancelled => PumpStep::Stop(StopReason::Cancelled),
            UpstreamEvent::Chunk(bytes) => {
                if self.keeps_going(subscribers, elapsed_nanos) {
                    PumpStep::Broadcast(bytes)
                } else {
                    PumpStep::Stop(StopReason::NoSubscribers)
                }
            },
            UpstreamEvent::Failed => PumpStep::Stop(StopReason::Failed),
            UpstreamEvent::Ended => PumpStep::Stop(StopReason::Ended),
        }
    }

    /// What a transcoded stream does about an event. What was read is broadcast.
    pub fn on_transcoder(
        &self,
        event: TranscoderEvent,
        buffer: &[u8],
        subscribers: usize,
        elapsed_nanos: u128,
    ) -> (r: PumpStep)
        requires
            event matches TranscoderEvent::Read(n) ==> n <= buffer@.len(),
        ensures
            r@ == self.step(event.with_buffer(buffer@), subscribers, elapsed_nanos),
            event matches TranscoderEvent::Read(n) ==> n > 0 && subscribers > 0
                ==> r is Broadcast,
            r matches PumpStep::Broadcast(bytes) ==> {
                &&& event matches TranscoderEvent::Read(n)
                &&& n > 0
                &&& http::bytes_held(bytes).len() == n
                &&& forall|i: int|
                    0 <= i < n ==> #[trigger] http::bytes_held(bytes)[i] == buffer@[i]
            },
            event matches TranscoderEvent::Read(n) ==> n == 0 ==> r == PumpStep::Stop(
                StopReason::Ended,
            ),
            event is Cancelled ==> r == PumpStep::Stop(StopReason::Cancelled),
            event is Failed ==> r == PumpStep::Stop(StopReason::Failed),
    {
        match event {
            TranscoderEvent::Cancelled => PumpStep::Stop(StopReason::Cancelled),
            TranscoderEvent::Read(n) => {
                if n == 0 {
                    PumpStep::Stop(StopReason::Ended)
                } else if self.keeps_going(subscribers, elapsed_nanos) {
                    PumpStep::Broadcast(
                        http::bytes_copied(vstd::slice::slice_subrange(buffer, 0, n)),
                    )
                } else {
                    PumpStep::Stop(StopReason::NoSubscribers)
                }
            },
            TranscoderEvent::Failed => PumpStep::Stop(StopReason::Failed),
        }
    }
}

/// An event together with the number of consumers and the time at which it was seen.
pub struct Arrival {
    pub event: SourceEvent,
    pub subscribers: usize,
    pub elapsed_nanos: u128,
}

impl Pump {
    /// What is broadcast of a series of events: all data up to the first stop.
    pub open spec fn broadcasts(self, arrivals: Seq<Arrival>) -> Seq<Seq<u8>>
        decreases arrivals.len(),
    {
        if arrivals.len() == 0 {
            seq![]
        } else {
            match self.step(
                arrivals[0].event,
                arrivals[0].subscribers,
                arrivals[0].elapsed_nanos,
            ) {
                SourceStep::Broadcast(data) => seq![data] + self.broadcasts(arrivals.drop_first()),
                SourceStep::Stop(_) => seq![],
            }
        }
    }

    /// While every event is data and someone is listening, all data is broadcast, unchanged and
    /// in order.
    pub proof fn listeners_get_everything(self, arrivals: Seq<Arrival>)
        requires
            forall|i: int|
                0 <= i < arrivals.len() ==> (#[trigger] arrivals[i]).event is Data
                    && arrivals[i].subscribers > 0,
        ensures
            self.broadcasts(arrivals) == arrivals.map_values(|a: Arrival| a.event->Data_0),
        decreases arrivals.len(),
    {
        let data = arrivals.map_values(|a: Arrival| a.event->Data_0);
        if arrivals.len() > 0 {
            let rest = arrivals.drop_first();
            assert forall|i: int| 0 <= i < rest.len() implies (#[trigger] rest[i]).event is Data
                && rest[i].subscribers > 0 by {
                assert(rest[i] == arrivals[i + 1]);
            }
            self.listeners_get_everything(rest);
            assert(arrivals[0].event is Data);
            assert(data =~= seq![arrivals[0].event->Data_0] + rest.map_values(
                |a: Arrival| a.event->Data_0,
            ));
        } else {
            assert(data =~= seq![]);
        }
    }

    /// Once data arrives with nobody listening, and the stream is not or no longer waiting for
    /// its first consumer, the stream ends: neither that data nor anything after it is broadcast.
    pub proof fn stream_ends_without_listeners(self, arrivals: Seq<Arrival>, k: int)
        requires
            0 <= k < arrivals.len(),
            arrivals[k].event is Data,
            arrivals[k].subscribers == 0,
            !self.waiting(arrivals[k].elapsed_nanos),
        ensures
            self.broadcasts(arrivals) == self.broadcasts(arrivals.take(k)),
            self.broadcasts(arrivals).len() <= k,
        decreases k,
    {
        if k > 0 {
            let rest = arrivals.drop_first();
            assert(rest[k - 1] == arrivals[k]);
            self.stream_ends_without_listeners(rest, k - 1);
            assert(arrivals.take(k).drop_first() =~= rest.take(k - 1));
        }
    }

    /// Once a stream is told that another channel took over, nothing more of it is broadcast.
    pub proof fn stream_ends_when_cancelled(self, arrivals: Seq<Arrival>, k: int)
        requires
            0 <= k < arrivals.len(),
            arrivals[k].event is Cancelled,
        ensures
            self.broadcasts(arrivals) == self.broadcasts(arrivals.take(k)),
            self.broadcasts(arrivals).len() <= k,
        decreases k,
    {
        if k > 0 {
            let rest = arrivals.drop_first();
            assert(rest[k - 1] == arrivals[k]);
            self.stream_ends_when_cancelled(rest, k - 1);
            assert(arrivals.take(k).drop_first() =~= rest.take(k - 1));
        }
    }

    /// Data reaches consumers, whenever it comes and however the stream was started: someone who
    /// listens is never cut off.
    pub proof fn listeners_are_never_cut_off(
        self,
        data: Seq<u8>,
        subscribers: usize,
        elapsed_nanos: u128,
    )
        requires
            subscribers > 0,
        ensures
            self.passes_on(subscribers, elapsed_nanos),
            self.step(SourceEvent::Data(data), subscribers, elapsed_nanos)
                == SourceStep::Broadcast(data),
    {
    }

    /// Without consumers a stream lasts as long as it was given and no longer: a prewarmed one for
    /// its keepalive time, of one second or more, and any other one not at all.
    pub proof fn keepalive_time_is_kept(
        prewarm: bool,
        keepalive_secs: u64,
        elapsed_nanos: u128,
        data: Seq<u8>,
    )
        ensures
            pump_for(prewarm, keepalive_secs).passes_on(0, elapsed_nanos) <==> prewarm && (
            elapsed_nanos < keepalive_secs * 1_000_000_000 || elapsed_nanos < 1_000_000_000),
            elapsed_nanos >= keepalive_secs * 1_000_000_000 && elapsed_nanos >= 1_000_000_000
                ==> pump_for(prewarm, keepalive_secs).step(
                SourceEvent::Data(data),
                0,
                elapsed_nanos,
            ) == SourceStep::Stop(StopReason::NoSubscribers),
            prewarm && (elapsed_nanos < keepalive_secs * 1_000_000_000 || elapsed_nanos
                < 1_000_000_000) ==> pump_for(prewarm, keepalive_secs).step(
                SourceEvent::Data(data),
                0,
                elapsed_nanos,
            ) == SourceStep::Broadcast(data),
            !prewarm ==> pump_for(prewarm, keepalive_secs).step(
                SourceEvent::Data(data),
                0,
                elapsed_nanos,
            ) == SourceStep::Stop(StopReason::NoSubscribers),
    {
    }

    /// Being cancelled, failing and ending stop a stream, each for its own reason, whoever listens
    /// and however long it has run.
    pub proof fn stops_have_their_reasons(self, subscribers: usize, elapsed_nanos: u128)
        ensures
            self.step(SourceEvent::Cancelled, subscribers, elapsed_nanos) == SourceStep::Stop(
                StopReason::Cancelled,
            ),
            self.step(SourceEvent::Failed, subscribers, elapsed_nanos) == SourceStep::Stop(
                StopReason::Failed,
            ),
            self.step(SourceEvent::Ended, subscribers, elapsed_nanos) == SourceStep::Stop(
                StopReason::Ended,
            ),
    {
    }

    /// Nothing is broadcast after an event that is not data.
    pub proof fn nothing_follows_a_stop(self, arrivals: Seq<Arrival>, k: int)
        requires
            0 <= k < arrivals.len(),
            !(arrivals[k].event is Data),
        ensures
            self.broadcasts(arrivals) == self.broadcasts(arrivals.take(k)),
            self.broadcasts(arrivals).len() <= k,
        decreases k,
    {
        if k > 0 {
            let rest = arrivals.drop_first();
            assert(rest[k - 1] == arrivals[k]);
            self.nothing_follows_a_stop(rest, k - 1);
            assert(arrivals.take(k).drop_first() =~= rest.take(k - 1));
        }
    }

    /// A stream that was not prewarmed ends at the first data that nobody listens to; a prewarmed
    /// one is given at least a second.
    pub proof fn only_prewarmed_streams_wait(prewarm: bool, keepalive_secs: u64, elapsed_nanos: u128)
        ensures
            !prewarm ==> !pump_for(prewarm, keepalive_secs).passes_on(0, elapsed_nanos),
            prewarm && elapsed_nanos < 1_000_000_000 ==> pump_for(
                prewarm,
                keepalive_secs,
            ).passes_on(0, elapsed_nanos),
    {
        assert(pump_for(prewarm, keepalive_secs).keepalive_secs >= 1);
    }
}

/// What the transcoder wrote is taken whole: of a read that filled `n` bytes of the buffer, these
/// `n` bytes in their order, and nothing of what the buffer holds behind them.
pub proof fn reads_are_taken_whole(n: usize, buffer: Seq<u8>, other: Seq<u8>)
    requires
        0 < n <= buffer.len(),
        n <= other.len(),
        forall|i: int| 0 <= i < n ==> buffer[i] == other[i],
    ensures
        TranscoderEvent::Read(n).with_buffer(buffer) matches SourceEvent::Data(data) && {
            &&& data.len() == n
            &&& forall|i: int| 0 <= i < n ==> #[trigger] data[i] == buffer[i]
        },
        TranscoderEvent::Read(n).with_buffer(buffer) == TranscoderEvent::Read(n).with_buffer(other),
{
    assert(buffer.take(n as int) =~= other.take(n as int));
}

/// Whatever the transcoder wrote reaches its listeners: as many bytes as were read, each the one
/// that the buffer holds at its place. A read of nothing is the end.
pub proof fn transcoded_reads_reach_listeners(
    pump: Pump,
    n: usize,
    buffer: Seq<u8>,
    subscribers: usize,
    elapsed_nanos: u128,
)
    requires
        n <= buffer.len(),
        subscribers > 0,
    ensures
        ({
            let step = pump.step(
                TranscoderEvent::Read(n).with_buffer(buffer),
                subscribers,
                elapsed_nanos,
            );
            &&& n > 0 ==> {
                &&& step matches SourceStep::Broadcast(data)
                &&& data.len() == n
                &&& forall|i: int| 0 <= i < n ==> #[trigger] data[i] == buffer[i]
            }
            &&& n == 0 ==> step == SourceStep::Stop(StopReason::Ended)
        }),
{
}

/// What an upstream did is taken for what it was: its data for the same data, and being cancelled,
/// failing and ending each for itself.
pub proof fn upstream_events_are_taken_for_what_they_are(event: UpstreamEvent)
    ensures
        event matches UpstreamEvent::Chunk(bytes) ==> event@ == SourceEvent::Data(
            http::bytes_held(bytes),
        ),
        event is Cancelled <==> event@ is Cancelled,
        event is Failed <==> event@ is Failed,
        event is Ended <==> event@ is Ended,
{
}

} // verus!
