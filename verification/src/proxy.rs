//! The one upstream connection: what it streams, when it is replaced, and who is attached to it.
use vstd::prelude::*;

use crate::channels;
use crate::error::ProxyError;
use crate::http;
use crate::pump;
use crate::pump::Pump;
use crate::state::{AppConfig, AppState};
use crate::text;
use crate::transcode;
use crate::transcode::TranscodeMode;

verus! {

/// What the upstream connection streams: nothing, or a channel under its stream key.
pub struct UpstreamManager {
    pub stream_url: Option<String>,
    pub stream_title: Option<String>,
    pub stream_key: Option<String>,
}

/// What the upstream connection streams, as characters.
pub struct Record {
    pub url: Option<Seq<char>>,
    pub title: Option<Seq<char>>,
    pub key: Option<Seq<char>>,
}

impl View for UpstreamManager {
    type V = Record;

    open spec fn view(&self) -> Record {
        Record {
            url: text::text_of(self.stream_url),
            title: text::text_of(self.stream_title),
            key: text::text_of(self.stream_key),
        }
    }
}

/// Nothing is streamed.
pub open spec fn idle() -> Record {
    Record { url: None, title: None, key: None }
}

/// The key under which a channel is streamed.
pub open spec fn channel_key(config: AppConfig, title: Seq<char>, url: Seq<char>) -> Seq<char> {
    transcode::key_chars(url, transcode::mode_for(config, title))
}

/// A channel is streamed.
pub open spec fn streaming(config: AppConfig, title: Seq<char>, url: Seq<char>) -> Record {
    Record { url: Some(url), title: Some(title), key: Some(channel_key(config, title, url)) }
}

impl Record {
    /// The three parts belong together.
    pub open spec fn consistent(self, config: AppConfig) -> bool {
        ||| self == idle()
        ||| self.url is Some && self.title is Some && self == streaming(
            config,
            self.title->0,
            self.url->0,
        )
    }

    /// What is streamed after a channel was asked for: it, unless it already was.
    pub open spec fn after_run(self, config: AppConfig, title: Seq<char>, url: Seq<char>) -> Record {
        if self.key == Some(channel_key(config, title, url)) {
            self
        } else {
            streaming(config, title, url)
        }
    }

    /// What is streamed after the stream with this key ended: nothing, unless another stream
    /// has taken its place.
    pub open spec fn after_end(self, key: Seq<char>) -> Record {
        if self.key == Some(key) {
            idle()
        } else {
            self
        }
    }
}

/// One thing to do when a channel is asked for.
#[derive(Debug)]
pub enum RunStep {
    /// Cancel the token that is held, and with it the connection that was started with it.
    CancelActive,
    /// Hold a new token.
    HoldNewToken,
    /// Start to pass a stream through, with the token that is held.
    StartPassthrough { url: String, key: String, prewarm: bool, keepalive_secs: u64 },
    /// Start to transcode a stream, with the token that is held.
    StartTranscoded { title: String, url: String, key: String, prewarm: bool },
}

impl RunStep {
    /// The step starts a connection.
    pub open spec fn starts(self) -> bool {
        self is StartPassthrough || self is StartTranscoded
    }

    /// The key of the stream that the step starts.
    pub open spec fn key(self) -> Seq<char> {
        match self {
            RunStep::StartPassthrough { key, .. } => key@,
            RunStep::StartTranscoded { key, .. } => key@,
            _ => seq![],
        }
    }

    /// The step starts a stream that waits for its first consumer.
    pub open spec fn waits(self) -> bool {
        match self {
            RunStep::StartPassthrough { prewarm, .. } => prewarm,
            RunStep::StartTranscoded { prewarm, .. } => prewarm,
            _ => false,
        }
    }

    /// The error that a failed start ends in.
    pub open spec fn error(self) -> ProxyError {
        if self is StartTranscoded {
            ProxyError::TranscoderStart
        } else {
            ProxyError::UpstreamRequest
        }
    }
}

/// How a start went.
#[derive(Debug, Clone, Copy)]
pub enum StartOutcome {
    /// The upstream did not answer the request.
    NoAnswer,
    /// The upstream answered the request with this status.
    Answered(u16),
    /// The transcoder does not run, or its output cannot be read.
    NotRunning,
    /// The transcoder runs.
    Running,
}

impl StartOutcome {
    /// There is something to stream: an answer that is not an error, or a transcoder.
    pub open spec fn started(self) -> bool {
        match self {
            StartOutcome::NoAnswer => false,
            StartOutcome::Answered(status) => !(400 <= status <= 599),
            StartOutcome::NotRunning => false,
            StartOutcome::Running => true,
        }
    }

    /// A step of this kind can go so.
    pub open spec fn fits(self, step: RunStep) -> bool {
        match self {
            StartOutcome::NoAnswer => step is StartPassthrough,
            StartOutcome::Answered(_) => step is StartPassthrough,
            StartOutcome::NotRunning => step is StartTranscoded,
            StartOutcome::Running => step is StartTranscoded,
        }
    }

    /// Whether there is something to stream.
    pub fn is_started(self) -> (r: bool)
        ensures
            r == self.started(),
    {
        match self {
            StartOutcome::NoAnswer => false,
            StartOutcome::Answered(status) => status < 400 || status > 599,
            StartOutcome::NotRunning => false,
            StartOutcome::Running => true,
        }
    }
}

/// The error that a failed start ends in.
pub fn start_error(step: &RunStep) -> (r: ProxyError)
    requires
        step.starts(),
    ensures
        r == step.error(),
        step is StartTranscoded ==> r is TranscoderStart,
        step is StartPassthrough ==> r is UpstreamRequest,
{
    match step {
        RunStep::StartTranscoded { .. } => ProxyError::TranscoderStart,
        _ => ProxyError::UpstreamRequest,
    }
}

/// The start of a stream that is passed through.
pub open spec fn starts_passthrough(
    step: RunStep,
    config: AppConfig,
    title: Seq<char>,
    url: Seq<char>,
    prewarm: bool,
) -> bool {
    &&& step matches RunStep::StartPassthrough { url: u, key: k, prewarm: p, keepalive_secs: s }
    &&& u@ == url
    &&& k@ == channel_key(config, title, url)
    &&& p == prewarm
    &&& s == config.prewarm_keepalive_secs
}

/// The start of a stream that is transcoded.
pub open spec fn starts_transcoded(
    step: RunStep,
    config: AppConfig,
    title: Seq<char>,
    url: Seq<char>,
    prewarm: bool,
) -> bool {
    &&& step matches RunStep::StartTranscoded { title: t, url: u, key: k, prewarm: p }
    &&& t@ == title
    &&& u@ == url
    &&& k@ == channel_key(config, title, url)
    &&& p == prewarm
}

/// What asking for a channel leads to: nothing where it is streamed already, else it replaces
/// what is streamed.
pub open spec fn run_leads_to(
    record: Record,
    config: AppConfig,
    title: Seq<char>,
    url: Seq<char>,
    prewarm: bool,
    steps: Seq<RunStep>,
) -> bool {
    if record.key == Some(channel_key(config, title, url)) {
        steps.len() == 0
    } else {
        &&& steps.len() == 3
        &&& steps[0] is CancelActive
        &&& steps[1] is HoldNewToken
        &&& if transcode::mode_for(config, title).enabled() {
            starts_transcoded(steps[2], config, title, url, prewarm)
        } else {
            starts_passthrough(steps[2], config, title, url, prewarm)
        }
    }
}

/// A stream to pass through: where it is requested from and how it is pumped.
pub struct PassthroughTask {
    pub target: String,
    pub key: String,
    pub pump: Pump,
}

/// A stream to transcode: the program, its arguments, how much is read at a time and how it is
/// pumped.
pub struct TranscodedTask {
    pub program: String,
    pub args: Vec<String>,
    pub read_chunk_bytes: usize,
    pub key: String,
    pub pump: Pump,
}

impl UpstreamManager {
    /// Nothing is streamed at first.
    pub fn new() -> (r: Self)
        ensures
            r@ == idle(),
            r.stream_url is None,
            r.stream_title is None,
            r.stream_key is None,
    {
        UpstreamManager { stream_url: None, stream_title: None, stream_key: None }
    }

    /// Whether a stream with this key runs.
    pub fn streams_key(&self, key: &str) -> (r: bool)
        ensures
            r == (self@.key == Some(key@)),
    {
        match &self.stream_key {
            Some(active) => text::same_text(active.as_str(), key),
            None => false,
        }
    }

    /// Whether a stream from this URL runs.
    pub fn streams_url(&self, url: &str) -> (r: bool)
        ensures
            r == (self@.url == Some(url@)),
    {
        match &self.stream_url {
            Some(active) => text::same_text(active.as_str(), url),
            None => false,
        }
    }

    /// The stream with this key has ended.
    pub fn clear_if_active(&mut self, key: &str)
        ensures
            final(self)@ == old(self)@.after_end(key@),
            (old(self).stream_key matches Some(k) && k@ == key@) ==> final(self).stream_key is None
                && final(self).stream_url is None && final(self).stream_title is None,
            !(old(self).stream_key matches Some(k) && k@ == key@) ==> *final(self) == *old(self),
    {
        if self.streams_key(key) {
            self.stream_key = None;
            self.stream_url = None;
            self.stream_title = None;
        }
    }

    /// A channel is asked for. The steps are to be taken one after the other, with no steps of
    /// another request among them.
    pub fn run(&mut self, title: String, url: String, prewarm: bool, config: &AppConfig) -> (r: Vec<
        RunStep,
    >)
        ensures
            final(self)@ == old(self)@.after_run(*config, title@, url@),
            run_leads_to(old(self)@, *config, title@, url@, prewarm, r@),
            r@.len() == 0 ==> *final(self) == *old(self),
            r@.len() > 0 ==> {
                &&& final(self).stream_url matches Some(u) && u@ == url@
                &&& final(self).stream_title matches Some(t) && t@ == title@
                &&& final(self).stream_key matches Some(k) && k@ == channel_key(
                    *config,
                    title@,
                    url@,
                )
                &&& r@.last() is StartPassthrough || r@.last() is StartTranscoded
                &&& r@.last() matches RunStep::StartPassthrough {
                    url: u,
                    key: k,
                    prewarm: p,
                    keepalive_secs: s,
                } ==> u@ == url@ && Some(k@) == text::text_of(final(self).stream_key) && p
                    == prewarm && s == config.prewarm_keepalive_secs
                &&& r@.last() matches RunStep::StartTranscoded {
                    title: t,
                    url: u,
                    key: k,
                    prewarm: p,
                } ==> t@ == title@ && u@ == url@ && Some(k@) == text::text_of(
                    final(self).stream_key,
                ) && p == prewarm
            },
    {
        let mode: TranscodeMode = transcode::transcode_mode_for_channel(config, title.as_str());
        let key: String = transcode::stream_key(url.as_str(), mode);
        let mut steps: Vec<RunStep> = Vec::new();
        if self.streams_key(key.as_str()) {
            return steps;
        }
        steps.push(RunStep::CancelActive);
        steps.push(RunStep::HoldNewToken);
        self.stream_key = Some(key.clone());
        self.stream_url = Some(url.clone());
        self.stream_title = Some(title.clone());
        if mode.is_enabled() {
            steps.push(RunStep::StartTranscoded { title, url, key, prewarm });
        } else {
            steps.push(
                RunStep::StartPassthrough {
                    url,
                    key,
                    prewarm,
                    keepalive_secs: config.prewarm_keepalive_secs,
                },
            );
        }
        steps
    }

    /// The start that `run` asked for has succeeded or failed. A stream that failed to start is
    /// not streamed, and nothing of it is to be broadcast.
    pub fn start_finished(&mut self, step: &RunStep, outcome: StartOutcome) -> (r: Result<
        (),
        ProxyError,
    >)
        requires
            step.starts(),
            outcome.fits(*step),
        ensures
            outcome.started() ==> r == Ok::<(), ProxyError>(()) && final(self)@ == old(self)@,
            !outcome.started() ==> r == Err::<(), ProxyError>(step.error()) && final(self)@ == old(
                self,
            )@.after_end(step.key()),
            outcome is NoAnswer || outcome is NotRunning ==> r is Err,
            outcome is Running ==> r is Ok,
            outcome matches StartOutcome::Answered(status) ==> (r is Err <==> 400 <= status < 600),
            r is Ok ==> *final(self) == *old(self),
            r is Err ==> {
                &&& step is StartTranscoded ==> r == Err::<(), ProxyError>(
                    ProxyError::TranscoderStart,
                )
                &&& step is StartPassthrough ==> r == Err::<(), ProxyError>(
                    ProxyError::UpstreamRequest,
                )
                &&& *final(self) == *old(self) || final(self).stream_url is None
                    && final(self).stream_title is None && final(self).stream_key is None
                &&& *step matches RunStep::StartPassthrough { key, .. } ==> text::text_of(
                    final(self).stream_key,
                ) != Some(key@)
                &&& *step matches RunStep::StartTranscoded { key, .. } ==> text::text_of(
                    final(self).stream_key,
                ) != Some(key@)
            },
    {
        if outcome.is_started() {
            return Ok(());
        }
        match step {
            RunStep::StartPassthrough { key, .. } => self.clear_if_active(key.as_str()),
            RunStep::StartTranscoded { key, .. } => self.clear_if_active(key.as_str()),
            _ => {},
        }
        Err(start_error(step))
    }

    /// The stream to pass through, from a URL in normal form.
    pub fn passthrough_task(target: String, key: String, prewarm: bool, keepalive_secs: u64) -> (r:
        PassthroughTask)
        ensures
            r.target == target,
            r.key == key,
            r.pump == pump::pump_for(prewarm, keepalive_secs),
    {
        PassthroughTask { target, key, pump: Pump::new(prewarm, keepalive_secs) }
    }

    /// The stream to pass through. `None` says that the URL is not an absolute one: there is
    /// nothing to request.
    pub fn start_passthrough(url: &str, key: String, prewarm: bool, keepalive_secs: u64) -> (r:
        Option<PassthroughTask>)
        ensures
            match r {
                Some(task) => {
                    &&& http::parsed_url(url@) == Some(task.target@)
                    &&& task.key == key
                    &&& task.pump == pump::pump_for(prewarm, keepalive_secs)
                },
                None => http::parsed_url(url@) is None,
            },
    {
        match http::parse_url(url) {
            Some(target) => Some(Self::passthrough_task(target, key, prewarm, keepalive_secs)),
            None => None,
        }
    }

    /// The stream to transcode.
    pub fn start_transcoded(
        title: &str,
        url: &str,
        key: String,
        prewarm: bool,
        config: &AppConfig,
    ) -> (r: TranscodedTask)
        requires
            transcode::gop_fits(*config, transcode::mode_for(*config, title@)),
        ensures
            r.program@ == config.ffmpeg_path@,
            text::texts_of(r.args@) == transcode::transcoder_args(
                *config,
                transcode::mode_for(*config, title@),
                url@,
            ),
            r.read_chunk_bytes == (if config.transcoded_read_chunk_bytes < 4096 {
                4096
            } else {
                config.transcoded_read_chunk_bytes
            }),
            r.read_chunk_bytes >= 4096,
            r.read_chunk_bytes >= config.transcoded_read_chunk_bytes,
            r.read_chunk_bytes == 4096 || r.read_chunk_bytes == config.transcoded_read_chunk_bytes,
            r.pump.prewarm == prewarm,
            r.key == key,
            r.pump == pump::pump_for(prewarm, config.prewarm_keepalive_secs),
    {
        let mode: TranscodeMode = transcode::transcode_mode_for_channel(config, title);
        let read_chunk_bytes: usize = if config.transcoded_read_chunk_bytes < 4096 {
            4096
        } else {
            config.transcoded_read_chunk_bytes
        };
        TranscodedTask {
            program: config.ffmpeg_path.clone(),
            args: transcode::transcoder_command_line(config, mode, url),
            read_chunk_bytes,
            key,
            pump: Pump::new(prewarm, config.prewarm_keepalive_secs),
        }
    }
}

/// A channel that a consumer is attached to or that is started ahead of consumers.
#[derive(Debug)]
pub struct StreamTarget {
    pub title: String,
    pub url: String,
}

/// A consumer is attached to a channel, which is started if it is not what runs.
pub fn attach_to_stream(state: &mut AppState, title: &str, url: &str) -> (r: Vec<RunStep>)
    ensures
        final(state).upstream_manager@ == old(state).upstream_manager@.after_run(
            old(state).config,
            title@,
            url@,
        ),
        run_leads_to(
            old(state).upstream_manager@,
            old(state).config,
            title@,
            url@,
            false,
            r@,
        ),
        r@.len() == 0 ==> final(state).upstream_manager == old(state).upstream_manager,
        r@.len() > 0 ==> text::text_of(final(state).upstream_manager.stream_url) == Some(url@)
            && text::text_of(final(state).upstream_manager.stream_title) == Some(title@),
        r@.len() > 0 ==> (r@.last() matches RunStep::StartPassthrough {
            url: u,
            prewarm: p,
            ..
        } ==> u@ == url@ && p == false),
        r@.len() > 0 ==> (r@.last() matches RunStep::StartTranscoded {
            title: t,
            url: u,
            prewarm: p,
            ..
        } ==> t@ == title@ && u@ == url@ && p == false),
        final(state).config == old(state).config,
        final(state).channels == old(state).channels,
        final(state).channel_order == old(state).channel_order,
        final(state).sync_state == old(state).sync_state,
        old(state).consistent() ==> final(state).consistent(),
{
    proof {
        if state.consistent() {
            record_stays_consistent(
                state.upstream_manager@,
                state.config,
                title@,
                url@,
                seq![],
            );
        }
    }
    state.upstream_manager.run(title.to_owned(), url.to_owned(), false, &state.config)
}

/// Starting a channel ahead of its first consumer has something to do: it is not what runs, and
/// where it is transcoded such streams are prewarmed.
pub open spec fn prewarm_starts(
    record: Record,
    config: AppConfig,
    title: Seq<char>,
    url: Seq<char>,
) -> bool {
    &&& transcode::mode_for(config, title).enabled() ==> config.prewarm_transcoded_streams
    &&& record.key != Some(channel_key(config, title, url))
}

/// A channel is started ahead of its first consumer. `Ok(None)` says that there is nothing to
/// do: it is transcoded and such streams are not prewarmed, or it is what runs.
pub fn prewarm(state: &AppState, title: &str) -> (r: Result<Option<StreamTarget>, String>)
    ensures
        r is Err <==> !channels::channel_table(state.channels).dom().contains(title@),
        r matches Err(message) ==> message@ == "Channel not found: "@ + title@,
        r matches Ok(Some(target)) ==> target.title@ == title@ && target.url@
            == channels::channel_table(state.channels)[title@].url@,
        r matches Ok(chosen) ==> (chosen is Some <==> prewarm_starts(
            state.upstream_manager@,
            state.config,
            title@,
            channels::channel_table(state.channels)[title@].url@,
        )),
        ({
            let table = channels::channel_table(state.channels);
            let mode = transcode::mode_for(state.config, title@);
            if !table.dom().contains(title@) {
                r matches Err(message) && message@ == "Channel not found: "@ + title@
            } else if mode.enabled() && !state.config.prewarm_transcoded_streams {
                r matches Ok(None)
            } else if state.upstream_manager@.key == Some(
                transcode::key_chars(table[title@].url@, mode),
            ) {
                r matches Ok(None)
            } else {
                r matches Ok(Some(target)) && target.title@ == title@ && target.url@
                    == table[title@].url@
            }
        }),
{
    let url: String = match channels::get_channel(&state.channels, title) {
        Some(info) => info.url,
        None => {
            let mut message: String = "Channel not found: ".to_owned();
            message.append(title);
            return Err(message);
        },
    };
    let mode: TranscodeMode = transcode::transcode_mode_for_channel(&state.config, title);
    if mode.is_enabled() && !state.config.prewarm_transcoded_streams {
        return Ok(None);
    }
    let key: String = transcode::stream_key(url.as_str(), mode);
    if state.upstream_manager.streams_key(key.as_str()) {
        return Ok(None);
    }
    Ok(Some(StreamTarget { title: title.to_owned(), url }))
}

/// The channel that a prewarm chose is asked for, under the state's configuration: what is started
/// waits for its first consumer.
pub fn start_prewarm(state: &mut AppState, target: StreamTarget) -> (r: Vec<RunStep>)
    ensures
        final(state).upstream_manager@ == old(state).upstream_manager@.after_run(
            old(state).config,
            target.title@,
            target.url@,
        ),
        run_leads_to(
            old(state).upstream_manager@,
            old(state).config,
            target.title@,
            target.url@,
            true,
            r@,
        ),
        r@.len() == 0 ==> final(state).upstream_manager == old(state).upstream_manager,
        r@.len() > 0 ==> text::text_of(final(state).upstream_manager.stream_url) == Some(target.url@)
            && text::text_of(final(state).upstream_manager.stream_title) == Some(target.title@),
        r@.len() > 0 ==> (r@.last() matches RunStep::StartPassthrough {
            url: u,
            prewarm: p,
            ..
        } ==> u@ == target.url@ && p == true),
        r@.len() > 0 ==> (r@.last() matches RunStep::StartTranscoded {
            title: t,
            url: u,
            prewarm: p,
            ..
        } ==> t@ == target.title@ && u@ == target.url@ && p == true),
        final(state).config == old(state).config,
        final(state).channels == old(state).channels,
        final(state).channel_order == old(state).channel_order,
        final(state).sync_state == old(state).sync_state,
        old(state).consistent() ==> final(state).consistent(),
{
    proof {
        if state.consistent() {
            record_stays_consistent(
                state.upstream_manager@,
                state.config,
                target.title@,
                target.url@,
                seq![],
            );
        }
    }
    state.upstream_manager.run(target.title, target.url, true, &state.config)
}

/// How a prewarm that was started is reported.
pub fn prewarm_finished(started: Result<(), ProxyError>) -> (r: Result<(), String>)
    ensures
        match started {
            Ok(()) => r is Ok,
            Err(error) => r matches Err(message) && message@ == error.message_chars(),
        },
{
    match started {
        Ok(()) => Ok(()),
        Err(error) => Err(error.message()),
    }
}

/// What asking for a channel and the end of a stream do keeps the record in order. After asking
/// for a channel its URL is what is streamed.
pub proof fn record_stays_consistent(
    record: Record,
    config: AppConfig,
    title: Seq<char>,
    url: Seq<char>,
    key: Seq<char>,
)
    requires
        record.consistent(config),
    ensures
        idle().consistent(config),
        record.after_run(config, title, url).consistent(config),
        record.after_run(config, title, url).url == Some(url),
        record.after_run(config, title, url).key == Some(channel_key(config, title, url)),
        record.after_end(key).consistent(config),
{
    if record.key == Some(channel_key(config, title, url)) {
        transcode::stream_key_identifies(
            record.url->0,
            transcode::mode_for(config, record.title->0),
            url,
            transcode::mode_for(config, title),
        );
    }
}

/// What is started is the channel that was asked for, whatever was streamed before: its own URL
/// and, where it is transcoded, its own title, under the key that the record then holds. Together
/// with that key the record holds that URL and that title.
pub proof fn asked_channel_is_what_starts(
    record: Record,
    config: AppConfig,
    title: Seq<char>,
    url: Seq<char>,
    prewarm: bool,
    steps: Seq<RunStep>,
)
    requires
        run_leads_to(record, config, title, url, prewarm, steps),
        steps.len() > 0,
    ensures
        ({
            let after = record.after_run(config, title, url);
            &&& after.url == Some(url)
            &&& after.title == Some(title)
            &&& steps.last() is StartPassthrough || steps.last() is StartTranscoded
            &&& steps.last() matches RunStep::StartPassthrough {
                url: u,
                key: k,
                prewarm: p,
                keepalive_secs: s,
            } ==> u@ == url && after.key == Some(k@) && p == prewarm && s
                == config.prewarm_keepalive_secs
            &&& steps.last() matches RunStep::StartTranscoded {
                title: t,
                url: u,
                key: k,
                prewarm: p,
            } ==> t@ == title && u@ == url && after.key == Some(k@) && p == prewarm
        }),
{
}

/// What is started first stops what ran: the token that is held is cancelled and a new one held
/// before anything starts, and only one thing starts.
pub proof fn start_replaces_what_ran(
    record: Record,
    config: AppConfig,
    title: Seq<char>,
    url: Seq<char>,
    prewarm: bool,
    steps: Seq<RunStep>,
)
    requires
        run_leads_to(record, config, title, url, prewarm, steps),
    ensures
        steps.len() == 0 ==> record.after_run(config, title, url) == record,
        steps.len() > 0 ==> steps.len() == 3 && steps[0] is CancelActive && steps[1] is HoldNewToken,
        forall|i: int|
            0 <= i < steps.len() - 1 ==> !((#[trigger] steps[i]) is StartPassthrough)
                && !(steps[i] is StartTranscoded),
{
}

/// Asking for a channel with another URL than the one that is streamed always starts it, and so
/// does asking for any channel while nothing is streamed.
pub proof fn other_url_always_starts(
    record: Record,
    config: AppConfig,
    title: Seq<char>,
    url: Seq<char>,
    prewarm: bool,
    steps: Seq<RunStep>,
)
    requires
        record.consistent(config),
        record.url != Some(url),
        run_leads_to(record, config, title, url, prewarm, steps),
    ensures
        steps.len() == 3,
{
    restart_only_on_another_source(record, config, title, url, prewarm, steps);
}

/// A full HD channel that is to be transcoded is, and every other one is passed through.
pub proof fn kind_of_start_follows_the_channel(
    record: Record,
    config: AppConfig,
    title: Seq<char>,
    url: Seq<char>,
    prewarm: bool,
    steps: Seq<RunStep>,
)
    requires
        run_leads_to(record, config, title, url, prewarm, steps),
        steps.len() > 0,
    ensures
        steps.last() is StartTranscoded <==> transcode::says_full_hd(title) && (
        config.transcode_full_hd_audio_to_aac || config.transcode_full_hd_video_to_h264),
        steps.last() is StartPassthrough <==> !(steps.last() is StartTranscoded),
{
    transcode::mode_follows_the_title(config, title);
}

/// The end of a stream forgets all of it, and touches no other one: URL, title and key go
/// together or stay together.
pub proof fn end_forgets_all_or_nothing(record: Record, key: Seq<char>)
    ensures
        record.key == Some(key) ==> record.after_end(key).url is None && record.after_end(
            key,
        ).title is None && record.after_end(key).key is None,
        record.key != Some(key) ==> record.after_end(key).url == record.url && record.after_end(
            key,
        ).title == record.title && record.after_end(key).key == record.key,
{
}

/// The key of a channel spells its URL and how its title has it transcoded.
pub proof fn key_spells_the_channel(config: AppConfig, title: Seq<char>, url: Seq<char>)
    ensures
        channel_key(config, title, url).take(url.len() as int) == url,
        channel_key(config, title, url).skip(url.len() as int) == (match (
            transcode::says_full_hd(title) && config.transcode_full_hd_audio_to_aac,
            transcode::says_full_hd(title) && config.transcode_full_hd_video_to_h264,
        ) {
            (false, false) => ":a0:v0"@,
            (true, false) => ":a1:v0"@,
            (false, true) => ":a0:v1"@,
            (true, true) => ":a1:v1"@,
        }),
{
    transcode::mode_follows_the_title(config, title);
    transcode::stream_key_spells_url_and_mode(url, transcode::mode_for(config, title));
}

/// The parts of a record are known together or not at all, and the key spells the URL.
pub proof fn record_parts_belong_together(record: Record, config: AppConfig)
    requires
        record.consistent(config),
    ensures
        record.url is Some <==> record.title is Some,
        record.url is Some <==> record.key is Some,
        record.url matches Some(url) ==> record.key->0.take(url.len() as int) == url,
        record.url matches Some(url) ==> record.key->0.len() == url.len() + 6,
{
    if record.url is Some {
        key_spells_the_channel(config, record.title->0, record.url->0);
        reveal_strlit(":a0:v0");
        reveal_strlit(":a1:v0");
        reveal_strlit(":a0:v1");
        reveal_strlit(":a1:v1");
        let key = record.key->0;
        let n = record.url->0.len() as int;
        assert(key.len() == n + key.skip(n).len());
    }
}

/// A prewarm never touches a stream that already runs, spares the transcoder unless transcoded
/// streams are to be prewarmed, and starts every other channel whose URL is not what runs.
pub proof fn prewarm_starts_what_is_missing(
    record: Record,
    config: AppConfig,
    title: Seq<char>,
    url: Seq<char>,
)
    requires
        record.consistent(config),
    ensures
        !prewarm_starts(record.after_run(config, title, url), config, title, url),
        ({
            let transcoded = transcode::says_full_hd(title) && (
            config.transcode_full_hd_audio_to_aac || config.transcode_full_hd_video_to_h264);
            &&& transcoded && !config.prewarm_transcoded_streams ==> !prewarm_starts(
                record,
                config,
                title,
                url,
            )
            &&& record.url != Some(url) && (!transcoded || config.prewarm_transcoded_streams)
                ==> prewarm_starts(record, config, title, url)
        }),
{
    transcode::mode_follows_the_title(config, title);
    if record.key == Some(channel_key(config, title, url)) {
        transcode::stream_key_identifies(
            record.url->0,
            transcode::mode_for(config, record.title->0),
            url,
            transcode::mode_for(config, title),
        );
    }
}

/// Every way in which a request can go is one for a stream that is passed through, and every way
/// in which a transcoder can go is one for a stream that is transcoded.
pub proof fn outcomes_fit_their_steps(step: RunStep, status: u16)
    ensures
        StartOutcome::NoAnswer.fits(step) <==> step is StartPassthrough,
        StartOutcome::Answered(status).fits(step) <==> step is StartPassthrough,
        StartOutcome::NotRunning.fits(step) <==> step is StartTranscoded,
        StartOutcome::Running.fits(step) <==> step is StartTranscoded,
        step.starts() <==> step is StartPassthrough || step is StartTranscoded,
{
}

/// A request is answered well just if there is an answer and it is neither a client's nor a
/// server's error; a transcoder has started just if it runs.
pub proof fn what_counts_as_started(status: u16)
    ensures
        !StartOutcome::NoAnswer.started(),
        !StartOutcome::NotRunning.started(),
        StartOutcome::Running.started(),
        StartOutcome::Answered(status).started() <==> status / 100 != 4 && status / 100 != 5,
{
}

/// A channel that is asked for is already streamed just if its URL is, transcoded the same way.
pub proof fn restart_only_on_another_source(
    record: Record,
    config: AppConfig,
    title: Seq<char>,
    url: Seq<char>,
    prewarm: bool,
    steps: Seq<RunStep>,
)
    requires
        record.consistent(config),
        run_leads_to(record, config, title, url, prewarm, steps),
    ensures
        steps.len() == 0 <==> record.url == Some(url) && transcode::mode_for(
            config,
            record.title->0,
        ) == transcode::mode_for(config, title),
{
    if record.key == Some(channel_key(config, title, url)) {
        transcode::stream_key_identifies(
            record.url->0,
            transcode::mode_for(config, record.title->0),
            url,
            transcode::mode_for(config, title),
        );
    }
}

/// Asking for a channel a second time changes nothing and starts nothing.
pub proof fn asking_again_changes_nothing(
    record: Record,
    config: AppConfig,
    title: Seq<char>,
    url: Seq<char>,
    prewarm: bool,
    steps: Seq<RunStep>,
)
    requires
        run_leads_to(record.after_run(config, title, url), config, title, url, prewarm, steps),
    ensures
        steps.len() == 0,
        record.after_run(config, title, url).after_run(config, title, url) == record.after_run(
            config,
            title,
            url,
        ),
{
}

/// What a prewarm starts waits for its first consumer, what a consumer's request starts does not,
/// and a consumer that asks for the prewarmed channel is attached without a restart.
pub proof fn prewarmed_stream_awaits_its_consumer(
    record: Record,
    config: AppConfig,
    title: Seq<char>,
    url: Seq<char>,
    prewarm: bool,
    started: Seq<RunStep>,
    attached: Seq<RunStep>,
)
    requires
        run_leads_to(record, config, title, url, prewarm, started),
        run_leads_to(record.after_run(config, title, url), config, title, url, false, attached),
    ensures
        started.len() > 0 ==> started.last().waits() == prewarm,
        attached.len() == 0,
{
}

/// A channel that fails to start leaves nothing streamed. What is reported follows from the
/// channel: that the transcoder did not start where it is transcoded, else that the request
/// failed.
pub proof fn failed_start_is_reported(
    record: Record,
    config: AppConfig,
    title: Seq<char>,
    url: Seq<char>,
    prewarm: bool,
    steps: Seq<RunStep>,
)
    requires
        run_leads_to(record, config, title, url, prewarm, steps),
        steps.len() > 0,
    ensures
        steps.last().starts(),
        record.after_run(config, title, url).after_end(steps.last().key()) == idle(),
        steps.last().error() == (if transcode::mode_for(config, title).enabled() {
            ProxyError::TranscoderStart
        } else {
            ProxyError::UpstreamRequest
        }),
        steps.last().error().message_chars() == (if transcode::mode_for(config, title).enabled() {
            "failed to start transcoder"@
        } else {
            "failed to start upstream request"@
        }),
        steps.last().error().status() == 502,
{
}

/// The end of a stream that another one has replaced does not touch the other one.
pub proof fn replaced_stream_ends_unnoticed(
    record: Record,
    config: AppConfig,
    title: Seq<char>,
    url: Seq<char>,
    ended: Seq<char>,
)
    requires
        ended != channel_key(config, title, url),
    ensures
        record.after_run(config, title, url).after_end(ended) == record.after_run(
            config,
            title,
            url,
        ),
{
}

/// The cancellation tokens of upstream connections, numbered in the order in which they are
/// made: the one that is held, and those of started connections that are not cancelled.
pub struct Connections {
    pub held: int,
    pub open: Set<int>,
}

impl Connections {
    /// A token is held, and no connection was started with it.
    pub open spec fn at_start() -> Self {
        Connections { held: 0, open: Set::empty() }
    }

    /// What taking a step does.
    pub open spec fn after(self, step: RunStep) -> Self {
        match step {
            RunStep::CancelActive => Connections {
                held: self.held,
                open: self.open.remove(self.held),
            },
            RunStep::HoldNewToken => Connections { held: self.held + 1, open: self.open },
            _ => Connections { held: self.held, open: self.open.insert(self.held) },
        }
    }

    /// What taking several steps does.
    pub open spec fn after_all(self, steps: Seq<RunStep>) -> Self
        decreases steps.len(),
    {
        if steps.len() == 0 {
            self
        } else {
            self.after_all(steps.drop_last()).after(steps.last())
        }
    }
}

/// The step at position `i` is not out of order: a new token is held only right after the old one
/// was cancelled, and a connection is started only right after that.
pub open spec fn in_order(steps: Seq<RunStep>, i: int) -> bool {
    &&& steps[i] is HoldNewToken ==> i >= 1 && steps[i - 1] is CancelActive
    &&& steps[i].starts() ==> i >= 2 && steps[i - 1] is HoldNewToken && steps[i - 2] is CancelActive
}

/// No step of a series is out of order.
pub open spec fn well_ordered(steps: Seq<RunStep>) -> bool {
    forall|i: int| 0 <= i < steps.len() ==> #[trigger] in_order(steps, i)
}

/// The steps that requests for channels lead to, request after request, are well ordered, also
/// where the last one, the start, fails and counts as not taken.
pub proof fn requests_are_well_ordered(
    earlier: Seq<RunStep>,
    record: Record,
    config: AppConfig,
    title: Seq<char>,
    url: Seq<char>,
    prewarm: bool,
    steps: Seq<RunStep>,
)
    requires
        well_ordered(earlier),
        run_leads_to(record, config, title, url, prewarm, steps),
    ensures
        well_ordered(Seq::<RunStep>::empty()),
        well_ordered(earlier + steps),
        steps.len() > 0 ==> well_ordered(earlier + steps.drop_last()),
{
    let all = earlier + steps;
    let n = earlier.len() as int;
    assert forall|i: int| 0 <= i < all.len() implies #[trigger] in_order(all, i) by {
        if i < n {
            assert(in_order(earlier, i));
        } else {
            assert(all[n] == steps[0] && all[n + 1] == steps[1] && all[n + 2] == steps[2]);
        }
    }
    if steps.len() > 0 {
        lemma_fewer_steps(all);
        assert(all.drop_last() =~= earlier + steps.drop_last());
    }
}

/// Steps that come before well-ordered steps are well ordered too.
proof fn lemma_fewer_steps(steps: Seq<RunStep>)
    requires
        well_ordered(steps),
        steps.len() > 0,
    ensures
        well_ordered(steps.drop_last()),
{
    let before = steps.drop_last();
    assert forall|i: int| 0 <= i < before.len() implies #[trigger] in_order(before, i) by {
        assert(in_order(steps, i));
    }
}

/// No connection goes on but one that was started with the token that is held, and after that
/// token was cancelled none does.
proof fn lemma_open_connections(steps: Seq<RunStep>)
    requires
        well_ordered(steps),
    ensures
        ({
            let now = Connections::at_start().after_all(steps);
            &&& forall|t: int| #[trigger] now.open.contains(t) ==> t == now.held
            &&& steps.len() > 0 && steps.last() is CancelActive ==> forall|t: int|
                !(#[trigger] now.open.contains(t))
        }),
    decreases steps.len(),
{
    if steps.len() > 0 {
        let n = steps.len() as int;
        lemma_fewer_steps(steps);
        let before = steps.drop_last();
        let earlier = Connections::at_start().after_all(before);
        let now = earlier.after(steps.last());
        lemma_open_connections(before);
        assert(in_order(steps, n - 1));
        if n >= 2 {
            assert(before.last() == steps[n - 2]);
        }
        assert forall|t: int| #[trigger] now.open.contains(t) implies t == now.held by {
            assert(earlier.open.contains(t) || t == earlier.held);
        }
    }
}

/// Whatever is asked for, and however often, at most one upstream connection was started and not
/// told to stop: after every single step, none but one that was started with the token that is
/// held.
pub proof fn never_two_connections(steps: Seq<RunStep>)
    requires
        well_ordered(steps),
    ensures
        ({
            let now = Connections::at_start().after_all(steps);
            &&& now.open.subset_of(set![now.held])
            &&& now.open.len() <= 1
        }),
{
    let now = Connections::at_start().after_all(steps);
    lemma_open_connections(steps);
    vstd::set_lib::lemma_len_subset(now.open, set![now.held]);
}

/// When a channel is to start, what was streamed before has been told to stop: should the start
/// fail, no connection goes on.
pub proof fn failed_start_resumes_nothing(
    earlier: Seq<RunStep>,
    record: Record,
    config: AppConfig,
    title: Seq<char>,
    url: Seq<char>,
    prewarm: bool,
    steps: Seq<RunStep>,
)
    requires
        well_ordered(earlier),
        run_leads_to(record, config, title, url, prewarm, steps),
        steps.len() > 0,
    ensures
        Connections::at_start().after_all(earlier + steps.drop_last()).open == Set::<int>::empty(),
{
    requests_are_well_ordered(earlier, record, config, title, url, prewarm, steps);
    let taken = earlier + steps.drop_last();
    lemma_fewer_steps(taken);
    let cancelled = taken.drop_last();
    assert(cancelled.last() == steps[0]);
    lemma_open_connections(cancelled);
    let going_on = Connections::at_start().after_all(cancelled).open;
    assert(taken.last() == steps[1]);
    assert(Connections::at_start().after_all(taken).open == going_on);
    assert forall|t: int| !(#[trigger] going_on.contains(t)) by {}
    assert(going_on =~= Set::<int>::empty());
}

} // verus!
