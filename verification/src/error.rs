//! What can go wrong, the status it is answered with and the message it is reported with.
use vstd::prelude::*;

use crate::http::{BAD_GATEWAY, INTERNAL_SERVER_ERROR, NOT_FOUND};

verus! {

/// Why a stream could not be served.
#[derive(Debug)]
pub enum ProxyError {
    ChannelNotFound { title: String },
    UpstreamRequest,
    UpstreamStream,
    TranscoderStart,
    DownstreamSend,
    GuestError,
}

impl ProxyError {
    /// The status that answers the error.
    pub open spec fn status(self) -> u16 {
        match self {
            ProxyError::ChannelNotFound { .. } => NOT_FOUND,
            ProxyError::UpstreamRequest => BAD_GATEWAY,
            ProxyError::UpstreamStream => BAD_GATEWAY,
            ProxyError::TranscoderStart => BAD_GATEWAY,
            ProxyError::DownstreamSend => INTERNAL_SERVER_ERROR,
            ProxyError::GuestError => NOT_FOUND,
        }
    }

    /// The message that reports the error.
    pub open spec fn message_chars(self) -> Seq<char> {
        match self {
            ProxyError::ChannelNotFound { title } => "channel not found: "@ + title@,
            ProxyError::UpstreamRequest => "failed to start upstream request"@,
            ProxyError::UpstreamStream => "upstream stream error"@,
            ProxyError::TranscoderStart => "failed to start transcoder"@,
            ProxyError::DownstreamSend => "broadcast channel error"@,
            ProxyError::GuestError => "no active stream"@,
        }
    }

    pub fn status_code(&self) -> (r: u16)
        ensures
            r == self.status(),
            self is ChannelNotFound || self is GuestError ==> r == 404,
            self is UpstreamRequest || self is UpstreamStream || self is TranscoderStart ==> r
                == 502,
            self is DownstreamSend ==> r == 500,
    {
        match self {
            ProxyError::ChannelNotFound { .. } => NOT_FOUND,
            ProxyError::UpstreamRequest => BAD_GATEWAY,
            ProxyError::UpstreamStream => BAD_GATEWAY,
            ProxyError::TranscoderStart => BAD_GATEWAY,
            ProxyError::DownstreamSend => INTERNAL_SERVER_ERROR,
            ProxyError::GuestError => NOT_FOUND,
        }
    }

    pub fn message(&self) -> (r: String)
        ensures
            r@ == self.message_chars(),
            self matches ProxyError::ChannelNotFound { title } ==> r@ == "channel not found: "@
                + title@,
            self is UpstreamRequest ==> r@ == "failed to start upstream request"@,
            self is UpstreamStream ==> r@ == "upstream stream error"@,
            self is TranscoderStart ==> r@ == "failed to start transcoder"@,
            self is DownstreamSend ==> r@ == "broadcast channel error"@,
            self is GuestError ==> r@ == "no active stream"@,
    {
        match self {
            ProxyError::ChannelNotFound { title } => {
                let mut out: String = "channel not found: ".to_owned();
                out.append(title.as_str());
                out
            },
            ProxyError::UpstreamRequest => "failed to start upstream request".to_owned(),
            ProxyError::UpstreamStream => "upstream stream error".to_owned(),
            ProxyError::TranscoderStart => "failed to start transcoder".to_owned(),
            ProxyError::DownstreamSend => "broadcast channel error".to_owned(),
            ProxyError::GuestError => "no active stream".to_owned(),
        }
    }
}

/// Why the playlist could not be served.
#[derive(Debug)]
pub enum UpstreamFetchError {
    UpstreamRequest,
    BodyRead,
    ResponseBuild,
}

impl UpstreamFetchError {
    /// The status that answers the error.
    pub open spec fn status(self) -> u16 {
        match self {
            UpstreamFetchError::UpstreamRequest => BAD_GATEWAY,
            UpstreamFetchError::BodyRead => INTERNAL_SERVER_ERROR,
            UpstreamFetchError::ResponseBuild => INTERNAL_SERVER_ERROR,
        }
    }

    /// The message that reports the error.
    pub open spec fn message_chars(self) -> Seq<char> {
        match self {
            UpstreamFetchError::UpstreamRequest => "failed to request m3u playlist"@,
            UpstreamFetchError::BodyRead => "failed to read m3u body"@,
            UpstreamFetchError::ResponseBuild => "failed to construct m3u response"@,
        }
    }

    pub fn status_code(&self) -> (r: u16)
        ensures
            r == self.status(),
            self is UpstreamRequest ==> r == 502,
            self is BodyRead || self is ResponseBuild ==> r == 500,
    {
        match self {
            UpstreamFetchError::UpstreamRequest => BAD_GATEWAY,
            UpstreamFetchError::BodyRead => INTERNAL_SERVER_ERROR,
            UpstreamFetchError::ResponseBuild => INTERNAL_SERVER_ERROR,
        }
    }

    pub fn message(&self) -> (r: String)
        ensures
            r@ == self.message_chars(),
            self is UpstreamRequest ==> r@ == "failed to request m3u playlist"@,
            self is BodyRead ==> r@ == "failed to read m3u body"@,
            self is ResponseBuild ==> r@ == "failed to construct m3u response"@,
    {
        match self {
            UpstreamFetchError::UpstreamRequest => "failed to request m3u playlist".to_owned(),
            UpstreamFetchError::BodyRead => "failed to read m3u body".to_owned(),
            UpstreamFetchError::ResponseBuild => "failed to construct m3u response".to_owned(),
        }
    }
}

/// What is not there is answered with 404, what the upstream or the transcoder failed at with 502,
/// and what the proxy failed at with 500.
pub proof fn errors_tell_whose_fault_it_is(stream: ProxyError, fetch: UpstreamFetchError)
    ensures
        stream.status() == 404 <==> stream is ChannelNotFound || stream is GuestError,
        stream.status() == 502 <==> stream is UpstreamRequest || stream is UpstreamStream
            || stream is TranscoderStart,
        stream.status() == 500 <==> stream is DownstreamSend,
        fetch.status() == 502 <==> fetch is UpstreamRequest,
        fetch.status() == 500 <==> fetch is BodyRead || fetch is ResponseBuild,
{
}

/// The message about a channel that is not there ends with its title.
pub proof fn missing_channel_is_named(title: String)
    ensures
        (ProxyError::ChannelNotFound { title }).message_chars().skip(
            (ProxyError::ChannelNotFound { title }).message_chars().len() - title@.len(),
        ) == title@,
        (ProxyError::ChannelNotFound { title }).message_chars().len() == title@.len() + 19,
{
    reveal_strlit("channel not found: ");
    let message = (ProxyError::ChannelNotFound { title }).message_chars();
    assert(message.skip(message.len() - title@.len()) =~= title@);
}

} // verus!
