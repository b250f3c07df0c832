//! The requests that the proxy answers.
use bytes::Bytes;
use vstd::prelude::*;
use vstd::utf8::*;

use crate::auth::{Access, EmailRules};
use crate::channels;
use crate::error::ProxyError;
use crate::http;
use crate::http::{Reply, ReplyHead, BAD_GATEWAY, OK};
use crate::percent;
use crate::playlist;
use crate::proxy;
use crate::proxy::{RunStep, StreamTarget};
use crate::state::{AppConfig, AppState};
use crate::text;

verus! {

/// What can be asked for.
#[derive(Debug, Clone, Copy)]
pub enum Route {
    Playlist,
    Channel,
    Prewarm,
    Guest,
    GuestPlaylist,
    Sync,
}

impl Route {
    /// The path that leads to it. A title stands for `{title}`.
    pub open spec fn path_chars(self) -> Seq<char> {
        match self {
            Route::Playlist => "/"@,
            Route::Channel => "/channel/{title}"@,
            Route::Prewarm => "/prewarm/{title}"@,
            Route::Guest => "/guest"@,
            Route::GuestPlaylist => "/guest/playlist"@,
            Route::Sync => "/sync"@,
        }
    }

    /// Who may ask for it: what can switch channels by title, and the playlist of channels, is
    /// for the administrator.
    pub open spec fn needs(self) -> Access {
        match self {
            Route::Playlist | Route::Channel | Route::Prewarm => Access::Admin,
            Route::Guest | Route::GuestPlaylist => Access::Guest,
            Route::Sync => Access::Everyone,
        }
    }

    pub fn path(self) -> (r: &'static str)
        ensures
            r@ == self.path_chars(),
    {
        match self {
            Route::Playlist => "/",
            Route::Channel => "/channel/{title}",
            Route::Prewarm => "/prewarm/{title}",
            Route::Guest => "/guest",
            Route::GuestPlaylist => "/guest/playlist",
            Route::Sync => "/sync",
        }
    }

    pub fn access(self) -> (r: Access)
        ensures
            r == self.needs(),
            self is Playlist || self is Channel || self is Prewarm ==> r is Admin,
            self is Guest || self is GuestPlaylist ==> r is Guest,
            self is Sync ==> r is Everyone,
    {
        match self {
            Route::Playlist => Access::Admin,
            Route::Channel => Access::Admin,
            Route::Prewarm => Access::Admin,
            Route::Guest => Access::Guest,
            Route::GuestPlaylist => Access::Guest,
            Route::Sync => Access::Everyone,
        }
    }
}

/// The address to listen on: the port on every interface.
pub fn listen_address(config: &AppConfig) -> (r: String)
    ensures
        r@ == "0.0.0.0:"@ + text::decimal(config.port as nat),
        text::occurs_at(r@, "0.0.0.0:"@, 0),
        text::number_read(r@.skip("0.0.0.0:"@.len() as int)) == config.port,
{
    proof {
        text::decimal_reads_back(config.port as nat);
        let written = "0.0.0.0:"@ + text::decimal(config.port as nat);
        assert(written.subrange(0, "0.0.0.0:"@.len() as int) =~= "0.0.0.0:"@);
        assert(written.skip("0.0.0.0:"@.len() as int) =~= text::decimal(config.port as nat));
    }
    let mut out: String = "0.0.0.0:".to_owned();
    text::push_decimal(&mut out, config.port as u64);
    out
}

/// What is announced once the proxy listens.
pub fn listen_message(config: &AppConfig) -> (r: String)
    ensures
        r@ == "Starting to listen in port "@ + text::decimal(config.port as nat),
{
    let mut out: String = "Starting to listen in port ".to_owned();
    text::push_decimal(&mut out, config.port as u64);
    out
}

/// The name under which the client reached the proxy: what the host header says, else the local
/// machine and the port.
pub open spec fn host_for(host: Option<Seq<char>>, port: u16) -> Seq<char> {
    match host {
        Some(name) => name,
        None => "localhost:"@ + text::decimal(port as nat),
    }
}

/// The headers of a playlist.
pub open spec fn playlist_headers() -> Seq<(Seq<char>, Seq<char>)> {
    seq![("Content-Type"@, "application/octet-stream"@), ("Cache-Control"@, "no-cache"@)]
}

/// The headers of a stream.
pub open spec fn stream_headers() -> Seq<(Seq<char>, Seq<char>)> {
    seq![("Content-Type"@, "video/mp2t"@), ("Access-Control-Allow-Origin"@, "*"@)]
}

fn playlist_reply(body: Bytes) -> (r: Reply)
    ensures
        r.status == 200,
        r.status == OK,
        http::header_list(r.headers@) == playlist_headers(),
        r.headers@.len() == 2,
        r.headers@[0].0@ == "Content-Type"@,
        r.headers@[0].1@ == "application/octet-stream"@,
        r.headers@[1].0@ == "Cache-Control"@,
        r.headers@[1].1@ == "no-cache"@,
        r.body == body,
{
    let mut headers: Vec<(String, String)> = Vec::new();
    headers.push(("Content-Type".to_owned(), "application/octet-stream".to_owned()));
    headers.push(("Cache-Control".to_owned(), "no-cache".to_owned()));
    assert(http::header_list(headers@) =~= playlist_headers());
    Reply { status: OK, headers, body }
}

/// The head of an answer that streams a channel.
pub fn stream_reply() -> (r: ReplyHead)
    ensures
        r.status == 200,
        r.status == OK,
        http::header_list(r.headers@) == stream_headers(),
        r.headers@.len() == 2,
        r.headers@[0].0@ == "Content-Type"@,
        r.headers@[0].1@ == "video/mp2t"@,
        r.headers@[1].0@ == "Access-Control-Allow-Origin"@,
        r.headers@[1].1@ == "*"@,
{
    let mut headers: Vec<(String, String)> = Vec::new();
    headers.push(("Content-Type".to_owned(), "video/mp2t".to_owned()));
    headers.push(("Access-Control-Allow-Origin".to_owned(), "*".to_owned()));
    assert(http::header_list(headers@) =~= stream_headers());
    ReplyHead { status: OK, headers }
}

/// The playlist, with URLs that lead back to the proxy by the name that the client used. `host`
/// is the raw value of the host header, if the request carries one.
pub fn load(state: &AppState, host: Option<&[u8]>) -> (r: Reply)
    ensures
        r.status == 200,
        r.status == OK,
        http::header_list(r.headers@) == playlist_headers(),
        r.headers@.len() == 2,
        r.headers@[0].0@ == "Content-Type"@,
        r.headers@[0].1@ == "application/octet-stream"@,
        r.headers@[1].0@ == "Cache-Control"@,
        r.headers@[1].1@ == "no-cache"@,
        http::bytes_held(r.body) == encode_utf8(
            playlist::playlist_chars(
                channels::channel_table(state.channels),
                text::texts_of(state.channel_order@),
                host_for(http::header_value_chars(http::header_bytes(host)), state.config.port),
            ),
        ),
        http::header_value_chars(http::header_bytes(host)) matches Some(name) ==> http::bytes_held(
            r.body,
        ) == encode_utf8(
            playlist::playlist_chars(
                channels::channel_table(state.channels),
                text::texts_of(state.channel_order@),
                name,
            ),
        ),
        http::header_value_chars(http::header_bytes(host)) is None ==> http::bytes_held(r.body)
            == encode_utf8(
            playlist::playlist_chars(
                channels::channel_table(state.channels),
                text::texts_of(state.channel_order@),
                "localhost:"@ + text::decimal(state.config.port as nat),
            ),
        ),
{
    let name: String = match http::header_text(host) {
        Some(name) => name,
        None => {
            let mut out: String = "localhost:".to_owned();
            text::push_decimal(&mut out, state.config.port as u64);
            out
        },
    };
    playlist_reply(playlist::serialize_playlist(state, name.as_str()).unwrap())
}

/// The channel that a title leads to.
pub fn proxy(state: &AppState, title: String) -> (r: Result<StreamTarget, ProxyError>)
    ensures
        ({
            let table = channels::channel_table(state.channels);
            if table.dom().contains(title@) {
                r matches Ok(target) && target.title@ == title@ && target.url@
                    == table[title@].url@
            } else {
                r matches Err(ProxyError::ChannelNotFound { title: t }) && t@ == title@
            }
        }),
        r matches Ok(target) ==> target.title == title,
        r is Ok <==> channels::channel_table(state.channels).dom().contains(title@),
{
    match channels::get_channel(&state.channels, title.as_str()) {
        Some(info) => Ok(StreamTarget { title, url: info.url }),
        None => Err(ProxyError::ChannelNotFound { title }),
    }
}

/// The channel that guests see: the one that is streamed, if any.
pub open spec fn guest_target(record: proxy::Record) -> Option<(Seq<char>, Seq<char>)> {
    match (record.title, record.url) {
        (Some(title), Some(url)) => Some((title, url)),
        _ => None,
    }
}

/// The channel that a guest is attached to: the one that is streamed. Guests start nothing.
pub fn guest(state: &AppState) -> (r: Result<StreamTarget, ProxyError>)
    ensures
        match guest_target(state.upstream_manager@) {
            Some((title, url)) => r matches Ok(target) && target.title@ == title && target.url@
                == url,
            None => r matches Err(ProxyError::GuestError),
        },
        r is Ok <==> state.upstream_manager.stream_title is Some
            && state.upstream_manager.stream_url is Some,
        r matches Ok(target) ==> state.upstream_manager.stream_title == Some(target.title)
            && state.upstream_manager.stream_url == Some(target.url),
        r matches Err(error) ==> error is GuestError,
{
    match (&state.upstream_manager.stream_title, &state.upstream_manager.stream_url) {
        (Some(title), Some(url)) => Ok(StreamTarget { title: title.clone(), url: url.clone() }),
        _ => Err(ProxyError::GuestError),
    }
}

/// The playlist of guests. `host` is the raw value of the host header, if the request carries
/// one.
pub fn guest_playlist(host: Option<&[u8]>) -> (r: Reply)
    ensures
        r.status == 200,
        r.status == OK,
        http::header_list(r.headers@) == playlist_headers(),
        r.headers@.len() == 2,
        r.headers@[0].0@ == "Content-Type"@,
        r.headers@[0].1@ == "application/octet-stream"@,
        r.headers@[1].0@ == "Cache-Control"@,
        r.headers@[1].1@ == "no-cache"@,
        http::bytes_held(r.body) == encode_utf8(
            playlist::guest_playlist_chars(
                match http::header_value_chars(http::header_bytes(host)) {
                    Some(name) => name,
                    None => "localhost"@,
                },
            ),
        ),
        http::header_value_chars(http::header_bytes(host)) matches Some(name) ==> http::bytes_held(
            r.body,
        ) == encode_utf8(playlist::guest_playlist_chars(name)),
        http::header_value_chars(http::header_bytes(host)) is None ==> http::bytes_held(r.body)
            == encode_utf8(playlist::guest_playlist_chars("localhost"@)),
{
    let name: String = match http::header_text(host) {
        Some(name) => name,
        None => "localhost".to_owned(),
    };
    playlist_reply(playlist::serialize_guest_playlist(name.as_str()).unwrap())
}

/// What a prewarm that went well is answered with.
#[derive(Debug)]
pub struct PrewarmResponse {
    pub success: bool,
    pub message: String,
}

/// The answer to a prewarm of a channel, by how it went.
pub fn prewarm_channel(title: &str, prewarmed: Result<(), String>) -> (r: Result<
    PrewarmResponse,
    u16,
>)
    ensures
        r is Ok <==> prewarmed is Ok,
        r matches Err(status) ==> status == 502,
        match prewarmed {
            Ok(()) => r matches Ok(response) && response.success && response.message@
                == "Stream prewarmed: "@ + title@,
            Err(_) => r matches Err(status) && status == BAD_GATEWAY,
        },
{
    match prewarmed {
        Ok(()) => {
            let mut message: String = "Stream prewarmed: ".to_owned();
            message.append(title);
            Ok(PrewarmResponse { success: true, message })
        },
        Err(_) => Err(BAD_GATEWAY),
    }
}

/// A guest never switches channels: being attached to the channel that guests see leaves what is
/// streamed as it is and starts nothing.
pub proof fn guests_start_nothing(
    record: proxy::Record,
    config: AppConfig,
    title: Seq<char>,
    url: Seq<char>,
    steps: Seq<RunStep>,
)
    requires
        record.consistent(config),
        guest_target(record) == Some((title, url)),
        proxy::run_leads_to(record, config, title, url, false, steps),
    ensures
        steps.len() == 0,
        record.after_run(config, title, url) == record,
{
}

/// Guests are let in just while a channel is streamed: after one was asked for they see its URL,
/// and after its stream ended nothing.
pub proof fn guests_follow_the_stream(
    record: proxy::Record,
    config: AppConfig,
    title: Seq<char>,
    url: Seq<char>,
)
    requires
        record.consistent(config),
    ensures
        guest_target(record) is None <==> record == proxy::idle(),
        guest_target(record.after_run(config, title, url)) matches Some((_, u)) && u == url,
        guest_target(
            record.after_run(config, title, url).after_end(
                proxy::channel_key(config, title, url),
            ),
        ) is None,
{
    proxy::record_stays_consistent(record, config, title, url, seq![]);
}

/// The name that the client used is taken as it is, whatever port is configured. A client that
/// gives none is told the local machine with the port, which reads back from the name.
pub proof fn host_is_what_the_client_used(name: Seq<char>, port: u16)
    ensures
        host_for(Some(name), port) == name,
        text::occurs_at(host_for(None, port), "localhost:"@, 0),
        text::number_read(host_for(None, port).skip("localhost:"@.len() as int)) == port,
        host_for(None, port).len() > "localhost:"@.len(),
{
    let fallback = host_for(None, port);
    let n = "localhost:"@.len() as int;
    assert(fallback.subrange(0, n) =~= "localhost:"@);
    assert(fallback.skip(n) =~= text::decimal(port as nat));
    text::decimal_reads_back(port as nat);
}

/// Where the client used a name, and nothing that is shown holds a line break, every line of the
/// playlist that it is sent begins with `#` or with `http://`, that very name and `/channel/`.
pub proof fn urls_use_the_clients_name(
    table: Map<Seq<char>, channels::Info>,
    order: Seq<Seq<char>>,
    name: Seq<char>,
    port: u16,
    p: int,
)
    requires
        !name.contains('\n'),
        forall|i: int|
            0 <= i < order.len() && table.dom().contains(#[trigger] order[i])
                ==> playlist::one_line_each(table[order[i]]),
        playlist::line_starts(
            playlist::playlist_chars(table, order, host_for(Some(name), port)),
            p,
        ),
    ensures
        ({
            let served = playlist::playlist_chars(table, order, host_for(Some(name), port));
            served[p] == '#' || text::occurs_at(served, "http://"@ + name + "/channel/"@, p)
        }),
{
    let served = playlist::playlist_chars(table, order, host_for(Some(name), port));
    if served[p] != '#' {
        playlist::every_url_leads_back_to_the_proxy(table, order, name, p);
    }
}

/// Guests see a channel just if both its title and its URL are known, and then these.
pub proof fn guests_see_title_and_url(record: proxy::Record, title: Seq<char>, url: Seq<char>)
    ensures
        guest_target(record) == Some((title, url)) <==> record.title == Some(title) && record.url
            == Some(url),
        guest_target(record) is None <==> record.title is None || record.url is None,
{
}

/// Outside the environment `local` only the administrator gets the playlist of channels, a channel
/// by its title or a prewarm; guests on the list also get what is streamed and their playlist; and
/// the shared playback state is open to all.
pub proof fn routes_let_in_the_right_people(
    route: Route,
    rules: EmailRules,
    login: Option<Seq<char>>,
)
    requires
        rules.env != "local"@,
    ensures
        route is Playlist || route is Channel || route is Prewarm ==> (rules.decision(
            route.needs(),
            login,
        ) is Ok <==> login == Some(rules.admin_email)),
        route is Guest || route is GuestPlaylist ==> (rules.decision(route.needs(), login) is Ok
            <==> login is Some && (login->0 == rules.admin_email || rules.whitelist.contains(
            login->0,
        ))),
        route is Sync ==> rules.decision(route.needs(), login) is Ok,
        rules.decision(route.needs(), login) matches Err(status) ==> status == (if login is None {
            401u16
        } else {
            403u16
        }),
{
}

/// The URLs in the playlists lead to the routes that serve them: those of channels to the route of
/// channels, with the encoded title in the place of its parameter, and that of guests to the route
/// of guests. No two routes share a path.
pub proof fn playlist_urls_lead_to_routes(host: Seq<char>, title: Seq<char>, a: Route, b: Route)
    ensures
        Route::Channel.path_chars() == "/channel/"@ + "{title}"@,
        Route::Prewarm.path_chars() == "/prewarm/"@ + "{title}"@,
        playlist::proxied_url(host, title) == "http://"@ + host + Route::Channel.path_chars().take(
            "/channel/"@.len() as int,
        ) + percent::encoded_text(title),
        text::has_text(
            playlist::guest_playlist_chars(host),
            "http://"@ + host + Route::Guest.path_chars() + "\n"@,
        ),
        a.path_chars() == b.path_chars() ==> a == b,
{
    reveal_strlit("/");
    reveal_strlit("/channel/");
    reveal_strlit("/prewarm/");
    reveal_strlit("{title}");
    reveal_strlit("/channel/{title}");
    reveal_strlit("/prewarm/{title}");
    reveal_strlit("/guest");
    reveal_strlit("/guest/playlist");
    reveal_strlit("/sync");
    assert(Route::Channel.path_chars() =~= "/channel/"@ + "{title}"@);
    assert(Route::Prewarm.path_chars() =~= "/prewarm/"@ + "{title}"@);
    assert(Route::Channel.path_chars().take(9) =~= "/channel/"@);
    let served = playlist::guest_playlist_chars(host);
    let line = "http://"@ + host + "/guest"@ + "\n"@;
    let at = served.len() - line.len();
    assert(served.subrange(at, at + line.len()) =~= line);
    assert(text::occurs_at(served, line, at));
    if a.path_chars() == b.path_chars() {
        assert(Route::Playlist.path_chars().len() == 1);
        assert(Route::Channel.path_chars().len() == 16 && Route::Channel.path_chars()[1] == 'c');
        assert(Route::Prewarm.path_chars().len() == 16 && Route::Prewarm.path_chars()[1] == 'p');
        assert(Route::Guest.path_chars().len() == 6);
        assert(Route::GuestPlaylist.path_chars().len() == 15);
        assert(Route::Sync.path_chars().len() == 5);
        assert(a.path_chars().len() == b.path_chars().len());
        assert(a.path_chars()[1] == b.path_chars()[1]);
    }
}

} // verus!
