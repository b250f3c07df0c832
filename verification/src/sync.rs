//! One playback state that all clients share, and what a request does to it.
use vstd::prelude::*;

use crate::channels;
use crate::http::OK;
use crate::percent;
use crate::state::AppState;
use crate::text;

verus! {

/// The playback state that all clients share.
#[derive(Debug)]
pub struct SyncState {
    pub active_channel_url: Option<String>,
    pub active_channel_name: Option<String>,
    pub is_playing: bool,
    pub updated_at: u64,
    pub updated_by: String,
}

/// The playback state with its texts as characters.
pub struct SyncView {
    pub active_channel_url: Option<Seq<char>>,
    pub active_channel_name: Option<Seq<char>>,
    pub is_playing: bool,
    pub updated_at: u64,
    pub updated_by: Seq<char>,
}

impl View for SyncState {
    type V = SyncView;

    open spec fn view(&self) -> SyncView {
        SyncView {
            active_channel_url: text::text_of(self.active_channel_url),
            active_channel_name: text::text_of(self.active_channel_name),
            is_playing: self.is_playing,
            updated_at: self.updated_at,
            updated_by: self.updated_by@,
        }
    }
}

impl Clone for SyncState {
    fn clone(&self) -> (r: Self)
        ensures
            r == *self,
    {
        SyncState {
            active_channel_url: self.active_channel_url.clone(),
            active_channel_name: self.active_channel_name.clone(),
            is_playing: self.is_playing,
            updated_at: self.updated_at,
            updated_by: self.updated_by.clone(),
        }
    }
}

impl Default for SyncState {
    fn default() -> (r: Self)
        ensures
            r@ == (SyncView {
                active_channel_url: None,
                active_channel_name: None,
                is_playing: false,
                updated_at: 0,
                updated_by: seq![],
            }),
    {
        SyncState {
            active_channel_url: None,
            active_channel_name: None,
            is_playing: false,
            updated_at: 0,
            updated_by: String::new(),
        }
    }
}

/// What a client that subscribes says of itself.
#[derive(Debug)]
pub struct SyncQuery {
    pub client_id: Option<String>,
}

/// What a client asks all others to do.
#[derive(Debug)]
pub struct SyncUpdateRequest {
    pub active_channel_url: Option<String>,
    pub active_channel_name: Option<String>,
    pub is_playing: Option<bool>,
    pub client_id: String,
}

/// What a client that stops playback says of itself.
#[derive(Debug)]
pub struct SyncDeleteQuery {
    pub client_id: Option<String>,
}

/// A channel URL is not the active one.
pub open spec fn channel_changes(state: SyncView, url: Seq<char>) -> bool {
    state.active_channel_url != Some(url)
}

/// Whether the given channel URL differs from the active channel: with no active channel, every
/// URL does.
pub fn is_channel_change(state: &AppState, channel_url: &str) -> (r: bool)
    ensures
        r == channel_changes(state.sync_state@, channel_url@),
        state.sync_state.active_channel_url is None ==> r,
        state.sync_state.active_channel_url matches Some(u) ==> r == (u@ != channel_url@),
{
    match &state.sync_state.active_channel_url {
        Some(current_url) => !text::same_text(current_url.as_str(), channel_url),
        None => true,
    }
}

/// The state after an update: playing unless said otherwise, where there is a channel.
pub open spec fn updated(
    url: Option<Seq<char>>,
    name: Option<Seq<char>>,
    is_playing: Option<bool>,
    client_id: Seq<char>,
    now_millis: u128,
) -> SyncView {
    SyncView {
        active_channel_url: url,
        active_channel_name: name,
        is_playing: match is_playing {
            Some(playing) => playing,
            None => url is Some,
        },
        updated_at: (now_millis % 0x1_0000_0000_0000_0000) as u64,
        updated_by: client_id,
    }
}

/// The state after playback was stopped.
pub open spec fn stopped(client_id: Seq<char>, now_millis: u128) -> SyncView {
    updated(None, None, Some(false), client_id, now_millis)
}

/// Replaces the shared state and returns what to broadcast. `now_millis` is the time since the
/// Unix epoch; its low 64 bits are kept.
pub fn update_sync_state(
    state: &mut AppState,
    channel_url: Option<String>,
    channel_name: Option<String>,
    is_playing: Option<bool>,
    client_id: &str,
    now_millis: u128,
) -> (r: SyncState)
    ensures
        r@ == updated(
            text::text_of(channel_url),
            text::text_of(channel_name),
            is_playing,
            client_id@,
            now_millis,
        ),
        r.active_channel_url == channel_url,
        r.active_channel_name == channel_name,
        is_playing matches Some(playing) ==> r.is_playing == playing,
        is_playing is None ==> r.is_playing == channel_url is Some,
        r.updated_at == now_millis % 0x1_0000_0000_0000_0000,
        r.updated_by@ == client_id@,
        final(state).sync_state == r,
        final(state).config == old(state).config,
        final(state).channels == old(state).channels,
        final(state).channel_order == old(state).channel_order,
        final(state).upstream_manager == old(state).upstream_manager,
        old(state).consistent() ==> final(state).consistent(),
{
    let playing: bool = match is_playing {
        Some(playing) => playing,
        None => channel_url.is_some(),
    };
    let new_state = SyncState {
        active_channel_url: channel_url,
        active_channel_name: channel_name,
        is_playing: playing,
        updated_at: (now_millis % 0x1_0000_0000_0000_0000) as u64,
        updated_by: client_id.to_owned(),
    };
    state.sync_state = new_state.clone();
    new_state
}

/// Stops playback and returns what to broadcast.
pub fn clear_sync_state(state: &mut AppState, client_id: &str, now_millis: u128) -> (r: SyncState)
    ensures
        r@ == stopped(client_id@, now_millis),
        r.active_channel_url is None,
        r.active_channel_name is None,
        !r.is_playing,
        r.updated_at == now_millis % 0x1_0000_0000_0000_0000,
        r.updated_by@ == client_id@,
        final(state).sync_state == r,
        final(state).config == old(state).config,
        final(state).channels == old(state).channels,
        final(state).channel_order == old(state).channel_order,
        final(state).upstream_manager == old(state).upstream_manager,
        old(state).consistent() ==> final(state).consistent(),
{
    update_sync_state(state, None, None, Some(false), client_id, now_millis)
}

/// After an update to a channel, that channel is no change and every other one is.
pub proof fn update_sets_the_channel(
    url: Seq<char>,
    name: Option<Seq<char>>,
    is_playing: Option<bool>,
    client_id: Seq<char>,
    now_millis: u128,
    other: Seq<char>,
)
    ensures
        channel_changes(updated(Some(url), name, is_playing, client_id, now_millis), other) <==> other
            != url,
{
}

/// After playback was stopped nothing plays and every channel is a change.
pub proof fn stop_forgets_the_channel(client_id: Seq<char>, now_millis: u128, url: Seq<char>)
    ensures
        !stopped(client_id, now_millis).is_playing,
        channel_changes(stopped(client_id, now_millis), url),
{
}

/// The new state is what the client sent: the channel, its name and who sent it, as they are, and
/// the time, as long as it fits.
pub proof fn clients_are_told_what_was_sent(
    url: Option<Seq<char>>,
    name: Option<Seq<char>>,
    is_playing: Option<bool>,
    client_id: Seq<char>,
    now_millis: u128,
)
    ensures
        ({
            let told = updated(url, name, is_playing, client_id, now_millis);
            &&& told.active_channel_url == url
            &&& told.active_channel_name == name
            &&& told.updated_by == client_id
            &&& told.updated_at == now_millis % 0x1_0000_0000_0000_0000
            &&& now_millis <= u64::MAX ==> told.updated_at == now_millis
        }),
{
}

/// A client that says whether playback is on is believed, whatever the channel. Where it leaves
/// that out, playback is on just if there is a channel.
pub proof fn playing_is_what_was_said(
    url: Option<Seq<char>>,
    name: Option<Seq<char>>,
    playing: bool,
    client_id: Seq<char>,
    now_millis: u128,
)
    ensures
        updated(url, name, Some(playing), client_id, now_millis).is_playing == playing,
        updated(url, name, None, client_id, now_millis).is_playing <==> url is Some,
{
}

/// A stop names who stopped, and leaves no channel and no name of one.
pub proof fn stop_names_who_stopped(client_id: Seq<char>, now_millis: u128)
    ensures
        stopped(client_id, now_millis).active_channel_url is None,
        stopped(client_id, now_millis).active_channel_name is None,
        stopped(client_id, now_millis).updated_by == client_id,
        now_millis <= u64::MAX ==> stopped(client_id, now_millis).updated_at == now_millis,
{
}

/// The text up to the first slash.
pub open spec fn up_to_slash(s: Seq<char>) -> Seq<char> {
    match text::position_of(s, "/"@) {
        Some(i) => s.take(i),
        None => s,
    }
}

/// What stands in a URL behind the first `/channel/`, up to the next slash.
pub open spec fn channel_segment(url: Seq<char>) -> Option<Seq<char>> {
    match text::position_of(url, "/channel/"@) {
        Some(i) => {
            let segment = up_to_slash(url.skip(i + 9));
            if segment.len() > 0 {
                Some(segment)
            } else {
                None
            }
        },
        None => None,
    }
}

/// The title that a channel URL names: its segment decoded, or nothing where that is not UTF-8.
pub open spec fn title_in_url(url: Seq<char>) -> Option<Seq<char>> {
    match channel_segment(url) {
        Some(segment) => Some(
            match percent::decoded_text(segment) {
                Some(title) => title,
                None => seq![],
            },
        ),
        None => None,
    }
}

/// The title in a URL such as `http://proxy:2727/channel/my-title`.
pub fn extract_channel_title(url: &str) -> (r: Option<String>)
    ensures
        text::text_of(r) == title_in_url(url@),
{
    proof {
        reveal_strlit("/channel/");
    }
    let chars: Vec<char> = text::chars_of(url);
    let len: usize = chars.len();
    match text::find_text(&chars, &text::chars_of("/channel/")) {
        Some(pos) => {
            let rest: &str = url.substring_char(pos + 9, len);
            assert(rest@ =~= url@.skip(pos + 9));
            let rest_chars: Vec<char> = text::chars_of(rest);
            let title: &str = match text::find_text(&rest_chars, &text::chars_of("/")) {
                Some(end) => {
                    assert(rest@.subrange(0, end as int) =~= rest@.take(end as int));
                    rest.substring_char(0, end)
                },
                None => rest,
            };
            if title.is_empty() {
                None
            } else {
                match percent::decode(title) {
                    Some(text) => Some(text),
                    None => Some(String::new()),
                }
            }
        },
        None => None,
    }
}

/// The name of a client that gives none.
pub open spec fn client_name(client_id: Option<Seq<char>>) -> Seq<char> {
    match client_id {
        Some(id) => id,
        None => "unknown"@,
    }
}

/// A client that gives its name goes by it, whatever it is, and every other one goes by one and
/// the same name.
pub proof fn clients_go_by_the_name_they_give(id: Seq<char>)
    ensures
        client_name(Some(id)) == id,
        client_name(None) == "unknown"@,
{
}

fn client_id_or_unknown(client_id: Option<String>) -> (r: String)
    ensures
        r@ == client_name(text::text_of(client_id)),
{
    match client_id {
        Some(id) => id,
        None => "unknown".to_owned(),
    }
}

/// A subscription: who subscribed, and the state to send at once.
pub struct Subscription {
    pub client_id: String,
    pub current: SyncState,
}

/// How often, in seconds, a subscriber is sent a comment to keep the connection open.
pub const KEEP_ALIVE_SECS: u64 = 15;

/// The comment that keeps a connection open.
pub fn keep_alive_text() -> (r: &'static str)
    ensures
        r@ == "ping"@,
{
    "ping"
}

/// A client subscribes: it is sent the current state first.
pub fn sync_sse(state: &AppState, query: SyncQuery) -> (r: Subscription)
    ensures
        r.client_id@ == client_name(text::text_of(query.client_id)),
        query.client_id matches Some(id) ==> r.client_id@ == id@,
        query.client_id is None ==> r.client_id@ == "unknown"@,
        r.current == state.sync_state,
{
    Subscription {
        client_id: client_id_or_unknown(query.client_id),
        current: state.sync_state.clone(),
    }
}

/// The channel to start ahead of its first consumer when clients are sent to a URL: the one that
/// the URL names, where the playlist has it and its upstream is not the one that runs.
pub open spec fn prewarm_choice(state: AppState, url: Option<Seq<char>>) -> Option<Seq<char>> {
    match url {
        Some(u) => match title_in_url(u) {
            Some(title) => {
                let table = channels::channel_table(state.channels);
                if table.dom().contains(title) && state.upstream_manager@.url != Some(
                    table[title].url@,
                ) {
                    Some(title)
                } else {
                    None
                }
            },
            None => None,
        },
        None => None,
    }
}

/// What an update leads to.
pub struct SyncUpdated {
    /// The title of the channel to prewarm, if any.
    pub prewarm: Option<String>,
    /// What to broadcast.
    pub broadcast: SyncState,
    pub status: u16,
}

fn channel_to_prewarm(state: &AppState, url: &Option<String>) -> (r: Option<String>)
    ensures
        text::text_of(r) == prewarm_choice(*state, text::text_of(*url)),
{
    match url {
        Some(url) => {
            match extract_channel_title(url.as_str()) {
                Some(title) => {
                    match channels::get_channel(&state.channels, title.as_str()) {
                        Some(info) => {
                            if state.upstream_manager.streams_url(info.url.as_str()) {
                                None
                            } else {
                                Some(title)
                            }
                        },
                        None => None,
                    }
                },
                None => None,
            }
        },
        None => None,
    }
}

/// A client sets the state for everyone. The channel to prewarm is chosen before the state
/// changes.
pub fn sync_update(state: &mut AppState, payload: SyncUpdateRequest, now_millis: u128) -> (r:
    SyncUpdated)
    ensures
        text::text_of(r.prewarm) == prewarm_choice(
            *old(state),
            text::text_of(payload.active_channel_url),
        ),
        r.broadcast@ == updated(
            text::text_of(payload.active_channel_url),
            text::text_of(payload.active_channel_name),
            payload.is_playing,
            payload.client_id@,
            now_millis,
        ),
        r.broadcast.active_channel_url == payload.active_channel_url,
        r.broadcast.active_channel_name == payload.active_channel_name,
        payload.is_playing matches Some(playing) ==> r.broadcast.is_playing == playing,
        payload.is_playing is None ==> r.broadcast.is_playing == payload.active_channel_url is Some,
        r.broadcast.updated_by@ == payload.client_id@,
        r.broadcast.updated_at == now_millis % 0x1_0000_0000_0000_0000,
        payload.active_channel_url is None ==> r.prewarm is None,
        r.prewarm matches Some(title) ==> channels::channel_table(
            old(state).channels,
        ).dom().contains(title@),
        r.status == 200,
        r.status == OK,
        final(state).sync_state == r.broadcast,
        final(state).config == old(state).config,
        final(state).channels == old(state).channels,
        final(state).channel_order == old(state).channel_order,
        final(state).upstream_manager == old(state).upstream_manager,
        old(state).consistent() ==> final(state).consistent(),
{
    let prewarm: Option<String> = channel_to_prewarm(&*state, &payload.active_channel_url);
    let broadcast: SyncState = update_sync_state(
        state,
        payload.active_channel_url,
        payload.active_channel_name,
        payload.is_playing,
        payload.client_id.as_str(),
        now_millis,
    );
    SyncUpdated { prewarm, broadcast, status: OK }
}

/// What a stop leads to.
pub struct SyncStopped {
    /// What to broadcast.
    pub broadcast: SyncState,
    pub status: u16,
}

/// A client stops playback for everyone.
pub fn sync_delete(state: &mut AppState, query: SyncDeleteQuery, now_millis: u128) -> (r:
    SyncStopped)
    ensures
        r.broadcast@ == stopped(client_name(text::text_of(query.client_id)), now_millis),
        r.broadcast.active_channel_url is None,
        r.broadcast.active_channel_name is None,
        !r.broadcast.is_playing,
        r.broadcast.updated_at == now_millis % 0x1_0000_0000_0000_0000,
        query.client_id matches Some(id) ==> r.broadcast.updated_by@ == id@,
        query.client_id is None ==> r.broadcast.updated_by@ == "unknown"@,
        r.status == 200,
        r.status == OK,
        final(state).sync_state == r.broadcast,
        final(state).config == old(state).config,
        final(state).channels == old(state).channels,
        final(state).channel_order == old(state).channel_order,
        final(state).upstream_manager == old(state).upstream_manager,
        old(state).consistent() ==> final(state).consistent(),
{
    let client_id: String = client_id_or_unknown(query.client_id);
    let broadcast: SyncState = clear_sync_state(state, client_id.as_str(), now_millis);
    SyncStopped { broadcast, status: OK }
}

/// What is prewarmed is the channel that the URL names, just if the playlist has it and its
/// upstream is not the one that runs. Without a URL nothing is.
pub proof fn only_idle_channels_are_prewarmed(
    state: AppState,
    url: Option<Seq<char>>,
    title: Seq<char>,
)
    ensures
        prewarm_choice(state, url) == Some(title) <==> {
            &&& url is Some
            &&& title_in_url(url->0) == Some(title)
            &&& channels::channel_table(state.channels).dom().contains(title)
            &&& state.upstream_manager@.url != Some(
                channels::channel_table(state.channels)[title].url@,
            )
        },
        prewarm_choice(state, None) is None,
{
}

/// What stands in a URL behind `/channel/`, up to the next slash or to the end, is decoded, and
/// names the empty title where it does not decode. What comes before and behind does not matter,
/// as long as `/channel/` stands nowhere earlier.
pub proof fn what_stands_behind_channel_counts(
    before: Seq<char>,
    segment: Seq<char>,
    after: Seq<char>,
)
    requires
        segment.len() > 0,
        !segment.contains('/'),
        after.len() == 0 || after[0] == '/',
        forall|j: int|
            0 <= j < before.len() ==> !(#[trigger] text::occurs_at(
                before + "/channel/"@ + segment + after,
                "/channel/"@,
                j,
            )),
    ensures
        title_in_url(before + "/channel/"@ + segment + after) is Some,
        percent::decoded_text(segment) is Some ==> title_in_url(
            before + "/channel/"@ + segment + after,
        ) == percent::decoded_text(segment),
        percent::decoded_text(segment) is None ==> title_in_url(
            before + "/channel/"@ + segment + after,
        ) == Some(Seq::<char>::empty()),
{
    reveal_strlit("/channel/");
    reveal_strlit("/");
    let url = before + "/channel/"@ + segment + after;
    let n = before.len() as int;
    assert(url.subrange(n, n + 9) =~= "/channel/"@);
    assert(text::occurs_at(url, "/channel/"@, n));
    assert(text::first_occurrence(url, "/channel/"@, n));
    text::lemma_position_found(url, "/channel/"@, n);
    let rest = url.skip(n + 9);
    assert(rest =~= segment + after);
    assert forall|j: int| j < segment.len() implies !text::occurs_at(rest, "/"@, j) by {
        if text::occurs_at(rest, "/"@, j) {
            assert(rest.subrange(j, j + 1)[0] == rest[j]);
            assert(rest[j] == segment[j]);
            assert(segment.contains('/'));
        }
    }
    if after.len() > 0 {
        let e = segment.len() as int;
        assert(rest.subrange(e, e + 1) =~= "/"@);
        assert(text::occurs_at(rest, "/"@, e));
        text::lemma_position_found(rest, "/"@, e);
        assert(rest.take(e) =~= segment);
    } else {
        assert(rest =~= segment);
        text::lemma_position_absent(rest, "/"@);
    }
}

/// A URL with a percent-encoded title behind `/channel/` names that title, whatever characters it
/// is made of.
pub proof fn title_stands_behind_channel(before: Seq<char>, title: Seq<char>, after: Seq<char>)
    requires
        title.len() > 0,
        after.len() == 0 || after[0] == '/',
        forall|j: int|
            0 <= j < before.len() ==> !(#[trigger] text::occurs_at(
                before + "/channel/"@ + percent::encoded_text(title) + after,
                "/channel/"@,
                j,
            )),
    ensures
        title_in_url(before + "/channel/"@ + percent::encoded_text(title) + after) == Some(title),
{
    percent::lemma_encoded_chars(vstd::utf8::encode_utf8(title));
    assert(vstd::utf8::encode_utf8(title).len() > 0);
    percent::decoding_undoes_encoding(title);
    what_stands_behind_channel_counts(before, percent::encoded_text(title), after);
}

/// A URL without `/channel/` names no title, and neither does one with nothing between it and the
/// end or the next slash.
pub proof fn other_urls_name_nothing(url: Seq<char>, before: Seq<char>, after: Seq<char>)
    requires
        !text::has_text(url, "/channel/"@),
        after.len() == 0 || after[0] == '/',
        forall|j: int|
            0 <= j < before.len() ==> !(#[trigger] text::occurs_at(
                before + "/channel/"@ + after,
                "/channel/"@,
                j,
            )),
    ensures
        title_in_url(url) is None,
        title_in_url(before + "/channel/"@ + after) is None,
{
    reveal_strlit("/channel/");
    reveal_strlit("/");
    text::lemma_position_absent(url, "/channel/"@);
    let bare = before + "/channel/"@ + after;
    let n = before.len() as int;
    assert(bare.subrange(n, n + 9) =~= "/channel/"@);
    assert(text::first_occurrence(bare, "/channel/"@, n));
    text::lemma_position_found(bare, "/channel/"@, n);
    let rest = bare.skip(n + 9);
    assert(rest =~= after);
    if after.len() > 0 {
        assert(rest.subrange(0, 1) =~= "/"@);
        assert(text::first_occurrence(rest, "/"@, 0));
        text::lemma_position_found(rest, "/"@, 0);
    } else {
        assert forall|j: int| !#[trigger] text::occurs_at(rest, "/"@, j) by {}
        text::lemma_position_absent(rest, "/"@);
    }
}

} // verus!
