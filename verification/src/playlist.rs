//! The playlist: taking the upstream's in, and serving it with URLs that lead back to the proxy.
use bytes::Bytes;
use dashmap::DashMap;
use std::io::Error;
use vstd::prelude::*;
use vstd::utf8::*;

use crate::channels;
use crate::channels::Info;
use crate::http;
use crate::percent;
use crate::proxy;
use crate::proxy::UpstreamManager;
use crate::state::{AppConfig, AppState};
use crate::sync;
use crate::sync::SyncState;
use crate::text;

verus! {

/// `std::io::Error`, which a playlist is never answered with.
#[verifier::external_type_specification]
#[verifier::external_body]
pub struct ExIoError(Error);

/// How many updates of the shared playback state wait for a slow client.
pub const SYNC_CHANNEL_CAPACITY: usize = 16;

/// How many chunks of a stream wait for a slow consumer: what is configured, and 64 or more.
pub fn stream_channel_capacity(config: &AppConfig) -> (r: usize)
    ensures
        r == (if config.stream_broadcast_capacity < 64 {
            64
        } else {
            config.stream_broadcast_capacity
        }),
        r >= 64,
        r >= config.stream_broadcast_capacity,
        r == 64 || r == config.stream_broadcast_capacity,
{
    if config.stream_broadcast_capacity < 64 {
        64
    } else {
        config.stream_broadcast_capacity
    }
}

/// The titles of playlist entries, in their order.
pub open spec fn titles(entries: Seq<Info>) -> Seq<Seq<char>> {
    entries.map_values(|info: Info| info.title@)
}

/// The channels by title: of entries with the same title the last counts.
pub open spec fn table_of(entries: Seq<Info>) -> Map<Seq<char>, Info>
    decreases entries.len(),
{
    if entries.len() == 0 {
        Map::empty()
    } else {
        table_of(entries.drop_last()).insert(entries.last().title@, entries.last())
    }
}

/// The state at the start, from the entries of the upstream playlist.
pub fn load_playlist(config: AppConfig, entries: Vec<Info>) -> (r: AppState)
    ensures
        r.config == config,
        channels::channel_table(r.channels) == table_of(entries@),
        text::texts_of(r.channel_order@) == titles(entries@),
        r.channel_order@.len() == entries@.len(),
        forall|i: int|
            0 <= i < entries@.len() ==> (#[trigger] r.channel_order@[i])@ == entries@[i].title@,
        forall|i: int|
            0 <= i < entries@.len() ==> channels::channel_table(r.channels).dom().contains(
                (#[trigger] entries@[i]).title@,
            ),
        r.upstream_manager.stream_url is None,
        r.upstream_manager.stream_title is None,
        r.upstream_manager.stream_key is None,
        !r.sync_state.is_playing,
        r.sync_state.active_channel_url is None,
        r.upstream_manager@ == proxy::idle(),
        r.sync_state@ == (sync::SyncView {
            active_channel_url: None,
            active_channel_name: None,
            is_playing: false,
            updated_at: 0,
            updated_by: seq![],
        }),
        r.consistent(),
{
    let mut table: DashMap<String, Info> = channels::new_channels();
    let mut channel_order: Vec<String> = Vec::new();
    let mut i: usize = 0;
    assert(text::texts_of(channel_order@) =~= titles(entries@.take(0)));
    while i < entries.len()
        invariant
            i <= entries@.len(),
            channels::channel_table(table) == table_of(entries@.take(i as int)),
            text::texts_of(channel_order@) == titles(entries@.take(i as int)),
        decreases entries@.len() - i,
    {
        let info: &Info = &entries[i];
        channels::insert_channel(&mut table, info.title.clone(), info.clone());
        let ghost earlier = text::texts_of(channel_order@);
        channel_order.push(info.title.clone());
        i = i + 1;
        assert(entries@.take(i as int).drop_last() =~= entries@.take(i - 1));
        assert(text::texts_of(channel_order@) =~= earlier.push(info.title@));
        assert(titles(entries@.take(i as int)) =~= titles(entries@.take(i - 1)).push(info.title@));
    }
    assert(entries@.take(i as int) =~= entries@);
    proof {
        assert forall|title: Seq<char>| {
            &&& #[trigger] table_of(entries@).dom().contains(title) <==> titles(entries@).contains(
                title,
            )
            &&& table_of(entries@).dom().contains(title) ==> table_of(entries@)[title].title@
                == title
        } by {
            last_entry_counts(entries@, title);
        }
        assert forall|i: int| 0 <= i < entries@.len() implies (#[trigger] channel_order@[i])@
            == entries@[i].title@ by {
            assert(text::texts_of(channel_order@)[i] == titles(entries@)[i]);
        }
        assert forall|i: int| 0 <= i < entries@.len() implies table_of(entries@).dom().contains(
            (#[trigger] entries@[i]).title@,
        ) by {
            assert(titles(entries@)[i] == entries@[i].title@);
            assert(titles(entries@).contains(entries@[i].title@));
        }
        assert(text::texts_of(channel_order@).len() == titles(entries@).len());
    }
    AppState {
        config,
        channels: table,
        channel_order,
        upstream_manager: UpstreamManager::new(),
        sync_state: SyncState::default(),
    }
}

/// The URL under which the proxy serves a channel.
pub open spec fn proxied_url(host: Seq<char>, title: Seq<char>) -> Seq<char> {
    "http://"@ + host + "/channel/"@ + percent::encoded_text(title)
}

/// The first line of a channel, without its end.
pub open spec fn info_line(info: Info) -> Seq<char> {
    "#EXTINF:-1 "@ + "tvg-id=\""@ + info.tvg.id@ + "\" tvg-name=\""@ + info.tvg.name@
        + "\" tvg-logo=\""@ + info.logo@ + "\" group-title=\""@ + info.category@ + "\","@
        + info.title@
}

/// The two lines of a channel.
pub open spec fn entry_chars(info: Info, host: Seq<char>) -> Seq<char> {
    info_line(info) + "\n"@ + proxied_url(host, info.title@) + "\n"@
}

/// The lines of the channels, in playlist order. A title that leads to no channel has none.
pub open spec fn entries_chars(
    table: Map<Seq<char>, Info>,
    order: Seq<Seq<char>>,
    host: Seq<char>,
) -> Seq<char>
    decreases order.len(),
{
    if order.len() == 0 {
        seq![]
    } else {
        entries_chars(table, order.drop_last(), host) + if table.dom().contains(order.last()) {
            entry_chars(table[order.last()], host)
        } else {
            seq![]
        }
    }
}

/// The playlist that the proxy serves.
pub open spec fn playlist_chars(
    table: Map<Seq<char>, Info>,
    order: Seq<Seq<char>>,
    host: Seq<char>,
) -> Seq<char> {
    "#EXTM3U\n"@ + entries_chars(table, order, host)
}

/// Writes the two lines of a channel behind `out`.
fn push_entry(out: &mut String, info: &Info, host: &str)
    ensures
        final(out)@ == old(out)@ + entry_chars(*info, host@),
{
    let encoded: String = percent::encode(info.title.as_str());
    out.append("#EXTINF:-1 ");
    out.append("tvg-id=\"");
    out.append(info.tvg.id.as_str());
    out.append("\" tvg-name=\"");
    out.append(info.tvg.name.as_str());
    out.append("\" tvg-logo=\"");
    out.append(info.logo.as_str());
    out.append("\" group-title=\"");
    out.append(info.category.as_str());
    out.append("\",");
    out.append(info.title.as_str());
    out.append("\n");
    out.append("http://");
    out.append(host);
    out.append("/channel/");
    out.append(encoded.as_str());
    out.append("\n");
    assert(out@ =~= old(out)@ + entry_chars(*info, host@));
}

/// The playlist with URLs that lead back to the proxy under the name `host`.
pub fn serialize_playlist(state: &AppState, host: &str) -> (r: Result<Bytes, Error>)
    ensures
        r matches Ok(body) && http::bytes_held(body) == encode_utf8(
            playlist_chars(
                channels::channel_table(state.channels),
                text::texts_of(state.channel_order@),
                host@,
            ),
        ),
{
    let ghost table = channels::channel_table(state.channels);
    let ghost order = text::texts_of(state.channel_order@);
    let mut out: String = "#EXTM3U\n".to_owned();
    let mut i: usize = 0;
    assert(out@ =~= "#EXTM3U\n"@ + entries_chars(table, order.take(0), host@));
    while i < state.channel_order.len()
        invariant
            i <= state.channel_order@.len(),
            table == channels::channel_table(state.channels),
            order == text::texts_of(state.channel_order@),
            out@ == "#EXTM3U\n"@ + entries_chars(table, order.take(i as int), host@),
        decreases state.channel_order@.len() - i,
    {
        let title: &String = &state.channel_order[i];
        assert(order.take(i + 1).drop_last() =~= order.take(i as int));
        assert(order.take(i + 1).last() == title@);
        match channels::get_channel(&state.channels, title.as_str()) {
            Some(info) => {
                push_entry(&mut out, &info, host);
            },
            None => {},
        }
        i = i + 1;
        assert(out@ =~= "#EXTM3U\n"@ + entries_chars(table, order.take(i as int), host@));
    }
    assert(order.take(i as int) =~= order);
    Ok(http::bytes_from_text(out))
}

/// The playlist of guests: the one stream that runs.
pub open spec fn guest_playlist_chars(host: Seq<char>) -> Seq<char> {
    "#EXTM3U\n"@ + "#EXTINF:-1 "@
        + "tvg-id=\"live\" tvg-name=\"live\" tvg-logo=\"\" group-title=\"Guest\",live"@ + "\n"@
        + "http://"@ + host + "/guest"@ + "\n"@
}

/// The playlist of guests under the name `host`.
pub fn serialize_guest_playlist(host: &str) -> (r: Result<Bytes, Error>)
    ensures
        r matches Ok(body) && http::bytes_held(body) == encode_utf8(guest_playlist_chars(host@)),
{
    let mut out: String = "#EXTM3U\n".to_owned();
    out.append("#EXTINF:-1 ");
    out.append("tvg-id=\"live\" tvg-name=\"live\" tvg-logo=\"\" group-title=\"Guest\",live");
    out.append("\n");
    out.append("http://");
    out.append(host);
    out.append("/guest");
    out.append("\n");
    assert(out@ =~= guest_playlist_chars(host@));
    Ok(http::bytes_from_text(out))
}

/// The name of a host cannot be mistaken for the path of a channel: between the slashes that
/// surround it in a URL there is no `/channel/`.
pub open spec fn plain_host(host: Seq<char>) -> bool {
    !text::has_text("//"@ + host + "/"@, "/channel/"@)
}

/// In the URL of a channel, `/channel/` stands first where the proxy put it.
proof fn lemma_channel_path_first(host: Seq<char>, title: Seq<char>)
    requires
        plain_host(host),
    ensures
        text::first_occurrence(proxied_url(host, title), "/channel/"@, 7 + host.len() as int),
{
    reveal_strlit("http://");
    reveal_strlit("/channel/");
    reveal_strlit("//");
    reveal_strlit("/");
    let url = proxied_url(host, title);
    let pat = "/channel/"@;
    let around = "//"@ + host + "/"@;
    let p = 7 + host.len() as int;
    assert(url.subrange(p, p + 9) =~= pat);
    assert forall|j: int| j < p implies !text::occurs_at(url, pat, j) by {
        if text::occurs_at(url, pat, j) {
            assert forall|k: int| 0 <= k < 9 implies url[j + k] == #[trigger] pat[k] by {
                assert(url.subrange(j, j + 9)[k] == url[j + k]);
            }
            assert(url[j] == pat[0]);
            assert(j >= 5);
            assert(url[p] == '/');
            if j + 8 > p {
                assert(url[j + (p - j)] == pat[p - j]);
                assert(false);
            }
            assert(around.subrange(j - 5, j - 5 + 9) =~= pat) by {
                assert forall|k: int| 0 <= k < 9 implies around[j - 5 + k] == #[trigger] pat[k] by {
                    assert(around[j - 5 + k] == url[j + k]);
                }
            }
            assert(text::occurs_at(around, pat, j - 5));
        }
    }
}

/// The URL that the playlist gives for a channel names that channel's title, whatever characters
/// the title is made of. It has to have some, and the host has to be told from a channel's path.
pub proof fn playlist_url_names_its_channel(host: Seq<char>, title: Seq<char>)
    requires
        title.len() > 0,
        plain_host(host),
    ensures
        sync::title_in_url(proxied_url(host, title)) == Some(title),
{
    reveal_strlit("http://");
    reveal_strlit("/channel/");
    reveal_strlit("/");
    let url = proxied_url(host, title);
    let encoded = percent::encoded_text(title);
    lemma_channel_path_first(host, title);
    text::lemma_position_found(url, "/channel/"@, 7 + host.len() as int);
    assert(url.skip(7 + host.len() as int + 9) =~= encoded);
    percent::lemma_encoded_chars(encode_utf8(title));
    assert(!text::has_text(encoded, "/"@)) by {
        assert forall|i: int| !text::occurs_at(encoded, "/"@, i) by {
            if text::occurs_at(encoded, "/"@, i) {
                assert(encoded.subrange(i, i + 1)[0] == encoded[i]);
                assert(encoded.contains('/'));
            }
        }
    }
    text::lemma_position_absent(encoded, "/"@);
    assert(encode_utf8(title).len() > 0);
    percent::decoding_undoes_encoding(title);
}

/// Sending clients to a channel by the URL that the playlist gives for it prewarms that channel,
/// unless its upstream is the one that runs.
pub proof fn playlist_url_prewarms_its_channel(state: AppState, host: Seq<char>, title: Seq<char>)
    requires
        title.len() > 0,
        plain_host(host),
        channels::channel_table(state.channels).dom().contains(title),
    ensures
        sync::prewarm_choice(state, Some(proxied_url(host, title))) == (
        if state.upstream_manager@.url == Some(channels::channel_table(state.channels)[title].url@) {
            None::<Seq<char>>
        } else {
            Some(title)
        }),
{
    playlist_url_names_its_channel(host, title);
}

/// Every title of the upstream playlist leads to a channel, the last one with that title, and no
/// other title leads to any.
pub proof fn last_entry_counts(entries: Seq<Info>, title: Seq<char>)
    ensures
        table_of(entries).dom().contains(title) <==> titles(entries).contains(title),
        table_of(entries).dom().contains(title) ==> exists|j: int|
            0 <= j < entries.len() && table_of(entries)[title] == #[trigger] entries[j]
                && entries[j].title@ == title && forall|k: int|
                j < k < entries.len() ==> (#[trigger] entries[k]).title@ != title,
    decreases entries.len(),
{
    if entries.len() > 0 {
        let front = entries.drop_last();
        let n = entries.len() - 1;
        last_entry_counts(front, title);
        assert(titles(entries)[n] == entries[n].title@);
        if entries[n].title@ == title {
            assert(titles(entries).contains(title));
            assert(table_of(entries)[title] == entries[n]);
        } else {
            if titles(front).contains(title) {
                let i = choose|i: int| 0 <= i < front.len() && titles(front)[i] == title;
                assert(titles(entries)[i] == title);
                let j = choose|j: int|
                    0 <= j < front.len() && table_of(front)[title] == #[trigger] front[j]
                        && front[j].title@ == title && forall|k: int|
                        j < k < front.len() ==> (#[trigger] front[k]).title@ != title;
                assert(entries[j] == front[j]);
                assert forall|k: int| j < k < entries.len() implies (
                #[trigger] entries[k]).title@ != title by {
                    if k < n {
                        assert(front[k] == entries[k]);
                    }
                }
            }
            if titles(entries).contains(title) {
                let i = choose|i: int| 0 <= i < entries.len() && titles(entries)[i] == title;
                assert(titles(front)[i] == title);
            }
        }
    }
}

/// The lines of a list of channels, one after the other.
pub open spec fn all_entry_chars(entries: Seq<Info>, host: Seq<char>) -> Seq<char>
    decreases entries.len(),
{
    if entries.len() == 0 {
        seq![]
    } else {
        all_entry_chars(entries.drop_last(), host) + entry_chars(entries.last(), host)
    }
}

/// The lines depend on the channels that the listed titles lead to and on nothing else.
proof fn lemma_entries_chars_agree(
    table1: Map<Seq<char>, Info>,
    table2: Map<Seq<char>, Info>,
    order: Seq<Seq<char>>,
    host: Seq<char>,
)
    requires
        forall|i: int|
            #![trigger order[i]]
            0 <= i < order.len() ==> {
                &&& table1.dom().contains(order[i]) == table2.dom().contains(order[i])
                &&& table1.dom().contains(order[i]) ==> entry_chars(table1[order[i]], host)
                    == entry_chars(table2[order[i]], host)
            },
    ensures
        entries_chars(table1, order, host) == entries_chars(table2, order, host),
    decreases order.len(),
{
    if order.len() > 0 {
        assert forall|i: int| #![trigger order.drop_last()[i]] 0 <= i < order.drop_last().len() implies {
            &&& table1.dom().contains(order.drop_last()[i]) == table2.dom().contains(
                order.drop_last()[i],
            )
            &&& table1.dom().contains(order.drop_last()[i]) ==> entry_chars(
                table1[order.drop_last()[i]],
                host,
            ) == entry_chars(table2[order.drop_last()[i]], host)
        } by {
            assert(order.drop_last()[i] == order[i]);
        }
        lemma_entries_chars_agree(table1, table2, order.drop_last(), host);
        assert(order.last() == order[order.len() - 1]);
    }
}

/// No listed channel is left out: where every listed title leads to a channel, the playlist holds
/// the lines of each, in the order of the list.
pub proof fn every_listed_channel_is_served(
    table: Map<Seq<char>, Info>,
    order: Seq<Seq<char>>,
    host: Seq<char>,
)
    requires
        forall|i: int| 0 <= i < order.len() ==> table.dom().contains(#[trigger] order[i]),
    ensures
        playlist_chars(table, order, host) == "#EXTM3U\n"@ + all_entry_chars(
            order.map_values(|title: Seq<char>| table[title]),
            host,
        ),
{
    lemma_listed_channels(table, order, host);
}

proof fn lemma_listed_channels(
    table: Map<Seq<char>, Info>,
    order: Seq<Seq<char>>,
    host: Seq<char>,
)
    requires
        forall|i: int| 0 <= i < order.len() ==> table.dom().contains(#[trigger] order[i]),
    ensures
        entries_chars(table, order, host) == all_entry_chars(
            order.map_values(|title: Seq<char>| table[title]),
            host,
        ),
    decreases order.len(),
{
    let infos = order.map_values(|title: Seq<char>| table[title]);
    if order.len() > 0 {
        let front = order.drop_last();
        assert forall|i: int| 0 <= i < front.len() implies table.dom().contains(
            #[trigger] front[i],
        ) by {
            assert(front[i] == order[i]);
        }
        lemma_listed_channels(table, front, host);
        assert(front.map_values(|title: Seq<char>| table[title]) =~= infos.drop_last());
        assert(order.last() == order[order.len() - 1]);
        assert(infos.last() == table[order.last()]);
    }
}

/// No two entries have the same title.
pub open spec fn distinct_titles(entries: Seq<Info>) -> bool {
    forall|i: int, j: int|
        0 <= i < j < entries.len() ==> (#[trigger] entries[i]).title@ != (
        #[trigger] entries[j]).title@
}

/// A loaded playlist whose titles differ is served entry by entry in its original order.
pub proof fn served_in_original_order(entries: Seq<Info>, host: Seq<char>)
    requires
        distinct_titles(entries),
    ensures
        playlist_chars(table_of(entries), titles(entries), host) == "#EXTM3U\n"@ + all_entry_chars(
            entries,
            host,
        ),
{
    let table = table_of(entries);
    let order = titles(entries);
    assert forall|i: int| 0 <= i < order.len() implies table.dom().contains(#[trigger] order[i])
        && table[order[i]] == entries[i] by {
        last_entry_counts(entries, order[i]);
        assert(entries[i].title@ == order[i]);
    }
    every_listed_channel_is_served(table, order, host);
    assert(order.map_values(|title: Seq<char>| table[title]) =~= entries);
}

/// The served playlist tells nothing of where the upstreams are: channels that differ in their
/// upstream URLs alone give the same playlist.
pub proof fn upstream_urls_are_not_served(
    table1: Map<Seq<char>, Info>,
    table2: Map<Seq<char>, Info>,
    order: Seq<Seq<char>>,
    host: Seq<char>,
)
    requires
        table1.dom() == table2.dom(),
        forall|title: Seq<char>| #[trigger]
            table1.dom().contains(title) ==> {
                &&& table1[title].title@ == table2[title].title@
                &&& table1[title].logo@ == table2[title].logo@
                &&& table1[title].category@ == table2[title].category@
                &&& table1[title].tvg.id@ == table2[title].tvg.id@
                &&& table1[title].tvg.name@ == table2[title].tvg.name@
            },
    ensures
        playlist_chars(table1, order, host) == playlist_chars(table2, order, host),
{
    lemma_entries_chars_agree(table1, table2, order, host);
}

/// A line begins at position `p`.
pub open spec fn line_starts(s: Seq<char>, p: int) -> bool {
    0 <= p < s.len() && (p == 0 || s[p - 1] == '\n')
}

/// None of the texts that the playlist shows of a channel holds a line break.
pub open spec fn one_line_each(info: Info) -> bool {
    &&& !info.tvg.id@.contains('\n')
    &&& !info.tvg.name@.contains('\n')
    &&& !info.logo@.contains('\n')
    &&& !info.category@.contains('\n')
    &&& !info.title@.contains('\n')
}

/// At position `p` stands a line with the URL that the proxy serves a listed channel under.
pub open spec fn leads_back(
    s: Seq<char>,
    p: int,
    table: Map<Seq<char>, Info>,
    order: Seq<Seq<char>>,
    host: Seq<char>,
) -> bool {
    exists|i: int|
        0 <= i < order.len() && table.dom().contains(#[trigger] order[i]) && text::occurs_at(
            s,
            proxied_url(host, table[order[i]].title@) + "\n"@,
            p,
        )
}

/// The first line of a channel is one line and begins with `#`.
proof fn lemma_info_line(info: Info)
    requires
        one_line_each(info),
    ensures
        info_line(info).len() > 0,
        info_line(info)[0] == '#',
        !info_line(info).contains('\n'),
{
    reveal_strlit("#EXTINF:-1 ");
    reveal_strlit("tvg-id=\"");
    reveal_strlit("\" tvg-name=\"");
    reveal_strlit("\" tvg-logo=\"");
    reveal_strlit("\" group-title=\"");
    reveal_strlit("\",");
    let a = "#EXTINF:-1 "@ + "tvg-id=\""@;
    let b = a + info.tvg.id@;
    let c = b + "\" tvg-name=\""@;
    let d = c + info.tvg.name@;
    let e = d + "\" tvg-logo=\""@;
    let f = e + info.logo@;
    let g = f + "\" group-title=\""@;
    let h = g + info.category@;
    let i = h + "\","@;
    lemma_no_break("#EXTINF:-1 "@, "tvg-id=\""@);
    lemma_no_break(a, info.tvg.id@);
    lemma_no_break(b, "\" tvg-name=\""@);
    lemma_no_break(c, info.tvg.name@);
    lemma_no_break(d, "\" tvg-logo=\""@);
    lemma_no_break(e, info.logo@);
    lemma_no_break(f, "\" group-title=\""@);
    lemma_no_break(g, info.category@);
    lemma_no_break(h, "\","@);
    lemma_no_break(i, info.title@);
    assert(info_line(info)[0] == "#EXTINF:-1 "@[0]);
}

/// Two texts without a line break have none put together.
proof fn lemma_no_break(a: Seq<char>, b: Seq<char>)
    requires
        !a.contains('\n'),
        !b.contains('\n'),
    ensures
        !(a + b).contains('\n'),
{
    assert forall|k: int| 0 <= k < (a + b).len() implies (a + b)[k] != '\n' by {
        if k < a.len() {
            assert(a[k] == (a + b)[k]);
        } else {
            assert(b[k - a.len()] == (a + b)[k]);
        }
    }
}

/// The URL of a channel is one line.
proof fn lemma_url_line(host: Seq<char>, title: Seq<char>)
    requires
        !host.contains('\n'),
    ensures
        !proxied_url(host, title).contains('\n'),
{
    reveal_strlit("http://");
    reveal_strlit("/channel/");
    let encoded = percent::encoded_text(title);
    percent::lemma_encoded_chars(encode_utf8(title));
    assert(!encoded.contains('\n')) by {
        assert forall|k: int| 0 <= k < encoded.len() implies encoded[k] != '\n' by {}
    }
    lemma_no_break("http://"@, host);
    lemma_no_break("http://"@ + host, "/channel/"@);
    lemma_no_break("http://"@ + host + "/channel/"@, encoded);
}

/// A text that stands in another one still stands there when more is written behind.
proof fn lemma_occurs_in_longer(s: Seq<char>, more: Seq<char>, pat: Seq<char>, p: int)
    requires
        text::occurs_at(s, pat, p),
    ensures
        text::occurs_at(s + more, pat, p),
{
    assert((s + more).subrange(p, p + pat.len()) =~= s.subrange(p, p + pat.len()));
}

/// The playlist ends with a line break, and its lines begin with `#` or lead back.
proof fn lemma_lines(table: Map<Seq<char>, Info>, order: Seq<Seq<char>>, host: Seq<char>)
    requires
        !host.contains('\n'),
        forall|i: int|
            0 <= i < order.len() && table.dom().contains(#[trigger] order[i]) ==> one_line_each(
                table[order[i]],
            ),
    ensures
        ({
            let s = playlist_chars(table, order, host);
            &&& s.len() > 0 && s.last() == '\n'
            &&& forall|p: int| #[trigger]
                line_starts(s, p) ==> s[p] == '#' || leads_back(s, p, table, order, host)
        }),
    decreases order.len(),
{
    let s = playlist_chars(table, order, host);
    reveal_strlit("#EXTM3U\n");
    if order.len() == 0 {
        assert(s =~= "#EXTM3U\n"@);
    } else {
        let front = order.drop_last();
        let n = front.len() as int;
        let before = playlist_chars(table, front, host);
        assert forall|i: int|
            0 <= i < front.len() && table.dom().contains(#[trigger] front[i]) implies one_line_each(
            table[front[i]],
        ) by {
            assert(front[i] == order[i]);
        }
        lemma_lines(table, front, host);
        assert(order.last() == order[n]);
        let more = if table.dom().contains(order.last()) {
            entry_chars(table[order.last()], host)
        } else {
            seq![]
        };
        assert(s =~= before + more);
        if table.dom().contains(order[n]) {
            let info = table[order[n]];
            let line = info_line(info);
            let url = proxied_url(host, info.title@);
            lemma_info_line(info);
            lemma_url_line(host, info.title@);
            reveal_strlit("\n");
            assert(more =~= line + "\n"@ + url + "\n"@);
            let m = before.len() as int;
            let u = m + line.len() + 1;
            assert(s.subrange(u, u + url.len() + 1) =~= url + "\n"@);
            assert(text::occurs_at(s, url + "\n"@, u));
            assert(leads_back(s, u, table, order, host));
            assert forall|p: int| #[trigger] line_starts(s, p) implies s[p] == '#' || leads_back(
                s,
                p,
                table,
                order,
                host,
            ) by {
                if p < m {
                    lemma_line_kept(before, more, p, table, order, host);
                } else if m < p && p < u {
                    assert(s[p - 1] == line[p - 1 - m]);
                    assert(line.contains(s[p - 1]));
                } else if p > u {
                    assert(s[p - 1] == url[p - 1 - u]);
                    assert(url.contains(s[p - 1]));
                } else if p == m {
                    assert(s[p] == line[0]);
                }
            }
        } else {
            assert(s =~= before);
            assert forall|p: int| #[trigger] line_starts(s, p) implies s[p] == '#' || leads_back(
                s,
                p,
                table,
                order,
                host,
            ) by {
                lemma_line_kept(before, more, p, table, order, host);
            }
        }
    }
}

/// What holds of a line still holds when another channel is written behind.
proof fn lemma_line_kept(
    before: Seq<char>,
    more: Seq<char>,
    p: int,
    table: Map<Seq<char>, Info>,
    order: Seq<Seq<char>>,
    host: Seq<char>,
)
    requires
        order.len() > 0,
        p < before.len(),
        line_starts(before + more, p),
        forall|q: int| #[trigger]
            line_starts(before, q) ==> before[q] == '#' || leads_back(
                before,
                q,
                table,
                order.drop_last(),
                host,
            ),
    ensures
        (before + more)[p] == '#' || leads_back(before + more, p, table, order, host),
{
    assert(line_starts(before, p));
    if before[p] != '#' {
        let front = order.drop_last();
        let i = choose|i: int|
            0 <= i < front.len() && table.dom().contains(#[trigger] front[i]) && text::occurs_at(
                before,
                proxied_url(host, table[front[i]].title@) + "\n"@,
                p,
            );
        assert(order[i] == front[i]);
        lemma_occurs_in_longer(
            before,
            more,
            proxied_url(host, table[order[i]].title@) + "\n"@,
            p,
        );
    }
}

/// Where neither the host nor a listed channel's texts hold a line break, every line of the
/// playlist that does not begin with `#` is the URL under which the proxy serves a listed
/// channel. In particular it begins with `http://`, the host and `/channel/`.
pub proof fn every_url_leads_back_to_the_proxy(
    table: Map<Seq<char>, Info>,
    order: Seq<Seq<char>>,
    host: Seq<char>,
    p: int,
)
    requires
        !host.contains('\n'),
        forall|i: int|
            0 <= i < order.len() && table.dom().contains(#[trigger] order[i]) ==> one_line_each(
                table[order[i]],
            ),
        line_starts(playlist_chars(table, order, host), p),
        playlist_chars(table, order, host)[p] != '#',
    ensures
        leads_back(playlist_chars(table, order, host), p, table, order, host),
        text::occurs_at(
            playlist_chars(table, order, host),
            "http://"@ + host + "/channel/"@,
            p,
        ),
{
    let s = playlist_chars(table, order, host);
    lemma_lines(table, order, host);
    let i = choose|i: int|
        0 <= i < order.len() && table.dom().contains(#[trigger] order[i]) && text::occurs_at(
            s,
            proxied_url(host, table[order[i]].title@) + "\n"@,
            p,
        );
    let whole = proxied_url(host, table[order[i]].title@) + "\n"@;
    let prefix = "http://"@ + host + "/channel/"@;
    assert(whole.subrange(0, prefix.len() as int) =~= prefix);
    assert(s.subrange(p, p + prefix.len()) =~= s.subrange(p, p + whole.len()).subrange(
        0,
        prefix.len() as int,
    ));
}

/// The lines of a channel show what the upstream playlist says of it: each attribute under its own
/// name, the title at the end of the first line, and on the second line its URL at the proxy.
pub proof fn entry_shows_its_channel(info: Info, host: Seq<char>)
    ensures
        text::occurs_at(info_line(info), "#EXTINF:-1 "@, 0),
        text::has_text(info_line(info), "tvg-id=\""@ + info.tvg.id@ + "\""@),
        text::has_text(info_line(info), "tvg-name=\""@ + info.tvg.name@ + "\""@),
        text::has_text(info_line(info), "tvg-logo=\""@ + info.logo@ + "\""@),
        text::has_text(info_line(info), "group-title=\""@ + info.category@ + "\""@),
        text::occurs_at(
            info_line(info),
            "\","@ + info.title@,
            info_line(info).len() - info.title@.len() - 2,
        ),
        entry_chars(info, host).take(info_line(info).len() as int) == info_line(info),
        entry_chars(info, host).skip(info_line(info).len() as int) == "\n"@ + "http://"@ + host
            + "/channel/"@ + percent::encoded_text(info.title@) + "\n"@,
{
    reveal_strlit("#EXTINF:-1 ");
    reveal_strlit("tvg-id=\"");
    reveal_strlit("\" tvg-name=\"");
    reveal_strlit("tvg-name=\"");
    reveal_strlit("\" tvg-logo=\"");
    reveal_strlit("tvg-logo=\"");
    reveal_strlit("\" group-title=\"");
    reveal_strlit("group-title=\"");
    reveal_strlit("\",");
    reveal_strlit("\"");
    let line = info_line(info);
    let id = 11int;
    let name = id + 8 + info.tvg.id@.len() + 2;
    let logo = name + 10 + info.tvg.name@.len() + 2;
    let group = logo + 10 + info.logo@.len() + 2;
    let title = group + 13 + info.category@.len();
    assert(line.len() == title + 2 + info.title@.len());
    assert(line.subrange(0, 11) =~= "#EXTINF:-1 "@);
    let p = "tvg-id=\""@ + info.tvg.id@ + "\""@;
    assert(line.subrange(id, id + p.len()) =~= p);
    assert(text::occurs_at(line, p, id));
    let p = "tvg-name=\""@ + info.tvg.name@ + "\""@;
    assert(line.subrange(name, name + p.len()) =~= p);
    assert(text::occurs_at(line, p, name));
    let p = "tvg-logo=\""@ + info.logo@ + "\""@;
    assert(line.subrange(logo, logo + p.len()) =~= p);
    assert(text::occurs_at(line, p, logo));
    let p = "group-title=\""@ + info.category@ + "\""@;
    assert(line.subrange(group, group + p.len()) =~= p);
    assert(text::occurs_at(line, p, group));
    let p = "\","@ + info.title@;
    assert(line.subrange(title, title + p.len()) =~= p);
    let entry = entry_chars(info, host);
    assert(entry.take(line.len() as int) =~= line);
    assert(entry.skip(line.len() as int) =~= "\n"@ + "http://"@ + host + "/channel/"@
        + percent::encoded_text(info.title@) + "\n"@);
}

/// The playlist begins with the mark of its format and grows with its list: another title adds the
/// lines of its channel at the end, and nothing where it leads to none.
pub proof fn playlist_grows_at_its_end(
    table: Map<Seq<char>, Info>,
    order: Seq<Seq<char>>,
    title: Seq<char>,
    host: Seq<char>,
)
    ensures
        playlist_chars(table, seq![], host) == "#EXTM3U\n"@,
        table.dom().contains(title) ==> playlist_chars(table, order.push(title), host)
            == playlist_chars(table, order, host) + entry_chars(table[title], host),
        !table.dom().contains(title) ==> playlist_chars(table, order.push(title), host)
            == playlist_chars(table, order, host),
{
    assert(order.push(title).drop_last() =~= order);
    assert(playlist_chars(table, seq![], host) =~= "#EXTM3U\n"@);
    if table.dom().contains(title) {
        assert(playlist_chars(table, order.push(title), host) =~= playlist_chars(table, order, host)
            + entry_chars(table[title], host));
    } else {
        assert(playlist_chars(table, order.push(title), host) =~= playlist_chars(
            table,
            order,
            host,
        ));
    }
}

/// The titles are those of the entries, in their order.
pub proof fn titles_keep_their_order(entries: Seq<Info>)
    ensures
        titles(entries).len() == entries.len(),
        forall|i: int| 0 <= i < entries.len() ==> #[trigger] titles(entries)[i] == entries[i].title@,
{
}

/// The playlist of guests has one entry, the live stream of the group `Guest`, and its URL is the
/// guests' stream under the name that the client used.
pub proof fn guest_playlist_has_one_stream(host: Seq<char>)
    ensures
        text::occurs_at(guest_playlist_chars(host), "#EXTM3U\n#EXTINF:-1 tvg-id=\"live\""@, 0),
        text::has_text(
            guest_playlist_chars(host),
            " tvg-name=\"live\" tvg-logo=\"\" group-title=\"Guest\",live\nhttp://"@ + host
                + "/guest\n"@,
        ),
        guest_playlist_chars(host) == "#EXTM3U\n#EXTINF:-1 tvg-id=\"live\""@
            + " tvg-name=\"live\" tvg-logo=\"\" group-title=\"Guest\",live\nhttp://"@ + host
            + "/guest\n"@,
{
    reveal_strlit("#EXTM3U\n");
    reveal_strlit("#EXTINF:-1 ");
    reveal_strlit("#EXTM3U\n#EXTINF:-1 tvg-id=\"live\"");
    reveal_strlit("tvg-id=\"live\" tvg-name=\"live\" tvg-logo=\"\" group-title=\"Guest\",live");
    reveal_strlit("\n");
    reveal_strlit("http://");
    reveal_strlit("/guest");
    reveal_strlit(" tvg-name=\"live\" tvg-logo=\"\" group-title=\"Guest\",live\nhttp://");
    reveal_strlit("/guest\n");
    let s = guest_playlist_chars(host);
    let start = "#EXTM3U\n#EXTINF:-1 tvg-id=\"live\""@;
    assert(s.subrange(0, start.len() as int) =~= start);
    let tail = " tvg-name=\"live\" tvg-logo=\"\" group-title=\"Guest\",live\nhttp://"@ + host
        + "/guest\n"@;
    let at = s.len() - tail.len();
    assert(s.subrange(at, at + tail.len()) =~= tail);
    assert(text::occurs_at(s, tail, at));
    assert(at == start.len());
    assert(s =~= start + " tvg-name=\"live\" tvg-logo=\"\" group-title=\"Guest\",live\nhttp://"@
        + host + "/guest\n"@);
}

} // verus!
