use http_stream_proxy::api;
use http_stream_proxy::channels::{Info, Tvg};
use http_stream_proxy::error::UpstreamFetchError;
use http_stream_proxy::http::Reply;
use http_stream_proxy::playlist::{
    load_playlist, serialize_guest_playlist, serialize_playlist, stream_channel_capacity,
    SYNC_CHANNEL_CAPACITY,
};
use http_stream_proxy::state;
use http_stream_proxy::state::AppConfig;
use http_stream_proxy::sync::extract_channel_title;

fn config() -> AppConfig {
    AppConfig {
        upstream_m3u_url: "http://upstream.example/list.m3u".to_string(),
        port: state::default_port(),
        transcode_full_hd_audio_to_aac: state::default_transcode_full_hd_audio_to_aac(),
        transcode_full_hd_video_to_h264: state::default_transcode_full_hd_video_to_h264(),
        ffmpeg_path: state::default_ffmpeg_path(),
        ffmpeg_audio_bitrate_kbps: state::default_ffmpeg_audio_bitrate_kbps(),
        ffmpeg_video_preset: state::default_ffmpeg_video_preset(),
        ffmpeg_video_crf: state::default_ffmpeg_video_crf(),
        ffmpeg_video_encoder: state::default_ffmpeg_video_encoder(),
        ffmpeg_video_threads: state::default_ffmpeg_video_threads(),
        ffmpeg_video_output_fps: state::default_ffmpeg_video_output_fps(),
        ffmpeg_video_maxrate_kbps: state::default_ffmpeg_video_maxrate_kbps(),
        ffmpeg_video_bufsize_kbps: state::default_ffmpeg_video_bufsize_kbps(),
        stream_broadcast_capacity: state::default_stream_broadcast_capacity(),
        transcoded_read_chunk_bytes: state::default_transcoded_read_chunk_bytes(),
        prewarm_keepalive_secs: state::default_prewarm_keepalive_secs(),
        prewarm_transcoded_streams: state::default_prewarm_transcoded_streams(),
        admin_email: state::default_admin_email(),
        whitelisted_emails: Vec::new(),
        env: state::default_env(),
    }
}

fn channel(title: &str, url: &str) -> Info {
    Info {
        title: title.to_string(),
        logo: format!("{}.png", title),
        url: url.to_string(),
        category: "News".to_string(),
        tvg: Tvg { id: format!("{}-id", title), name: format!("{}-name", title) },
    }
}

fn headers(reply: &Reply) -> Vec<(&str, &str)> {
    reply.headers.iter().map(|(n, v)| (n.as_str(), v.as_str())).collect()
}

#[test]
fn playlist_leads_back_to_the_proxy() {
    let state = load_playlist(
        config(),
        vec![channel("B/C d", "http://u/1"), channel("A\u{e9}", "http://u/2")],
    );
    let body = serialize_playlist(&state, "tv.example:2727").unwrap();
    let expected = "#EXTM3U\n\
#EXTINF:-1 tvg-id=\"B/C d-id\" tvg-name=\"B/C d-name\" tvg-logo=\"B/C d.png\" \
group-title=\"News\",B/C d\nhttp://tv.example:2727/channel/B%2FC%20d\n\
#EXTINF:-1 tvg-id=\"A\u{e9}-id\" tvg-name=\"A\u{e9}-name\" tvg-logo=\"A\u{e9}.png\" \
group-title=\"News\",A\u{e9}\nhttp://tv.example:2727/channel/A%C3%A9\n";
    assert_eq!(body, expected.as_bytes());
}

#[test]
fn upstream_urls_do_not_show() {
    let one = load_playlist(config(), vec![channel("News", "http://u/1")]);
    let two = load_playlist(config(), vec![channel("News", "http://elsewhere/9")]);
    assert_eq!(serialize_playlist(&one, "h").unwrap(), serialize_playlist(&two, "h").unwrap());
}

#[test]
fn empty_playlist() {
    let state = load_playlist(config(), Vec::new());
    assert!(state.channel_order.is_empty());
    assert_eq!(serialize_playlist(&state, "h").unwrap(), "#EXTM3U\n".as_bytes());
}

#[test]
fn last_of_equal_titles_counts_and_is_listed_twice() {
    let mut second = channel("News", "http://u/2");
    second.category = "Other".to_string();
    let state = load_playlist(config(), vec![channel("News", "http://u/1"), second]);
    assert_eq!(state.channel_order, vec!["News", "News"]);
    assert_eq!(api::proxy(&state, "News".to_string()).unwrap().url, "http://u/2");
    let body = serialize_playlist(&state, "h").unwrap();
    let text = String::from_utf8(body.to_vec()).unwrap();
    assert_eq!(text.matches("group-title=\"Other\"").count(), 2);
    assert_eq!(text.matches("group-title=\"News\"").count(), 0);
}

#[test]
fn titles_without_a_channel_are_left_out() {
    let mut state = load_playlist(config(), Vec::new());
    state.channel_order.push("Ghost".to_string());
    assert_eq!(serialize_playlist(&state, "h").unwrap(), "#EXTM3U\n".as_bytes());
}

#[test]
fn state_at_the_start() {
    let state = load_playlist(config(), vec![channel("News", "http://u/1")]);
    assert!(state.upstream_manager.stream_key.is_none());
    assert!(state.sync_state.active_channel_url.is_none());
    assert!(!state.sync_state.is_playing);
    assert_eq!(state.sync_state.updated_at, 0);
    assert_eq!(state.sync_state.updated_by, "");
}

#[test]
fn guest_playlist_lists_the_live_stream() {
    let expected = "#EXTM3U\n#EXTINF:-1 tvg-id=\"live\" tvg-name=\"live\" tvg-logo=\"\" \
group-title=\"Guest\",live\nhttp://h:1/guest\n";
    assert_eq!(serialize_guest_playlist("h:1").unwrap(), expected.as_bytes());
}

#[test]
fn playlist_reply_uses_the_host_header() {
    let state = load_playlist(config(), vec![channel("News", "http://u/1")]);
    let reply = api::load(&state, Some("tv.example".as_bytes()));
    assert_eq!(reply.status, 200);
    assert_eq!(
        headers(&reply),
        vec![("Content-Type", "application/octet-stream"), ("Cache-Control", "no-cache")]
    );
    assert_eq!(reply.body, serialize_playlist(&state, "tv.example").unwrap());
    let fallback = serialize_playlist(&state, "localhost:2727").unwrap();
    assert_eq!(api::load(&state, None).body, fallback);
    assert_eq!(api::load(&state, Some(&[0x68, 0xe9])).body, fallback);
    assert_eq!(api::load(&state, Some(&[0x68, 0x0a])).body, fallback);
}

#[test]
fn guest_playlist_reply_uses_the_host_header() {
    let reply = api::guest_playlist(Some("tv".as_bytes()));
    assert_eq!(reply.status, 200);
    assert_eq!(
        headers(&reply),
        vec![("Content-Type", "application/octet-stream"), ("Cache-Control", "no-cache")]
    );
    assert_eq!(reply.body, serialize_guest_playlist("tv").unwrap());
    assert_eq!(api::guest_playlist(None).body, serialize_guest_playlist("localhost").unwrap());
}

#[test]
fn stream_reply_is_a_transport_stream() {
    let head = api::stream_reply();
    assert_eq!(head.status, 200);
    let list: Vec<(&str, &str)> =
        head.headers.iter().map(|(n, v)| (n.as_str(), v.as_str())).collect();
    assert_eq!(
        list,
        vec![("Content-Type", "video/mp2t"), ("Access-Control-Allow-Origin", "*")]
    );
}

#[test]
fn listening() {
    let mut c = config();
    assert_eq!(api::listen_address(&c), "0.0.0.0:2727");
    assert_eq!(api::listen_message(&c), "Starting to listen in port 2727");
    c.port = 0;
    assert_eq!(api::listen_address(&c), "0.0.0.0:0");
    c.port = 65535;
    assert_eq!(api::listen_address(&c), "0.0.0.0:65535");
}

#[test]
fn channel_capacities() {
    let mut c = config();
    assert_eq!(stream_channel_capacity(&c), 512);
    c.stream_broadcast_capacity = 3;
    assert_eq!(stream_channel_capacity(&c), 64);
    assert_eq!(SYNC_CHANNEL_CAPACITY, 16);
}

#[test]
fn titles_are_read_out_of_urls() {
    let title = |url: &str| extract_channel_title(url);
    assert_eq!(title("http://proxy:2727/channel/my-title").unwrap(), "my-title");
    assert_eq!(title("/channel/a%20b/more").unwrap(), "a b");
    assert_eq!(title("/channel/a+b%2").unwrap(), "a+b%2");
    assert_eq!(title("/channel/%zz%4g%41").unwrap(), "%zz%4gA");
    assert_eq!(title("/channel/%ff").unwrap(), "");
    assert_eq!(title("/channel/x?y=/channel/z").unwrap(), "x?y=");
    assert!(title("/channel/").is_none());
    assert!(title("/channel//x").is_none());
    assert!(title("/channels/x").is_none());
    assert!(title("").is_none());
}

#[test]
fn playlist_urls_name_their_channels() {
    for name in ["News", "B/C d", "100% \u{1f600} ~._-", "a%20b", "\u{e9}"] {
        let state = load_playlist(config(), vec![channel(name, "http://u/1")]);
        let body = serialize_playlist(&state, "tv.example:2727").unwrap();
        let text = String::from_utf8(body.to_vec()).unwrap();
        let url = text.lines().last().unwrap();
        assert_eq!(extract_channel_title(url).unwrap(), name);
    }
}

#[test]
fn fetch_errors() {
    let all = [
        (UpstreamFetchError::UpstreamRequest, 502, "failed to request m3u playlist"),
        (UpstreamFetchError::BodyRead, 500, "failed to read m3u body"),
        (UpstreamFetchError::ResponseBuild, 500, "failed to construct m3u response"),
    ];
    for (error, status, message) in all {
        assert_eq!(error.status_code(), status);
        assert_eq!(error.message(), message);
    }
}

#[test]
fn every_url_leads_back() {
    let entries = vec![
        channel("B/C d", "http://u/1"),
        channel("#1", "http://u/2"),
        channel("line\\n", "http://u/3"),
    ];
    let state = load_playlist(config(), entries);
    let body = serialize_playlist(&state, "tv.example").unwrap();
    let text = String::from_utf8(body.to_vec()).unwrap();
    let urls: Vec<&str> = text.split('\n').filter(|l| !l.is_empty() && !l.starts_with('#')).collect();
    assert_eq!(urls.len(), 3);
    for url in urls {
        assert!(url.starts_with("http://tv.example/channel/"), "{}", url);
    }
}
