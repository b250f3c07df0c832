use http_stream_proxy::channels::{Info, Tvg};
use http_stream_proxy::playlist::load_playlist;
use http_stream_proxy::proxy::attach_to_stream;
use http_stream_proxy::state;
use http_stream_proxy::state::AppConfig;
use http_stream_proxy::sync::{
    clear_sync_state, is_channel_change, keep_alive_text, sync_delete, sync_sse, sync_update,
    update_sync_state, SyncDeleteQuery, SyncQuery, SyncUpdateRequest, KEEP_ALIVE_SECS,
};

fn config() -> AppConfig {
    AppConfig {
        upstream_m3u_url: "http://upstream.example/list.m3u".to_string(),
        port: state::default_port(),
        transcode_full_hd_audio_to_aac: state::default_transcode_full_hd_audio_to_aac(),
        transcode_full_hd_video_to_h264: state::default_transcode_full_hd_video_to_h264(),
        ffmpeg_path: state::default_ffmpeg_path(),
        ffmpeg_audio_bitrate_kbps: state::default_ffmpeg_audio_bitrate_kbps(),
        ffmpeg_video_preset: state::default_ffmpeg_video_preset(),
        ffmpeg_video_crf: state::default_ffmpeg_video_crf(),
        ffmpeg_video_encoder: state::default_ffmpeg_video_encoder(),
        ffmpeg_video_threads: state::default_ffmpeg_video_threads(),
        ffmpeg_video_output_fps: state::default_ffmpeg_video_output_fps(),
        ffmpeg_video_maxrate_kbps: state::default_ffmpeg_video_maxrate_kbps(),
        ffmpeg_video_bufsize_kbps: state::default_ffmpeg_video_bufsize_kbps(),
        stream_broadcast_capacity: state::default_stream_broadcast_capacity(),
        transcoded_read_chunk_bytes: state::default_transcoded_read_chunk_bytes(),
        prewarm_keepalive_secs: state::default_prewarm_keepalive_secs(),
        prewarm_transcoded_streams: state::default_prewarm_transcoded_streams(),
        admin_email: state::default_admin_email(),
        whitelisted_emails: Vec::new(),
        env: state::default_env(),
    }
}

fn channel(title: &str, url: &str) -> Info {
    Info {
        title: title.to_string(),
        logo: format!("{}.png", title),
        url: url.to_string(),
        category: "News".to_string(),
        tvg: Tvg { id: format!("{}-id", title), name: format!("{}-name", title) },
    }
}

fn request(url: Option<&str>) -> SyncUpdateRequest {
    SyncUpdateRequest {
        active_channel_url: url.map(|u| u.to_string()),
        active_channel_name: Some("News".to_string()),
        is_playing: None,
        client_id: "tv".to_string(),
    }
}

#[test]
fn update_replaces_the_shared_state() {
    let mut state = load_playlist(config(), Vec::new());
    assert!(is_channel_change(&state, "/channel/News"));
    let sent = update_sync_state(
        &mut state,
        Some("/channel/News".to_string()),
        Some("News".to_string()),
        None,
        "tv",
        1234,
    );
    for s in [&sent, &state.sync_state] {
        assert_eq!(s.active_channel_url.as_deref(), Some("/channel/News"));
        assert_eq!(s.active_channel_name.as_deref(), Some("News"));
        assert!(s.is_playing);
        assert_eq!(s.updated_at, 1234);
        assert_eq!(s.updated_by, "tv");
    }
    assert!(!is_channel_change(&state, "/channel/News"));
    assert!(is_channel_change(&state, "/channel/Sport"));
}

#[test]
fn playing_follows_the_channel_unless_said_otherwise() {
    let mut state = load_playlist(config(), Vec::new());
    assert!(!update_sync_state(&mut state, None, None, None, "tv", 1).is_playing);
    assert!(update_sync_state(&mut state, None, None, Some(true), "tv", 1).is_playing);
    let url = Some("u".to_string());
    assert!(!update_sync_state(&mut state, url, None, Some(false), "tv", 1).is_playing);
}

#[test]
fn times_keep_their_low_bits() {
    let mut state = load_playlist(config(), Vec::new());
    let now: u128 = 5 * (1u128 << 64) + 7;
    assert_eq!(update_sync_state(&mut state, None, None, None, "tv", now).updated_at, 7);
    let now: u128 = (1u128 << 64) - 1;
    assert_eq!(update_sync_state(&mut state, None, None, None, "tv", now).updated_at, u64::MAX);
}

#[test]
fn stop_forgets_the_channel() {
    let mut state = load_playlist(config(), Vec::new());
    update_sync_state(&mut state, Some("u".to_string()), None, None, "tv", 1);
    let sent = clear_sync_state(&mut state, "phone", 2);
    assert!(sent.active_channel_url.is_none() && !sent.is_playing);
    assert_eq!(sent.updated_by, "phone");
    assert!(is_channel_change(&state, "u"));
}

#[test]
fn subscribers_get_the_current_state() {
    let mut state = load_playlist(config(), Vec::new());
    update_sync_state(&mut state, Some("u".to_string()), None, None, "tv", 9);
    let s = sync_sse(&state, SyncQuery { client_id: Some("phone".to_string()) });
    assert_eq!(s.client_id, "phone");
    assert_eq!(s.current.active_channel_url.as_deref(), Some("u"));
    assert_eq!(s.current.updated_at, 9);
    assert_eq!(sync_sse(&state, SyncQuery { client_id: None }).client_id, "unknown");
    assert_eq!(KEEP_ALIVE_SECS, 15);
    assert_eq!(keep_alive_text(), "ping");
}

#[test]
fn update_request_prewarms_a_channel_that_does_not_run() {
    let mut state = load_playlist(config(), vec![channel("My News", "http://u/1")]);
    let r = sync_update(&mut state, request(Some("http://h/channel/My%20News")), 3);
    assert_eq!(r.prewarm.as_deref(), Some("My News"));
    assert_eq!(r.status, 200);
    assert_eq!(r.broadcast.updated_by, "tv");
    assert_eq!(
        state.sync_state.active_channel_url.as_deref(),
        Some("http://h/channel/My%20News")
    );
    attach_to_stream(&mut state, "My News", "http://u/1");
    let r = sync_update(&mut state, request(Some("http://h/channel/My%20News")), 4);
    assert!(r.prewarm.is_none());
}

#[test]
fn update_request_prewarms_nothing_else() {
    let mut state = load_playlist(config(), vec![channel("News", "http://u/1")]);
    for url in [None, Some("http://h/other"), Some("http://h/channel/Sport"), Some("/channel/")] {
        let r = sync_update(&mut state, request(url), 3);
        assert!(r.prewarm.is_none());
        assert_eq!(r.broadcast.is_playing, url.is_some());
    }
}

#[test]
fn delete_request_stops_playback() {
    let mut state = load_playlist(config(), Vec::new());
    update_sync_state(&mut state, Some("u".to_string()), None, None, "tv", 1);
    let r = sync_delete(&mut state, SyncDeleteQuery { client_id: None }, 2);
    assert_eq!(r.status, 200);
    assert_eq!(r.broadcast.updated_by, "unknown");
    assert!(!state.sync_state.is_playing && state.sync_state.active_channel_url.is_none());
    let r = sync_delete(&mut state, SyncDeleteQuery { client_id: Some("tv".to_string()) }, 2);
    assert_eq!(r.broadcast.updated_by, "tv");
}
