use http_stream_proxy::api;
use http_stream_proxy::channels::{Info, Tvg};
use http_stream_proxy::error::ProxyError;
use http_stream_proxy::playlist::load_playlist;
use http_stream_proxy::proxy::{
    attach_to_stream, prewarm, prewarm_finished, start_error, start_prewarm, RunStep,
    StartOutcome, UpstreamManager,
};
use http_stream_proxy::state;
use http_stream_proxy::state::AppConfig;

fn config() -> AppConfig {
    AppConfig {
        upstream_m3u_url: "http://upstream.example/list.m3u".to_string(),
        port: state::default_port(),
        transcode_full_hd_audio_to_aac: state::default_transcode_full_hd_audio_to_aac(),
        transcode_full_hd_video_to_h264: state::default_transcode_full_hd_video_to_h264(),
        ffmpeg_path: state::default_ffmpeg_path(),
        ffmpeg_audio_bitrate_kbps: state::default_ffmpeg_audio_bitrate_kbps(),
        ffmpeg_video_preset: state::default_ffmpeg_video_preset(),
        ffmpeg_video_crf: state::default_ffmpeg_video_crf(),
        ffmpeg_video_encoder: state::default_ffmpeg_video_encoder(),
        ffmpeg_video_threads: state::default_ffmpeg_video_threads(),
        ffmpeg_video_output_fps: state::default_ffmpeg_video_output_fps(),
        ffmpeg_video_maxrate_kbps: state::default_ffmpeg_video_maxrate_kbps(),
        ffmpeg_video_bufsize_kbps: state::default_ffmpeg_video_bufsize_kbps(),
        stream_broadcast_capacity: state::default_stream_broadcast_capacity(),
        transcoded_read_chunk_bytes: state::default_transcoded_read_chunk_bytes(),
        prewarm_keepalive_secs: state::default_prewarm_keepalive_secs(),
        prewarm_transcoded_streams: state::default_prewarm_transcoded_streams(),
        admin_email: state::default_admin_email(),
        whitelisted_emails: Vec::new(),
        env: state::default_env(),
    }
}

fn channel(title: &str, url: &str) -> Info {
    Info {
        title: title.to_string(),
        logo: format!("{}.png", title),
        url: url.to_string(),
        category: "News".to_string(),
        tvg: Tvg { id: format!("{}-id", title), name: format!("{}-name", title) },
    }
}

fn text(s: &Option<String>) -> Option<&str> {
    s.as_deref()
}

#[test]
fn nothing_is_streamed_at_first() {
    let m = UpstreamManager::new();
    assert!(m.stream_url.is_none() && m.stream_title.is_none() && m.stream_key.is_none());
    assert!(!m.streams_key("") && !m.streams_url(""));
}

#[test]
fn run_replaces_what_is_streamed() {
    let mut m = UpstreamManager::new();
    let steps = m.run("News".to_string(), "http://u/1".to_string(), false, &config());
    assert_eq!(steps.len(), 3);
    assert!(matches!(steps[0], RunStep::CancelActive));
    assert!(matches!(steps[1], RunStep::HoldNewToken));
    match &steps[2] {
        RunStep::StartPassthrough { url, key, prewarm, keepalive_secs } => {
            assert_eq!(url, "http://u/1");
            assert_eq!(key, "http://u/1:a0:v0");
            assert!(!*prewarm);
            assert_eq!(*keepalive_secs, 8);
        }
        other => panic!("{:?}", other),
    }
    assert_eq!(text(&m.stream_url), Some("http://u/1"));
    assert_eq!(text(&m.stream_title), Some("News"));
    assert_eq!(text(&m.stream_key), Some("http://u/1:a0:v0"));
    let steps = m.run("Sport FHD".to_string(), "http://u/2".to_string(), true, &config());
    assert_eq!(steps.len(), 3);
    match &steps[2] {
        RunStep::StartTranscoded { title, url, key, prewarm } => {
            assert_eq!(title, "Sport FHD");
            assert_eq!(url, "http://u/2");
            assert_eq!(key, "http://u/2:a1:v1");
            assert!(*prewarm);
        }
        other => panic!("{:?}", other),
    }
    assert_eq!(text(&m.stream_title), Some("Sport FHD"));
}

#[test]
fn asking_again_starts_nothing() {
    let mut m = UpstreamManager::new();
    m.run("News".to_string(), "http://u/1".to_string(), true, &config());
    assert!(m.run("News".to_string(), "http://u/1".to_string(), false, &config()).is_empty());
    // Another title for the same source and mode is no other stream.
    assert!(m.run("More news".to_string(), "http://u/1".to_string(), false, &config()).is_empty());
    assert_eq!(text(&m.stream_title), Some("News"));
    // The same source in another mode is.
    assert_eq!(m.run("News FHD".to_string(), "http://u/1".to_string(), false, &config()).len(), 3);
}

fn started_steps(m: &mut UpstreamManager, title: &str, url: &str) -> Vec<RunStep> {
    m.run(title.to_string(), url.to_string(), false, &config())
}

#[test]
fn failed_request_leaves_nothing_streamed() {
    for outcome in [
        StartOutcome::NoAnswer,
        StartOutcome::Answered(400),
        StartOutcome::Answered(404),
        StartOutcome::Answered(500),
        StartOutcome::Answered(599),
    ] {
        let mut m = UpstreamManager::new();
        let steps = started_steps(&mut m, "News", "http://u/1");
        let r = m.start_finished(&steps[2], outcome);
        assert!(matches!(r, Err(ProxyError::UpstreamRequest)), "{:?}", outcome);
        assert!(m.stream_url.is_none() && m.stream_title.is_none() && m.stream_key.is_none());
    }
}

#[test]
fn other_answers_are_streamed() {
    for status in [100, 200, 206, 302, 399, 600, 999] {
        let mut m = UpstreamManager::new();
        let steps = started_steps(&mut m, "News", "http://u/1");
        assert!(m.start_finished(&steps[2], StartOutcome::Answered(status)).is_ok());
        assert!(m.streams_url("http://u/1"));
    }
}

#[test]
fn transcoder_start_is_reported() {
    let mut m = UpstreamManager::new();
    let steps = started_steps(&mut m, "Sport FHD", "http://u/2");
    assert!(m.start_finished(&steps[2], StartOutcome::Running).is_ok());
    assert!(m.streams_url("http://u/2"));
    let r = m.start_finished(&steps[2], StartOutcome::NotRunning);
    assert!(matches!(r, Err(ProxyError::TranscoderStart)));
    assert!(m.stream_url.is_none());
}

#[test]
fn errors_follow_the_kind_of_start() {
    let mut m = UpstreamManager::new();
    let steps = started_steps(&mut m, "News", "http://u/1");
    assert_eq!(
        prewarm_finished(Err(start_error(&steps[2]))).unwrap_err(),
        "failed to start upstream request"
    );
    let steps = started_steps(&mut m, "Sport FHD", "http://u/2");
    assert_eq!(
        prewarm_finished(Err(start_error(&steps[2]))).unwrap_err(),
        "failed to start transcoder"
    );
}

#[test]
fn failed_start_does_not_clear_another_stream() {
    let mut m = UpstreamManager::new();
    let steps = started_steps(&mut m, "News", "http://u/1");
    started_steps(&mut m, "Sport", "http://u/2");
    assert!(m.start_finished(&steps[2], StartOutcome::NoAnswer).is_err());
    assert!(m.streams_url("http://u/2"));
}

#[test]
fn replaced_stream_ends_without_notice() {
    let mut m = UpstreamManager::new();
    m.run("News".to_string(), "http://u/1".to_string(), false, &config());
    m.run("Sport".to_string(), "http://u/2".to_string(), false, &config());
    m.clear_if_active("http://u/1:a0:v0");
    assert!(m.streams_key("http://u/2:a0:v0"));
    m.clear_if_active("http://u/2:a0:v0");
    assert!(!m.streams_key("http://u/2:a0:v0") && m.stream_title.is_none());
}

#[test]
fn passthrough_requests_the_url_in_normal_form() {
    let task =
        UpstreamManager::start_passthrough("HTTP://Example.COM:80/a b", "k".to_string(), true, 0)
            .unwrap();
    assert_eq!(task.target, "http://example.com/a%20b");
    assert_eq!(task.key, "k");
    assert!(task.pump.prewarm);
    assert_eq!(task.pump.keepalive_secs, 1);
    assert!(UpstreamManager::start_passthrough("/relative", "k".to_string(), true, 5).is_none());
}

#[test]
fn passthrough_task_keeps_its_target() {
    let task = UpstreamManager::passthrough_task("t".to_string(), "k".to_string(), false, 9);
    assert_eq!((task.target.as_str(), task.key.as_str()), ("t", "k"));
    assert!(!task.pump.prewarm);
    assert_eq!(task.pump.keepalive_secs, 9);
}

#[test]
fn transcoded_task_follows_the_configuration() {
    let mut c = config();
    c.ffmpeg_path = "/opt/ffmpeg".to_string();
    c.transcoded_read_chunk_bytes = 100;
    c.transcode_full_hd_video_to_h264 = false;
    let task =
        UpstreamManager::start_transcoded("Sport FHD", "http://u/2", "k".to_string(), false, &c);
    assert_eq!(task.program, "/opt/ffmpeg");
    assert_eq!(task.read_chunk_bytes, 4096);
    assert_eq!(task.args[13], "http://u/2");
    assert_eq!(task.args[18..22].to_vec(), vec!["-c:v", "copy", "-c:a", "aac"]);
    assert_eq!(task.pump.keepalive_secs, 8);
    c.transcoded_read_chunk_bytes = 5000;
    let task = UpstreamManager::start_transcoded("Sport FHD", "u", "k".to_string(), false, &c);
    assert_eq!(task.read_chunk_bytes, 5000);
}

#[test]
fn channels_are_found_by_title() {
    let state = load_playlist(config(), vec![channel("News", "http://u/1")]);
    let target = api::proxy(&state, "News".to_string()).unwrap();
    assert_eq!(target.title, "News");
    assert_eq!(target.url, "http://u/1");
    match api::proxy(&state, "news".to_string()) {
        Err(ProxyError::ChannelNotFound { title }) => assert_eq!(title, "news"),
        other => panic!("{:?}", other),
    }
}

#[test]
fn guests_see_what_is_streamed() {
    let mut state = load_playlist(config(), vec![channel("News", "http://u/1")]);
    assert!(matches!(api::guest(&state), Err(ProxyError::GuestError)));
    assert_eq!(attach_to_stream(&mut state, "News", "http://u/1").len(), 3);
    let target = api::guest(&state).unwrap();
    assert_eq!((target.title.as_str(), target.url.as_str()), ("News", "http://u/1"));
    assert!(attach_to_stream(&mut state, &target.title, &target.url).is_empty());
    state.upstream_manager.clear_if_active("http://u/1:a0:v0");
    assert!(matches!(api::guest(&state), Err(ProxyError::GuestError)));
}

#[test]
fn prewarm_decisions() {
    let mut state = load_playlist(
        config(),
        vec![channel("News", "http://u/1"), channel("Sport FHD", "http://u/2")],
    );
    assert_eq!(prewarm(&state, "None").unwrap_err(), "Channel not found: None");
    let target = prewarm(&state, "News").unwrap().unwrap();
    assert_eq!((target.title.as_str(), target.url.as_str()), ("News", "http://u/1"));
    assert!(prewarm(&state, "Sport FHD").unwrap().is_none());
    state.config.prewarm_transcoded_streams = true;
    assert_eq!(prewarm(&state, "Sport FHD").unwrap().unwrap().url, "http://u/2");
    attach_to_stream(&mut state, "News", "http://u/1");
    assert!(prewarm(&state, "News").unwrap().is_none());
}

#[test]
fn prewarmed_streams_wait_and_are_not_restarted() {
    let mut state = load_playlist(
        config(),
        vec![channel("News", "http://u/1"), channel("Sport FHD", "http://u/2")],
    );
    state.config.prewarm_transcoded_streams = true;
    state.config.prewarm_keepalive_secs = 5;
    let target = prewarm(&state, "News").unwrap().unwrap();
    let steps = start_prewarm(&mut state, target);
    assert_eq!(steps.len(), 3);
    match &steps[2] {
        RunStep::StartPassthrough { url, prewarm, keepalive_secs, .. } => {
            assert_eq!(url, "http://u/1");
            assert!(*prewarm);
            assert_eq!(*keepalive_secs, 5);
        }
        other => panic!("{:?}", other),
    }
    assert!(attach_to_stream(&mut state, "News", "http://u/1").is_empty());
    let target = prewarm(&state, "Sport FHD").unwrap().unwrap();
    let steps = start_prewarm(&mut state, target);
    assert!(matches!(&steps[2], RunStep::StartTranscoded { prewarm: true, .. }));
    let steps = attach_to_stream(&mut state, "News", "http://u/1");
    assert!(matches!(&steps[2], RunStep::StartPassthrough { prewarm: false, .. }));
}

#[test]
fn prewarm_reports() {
    assert!(prewarm_finished(Ok(())).is_ok());
    assert_eq!(
        prewarm_finished(Err(ProxyError::TranscoderStart)).unwrap_err(),
        "failed to start transcoder"
    );
    let r = api::prewarm_channel("News", Ok(())).unwrap();
    assert!(r.success);
    assert_eq!(r.message, "Stream prewarmed: News");
    assert_eq!(api::prewarm_channel("News", Err("x".to_string())).unwrap_err(), 502);
}

#[test]
fn proxy_errors() {
    let all = [
        (ProxyError::ChannelNotFound { title: "X".to_string() }, 404, "channel not found: X"),
        (ProxyError::UpstreamRequest, 502, "failed to start upstream request"),
        (ProxyError::UpstreamStream, 502, "upstream stream error"),
        (ProxyError::TranscoderStart, 502, "failed to start transcoder"),
        (ProxyError::DownstreamSend, 500, "broadcast channel error"),
        (ProxyError::GuestError, 404, "no active stream"),
    ];
    for (error, status, message) in all {
        assert_eq!(error.status_code(), status);
        assert_eq!(error.message(), message);
    }
}
