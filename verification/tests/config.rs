use http_stream_proxy::state;
use http_stream_proxy::state::{AppConfig, Settings};

#[test]
fn numeric_defaults() {
    assert_eq!(state::default_port(), 2727);
    assert_eq!(state::default_ffmpeg_audio_bitrate_kbps(), 128);
    assert_eq!(state::default_ffmpeg_video_crf(), 23);
    assert_eq!(state::default_ffmpeg_video_threads(), 2);
    assert_eq!(state::default_ffmpeg_video_output_fps(), 25);
    assert_eq!(state::default_ffmpeg_video_maxrate_kbps(), 4500);
    assert_eq!(state::default_ffmpeg_video_bufsize_kbps(), 2250);
    assert_eq!(state::default_stream_broadcast_capacity(), 512);
    assert_eq!(state::default_transcoded_read_chunk_bytes(), 32768);
    assert_eq!(state::default_prewarm_keepalive_secs(), 8);
}

#[test]
fn flag_defaults() {
    assert!(state::default_transcode_full_hd_audio_to_aac());
    assert!(state::default_transcode_full_hd_video_to_h264());
    assert!(!state::default_prewarm_transcoded_streams());
}

#[test]
fn text_defaults() {
    assert_eq!(state::default_ffmpeg_path(), "ffmpeg");
    assert_eq!(state::default_ffmpeg_video_preset(), "veryfast");
    assert_eq!(state::default_ffmpeg_video_encoder(), "libx264");
    assert_eq!(state::default_admin_email(), "");
    assert_eq!(state::default_env(), "local");
}

fn nothing_set() -> Settings {
    Settings {
        upstream_m3u_url: "http://u/list".to_string(),
        port: None,
        transcode_full_hd_audio_to_aac: None,
        transcode_full_hd_video_to_h264: None,
        ffmpeg_path: None,
        ffmpeg_audio_bitrate_kbps: None,
        ffmpeg_video_preset: None,
        ffmpeg_video_crf: None,
        ffmpeg_video_encoder: None,
        ffmpeg_video_threads: None,
        ffmpeg_video_output_fps: None,
        ffmpeg_video_maxrate_kbps: None,
        ffmpeg_video_bufsize_kbps: None,
        stream_broadcast_capacity: None,
        transcoded_read_chunk_bytes: None,
        prewarm_keepalive_secs: None,
        prewarm_transcoded_streams: None,
        admin_email: None,
        whitelisted_emails: None,
        env: None,
    }
}

#[test]
fn settings_left_out_take_their_defaults() {
    let c = AppConfig::load(nothing_set());
    assert_eq!(c.upstream_m3u_url, "http://u/list");
    assert_eq!(c.port, 2727);
    assert!(c.transcode_full_hd_audio_to_aac && c.transcode_full_hd_video_to_h264);
    assert_eq!(c.ffmpeg_path, "ffmpeg");
    assert_eq!(c.ffmpeg_audio_bitrate_kbps, 128);
    assert_eq!(c.ffmpeg_video_preset, "veryfast");
    assert_eq!(c.ffmpeg_video_crf, 23);
    assert_eq!(c.ffmpeg_video_encoder, "libx264");
    assert_eq!(c.ffmpeg_video_threads, 2);
    assert_eq!(c.ffmpeg_video_output_fps, 25);
    assert_eq!(c.ffmpeg_video_maxrate_kbps, 4500);
    assert_eq!(c.ffmpeg_video_bufsize_kbps, 2250);
    assert_eq!(c.stream_broadcast_capacity, 512);
    assert_eq!(c.transcoded_read_chunk_bytes, 32768);
    assert_eq!(c.prewarm_keepalive_secs, 8);
    assert!(!c.prewarm_transcoded_streams);
    assert_eq!(c.admin_email, "");
    assert!(c.whitelisted_emails.is_empty());
    assert_eq!(c.env, "local");
}

#[test]
fn settings_that_are_given_count() {
    let mut s = nothing_set();
    s.port = Some(80);
    s.transcode_full_hd_audio_to_aac = Some(false);
    s.ffmpeg_path = Some("/opt/ffmpeg".to_string());
    s.prewarm_keepalive_secs = Some(0);
    s.whitelisted_emails = Some(vec!["a@example.org".to_string()]);
    s.env = Some("production".to_string());
    let c = AppConfig::load(s);
    assert_eq!(c.port, 80);
    assert!(!c.transcode_full_hd_audio_to_aac && c.transcode_full_hd_video_to_h264);
    assert_eq!(c.ffmpeg_path, "/opt/ffmpeg");
    assert_eq!(c.prewarm_keepalive_secs, 0);
    assert_eq!(c.whitelisted_emails, vec!["a@example.org"]);
    assert_eq!(c.env, "production");
}
