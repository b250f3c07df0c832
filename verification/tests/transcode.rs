use http_stream_proxy::state;
use http_stream_proxy::state::AppConfig;
use http_stream_proxy::transcode::{
    key_frame_distance_fits, stream_key, transcode_mode_for_channel, transcoder_command_line,
    TranscodeMode,
};

fn config() -> AppConfig {
    AppConfig {
        upstream_m3u_url: "http://upstream.example/list.m3u".to_string(),
        port: state::default_port(),
        transcode_full_hd_audio_to_aac: state::default_transcode_full_hd_audio_to_aac(),
        transcode_full_hd_video_to_h264: state::default_transcode_full_hd_video_to_h264(),
        ffmpeg_path: state::default_ffmpeg_path(),
        ffmpeg_audio_bitrate_kbps: state::default_ffmpeg_audio_bitrate_kbps(),
        ffmpeg_video_preset: state::default_ffmpeg_video_preset(),
        ffmpeg_video_crf: state::default_ffmpeg_video_crf(),
        ffmpeg_video_encoder: state::default_ffmpeg_video_encoder(),
        ffmpeg_video_threads: state::default_ffmpeg_video_threads(),
        ffmpeg_video_output_fps: state::default_ffmpeg_video_output_fps(),
        ffmpeg_video_maxrate_kbps: state::default_ffmpeg_video_maxrate_kbps(),
        ffmpeg_video_bufsize_kbps: state::default_ffmpeg_video_bufsize_kbps(),
        stream_broadcast_capacity: state::default_stream_broadcast_capacity(),
        transcoded_read_chunk_bytes: state::default_transcoded_read_chunk_bytes(),
        prewarm_keepalive_secs: state::default_prewarm_keepalive_secs(),
        prewarm_transcoded_streams: state::default_prewarm_transcoded_streams(),
        admin_email: state::default_admin_email(),
        whitelisted_emails: Vec::new(),
        env: state::default_env(),
    }
}

const BOTH: TranscodeMode = TranscodeMode { audio_to_aac: true, video_to_h264: true };

#[test]
fn full_hd_titles_are_transcoded_as_configured() {
    let mut c = config();
    for title in ["Sport FULL HD", "sport Fhd", "Cinema 1080p", "1080"] {
        let mode = transcode_mode_for_channel(&c, title);
        assert!(mode.audio_to_aac && mode.video_to_h264, "{}", title);
    }
    c.transcode_full_hd_audio_to_aac = false;
    let mode = transcode_mode_for_channel(&c, "Sport FHD");
    assert!(!mode.audio_to_aac && mode.video_to_h264);
    assert!(mode.is_enabled());
    c.transcode_full_hd_video_to_h264 = false;
    assert!(!transcode_mode_for_channel(&c, "Sport FHD").is_enabled());
}

#[test]
fn other_titles_are_passed_through() {
    for title in ["", "Sport HD", "full  hd", "F HD", "108", "fulhd"] {
        assert!(!transcode_mode_for_channel(&config(), title).is_enabled(), "{}", title);
    }
    assert!(!TranscodeMode::passthrough().is_enabled());
}

#[test]
fn keys_tell_url_and_mode_apart() {
    assert_eq!(stream_key("http://u/1", TranscodeMode::passthrough()), "http://u/1:a0:v0");
    assert_eq!(stream_key("http://u/1", BOTH), "http://u/1:a1:v1");
    let audio = TranscodeMode { audio_to_aac: true, video_to_h264: false };
    assert_eq!(stream_key("", audio), ":a1:v0");
    assert_ne!(stream_key("http://u/1", BOTH), stream_key("http://u/2", BOTH));
}

#[test]
fn command_line_with_defaults() {
    let args = transcoder_command_line(&config(), BOTH, "http://u/1");
    let expected = "-hide_banner -loglevel error -nostats -fflags +discardcorrupt -err_detect \
        ignore_err -analyzeduration 0 -probesize 64k -i http://u/1 -map 0:v:0 -map 0:a:0? -c:v \
        libx264 -r 25 -threads 2 -bf 0 -maxrate 4500k -bufsize 2250k -preset veryfast -crf 23 \
        -tune zerolatency -pix_fmt yuv420p -profile:v high -level:v 4.0 -g 50 -keyint_min 50 \
        -sc_threshold 0 -c:a aac -ac 2 -ar 48000 -b:a 128k -muxdelay 0 -muxpreload 0 \
        -flush_packets 1 -f mpegts pipe:1";
    let expected: Vec<&str> = expected.split(' ').collect();
    assert_eq!(args, expected);
}

#[test]
fn command_line_leaves_out_zeros_and_copies() {
    let mut c = config();
    c.ffmpeg_video_encoder = "h264_v4l2m2m".to_string();
    c.ffmpeg_video_output_fps = 0;
    c.ffmpeg_video_threads = 0;
    let video = TranscodeMode { audio_to_aac: false, video_to_h264: true };
    let args = transcoder_command_line(&c, video, "u");
    let middle: Vec<&str> = "-c:v h264_v4l2m2m -bf 0 -maxrate 4500k -bufsize 2250k -pix_fmt \
        yuv420p -c:a copy"
        .split(' ')
        .collect();
    assert_eq!(args[18..args.len() - 9].to_vec(), middle);
    c.ffmpeg_video_encoder = "other".to_string();
    assert!(!transcoder_command_line(&c, video, "u").contains(&"-pix_fmt".to_string()));
    let audio = TranscodeMode { audio_to_aac: true, video_to_h264: false };
    let args = transcoder_command_line(&c, audio, "u");
    assert_eq!(args[18..20].to_vec(), vec!["-c:v", "copy"]);
}

#[test]
fn key_frames_come_every_two_seconds() {
    let mut c = config();
    for (fps, gop) in [(0, "50"), (24, "50"), (25, "50"), (60, "120"), (2147483647, "4294967294")] {
        c.ffmpeg_video_output_fps = fps;
        assert!(key_frame_distance_fits(&c, BOTH));
        let args = transcoder_command_line(&c, BOTH, "u");
        let at = args.iter().position(|a| a == "-g").unwrap();
        assert_eq!(args[at + 1], gop);
        assert_eq!(args[at + 3], gop);
    }
    c.ffmpeg_video_output_fps = 2147483648;
    assert!(!key_frame_distance_fits(&c, BOTH));
    assert!(key_frame_distance_fits(&c, TranscodeMode::passthrough()));
    c.ffmpeg_video_encoder = "other".to_string();
    assert!(key_frame_distance_fits(&c, BOTH));
}
