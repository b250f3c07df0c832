//! Configuration with its defaults, and the state that every request works on.
use dashmap::DashMap;
use vstd::prelude::*;

use crate::channels;
use crate::channels::Info;
use crate::proxy::UpstreamManager;
use crate::sync::SyncState;
use crate::text;

verus! {

/// What the operator configures.
#[derive(Debug, Clone)]
pub struct AppConfig {
    pub upstream_m3u_url: String,
    pub port: u16,
    pub transcode_full_hd_audio_to_aac: bool,
    pub transcode_full_hd_video_to_h264: bool,
    pub ffmpeg_path: String,
    pub ffmpeg_audio_bitrate_kbps: u32,
    pub ffmpeg_video_preset: String,
    pub ffmpeg_video_crf: u32,
    pub ffmpeg_video_encoder: String,
    pub ffmpeg_video_threads: u32,
    pub ffmpeg_video_output_fps: u32,
    pub ffmpeg_video_maxrate_kbps: u32,
    pub ffmpeg_video_bufsize_kbps: u32,
    pub stream_broadcast_capacity: usize,
    pub transcoded_read_chunk_bytes: usize,
    pub prewarm_keepalive_secs: u64,
    pub prewarm_transcoded_streams: bool,
    pub admin_email: String,
    pub whitelisted_emails: Vec<String>,
    pub env: String,
}

pub fn default_port() -> (r: u16)
    ensures
        r == 2727,
{
    2727
}

pub fn default_transcode_full_hd_audio_to_aac() -> (r: bool)
    ensures
        r,
{
    true
}

pub fn default_transcode_full_hd_video_to_h264() -> (r: bool)
    ensures
        r,
{
    true
}

pub fn default_ffmpeg_path() -> (r: String)
    ensures
        r@ == "ffmpeg"@,
{
    "ffmpeg".to_owned()
}

pub fn default_ffmpeg_audio_bitrate_kbps() -> (r: u32)
    ensures
        r == 128,
{
    128
}

pub fn default_ffmpeg_video_preset() -> (r: String)
    ensures
        r@ == "veryfast"@,
{
    "veryfast".to_owned()
}

pub fn default_ffmpeg_video_crf() -> (r: u32)
    ensures
        r == 23,
{
    23
}

pub fn default_ffmpeg_video_encoder() -> (r: String)
    ensures
        r@ == "libx264"@,
{
    "libx264".to_owned()
}

pub fn default_ffmpeg_video_threads() -> (r: u32)
    ensures
        r == 2,
{
    2
}

pub fn default_ffmpeg_video_output_fps() -> (r: u32)
    ensures
        r == 25,
{
    25
}

pub fn default_ffmpeg_video_maxrate_kbps() -> (r: u32)
    ensures
        r == 4500,
{
    4500
}

pub fn default_ffmpeg_video_bufsize_kbps() -> (r: u32)
    ensures
        r == 2250,
{
    2250
}

pub fn default_stream_broadcast_capacity() -> (r: usize)
    ensures
        r == 512,
{
    512
}

pub fn default_transcoded_read_chunk_bytes() -> (r: usize)
    ensures
        r == 32 * 1024,
{
    32 * 1024
}

pub fn default_prewarm_keepalive_secs() -> (r: u64)
    ensures
        r == 8,
{
    8
}

pub fn default_prewarm_transcoded_streams() -> (r: bool)
    ensures
        !r,
{
    false
}

pub fn default_admin_email() -> (r: String)
    ensures
        r@ == ""@,
{
    "".to_owned()
}

pub fn default_env() -> (r: String)
    ensures
        r@ == "local"@,
{
    "local".to_owned()
}

/// What the operator set. A setting that is left out takes its default.
#[derive(Debug)]
pub struct Settings {
    pub upstream_m3u_url: String,
    pub port: Option<u16>,
    pub transcode_full_hd_audio_to_aac: Option<bool>,
    pub transcode_full_hd_video_to_h264: Option<bool>,
    pub ffmpeg_path: Option<String>,
    pub ffmpeg_audio_bitrate_kbps: Option<u32>,
    pub ffmpeg_video_preset: Option<String>,
    pub ffmpeg_video_crf: Option<u32>,
    pub ffmpeg_video_encoder: Option<String>,
    pub ffmpeg_video_threads: Option<u32>,
    pub ffmpeg_video_output_fps: Option<u32>,
    pub ffmpeg_video_maxrate_kbps: Option<u32>,
    pub ffmpeg_video_bufsize_kbps: Option<u32>,
    pub stream_broadcast_capacity: Option<usize>,
    pub transcoded_read_chunk_bytes: Option<usize>,
    pub prewarm_keepalive_secs: Option<u64>,
    pub prewarm_transcoded_streams: Option<bool>,
    pub admin_email: Option<String>,
    pub whitelisted_emails: Option<Vec<String>>,
    pub env: Option<String>,
}

/// A setting, or its default where it is left out.
pub open spec fn setting_or<T>(setting: Option<T>, default: T) -> T {
    match setting {
        Some(value) => value,
        None => default,
    }
}

impl AppConfig {
    /// The configuration that the settings make.
    pub fn load(settings: Settings) -> (r: Self)
        ensures
            r.upstream_m3u_url == settings.upstream_m3u_url,
            r.port == setting_or(settings.port, 2727u16),
            r.transcode_full_hd_audio_to_aac == setting_or(settings.transcode_full_hd_audio_to_aac, true),
            r.transcode_full_hd_video_to_h264 == setting_or(settings.transcode_full_hd_video_to_h264, true),
            r.ffmpeg_path@ == setting_or(text::text_of(settings.ffmpeg_path), "ffmpeg"@),
            r.ffmpeg_audio_bitrate_kbps == setting_or(settings.ffmpeg_audio_bitrate_kbps, 128u32),
            r.ffmpeg_video_preset@ == setting_or(text::text_of(settings.ffmpeg_video_preset), "veryfast"@),
            r.ffmpeg_video_crf == setting_or(settings.ffmpeg_video_crf, 23u32),
            r.ffmpeg_video_encoder@ == setting_or(text::text_of(settings.ffmpeg_video_encoder), "libx264"@),
            r.ffmpeg_video_threads == setting_or(settings.ffmpeg_video_threads, 2u32),
            r.ffmpeg_video_output_fps == setting_or(settings.ffmpeg_video_output_fps, 25u32),
            r.ffmpeg_video_maxrate_kbps == setting_or(settings.ffmpeg_video_maxrate_kbps, 4500u32),
            r.ffmpeg_video_bufsize_kbps == setting_or(settings.ffmpeg_video_bufsize_kbps, 2250u32),
            r.stream_broadcast_capacity == setting_or(settings.stream_broadcast_capacity, 512usize),
            r.transcoded_read_chunk_bytes == setting_or(settings.transcoded_read_chunk_bytes, 32768usize),
            r.prewarm_keepalive_secs == setting_or(settings.prewarm_keepalive_secs, 8u64),
            r.prewarm_transcoded_streams == setting_or(settings.prewarm_transcoded_streams, false),
            r.admin_email@ == setting_or(text::text_of(settings.admin_email), ""@),
            settings.whitelisted_emails matches Some(list) ==> r.whitelisted_emails == list,
            settings.whitelisted_emails is None ==> r.whitelisted_emails@.len() == 0,
            r.env@ == setting_or(text::text_of(settings.env), "local"@),
    {
        AppConfig {
            upstream_m3u_url: settings.upstream_m3u_url,
            port: match settings.port {
                Some(value) => value,
                None => default_port(),
            },
            transcode_full_hd_audio_to_aac: match settings.transcode_full_hd_audio_to_aac {
                Some(value) => value,
                None => default_transcode_full_hd_audio_to_aac(),
            },
            transcode_full_hd_video_to_h264: match settings.transcode_full_hd_video_to_h264 {
                Some(value) => value,
                None => default_transcode_full_hd_video_to_h264(),
            },
            ffmpeg_path: match settings.ffmpeg_path {
                Some(value) => value,
                None => default_ffmpeg_path(),
            },
            ffmpeg_audio_bitrate_kbps: match settings.ffmpeg_audio_bitrate_kbps {
                Some(value) => value,
                None => default_ffmpeg_audio_bitrate_kbps(),
            },
            ffmpeg_video_preset: match settings.ffmpeg_video_preset {
                Some(value) => value,
                None => default_ffmpeg_video_preset(),
            },
            ffmpeg_video_crf: match settings.ffmpeg_video_crf {
                Some(value) => value,
                None => default_ffmpeg_video_crf(),
            },
            ffmpeg_video_encoder: match settings.ffmpeg_video_encoder {
                Some(value) => value,
                None => default_ffmpeg_video_encoder(),
            },
            ffmpeg_video_threads: match settings.ffmpeg_video_threads {
                Some(value) => value,
                None => default_ffmpeg_video_threads(),
            },
            ffmpeg_video_output_fps: match settings.ffmpeg_video_output_fps {
                Some(value) => value,
                None => default_ffmpeg_video_output_fps(),
            },
            ffmpeg_video_maxrate_kbps: match settings.ffmpeg_video_maxrate_kbps {
                Some(value) => value,
                None => default_ffmpeg_video_maxrate_kbps(),
            },
            ffmpeg_video_bufsize_kbps: match settings.ffmpeg_video_bufsize_kbps {
                Some(value) => value,
                None => default_ffmpeg_video_bufsize_kbps(),
            },
            stream_broadcast_capacity: match settings.stream_broadcast_capacity {
                Some(value) => value,
                None => default_stream_broadcast_capacity(),
            },
            transcoded_read_chunk_bytes: match settings.transcoded_read_chunk_bytes {
                Some(value) => value,
                None => default_transcoded_read_chunk_bytes(),
            },
            prewarm_keepalive_secs: match settings.prewarm_keepalive_secs {
                Some(value) => value,
                None => default_prewarm_keepalive_secs(),
            },
            prewarm_transcoded_streams: match settings.prewarm_transcoded_streams {
                Some(value) => value,
                None => default_prewarm_transcoded_streams(),
            },
            admin_email: match settings.admin_email {
                Some(value) => value,
                None => default_admin_email(),
            },
            whitelisted_emails: match settings.whitelisted_emails {
                Some(value) => value,
                None => Vec::new(),
            },
            env: match settings.env {
                Some(value) => value,
                None => default_env(),
            },
        }
    }
}

/// The state that every request works on. A channel's title is the entry point to its stream: it
/// leads to the upstream URL.
pub struct AppState {
    pub config: AppConfig,
    /// From a title to what the playlist says of the channel.
    pub channels: DashMap<String, Info>,
    /// The titles in the order of the upstream playlist.
    pub channel_order: Vec<String>,
    pub upstream_manager: UpstreamManager,
    /// What every synchronised client is told.
    pub sync_state: SyncState,
}

impl AppState {
    /// The parts of the state belong together: the titles in playlist order are those that lead
    /// to a channel, each to one of that title, and what is streamed is in order.
    pub open spec fn consistent(self) -> bool {
        let table = channels::channel_table(self.channels);
        let order = text::texts_of(self.channel_order@);
        &&& forall|title: Seq<char>| #[trigger]
            table.dom().contains(title) <==> order.contains(title)
        &&& forall|title: Seq<char>| #[trigger]
            table.dom().contains(title) ==> table[title].title@ == title
        &&& self.upstream_manager@.consistent(self.config)
    }
}

/// A setting that is given is taken as it is, whatever its default, and only one that is left out
/// takes the default.
pub proof fn given_settings_are_taken<T>(value: T, default: T)
    ensures
        setting_or(Some(value), default) == value,
        setting_or(None, default) == default,
{
}

/// In a consistent state every listed title leads to a channel of that very title, every channel
/// is listed under its own title, and a stream's URL, title and key are known together or not at
/// all.
pub proof fn listed_titles_lead_to_their_channels(state: AppState, i: int, title: Seq<char>)
    requires
        state.consistent(),
        0 <= i < state.channel_order@.len(),
    ensures
        ({
            let table = channels::channel_table(state.channels);
            &&& table.dom().contains(state.channel_order@[i]@)
            &&& table[state.channel_order@[i]@].title@ == state.channel_order@[i]@
            &&& table.dom().contains(title) ==> exists|j: int|
                0 <= j < state.channel_order@.len() && (#[trigger] state.channel_order@[j])@
                    == title
        }),
        state.upstream_manager.stream_url is Some <==> state.upstream_manager.stream_title is Some,
        state.upstream_manager.stream_url is Some <==> state.upstream_manager.stream_key is Some,
{
    let table = channels::channel_table(state.channels);
    let order = text::texts_of(state.channel_order@);
    let listed = state.channel_order@[i]@;
    assert(order[i] == listed);
    assert(order.contains(listed));
    assert(table.dom().contains(listed));
    if table.dom().contains(title) {
        assert(order.contains(title));
        let j = choose|j: int| 0 <= j < order.len() && order[j] == title;
        assert(state.channel_order@[j]@ == title);
    }
}

} // verus!
