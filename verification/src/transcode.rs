//! Which channels are transcoded, how a stream is identified, and the transcoder's command line.
use vstd::prelude::*;

use crate::state::AppConfig;
use crate::text;

verus! {

/// Which parts of a stream are transcoded.
#[derive(Clone, Copy, Debug)]
pub struct TranscodeMode {
    pub audio_to_aac: bool,
    pub video_to_h264: bool,
}

impl TranscodeMode {
    /// Neither part is transcoded.
    pub open spec fn none() -> Self {
        TranscodeMode { audio_to_aac: false, video_to_h264: false }
    }

    /// Some part is transcoded.
    pub open spec fn enabled(self) -> bool {
        self.audio_to_aac || self.video_to_h264
    }

    pub fn passthrough() -> (r: Self)
        ensures
            r == TranscodeMode::none(),
    {
        TranscodeMode { audio_to_aac: false, video_to_h264: false }
    }

    pub fn is_enabled(self) -> (r: bool)
        ensures
            r == self.enabled(),
    {
        self.audio_to_aac || self.video_to_h264
    }
}

/// A title announces full HD, in any case of its ASCII letters.
pub open spec fn full_hd(title: Seq<char>) -> bool {
    ||| text::has_text(text::lowered(title), "full hd"@)
    ||| text::has_text(text::lowered(title), "fhd"@)
    ||| text::has_text(text::lowered(title), "1080"@)
}

/// The mode of a channel: full HD channels are transcoded as configured, others not at all.
pub open spec fn mode_for(config: AppConfig, title: Seq<char>) -> TranscodeMode {
    if full_hd(title) {
        TranscodeMode {
            audio_to_aac: config.transcode_full_hd_audio_to_aac,
            video_to_h264: config.transcode_full_hd_video_to_h264,
        }
    } else {
        TranscodeMode::none()
    }
}

pub fn transcode_mode_for_channel(config: &AppConfig, title: &str) -> (r: TranscodeMode)
    ensures
        r == mode_for(*config, title@),
{
    let lowered: Vec<char> = text::lowered_chars(title);
    let is_full_hd: bool = text::find_text(&lowered, &text::chars_of("full hd")).is_some()
        || text::find_text(&lowered, &text::chars_of("fhd")).is_some() || text::find_text(
        &lowered,
        &text::chars_of("1080"),
    ).is_some();
    if !is_full_hd {
        return TranscodeMode::passthrough();
    }
    TranscodeMode {
        audio_to_aac: config.transcode_full_hd_audio_to_aac,
        video_to_h264: config.transcode_full_hd_video_to_h264,
    }
}

/// A flag as one digit.
pub open spec fn flag_chars(b: bool) -> Seq<char> {
    if b {
        "1"@
    } else {
        "0"@
    }
}

/// The identity of a stream: its URL and how it is transcoded.
pub open spec fn key_chars(url: Seq<char>, mode: TranscodeMode) -> Seq<char> {
    url + ":a"@ + flag_chars(mode.audio_to_aac) + ":v"@ + flag_chars(mode.video_to_h264)
}

fn flag_text(b: bool) -> (r: &'static str)
    ensures
        r@ == flag_chars(b),
{
    if b {
        "1"
    } else {
        "0"
    }
}

pub fn stream_key(url: &str, mode: TranscodeMode) -> (r: String)
    ensures
        r@ == key_chars(url@, mode),
{
    let mut out: String = url.to_owned();
    out.append(":a");
    out.append(flag_text(mode.audio_to_aac));
    out.append(":v");
    out.append(flag_text(mode.video_to_h264));
    out
}

/// Two streams have the same key only if they have the same URL and the same mode.
pub proof fn stream_key_identifies(
    url1: Seq<char>,
    mode1: TranscodeMode,
    url2: Seq<char>,
    mode2: TranscodeMode,
)
    requires
        key_chars(url1, mode1) == key_chars(url2, mode2),
    ensures
        url1 == url2,
        mode1 == mode2,
{
    reveal_strlit("1");
    reveal_strlit("0");
    reveal_strlit(":a");
    reveal_strlit(":v");
    let k1 = key_chars(url1, mode1);
    let k2 = key_chars(url2, mode2);
    assert(k1.len() == url1.len() + 6);
    assert(k2.len() == url2.len() + 6);
    let n = url1.len() as int;
    assert(k1.take(n) =~= url1);
    assert(k2.take(n) =~= url2);
    assert(k1[n + 2] == flag_chars(mode1.audio_to_aac)[0]);
    assert(k2[n + 2] == flag_chars(mode2.audio_to_aac)[0]);
    assert(k1[n + 5] == flag_chars(mode1.video_to_h264)[0]);
    assert(k2[n + 5] == flag_chars(mode2.video_to_h264)[0]);
}

/// What the transcoder reads, and which of its streams it keeps.
pub open spec fn input_args(url: Seq<char>) -> Seq<Seq<char>> {
    seq![
        "-hide_banner"@,
        "-loglevel"@,
        "error"@,
        "-nostats"@,
        "-fflags"@,
        "+discardcorrupt"@,
        "-err_detect"@,
        "ignore_err"@,
        "-analyzeduration"@,
        "0"@,
        "-probesize"@,
        "64k"@,
        "-i"@,
        url,
        "-map"@,
        "0:v:0"@,
        "-map"@,
        "0:a:0?"@,
    ]
}

/// A rate in kilobits per second.
pub open spec fn kbps(n: u32) -> Seq<char> {
    text::decimal(n as nat) + "k"@
}

/// An option that is given only where its number is not zero.
pub open spec fn nonzero_option(name: Seq<char>, n: u32) -> Seq<Seq<char>> {
    if n > 0 {
        seq![name, text::decimal(n as nat)]
    } else {
        seq![]
    }
}

/// The distance between key frames: two seconds of pictures, of 25 or more a second.
pub open spec fn gop(config: AppConfig) -> int {
    if config.ffmpeg_video_output_fps < 25 {
        50
    } else {
        config.ffmpeg_video_output_fps * 2
    }
}

/// What only certain encoders are told.
pub open spec fn encoder_args(config: AppConfig) -> Seq<Seq<char>> {
    if config.ffmpeg_video_encoder@ == "libx264"@ {
        seq![
            "-preset"@,
            config.ffmpeg_video_preset@,
            "-crf"@,
            text::decimal(config.ffmpeg_video_crf as nat),
            "-tune"@,
            "zerolatency"@,
            "-pix_fmt"@,
            "yuv420p"@,
            "-profile:v"@,
            "high"@,
            "-level:v"@,
            "4.0"@,
            "-g"@,
            text::decimal(gop(config) as nat),
            "-keyint_min"@,
            text::decimal(gop(config) as nat),
            "-sc_threshold"@,
            "0"@,
        ]
    } else if config.ffmpeg_video_encoder@ == "h264_v4l2m2m"@ {
        seq!["-pix_fmt"@, "yuv420p"@]
    } else {
        seq![]
    }
}

/// How the picture is treated.
pub open spec fn video_args(config: AppConfig, mode: TranscodeMode) -> Seq<Seq<char>> {
    if mode.video_to_h264 {
        seq!["-c:v"@, config.ffmpeg_video_encoder@] + nonzero_option(
            "-r"@,
            config.ffmpeg_video_output_fps,
        ) + nonzero_option("-threads"@, config.ffmpeg_video_threads) + seq![
            "-bf"@,
            "0"@,
            "-maxrate"@,
            kbps(config.ffmpeg_video_maxrate_kbps),
            "-bufsize"@,
            kbps(config.ffmpeg_video_bufsize_kbps),
        ] + encoder_args(config)
    } else {
        seq!["-c:v"@, "copy"@]
    }
}

/// How the sound is treated.
pub open spec fn audio_args(config: AppConfig, mode: TranscodeMode) -> Seq<Seq<char>> {
    if mode.audio_to_aac {
        seq![
            "-c:a"@,
            "aac"@,
            "-ac"@,
            "2"@,
            "-ar"@,
            "48000"@,
            "-b:a"@,
            kbps(config.ffmpeg_audio_bitrate_kbps),
        ]
    } else {
        seq!["-c:a"@, "copy"@]
    }
}

/// What the transcoder writes, and where.
pub open spec fn output_args() -> Seq<Seq<char>> {
    seq![
        "-muxdelay"@,
        "0"@,
        "-muxpreload"@,
        "0"@,
        "-flush_packets"@,
        "1"@,
        "-f"@,
        "mpegts"@,
        "pipe:1"@,
    ]
}

/// The whole command line behind the program's name.
pub open spec fn transcoder_args(config: AppConfig, mode: TranscodeMode, url: Seq<char>) -> Seq<
    Seq<char>,
> {
    input_args(url) + video_args(config, mode) + audio_args(config, mode) + output_args()
}

/// The key frame distance is a 32-bit number wherever the command line states it.
pub open spec fn gop_fits(config: AppConfig, mode: TranscodeMode) -> bool {
    mode.video_to_h264 && config.ffmpeg_video_encoder@ == "libx264"@ ==> gop(config) <= u32::MAX
}

/// Adds one argument.
fn add_arg(args: &mut Vec<String>, arg: &str)
    ensures
        text::texts_of(final(args)@) == text::texts_of(old(args)@).push(arg@),
{
    args.push(arg.to_owned());
    assert(text::texts_of(args@) =~= text::texts_of(old(args)@).push(arg@));
}

/// Adds a rate in kilobits per second.
fn add_kbps(args: &mut Vec<String>, n: u32)
    ensures
        text::texts_of(final(args)@) == text::texts_of(old(args)@).push(kbps(n)),
{
    let mut rate: String = text::decimal_text(n as u64);
    rate.append("k");
    add_arg(args, rate.as_str());
}

/// Adds an option and its number, where the number is not zero.
fn add_nonzero_option(args: &mut Vec<String>, name: &str, n: u32)
    ensures
        text::texts_of(final(args)@) == text::texts_of(old(args)@) + nonzero_option(name@, n),
{
    if n > 0 {
        add_arg(args, name);
        let number: String = text::decimal_text(n as u64);
        add_arg(args, number.as_str());
    }
    assert(text::texts_of(args@) =~= text::texts_of(old(args)@) + nonzero_option(name@, n));
}

fn add_input_args(args: &mut Vec<String>, url: &str)
    ensures
        text::texts_of(final(args)@) == text::texts_of(old(args)@) + input_args(url@),
{
    add_arg(args, "-hide_banner");
    add_arg(args, "-loglevel");
    add_arg(args, "error");
    add_arg(args, "-nostats");
    add_arg(args, "-fflags");
    add_arg(args, "+discardcorrupt");
    add_arg(args, "-err_detect");
    add_arg(args, "ignore_err");
    add_arg(args, "-analyzeduration");
    add_arg(args, "0");
    add_arg(args, "-probesize");
    add_arg(args, "64k");
    add_arg(args, "-i");
    add_arg(args, url);
    add_arg(args, "-map");
    add_arg(args, "0:v:0");
    add_arg(args, "-map");
    add_arg(args, "0:a:0?");
    assert(text::texts_of(args@) =~= text::texts_of(old(args)@) + input_args(url@));
}

fn add_encoder_args(args: &mut Vec<String>, config: &AppConfig)
    requires
        config.ffmpeg_video_encoder@ == "libx264"@ ==> gop(*config) <= u32::MAX,
    ensures
        text::texts_of(final(args)@) == text::texts_of(old(args)@) + encoder_args(*config),
{
    if text::same_text(config.ffmpeg_video_encoder.as_str(), "libx264") {
        let fps: u32 = if config.ffmpeg_video_output_fps < 25 {
            25
        } else {
            config.ffmpeg_video_output_fps
        };
        let gop: String = text::decimal_text((fps * 2) as u64);
        let crf: String = text::decimal_text(config.ffmpeg_video_crf as u64);
        add_arg(args, "-preset");
        add_arg(args, config.ffmpeg_video_preset.as_str());
        add_arg(args, "-crf");
        add_arg(args, crf.as_str());
        add_arg(args, "-tune");
        add_arg(args, "zerolatency");
        add_arg(args, "-pix_fmt");
        add_arg(args, "yuv420p");
        add_arg(args, "-profile:v");
        add_arg(args, "high");
        add_arg(args, "-level:v");
        add_arg(args, "4.0");
        add_arg(args, "-g");
        add_arg(args, gop.as_str());
        add_arg(args, "-keyint_min");
        add_arg(args, gop.as_str());
        add_arg(args, "-sc_threshold");
        add_arg(args, "0");
    } else if text::same_text(config.ffmpeg_video_encoder.as_str(), "h264_v4l2m2m") {
        add_arg(args, "-pix_fmt");
        add_arg(args, "yuv420p");
    }
    assert(text::texts_of(args@) =~= text::texts_of(old(args)@) + encoder_args(*config));
}

fn add_video_args(args: &mut Vec<String>, config: &AppConfig, mode: TranscodeMode)
    requires
        gop_fits(*config, mode),
    ensures
        text::texts_of(final(args)@) == text::texts_of(old(args)@) + video_args(*config, mode),
{
    if mode.video_to_h264 {
        add_arg(args, "-c:v");
        add_arg(args, config.ffmpeg_video_encoder.as_str());
        add_nonzero_option(args, "-r", config.ffmpeg_video_output_fps);
        add_nonzero_option(args, "-threads", config.ffmpeg_video_threads);
        add_arg(args, "-bf");
        add_arg(args, "0");
        add_arg(args, "-maxrate");
        add_kbps(args, config.ffmpeg_video_maxrate_kbps);
        add_arg(args, "-bufsize");
        add_kbps(args, config.ffmpeg_video_bufsize_kbps);
        add_encoder_args(args, config);
    } else {
        add_arg(args, "-c:v");
        add_arg(args, "copy");
    }
    assert(text::texts_of(args@) =~= text::texts_of(old(args)@) + video_args(*config, mode));
}

fn add_audio_args(args: &mut Vec<String>, config: &AppConfig, mode: TranscodeMode)
    ensures
        text::texts_of(final(args)@) == text::texts_of(old(args)@) + audio_args(*config, mode),
{
    if mode.audio_to_aac {
        add_arg(args, "-c:a");
        add_arg(args, "aac");
        add_arg(args, "-ac");
        add_arg(args, "2");
        add_arg(args, "-ar");
        add_arg(args, "48000");
        add_arg(args, "-b:a");
        add_kbps(args, config.ffmpeg_audio_bitrate_kbps);
    } else {
        add_arg(args, "-c:a");
        add_arg(args, "copy");
    }
    assert(text::texts_of(args@) =~= text::texts_of(old(args)@) + audio_args(*config, mode));
}

fn add_output_args(args: &mut Vec<String>)
    ensures
        text::texts_of(final(args)@) == text::texts_of(old(args)@) + output_args(),
{
    add_arg(args, "-muxdelay");
    add_arg(args, "0");
    add_arg(args, "-muxpreload");
    add_arg(args, "0");
    add_arg(args, "-flush_packets");
    add_arg(args, "1");
    add_arg(args, "-f");
    add_arg(args, "mpegts");
    add_arg(args, "pipe:1");
    assert(text::texts_of(args@) =~= text::texts_of(old(args)@) + output_args());
}

/// Whether the key frame distance fits wherever the command line states it.
pub fn key_frame_distance_fits(config: &AppConfig, mode: TranscodeMode) -> (r: bool)
    ensures
        r == gop_fits(*config, mode),
        config.ffmpeg_video_output_fps <= 2_147_483_647 ==> r,
{
    !(mode.video_to_h264 && text::same_text(config.ffmpeg_video_encoder.as_str(), "libx264"))
        || config.ffmpeg_video_output_fps <= u32::MAX / 2
}

/// The transcoder's command line behind the program's name.
pub fn transcoder_command_line(config: &AppConfig, mode: TranscodeMode, url: &str) -> (r: Vec<
    String,
>)
    requires
        gop_fits(*config, mode),
    ensures
        text::texts_of(r@) == transcoder_args(*config, mode, url@),
{
    let mut args: Vec<String> = Vec::new();
    assert(text::texts_of(args@) =~= seq![]);
    add_input_args(&mut args, url);
    add_video_args(&mut args, config, mode);
    add_audio_args(&mut args, config, mode);
    add_output_args(&mut args);
    assert(text::texts_of(args@) =~= transcoder_args(*config, mode, url@));
    args
}

/// From position `i` on a word is spelled, each letter in either case.
pub open spec fn spelled_at(s: Seq<char>, i: int, lower: Seq<char>, upper: Seq<char>) -> bool {
    &&& 0 <= i
    &&& i + lower.len() <= s.len()
    &&& forall|k: int|
        0 <= k < lower.len() ==> s[i + k] == #[trigger] lower[k] || s[i + k] == upper[k]
}

/// A title has `full hd`, `fhd` or `1080` in it, in small or capital letters.
pub open spec fn says_full_hd(title: Seq<char>) -> bool {
    ||| exists|i: int| spelled_at(title, i, "full hd"@, "FULL HD"@)
    ||| exists|i: int| spelled_at(title, i, "fhd"@, "FHD"@)
    ||| exists|i: int| spelled_at(title, i, "1080"@, "1080"@)
}

/// The capital letter or other character that stands for `c`.
spec fn in_capitals(c: char, capital: char) -> bool {
    if 'a' <= c <= 'z' {
        'A' <= capital <= 'Z' && capital as int + 32 == c as int
    } else {
        capital == c && !('A' <= c <= 'Z')
    }
}

/// A word is spelled in either case just where it stands in the title in small letters.
proof fn lemma_spelled(s: Seq<char>, lower: Seq<char>, upper: Seq<char>)
    requires
        upper.len() == lower.len(),
        forall|k: int| 0 <= k < lower.len() ==> in_capitals(#[trigger] lower[k], upper[k]),
    ensures
        text::has_text(text::lowered(s), lower) <==> exists|i: int| spelled_at(s, i, lower, upper),
{
    let small = text::lowered(s);
    if text::has_text(small, lower) {
        let i = choose|i: int| text::occurs_at(small, lower, i);
        assert forall|k: int| 0 <= k < lower.len() implies s[i + k] == #[trigger] lower[k] || s[i
            + k] == upper[k] by {
            assert(small.subrange(i, i + lower.len())[k] == small[i + k]);
            assert(small[i + k] == text::ascii_lower(s[i + k]));
            assert(in_capitals(lower[k], upper[k]));
        }
        assert(spelled_at(s, i, lower, upper));
    }
    if exists|i: int| spelled_at(s, i, lower, upper) {
        let i = choose|i: int| spelled_at(s, i, lower, upper);
        assert forall|k: int| 0 <= k < lower.len() implies small[i + k] == #[trigger] lower[k] by {
            assert(small[i + k] == text::ascii_lower(s[i + k]));
            assert(in_capitals(lower[k], upper[k]));
        }
        assert(small.subrange(i, i + lower.len()) =~= lower);
        assert(text::occurs_at(small, lower, i));
    }
}

/// The sound and the picture of a channel whose title says full HD are transcoded just as
/// configured, each on its own, and those of other channels never.
pub proof fn mode_follows_the_title(config: AppConfig, title: Seq<char>)
    ensures
        says_full_hd(title) ==> mode_for(config, title).audio_to_aac
            == config.transcode_full_hd_audio_to_aac && mode_for(config, title).video_to_h264
            == config.transcode_full_hd_video_to_h264,
        !says_full_hd(title) ==> !mode_for(config, title).audio_to_aac && !mode_for(
            config,
            title,
        ).video_to_h264,
        mode_for(config, title).enabled() <==> mode_for(config, title).audio_to_aac || mode_for(
            config,
            title,
        ).video_to_h264,
{
    reveal_strlit("full hd");
    reveal_strlit("FULL HD");
    reveal_strlit("fhd");
    reveal_strlit("FHD");
    reveal_strlit("1080");
    lemma_spelled(title, "full hd"@, "FULL HD"@);
    lemma_spelled(title, "fhd"@, "FHD"@);
    lemma_spelled(title, "1080"@, "1080"@);
}

/// A stream's key is its URL and behind it one digit each for sound and picture.
pub proof fn stream_key_spells_url_and_mode(url: Seq<char>, mode: TranscodeMode)
    ensures
        key_chars(url, mode).take(url.len() as int) == url,
        key_chars(url, mode).skip(url.len() as int) == (match (
            mode.audio_to_aac,
            mode.video_to_h264,
        ) {
            (false, false) => ":a0:v0"@,
            (true, false) => ":a1:v0"@,
            (false, true) => ":a0:v1"@,
            (true, true) => ":a1:v1"@,
        }),
{
    reveal_strlit("1");
    reveal_strlit("0");
    reveal_strlit(":a");
    reveal_strlit(":v");
    reveal_strlit(":a0:v0");
    reveal_strlit(":a1:v0");
    reveal_strlit(":a0:v1");
    reveal_strlit(":a1:v1");
    let key = key_chars(url, mode);
    assert(key.take(url.len() as int) =~= url);
    assert(key.skip(url.len() as int) =~= (match (mode.audio_to_aac, mode.video_to_h264) {
        (false, false) => ":a0:v0"@,
        (true, false) => ":a1:v0"@,
        (false, true) => ":a0:v1"@,
        (true, true) => ":a1:v1"@,
    }));
}

/// Between two places the command line sets an option to a value.
pub open spec fn sets(
    args: Seq<Seq<char>>,
    from: int,
    to: int,
    name: Seq<char>,
    value: Seq<char>,
) -> bool {
    exists|i: int| 0 <= from <= i < to - 1 && #[trigger] args[i] == name && args[i + 1] == value
}

/// An option that is set in a part of the command line is set in the whole.
proof fn lemma_sets(args: Seq<Seq<char>>, part: Seq<Seq<char>>, at: int, from: int, to: int, j: int)
    requires
        0 <= at,
        at + part.len() <= args.len(),
        args.subrange(at, at + part.len()) == part,
        0 <= j < part.len() - 1,
        0 <= from <= at + j < to - 1,
    ensures
        sets(args, from, to, part[j], part[j + 1]),
{
    assert(args.subrange(at, at + part.len())[j] == args[at + j]);
    assert(args.subrange(at, at + part.len())[j + 1] == args[at + j + 1]);
}

/// Where the parts of the command line stand.
proof fn lemma_parts(config: AppConfig, mode: TranscodeMode, url: Seq<char>)
    ensures
        ({
            let args = transcoder_args(config, mode, url);
            let v = video_args(config, mode).len() as int;
            let a = audio_args(config, mode).len() as int;
            &&& args.len() == 18 + v + a + 9
            &&& args.subrange(0, 18) == input_args(url)
            &&& args.subrange(18, 18 + v) == video_args(config, mode)
            &&& args.subrange(18 + v, 18 + v + a) == audio_args(config, mode)
            &&& args.subrange(18 + v + a, 18 + v + a + 9) == output_args()
        }),
{
    let args = transcoder_args(config, mode, url);
    let v = video_args(config, mode).len() as int;
    let a = audio_args(config, mode).len() as int;
    assert(args.subrange(0, 18) =~= input_args(url));
    assert(args.subrange(18, 18 + v) =~= video_args(config, mode));
    assert(args.subrange(18 + v, 18 + v + a) =~= audio_args(config, mode));
    assert(args.subrange(18 + v + a, 18 + v + a + 9) =~= output_args());
}

/// The transcoder is quiet, reads the channel's own URL, forgives errors in it and starts without
/// probing it for long. Behind the URL it is told to take the first picture and, where there is
/// one, the first sound.
pub proof fn transcoder_reads_the_channel(config: AppConfig, mode: TranscodeMode, url: Seq<char>)
    ensures
        ({
            let args = transcoder_args(config, mode, url);
            let end = args.len() as int;
            &&& args[12] == "-i"@
            &&& args[13] == url
            &&& args[15] == "0:v:0"@
            &&& args[17] == "0:a:0?"@
            &&& args.take(12).contains("-hide_banner"@)
            &&& args.take(12).contains("-nostats"@)
            &&& sets(args, 0, 12, "-loglevel"@, "error"@)
            &&& sets(args, 0, 12, "-fflags"@, "+discardcorrupt"@)
            &&& sets(args, 0, 12, "-err_detect"@, "ignore_err"@)
            &&& sets(args, 0, 12, "-analyzeduration"@, "0"@)
            &&& sets(args, 0, 12, "-probesize"@, "64k"@)
            &&& sets(args, 14, end, "-map"@, "0:v:0"@)
            &&& sets(args, 14, end, "-map"@, "0:a:0?"@)
        }),
{
    let args = transcoder_args(config, mode, url);
    let part = input_args(url);
    lemma_parts(config, mode, url);
    assert(args.subrange(0, 18)[12] == args[12] && args.subrange(0, 18)[13] == args[13]);
    assert(args.subrange(0, 18)[15] == args[15] && args.subrange(0, 18)[17] == args[17]);
    assert(args.take(12)[0] == args.subrange(0, 18)[0]);
    assert(args.take(12)[3] == args.subrange(0, 18)[3]);
    lemma_sets(args, part, 0, 0, 12, 1);
    lemma_sets(args, part, 0, 0, 12, 4);
    lemma_sets(args, part, 0, 0, 12, 6);
    lemma_sets(args, part, 0, 0, 12, 8);
    lemma_sets(args, part, 0, 0, 12, 10);
    lemma_sets(args, part, 0, 14, args.len() as int, 14);
    lemma_sets(args, part, 0, 14, args.len() as int, 16);
}

/// The transcoder writes an MPEG transport stream to its standard output, at once.
pub proof fn transcoder_writes_a_transport_stream(
    config: AppConfig,
    mode: TranscodeMode,
    url: Seq<char>,
)
    ensures
        ({
            let args = transcoder_args(config, mode, url);
            let end = args.len() as int;
            &&& args.last() == "pipe:1"@
            &&& sets(args, 14, end, "-f"@, "mpegts"@)
            &&& sets(args, 14, end, "-muxdelay"@, "0"@)
            &&& sets(args, 14, end, "-muxpreload"@, "0"@)
            &&& sets(args, 14, end, "-flush_packets"@, "1"@)
        }),
{
    let args = transcoder_args(config, mode, url);
    let end = args.len() as int;
    let part = output_args();
    lemma_parts(config, mode, url);
    assert(args.subrange(end - 9, end)[8] == args.last());
    lemma_sets(args, part, end - 9, 14, end, 0);
    lemma_sets(args, part, end - 9, 14, end, 2);
    lemma_sets(args, part, end - 9, 14, end, 4);
    lemma_sets(args, part, end - 9, 14, end, 6);
}

/// The sound is turned into stereo AAC at the configured rate, or copied.
pub proof fn sound_is_treated_as_configured(config: AppConfig, mode: TranscodeMode, url: Seq<char>)
    ensures
        ({
            let args = transcoder_args(config, mode, url);
            let end = args.len() as int;
            &&& mode.audio_to_aac ==> {
                &&& sets(args, 14, end, "-c:a"@, "aac"@)
                &&& sets(args, 14, end, "-ac"@, "2"@)
                &&& sets(args, 14, end, "-ar"@, "48000"@)
                &&& sets(
                    args,
                    14,
                    end,
                    "-b:a"@,
                    text::decimal(config.ffmpeg_audio_bitrate_kbps as nat) + "k"@,
                )
            }
            &&& !mode.audio_to_aac ==> sets(args, 14, end, "-c:a"@, "copy"@)
        }),
{
    let args = transcoder_args(config, mode, url);
    let end = args.len() as int;
    let part = audio_args(config, mode);
    let at = 18 + video_args(config, mode).len() as int;
    lemma_parts(config, mode, url);
    lemma_sets(args, part, at, 14, end, 0);
    if mode.audio_to_aac {
        lemma_sets(args, part, at, 14, end, 2);
        lemma_sets(args, part, at, 14, end, 4);
        lemma_sets(args, part, at, 14, end, 6);
    }
}

/// Where the options for a picture that is transcoded stand.
proof fn lemma_picture_options(config: AppConfig, mode: TranscodeMode)
    requires
        mode.video_to_h264,
    ensures
        ({
            let part = video_args(config, mode);
            let fps = config.ffmpeg_video_output_fps;
            let threads = config.ffmpeg_video_threads;
            let r: int = if fps > 0 {
                2
            } else {
                0
            };
            let t: int = if threads > 0 {
                2
            } else {
                0
            };
            let b = 2 + r + t;
            &&& part.len() == b + 6 + encoder_args(config).len()
            &&& part[0] == "-c:v"@ && part[1] == config.ffmpeg_video_encoder@
            &&& fps > 0 ==> part[2] == "-r"@ && part[3] == text::decimal(fps as nat)
            &&& threads > 0 ==> part[2 + r] == "-threads"@ && part[3 + r] == text::decimal(
                threads as nat,
            )
            &&& part[b] == "-bf"@ && part[b + 1] == "0"@
            &&& part[b + 2] == "-maxrate"@ && part[b + 3] == kbps(config.ffmpeg_video_maxrate_kbps)
            &&& part[b + 4] == "-bufsize"@ && part[b + 5] == kbps(config.ffmpeg_video_bufsize_kbps)
            &&& part.subrange(b + 6, part.len() as int) == encoder_args(config)
        }),
{
    let part = video_args(config, mode);
    let options = nonzero_option("-r"@, config.ffmpeg_video_output_fps) + nonzero_option(
        "-threads"@,
        config.ffmpeg_video_threads,
    );
    let b = 2 + options.len() as int;
    assert(part.subrange(b + 6, part.len() as int) =~= encoder_args(config));
}

/// The picture is turned into H.264 by the configured encoder, at the configured rates, or copied.
/// A picture rate or a number of threads of zero is left to the transcoder.
pub proof fn picture_is_treated_as_configured(
    config: AppConfig,
    mode: TranscodeMode,
    url: Seq<char>,
)
    ensures
        ({
            let args = transcoder_args(config, mode, url);
            let end = args.len() as int;
            let fps = config.ffmpeg_video_output_fps;
            let threads = config.ffmpeg_video_threads;
            &&& !mode.video_to_h264 ==> sets(args, 14, end, "-c:v"@, "copy"@)
            &&& mode.video_to_h264 ==> {
                &&& sets(args, 14, end, "-c:v"@, config.ffmpeg_video_encoder@)
                &&& fps > 0 ==> sets(args, 14, end, "-r"@, text::decimal(fps as nat))
                &&& threads > 0 ==> sets(args, 14, end, "-threads"@, text::decimal(threads as nat))
                &&& sets(args, 14, end, "-bf"@, "0"@)
                &&& sets(
                    args,
                    14,
                    end,
                    "-maxrate"@,
                    text::decimal(config.ffmpeg_video_maxrate_kbps as nat) + "k"@,
                )
                &&& sets(
                    args,
                    14,
                    end,
                    "-bufsize"@,
                    text::decimal(config.ffmpeg_video_bufsize_kbps as nat) + "k"@,
                )
            }
        }),
{
    let args = transcoder_args(config, mode, url);
    let end = args.len() as int;
    let part = video_args(config, mode);
    lemma_parts(config, mode, url);
    if mode.video_to_h264 {
        let r: int = if config.ffmpeg_video_output_fps > 0 {
            2
        } else {
            0
        };
        let t: int = if config.ffmpeg_video_threads > 0 {
            2
        } else {
            0
        };
        lemma_picture_options(config, mode);
        lemma_sets(args, part, 18, 14, end, 0);
        lemma_sets(args, part, 18, 14, end, 2);
        lemma_sets(args, part, 18, 14, end, 2 + r);
        lemma_sets(args, part, 18, 14, end, 2 + r + t);
        lemma_sets(args, part, 18, 14, end, 4 + r + t);
        lemma_sets(args, part, 18, 14, end, 6 + r + t);
    } else {
        lemma_sets(args, part, 18, 14, end, 0);
    }
}

/// The software encoder is told the configured preset and quality, to add no delay, and to put a
/// key frame every two seconds of pictures, of 25 or more a second. The hardware encoder is told
/// the pixel format.
pub proof fn encoder_is_told_what_it_needs(config: AppConfig, mode: TranscodeMode, url: Seq<char>)
    requires
        mode.video_to_h264,
    ensures
        ({
            let args = transcoder_args(config, mode, url);
            let end = args.len() as int;
            let fps = config.ffmpeg_video_output_fps;
            let distance = text::decimal(
                if fps > 25 {
                    (2 * fps) as nat
                } else {
                    50
                },
            );
            &&& config.ffmpeg_video_encoder@ == "libx264"@ ==> {
                &&& sets(args, 14, end, "-preset"@, config.ffmpeg_video_preset@)
                &&& sets(args, 14, end, "-crf"@, text::decimal(config.ffmpeg_video_crf as nat))
                &&& sets(args, 14, end, "-tune"@, "zerolatency"@)
                &&& sets(args, 14, end, "-pix_fmt"@, "yuv420p"@)
                &&& sets(args, 14, end, "-profile:v"@, "high"@)
                &&& sets(args, 14, end, "-level:v"@, "4.0"@)
                &&& sets(args, 14, end, "-g"@, distance)
                &&& sets(args, 14, end, "-keyint_min"@, distance)
                &&& sets(args, 14, end, "-sc_threshold"@, "0"@)
            }
            &&& config.ffmpeg_video_encoder@ == "h264_v4l2m2m"@ ==> sets(
                args,
                14,
                end,
                "-pix_fmt"@,
                "yuv420p"@,
            )
        }),
{
    reveal_strlit("libx264");
    reveal_strlit("h264_v4l2m2m");
    assert("libx264"@.len() != "h264_v4l2m2m"@.len());
    let args = transcoder_args(config, mode, url);
    let end = args.len() as int;
    let part = encoder_args(config);
    let v = video_args(config, mode).len() as int;
    let at = 18 + v - part.len();
    lemma_parts(config, mode, url);
    lemma_picture_options(config, mode);
    assert(args.subrange(at, at + part.len()) =~= args.subrange(18, 18 + v).subrange(
        v - part.len(),
        v,
    ));
    if config.ffmpeg_video_encoder@ == "libx264"@ {
        assert(part.len() == 18);
        lemma_sets(args, part, at, 14, end, 0);
        lemma_sets(args, part, at, 14, end, 2);
        lemma_sets(args, part, at, 14, end, 4);
        lemma_sets(args, part, at, 14, end, 6);
        lemma_sets(args, part, at, 14, end, 8);
        lemma_sets(args, part, at, 14, end, 10);
        lemma_sets(args, part, at, 14, end, 12);
        lemma_sets(args, part, at, 14, end, 14);
        lemma_sets(args, part, at, 14, end, 16);
    } else if config.ffmpeg_video_encoder@ == "h264_v4l2m2m"@ {
        assert(part.len() == 2);
        lemma_sets(args, part, at, 14, end, 0);
    }
}

/// The command line holds nothing more than that: besides what is always there, two words for
/// each option that the mode, the encoder and the numbers that are not zero call for.
pub proof fn command_line_holds_nothing_more(
    config: AppConfig,
    mode: TranscodeMode,
    url: Seq<char>,
)
    ensures
        ({
            let sound: int = if mode.audio_to_aac {
                8
            } else {
                2
            };
            let rate: int = if config.ffmpeg_video_output_fps > 0 {
                2
            } else {
                0
            };
            let threads: int = if config.ffmpeg_video_threads > 0 {
                2
            } else {
                0
            };
            let encoder: int = if config.ffmpeg_video_encoder@ == "libx264"@ {
                18
            } else if config.ffmpeg_video_encoder@ == "h264_v4l2m2m"@ {
                2
            } else {
                0
            };
            let picture: int = if mode.video_to_h264 {
                8 + rate + threads + encoder
            } else {
                2
            };
            transcoder_args(config, mode, url).len() == 27 + sound + picture
        }),
{
    lemma_parts(config, mode, url);
    if mode.video_to_h264 {
        lemma_picture_options(config, mode);
    }
}

/// The key frame distance fits but for a software encoder that is asked for more pictures a second
/// than half of what 32 bits hold.
pub proof fn ordinary_picture_rates_fit(config: AppConfig, mode: TranscodeMode)
    ensures
        gop_fits(config, mode) <==> !mode.video_to_h264 || config.ffmpeg_video_encoder@
            != "libx264"@ || config.ffmpeg_video_output_fps <= 2_147_483_647,
{
}

} // verus!
