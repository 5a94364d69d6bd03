//! The H.264 adaptive-bitrate ladder and the pure parts of a rendition
//! transcode: naming, the FFmpeg argument list, progress parsing, the exit
//! outcome, and the rendition descriptions handed to manifest generation.
//! Spawning FFmpeg and touching the file system stay with the caller.
use crate::manifest::RenditionInfo;
use crate::text::{append, chars_of, dec, dec_int, i64_digits, owned, parse_u64, parse_u64_chars,
    push_str, push_string, starts_with, str_is, string_of, u64_digits};
use vstd::prelude::*;

verus! {

/// One rung of the bitrate ladder.
#[derive(Debug, Clone)]
pub struct ResolutionProfile {
    pub name: String,
    pub width: u32,
    pub height: u32,
    pub bitrate: String,
    pub maxrate: String,
    pub bufsize: String,
}

/// Plain-value view of a ladder rung: name, width, height, bitrate, maxrate, bufsize.
pub type ProfileView = (Seq<char>, u32, u32, Seq<char>, Seq<char>, Seq<char>);

impl View for ResolutionProfile {
    type V = ProfileView;

    open spec fn view(&self) -> ProfileView {
        (self.name@, self.width, self.height, self.bitrate@, self.maxrate@, self.bufsize@)
    }
}

/// The six rungs of the H.264 ladder, from 360p up to 2160p.
pub open spec fn ladder_spec() -> Seq<ProfileView> {
    seq![
        ("360p"@, 640u32, 360u32, "800k"@, "856k"@, "1200k"@),
        ("480p"@, 854u32, 480u32, "1400k"@, "1498k"@, "2100k"@),
        ("720p"@, 1280u32, 720u32, "2800k"@, "2996k"@, "4200k"@),
        ("1080p"@, 1920u32, 1080u32, "5000k"@, "5350k"@, "7500k"@),
        ("1440p"@, 2560u32, 1440u32, "10000k"@, "10700k"@, "15000k"@),
        ("2160p"@, 3840u32, 2160u32, "16000k"@, "17120k"@, "24000k"@),
    ]
}

fn profile(
    name: &str,
    width: u32,
    height: u32,
    bitrate: &str,
    maxrate: &str,
    bufsize: &str,
) -> (p: ResolutionProfile)
    ensures
        p@ == (name@, width, height, bitrate@, maxrate@, bufsize@),
{
    ResolutionProfile {
        name: owned(name),
        width,
        height,
        bitrate: owned(bitrate),
        maxrate: owned(maxrate),
        bufsize: owned(bufsize),
    }
}

/// The H.264 ladder, rung by rung.
pub fn h264_ladder() -> (r: Vec<ResolutionProfile>)
    ensures
        r@.len() == ladder_spec().len(),
        forall|i: int| 0 <= i < r@.len() ==> #[trigger] r@[i]@ == ladder_spec()[i],
{
    let mut r: Vec<ResolutionProfile> = Vec::new();
    r.push(profile("360p", 640, 360, "800k", "856k", "1200k"));
    r.push(profile("480p", 854, 480, "1400k", "1498k", "2100k"));
    r.push(profile("720p", 1280, 720, "2800k", "2996k", "4200k"));
    r.push(profile("1080p", 1920, 1080, "5000k", "5350k", "7500k"));
    r.push(profile("1440p", 2560, 1440, "10000k", "10700k", "15000k"));
    r.push(profile("2160p", 3840, 2160, "16000k", "17120k", "24000k"));
    r
}

/// `s` with every trailing `c` removed, as `str::trim_end_matches` with a character gives it.
pub open spec fn trim_end_char(s: Seq<char>, c: char) -> Seq<char>
    decreases s.len(),
{
    if s.len() > 0 && s.last() == c {
        trim_end_char(s.drop_last(), c)
    } else {
        s
    }
}

/// The number a bitrate such as `800k` stands for, in kilobits per second:
/// trailing `k`s and then `K`s dropped, the rest read as a `u64`, 1000 where that fails.
pub open spec fn bitrate_kbps(bitrate: Seq<char>) -> u64 {
    match parse_u64(trim_end_char(trim_end_char(bitrate, 'k'), 'K')) {
        Some(v) => v,
        None => 1000,
    }
}

/// The bandwidth in bits per second that a bitrate stands for.
pub open spec fn bandwidth_of(bitrate: Seq<char>) -> int {
    bitrate_kbps(bitrate) * 1000
}

fn trim_end_char_chars(s: &[char], c: char) -> (r: Vec<char>)
    ensures
        r@ == trim_end_char(s@, c),
{
    let mut n = s.len();
    assert(s@.take(n as int) =~= s@);
    while n > 0 && s[n - 1] == c
        invariant
            n <= s@.len(),
            trim_end_char(s@.take(n as int), c) == trim_end_char(s@, c),
        decreases n,
    {
        proof {
            assert(s@.take(n as int).drop_last() =~= s@.take(n - 1));
        }
        n = n - 1;
    }
    let mut r: Vec<char> = Vec::new();
    let mut i: usize = 0;
    while i < n
        invariant
            i <= n <= s@.len(),
            r@ == s@.take(i as int),
        decreases n - i,
    {
        r.push(s[i]);
        i = i + 1;
        assert(r@ =~= s@.take(i as int));
    }
    r
}

/// Bits per second for a bitrate written like `800k`; a bitrate that does not
/// read as a number counts as 1000 kbps.
pub fn bandwidth_from_bitrate(bitrate: &str) -> (r: u64)
    requires
        bandwidth_of(bitrate@) <= u64::MAX,
    ensures
        r == bandwidth_of(bitrate@),
{
    let s = chars_of(bitrate);
    let t = trim_end_char_chars(s.as_slice(), 'k');
    let u = trim_end_char_chars(t.as_slice(), 'K');
    let v = match parse_u64_chars(u.as_slice()) {
        Some(v) => v,
        None => 1000,
    };
    v * 1000
}

/// A run of at most `n` digits is worth less than `10^n`.
proof fn lemma_digits_below(d: Seq<char>, n: nat)
    requires
        d.len() <= n,
        crate::text::all_digits(d),
    ensures
        crate::text::digits_value(d) < crate::token::pow10(n),
    decreases n,
{
    if d.len() == 0 {
        lemma_pow10_pos(n);
    } else {
        let e = d.drop_last();
        assert(crate::text::all_digits(e)) by {
            assert forall|j: int| 0 <= j < e.len() implies crate::text::is_digit(#[trigger] e[j]) by {
                assert(e[j] == d[j]);
            }
        }
        assert(crate::text::is_digit(d[d.len() - 1]));
        lemma_digits_below(e, (n - 1) as nat);
        let v = crate::text::digits_value(e);
        let p = crate::token::pow10((n - 1) as nat);
        assert(crate::text::digit_val(d.last()) <= 9);
        assert(v * 10 + 9 < p * 10) by (nonlinear_arith)
            requires v < p;
    }
}

proof fn lemma_dv_push(e: Seq<char>, c: char)
    ensures
        crate::text::digits_value(e.push(c)) == crate::text::digits_value(e) * 10
            + crate::text::digit_val(c),
{
    assert(e.push(c).drop_last() =~= e);
}

proof fn lemma_dv5(a: char, b: char, c: char, d: char, e: char)
    ensures
        crate::text::digits_value(seq![a, b, c]) == (crate::text::digit_val(a) * 10
            + crate::text::digit_val(b)) * 10 + crate::text::digit_val(c),
        crate::text::digits_value(seq![a, b, c, d]) == ((crate::text::digit_val(a) * 10
            + crate::text::digit_val(b)) * 10 + crate::text::digit_val(c)) * 10
            + crate::text::digit_val(d),
        crate::text::digits_value(seq![a, b, c, d, e]) == (((crate::text::digit_val(a) * 10
            + crate::text::digit_val(b)) * 10 + crate::text::digit_val(c)) * 10
            + crate::text::digit_val(d)) * 10 + crate::text::digit_val(e),
{
    let s0 = Seq::<char>::empty();
    assert(crate::text::digits_value(s0) == 0);
    lemma_dv_push(s0, a);
    lemma_dv_push(seq![a], b);
    lemma_dv_push(seq![a, b], c);
    lemma_dv_push(seq![a, b, c], d);
    lemma_dv_push(seq![a, b, c, d], e);
    assert(s0.push(a) =~= seq![a]);
    assert(seq![a].push(b) =~= seq![a, b]);
    assert(seq![a, b].push(c) =~= seq![a, b, c]);
    assert(seq![a, b, c].push(d) =~= seq![a, b, c, d]);
    assert(seq![a, b, c, d].push(e) =~= seq![a, b, c, d, e]);
}

/// The ladder's rates: 800 kbps at 360p, 1.4 Mbps at 480p, 2.8 Mbps at
/// 720p, 5 Mbps at 1080p, 10 Mbps at 1440p and 16 Mbps at 2160p.
pub proof fn lemma_ladder_rates()
    ensures
        bandwidth_of(ladder_spec()[0].3) == 800_000,
        bandwidth_of(ladder_spec()[1].3) == 1_400_000,
        bandwidth_of(ladder_spec()[2].3) == 2_800_000,
        bandwidth_of(ladder_spec()[3].3) == 5_000_000,
        bandwidth_of(ladder_spec()[4].3) == 10_000_000,
        bandwidth_of(ladder_spec()[5].3) == 16_000_000,
{
    lemma_rate(0);
    lemma_rate(1);
    lemma_rate(2);
    lemma_rate(3);
    lemma_rate(4);
    lemma_rate(5);
}

proof fn lemma_rate(i: int)
    requires
        0 <= i < 6,
    ensures
        bitrate_kbps(ladder_spec()[i].3) == crate::text::digits_value(ladder_spec()[i].3.drop_last()),
        crate::text::all_digits(ladder_spec()[i].3.drop_last()),
        3 <= ladder_spec()[i].3.drop_last().len() <= 5,
        i == 0 ==> ladder_spec()[i].3.drop_last() == seq!['8', '0', '0'],
        i == 1 ==> ladder_spec()[i].3.drop_last() == seq!['1', '4', '0', '0'],
        i == 2 ==> ladder_spec()[i].3.drop_last() == seq!['2', '8', '0', '0'],
        i == 3 ==> ladder_spec()[i].3.drop_last() == seq!['5', '0', '0', '0'],
        i == 4 ==> ladder_spec()[i].3.drop_last() == seq!['1', '0', '0', '0', '0'],
        i == 5 ==> ladder_spec()[i].3.drop_last() == seq!['1', '6', '0', '0', '0'],
        bandwidth_of(ladder_spec()[i].3) == seq![800_000int, 1_400_000, 2_800_000, 5_000_000, 10_000_000, 16_000_000][i],
{
    reveal_strlit("800k");
    reveal_strlit("1400k");
    reveal_strlit("2800k");
    reveal_strlit("5000k");
    reveal_strlit("10000k");
    reveal_strlit("16000k");
    lemma_ladder_bandwidth(i);
    let s = ladder_spec()[i].3;
    let d = s.drop_last();
    assert(s == d.push('k'));
    assert(crate::text::all_digits(d));
    assert(trim_end_char(d, 'k') == d);
    assert(trim_end_char(s, 'k') == d);
    assert(trim_end_char(d, 'K') == d);
    assert(crate::text::unsigned_body(d) == d);
    reveal_with_fuel(crate::token::pow10, 6);
    lemma_digits_below(d, 5);
    assert(crate::token::pow10(5) == 100000);
    lemma_dv5(d[0], d[1], d[2], if d.len() > 3 { d[3] } else { '0' }, if d.len() > 4 { d[4] } else { '0' });
    if i == 0 {
        assert(d =~= seq!['8', '0', '0']);
    } else if i == 1 {
        assert(d =~= seq!['1', '4', '0', '0']);
    } else if i == 2 {
        assert(d =~= seq!['2', '8', '0', '0']);
    } else if i == 3 {
        assert(d =~= seq!['5', '0', '0', '0']);
    } else if i == 4 {
        assert(d =~= seq!['1', '0', '0', '0', '0']);
    } else {
        assert(d =~= seq!['1', '6', '0', '0', '0']);
    }
    assert(crate::text::digit_val('0') == 0 && crate::text::digit_val('1') == 1 && crate::text::digit_val('2') == 2
        && crate::text::digit_val('4') == 4 && crate::text::digit_val('5') == 5 && crate::text::digit_val('6') == 6
        && crate::text::digit_val('8') == 8);
}

proof fn lemma_pow10_pos(n: nat)
    ensures
        crate::token::pow10(n) >= 1,
    decreases n,
{
    if n > 0 {
        lemma_pow10_pos((n - 1) as nat);
    }
}

/// The bitrates of the ladder are digits followed by `k`, so each reads as
/// fewer than a hundred thousand kilobits and its bandwidth fits in 64 bits.
pub proof fn lemma_ladder_bandwidth(i: int)
    requires
        0 <= i < ladder_spec().len(),
    ensures
        bitrate_kbps(ladder_spec()[i].3) < 100000,
        bandwidth_of(ladder_spec()[i].3) < 100000000,
{
    reveal_strlit("800k");
    reveal_strlit("1400k");
    reveal_strlit("2800k");
    reveal_strlit("5000k");
    reveal_strlit("10000k");
    reveal_strlit("16000k");
    let s = ladder_spec()[i].3;
    let d = s.drop_last();
    assert(s.len() >= 4 && s.len() <= 6 && s.last() == 'k');
    assert(s == d.push('k'));
    assert(crate::text::all_digits(d));
    assert(!crate::text::is_digit('k') && !crate::text::is_digit('K'));
    assert(trim_end_char(d, 'k') == d);
    assert(trim_end_char(s, 'k') == d);
    assert(trim_end_char(d, 'K') == d);
    assert(d[0] != '+');
    assert(crate::text::unsigned_body(d) == d);
    reveal_with_fuel(crate::token::pow10, 6);
    lemma_digits_below(d, 5);
    assert(crate::token::pow10(5) == 100000);
}

} // verus!

verus! {

/// Position of the rung called `name` in the ladder.
pub open spec fn ladder_index(name: Seq<char>) -> Option<int> {
    if name == "360p"@ {
        Some(0)
    } else if name == "480p"@ {
        Some(1)
    } else if name == "720p"@ {
        Some(2)
    } else if name == "1080p"@ {
        Some(3)
    } else if name == "1440p"@ {
        Some(4)
    } else if name == "2160p"@ {
        Some(5)
    } else {
        None
    }
}

fn find_rung(name: &str) -> (r: Option<usize>)
    ensures
        match ladder_index(name@) {
            Some(i) => r == Some(i as usize),
            None => r is None,
        },
{
    if str_is(name, "360p") {
        Some(0)
    } else if str_is(name, "480p") {
        Some(1)
    } else if str_is(name, "720p") {
        Some(2)
    } else if str_is(name, "1080p") {
        Some(3)
    } else if str_is(name, "1440p") {
        Some(4)
    } else if str_is(name, "2160p") {
        Some(5)
    } else {
        None
    }
}

/// Result of transcoding one rendition.
#[derive(Debug, Clone)]
pub struct TranscodeResult {
    pub resolution: String,
    pub output_dir: String,
    pub segment_pattern: String,
    pub playlist_file: String,
}

/// `info` describes the rendition `t`: the rung named by its resolution gives
/// the dimensions and the bandwidth, and the playlist file is carried over.
pub open spec fn describes(info: RenditionInfo, t: TranscodeResult) -> bool {
    match ladder_index(t.resolution@) {
        Some(i) => {
            &&& info.name@ == t.resolution@
            &&& info.width == ladder_spec()[i].1
            &&& info.height == ladder_spec()[i].2
            &&& info.bandwidth == bandwidth_of(ladder_spec()[i].3)
            &&& info.playlist_file@ == t.playlist_file@
        },
        None => false,
    }
}

impl TranscodeResult {
    /// The manifest description of this rendition; `None` when its
    /// resolution is not a rung of the ladder.
    pub fn to_rendition_info(&self) -> (r: Option<RenditionInfo>)
        ensures
            r is None <==> ladder_index(self.resolution@) is None,
            r matches Some(info) ==> describes(info, *self),
    {
        let ladder = h264_ladder();
        match find_rung(self.resolution.as_str()) {
            None => None,
            Some(i) => {
                let p = &ladder[i];
                proof {
                    lemma_ladder_bandwidth(i as int);
                    assert(p@ == ladder_spec()[i as int]);
                }
                Some(RenditionInfo {
                    name: self.resolution.clone(),
                    width: p.width,
                    height: p.height,
                    bandwidth: bandwidth_from_bitrate(p.bitrate.as_str()),
                    playlist_file: self.playlist_file.clone(),
                })
            },
        }
    }
}

/// The results whose resolution is a rung of the ladder, in order.
pub open spec fn on_ladder(rs: Seq<TranscodeResult>) -> Seq<TranscodeResult>
    decreases rs.len(),
{
    if rs.len() == 0 {
        Seq::empty()
    } else if ladder_index(rs.last().resolution@) is Some {
        on_ladder(rs.drop_last()).push(rs.last())
    } else {
        on_ladder(rs.drop_last())
    }
}

/// The manifest descriptions of the results on the ladder, in order; the others are skipped.
pub fn rendition_infos(results: &[TranscodeResult]) -> (r: Vec<RenditionInfo>)
    ensures
        r@.len() == on_ladder(results@).len(),
        forall|j: int| 0 <= j < r@.len() ==> describes(#[trigger] r@[j], on_ladder(results@)[j]),
{
    let mut r: Vec<RenditionInfo> = Vec::new();
    let mut i: usize = 0;
    while i < results.len()
        invariant
            i <= results@.len(),
            r@.len() == on_ladder(results@.take(i as int)).len(),
            forall|j: int| 0 <= j < r@.len() ==> describes(#[trigger] r@[j], on_ladder(results@.take(i as int))[j]),
        decreases results.len() - i,
    {
        assert(results@.take(i + 1).drop_last() =~= results@.take(i as int));
        match results[i].to_rendition_info() {
            Some(info) => {
                r.push(info);
            },
            None => {},
        }
        i = i + 1;
    }
    assert(results@.take(results@.len() as int) =~= results@);
    r
}

/// The playlist file of a rendition.
pub open spec fn playlist_name(name: Seq<char>) -> Seq<char> {
    name + ".m3u8"@
}

/// The segment file pattern of a rendition, numbered by FFmpeg.
pub open spec fn segment_pattern_of(name: Seq<char>) -> Seq<char> {
    name + "_%04d.m4s"@
}

/// The playlist file name for rung `p`.
pub fn playlist_file_for(p: &ResolutionProfile) -> (r: String)
    ensures
        r@ == playlist_name(p.name@),
{
    let mut v = chars_of(p.name.as_str());
    push_str(&mut v, ".m3u8");
    string_of(v.as_slice())
}

/// The segment file pattern for rung `p`.
pub fn segment_pattern_for(p: &ResolutionProfile) -> (r: String)
    ensures
        r@ == segment_pattern_of(p.name@),
{
    let mut v = chars_of(p.name.as_str());
    push_str(&mut v, "_%04d.m4s");
    string_of(v.as_slice())
}

/// The `scale` filter for the rung's frame size.
pub open spec fn scale_arg(width: u32, height: u32) -> Seq<char> {
    "scale="@ + dec(width as nat) + ":"@ + dec(height as nat)
}

/// The FFmpeg arguments for one rendition: H.264 video at the rung's rates,
/// stereo AAC audio, CMAF HLS output in six-second fMP4 segments, progress on
/// standard output, and the playlist written last.
pub open spec fn ffmpeg_args_spec(
    input: Seq<char>,
    segment_file: Seq<char>,
    playlist_file: Seq<char>,
    p: ProfileView,
) -> Seq<Seq<char>> {
    seq![
        "-i"@, input,
        "-c:v"@, "libx264"@,
        "-preset"@, "medium"@,
        "-profile:v"@, "main"@,
        "-b:v"@, p.3,
        "-maxrate"@, p.4,
        "-bufsize"@, p.5,
        "-vf"@, scale_arg(p.1, p.2),
        "-c:a"@, "aac"@,
        "-b:a"@, "128k"@,
        "-ac"@, "2"@,
        "-f"@, "hls"@,
        "-hls_time"@, "6"@,
        "-hls_playlist_type"@, "vod"@,
        "-hls_segment_type"@, "fmp4"@,
        "-hls_fmp4_init_filename"@, "init.mp4"@,
        "-hls_segment_filename"@, segment_file,
        "-progress"@, "pipe:1"@,
        "-y"@, playlist_file,
    ]
}

/// The FFmpeg command line for rung `p`, reading `input` and writing
/// segments to `segment_file` and the playlist to `playlist_file`.
pub fn ffmpeg_args(
    input: &str,
    segment_file: &str,
    playlist_file: &str,
    p: &ResolutionProfile,
) -> (r: Vec<String>)
    ensures
        crate::text::texts(r@) == ffmpeg_args_spec(input@, segment_file@, playlist_file@, p@),
{
    let mut scale = chars_of("scale=");
    append(&mut scale, u64_digits(p.width as u64).as_slice());
    push_str(&mut scale, ":");
    append(&mut scale, u64_digits(p.height as u64).as_slice());
    let mut r: Vec<String> = Vec::new();
    crate::text::push_owned(&mut r, "-i");
    crate::text::push_owned(&mut r, input);
    crate::text::push_owned(&mut r, "-c:v");
    crate::text::push_owned(&mut r, "libx264");
    crate::text::push_owned(&mut r, "-preset");
    crate::text::push_owned(&mut r, "medium");
    crate::text::push_owned(&mut r, "-profile:v");
    crate::text::push_owned(&mut r, "main");
    crate::text::push_owned(&mut r, "-b:v");
    crate::text::push_owned(&mut r, p.bitrate.as_str());
    crate::text::push_owned(&mut r, "-maxrate");
    crate::text::push_owned(&mut r, p.maxrate.as_str());
    crate::text::push_owned(&mut r, "-bufsize");
    crate::text::push_owned(&mut r, p.bufsize.as_str());
    crate::text::push_owned(&mut r, "-vf");
    crate::text::push_text(&mut r, string_of(scale.as_slice()));
    crate::text::push_owned(&mut r, "-c:a");
    crate::text::push_owned(&mut r, "aac");
    crate::text::push_owned(&mut r, "-b:a");
    crate::text::push_owned(&mut r, "128k");
    crate::text::push_owned(&mut r, "-ac");
    crate::text::push_owned(&mut r, "2");
    crate::text::push_owned(&mut r, "-f");
    crate::text::push_owned(&mut r, "hls");
    crate::text::push_owned(&mut r, "-hls_time");
    crate::text::push_owned(&mut r, "6");
    crate::text::push_owned(&mut r, "-hls_playlist_type");
    crate::text::push_owned(&mut r, "vod");
    crate::text::push_owned(&mut r, "-hls_segment_type");
    crate::text::push_owned(&mut r, "fmp4");
    crate::text::push_owned(&mut r, "-hls_fmp4_init_filename");
    crate::text::push_owned(&mut r, "init.mp4");
    crate::text::push_owned(&mut r, "-hls_segment_filename");
    crate::text::push_owned(&mut r, segment_file);
    crate::text::push_owned(&mut r, "-progress");
    crate::text::push_owned(&mut r, "pipe:1");
    crate::text::push_owned(&mut r, "-y");
    crate::text::push_owned(&mut r, playlist_file);
    assert(crate::text::texts(r@) =~= ffmpeg_args_spec(input@, segment_file@, playlist_file@, p@));
    r
}

/// What a line of FFmpeg's progress output reports, as whole seconds capped
/// at 99: only `out_time_us=` lines with a number in microseconds count.
pub open spec fn progress_of(line: Seq<char>) -> Option<u8> {
    let key = "out_time_us="@;
    if starts_with(line, key) {
        match parse_u64(line.skip(key.len() as int)) {
            Some(us) => Some((if us / 1_000_000 < 99 { us / 1_000_000 } else { 99 }) as u8),
            None => None,
        }
    } else {
        None
    }
}

/// The progress a line of FFmpeg's `-progress` output reports, if any.
pub fn progress_from_line(line: &str) -> (r: Option<u8>)
    ensures
        r == progress_of(line@),
{
    let s = chars_of(line);
    let key = chars_of("out_time_us=");
    if !crate::text::has_prefix(s.as_slice(), key.as_slice()) {
        return None;
    }
    let rest = crate::text::copy_range(s.as_slice(), key.len(), s.len());
    assert(rest@ =~= line@.skip(key@.len() as int));
    match parse_u64_chars(rest.as_slice()) {
        Some(us) => {
            let secs = us / 1_000_000;
            Some(if secs < 99 { secs as u8 } else { 99u8 })
        },
        None => None,
    }
}

/// `Option<i32>` as `{:?}` writes it.
pub open spec fn debug_exit_code(code: Option<i32>) -> Seq<char> {
    match code {
        Some(c) => "Some("@ + dec_int(c as int) + ")"@,
        None => "None"@,
    }
}

/// The error reported when FFmpeg exits unsuccessfully.
pub open spec fn ffmpeg_failure(name: Seq<char>, code: Option<i32>) -> Seq<char> {
    "FFmpeg failed for "@ + name + " with exit code: "@ + debug_exit_code(code)
}

/// What a finished FFmpeg run for rung `p` amounts to: on success the
/// rendition written under `rendition_dir`, otherwise the failure message.
pub fn rendition_outcome(
    p: &ResolutionProfile,
    rendition_dir: String,
    success: bool,
    code: Option<i32>,
) -> (r: Result<TranscodeResult, String>)
    ensures
        success ==> (r matches Ok(t) && t.resolution@ == p.name@ && t.output_dir@ == rendition_dir@
            && t.segment_pattern@ == segment_pattern_of(p.name@) && t.playlist_file@
            == playlist_name(p.name@)),
        !success ==> (r matches Err(m) && m@ == ffmpeg_failure(p.name@, code)),
{
    if success {
        Ok(TranscodeResult {
            resolution: p.name.clone(),
            output_dir: rendition_dir,
            segment_pattern: segment_pattern_for(p),
            playlist_file: playlist_file_for(p),
        })
    } else {
        let mut m = chars_of("FFmpeg failed for ");
        push_string(&mut m, &p.name);
        push_str(&mut m, " with exit code: ");
        match code {
            Some(c) => {
                push_str(&mut m, "Some(");
                append(&mut m, i64_digits(c as i64).as_slice());
                push_str(&mut m, ")");
            },
            None => {
                push_str(&mut m, "None");
            },
        }
        Err(string_of(m.as_slice()))
    }
}

/// The transcode profile a job is queued with.
#[derive(Debug, Clone)]
pub struct TranscodeProfile {
    pub codec: Option<String>,
    pub resolutions: Option<Vec<String>>,
    pub format: Option<String>,
}

/// The names of the ladder's rungs, in order.
pub open spec fn ladder_names() -> Seq<Seq<char>> {
    ladder_spec().map_values(|p: ProfileView| p.0)
}

impl TranscodeProfile {
    /// H.264 into CMAF, at every rung of the ladder.
    pub fn h264_default() -> (r: TranscodeProfile)
        ensures
            r.codec matches Some(c) && c@ == "h264"@,
            r.format matches Some(f) && f@ == "cmaf"@,
            r.resolutions matches Some(v) && crate::text::texts(v@) == ladder_names(),
    {
        let mut v: Vec<String> = Vec::new();
        crate::text::push_owned(&mut v, "360p");
        crate::text::push_owned(&mut v, "480p");
        crate::text::push_owned(&mut v, "720p");
        crate::text::push_owned(&mut v, "1080p");
        crate::text::push_owned(&mut v, "1440p");
        crate::text::push_owned(&mut v, "2160p");
        assert(crate::text::texts(v@) =~= ladder_names());
        TranscodeProfile { codec: Some(owned("h264")), resolutions: Some(v), format: Some(owned("cmaf")) }
    }
}

/// A job stops being watched once it is complete or has failed.
pub open spec fn job_finished_spec(status: Seq<char>) -> bool {
    status == "complete"@ || status == "failed"@
}

/// Whether the progress stream of a job with status `status` ends.
pub fn job_finished(status: &str) -> (b: bool)
    ensures
        b == job_finished_spec(status@),
{
    str_is(status, "complete") || str_is(status, "failed")
}

/// The server-sent event data that replaces a job's progress fragment.
pub fn progress_fragment(job_id: &str, html: &str) -> (r: String)
    ensures
        r@ == "selector #job-"@ + job_id@ + "\nmerge morph\nfragment "@ + html@,
{
    let mut v = chars_of("selector #job-");
    push_str(&mut v, job_id);
    push_str(&mut v, "\nmerge morph\nfragment ");
    push_str(&mut v, html);
    string_of(v.as_slice())
}

} // verus!

verus! {

/// Each rung's frame matches its name: the rung named `<h>p` is `h` pixels
/// high, and its width is the smallest even number of pixels that gives at
/// least a 16:9 frame (640x360, 854x480, 1280x720, 1920x1080, 2560x1440,
/// 3840x2160). The rungs rise in height from one to the next.
pub proof fn lemma_ladder_frames(i: int)
    requires
        0 <= i < ladder_spec().len(),
    ensures
        ladder_spec()[i].0 == dec(ladder_spec()[i].2 as nat) + "p"@,
        ladder_spec()[i].1 % 2 == 0,
        9 * ladder_spec()[i].1 >= 16 * ladder_spec()[i].2,
        9 * (ladder_spec()[i].1 - 2) < 16 * ladder_spec()[i].2,
        i + 1 < ladder_spec().len() ==> ladder_spec()[i].2 < ladder_spec()[i + 1].2,
{
    reveal_strlit("360p");
    reveal_strlit("480p");
    reveal_strlit("720p");
    reveal_strlit("1080p");
    reveal_strlit("1440p");
    reveal_strlit("2160p");
    reveal_strlit("p");
    reveal_with_fuel(dec, 5);
    let h = ladder_spec()[i].2 as nat;
    if i == 0 {
        assert(dec(360) =~= seq!['3', '6', '0']);
    } else if i == 1 {
        assert(dec(480) =~= seq!['4', '8', '0']);
    } else if i == 2 {
        assert(dec(720) =~= seq!['7', '2', '0']);
    } else if i == 3 {
        assert(dec(1080) =~= seq!['1', '0', '8', '0']);
    } else if i == 4 {
        assert(dec(1440) =~= seq!['1', '4', '4', '0']);
    } else {
        assert(dec(2160) =~= seq!['2', '1', '6', '0']);
    }
    assert(ladder_spec()[i].0 =~= dec(h) + "p"@);
}

/// A rendition's description matches its name: a rendition named `<h>p`
/// is described `h` pixels high, with the smallest even width that gives at
/// least a 16:9 frame.
pub proof fn lemma_rendition_frame(info: RenditionInfo, t: TranscodeResult)
    requires
        describes(info, t),
    ensures
        info.name@ == dec(info.height as nat) + "p"@,
        info.width % 2 == 0,
        9 * info.width >= 16 * info.height,
        9 * (info.width - 2) < 16 * info.height,
{
    let i = ladder_index(t.resolution@)->0;
    assert(0 <= i < 6);
    lemma_ladder_frames(i);
    reveal_strlit("360p");
    reveal_strlit("480p");
    reveal_strlit("720p");
    reveal_strlit("1080p");
    reveal_strlit("1440p");
    reveal_strlit("2160p");
    assert(ladder_spec()[i].0 == t.resolution@);
}

} // verus!
