use pavilion::manifest::{generate_dash_mpd, generate_hls_master, RenditionInfo};
use pavilion::transcode::{
    bandwidth_from_bitrate, ffmpeg_args, h264_ladder, progress_from_line, rendition_infos,
    rendition_outcome, TranscodeProfile, TranscodeResult,
};

fn result(resolution: &str) -> TranscodeResult {
    TranscodeResult {
        resolution: resolution.to_string(),
        output_dir: format!("/tmp/out/{resolution}"),
        segment_pattern: format!("{resolution}_%04d.m4s"),
        playlist_file: format!("{resolution}.m3u8"),
    }
}

#[test]
fn ladder_has_six_rungs_up_to_4k() {
    let ladder = h264_ladder();
    let names: Vec<&str> = ladder.iter().map(|p| p.name.as_str()).collect();
    assert_eq!(names, vec!["360p", "480p", "720p", "1080p", "1440p", "2160p"]);
    assert_eq!((ladder[0].width, ladder[0].height), (640, 360));
    assert_eq!((ladder[5].width, ladder[5].height), (3840, 2160));
    assert_eq!(ladder[3].bitrate, "5000k");
    assert_eq!(ladder[3].maxrate, "5350k");
    assert_eq!(ladder[3].bufsize, "7500k");
}

#[test]
fn bandwidth_reads_kilobits() {
    assert_eq!(bandwidth_from_bitrate("800k"), 800_000);
    assert_eq!(bandwidth_from_bitrate("16000K"), 16_000_000);
    assert_eq!(bandwidth_from_bitrate("2500"), 2_500_000);
    assert_eq!(bandwidth_from_bitrate("kk"), 1_000_000);
    assert_eq!(bandwidth_from_bitrate("fast"), 1_000_000);
}

#[test]
fn rendition_info_comes_from_the_ladder() {
    let info = result("720p").to_rendition_info().unwrap();
    assert_eq!(info.name, "720p");
    assert_eq!((info.width, info.height), (1280, 720));
    assert_eq!(info.bandwidth, 2_800_000);
    assert_eq!(info.playlist_file, "720p.m3u8");
    assert!(result("999p").to_rendition_info().is_none());
}

#[test]
fn rendition_infos_skip_unknown_resolutions() {
    let infos = rendition_infos(&[result("360p"), result("weird"), result("1080p")]);
    let names: Vec<&str> = infos.iter().map(|r| r.name.as_str()).collect();
    assert_eq!(names, vec!["360p", "1080p"]);
    assert_eq!(infos[1].bandwidth, 5_000_000);
}

#[test]
fn master_playlist_lists_every_rendition() {
    let infos = rendition_infos(&[result("360p"), result("720p")]);
    let m3u8 = generate_hls_master(&infos, "/videos/my-film");
    assert_eq!(
        m3u8,
        "#EXTM3U\n#EXT-X-VERSION:7\n\
         #EXT-X-STREAM-INF:BANDWIDTH=800000,RESOLUTION=640x360,CODECS=\"avc1.4d401f,mp4a.40.2\"\n\
         /videos/my-film/360p/360p.m3u8\n\
         #EXT-X-STREAM-INF:BANDWIDTH=2800000,RESOLUTION=1280x720,CODECS=\"avc1.4d401f,mp4a.40.2\"\n\
         /videos/my-film/720p/720p.m3u8\n"
    );
    let mpd = generate_dash_mpd(&infos, "/videos/my-film", 0);
    assert!(mpd.contains("bandwidth=\"800000\""));
    assert!(mpd.contains("height=\"720\""));
}

#[test]
fn empty_master_playlist_has_only_the_header() {
    let none: Vec<RenditionInfo> = Vec::new();
    assert_eq!(generate_hls_master(&none, "/v"), "#EXTM3U\n#EXT-X-VERSION:7\n");
}

#[test]
fn ffmpeg_arguments_for_a_rung() {
    let ladder = h264_ladder();
    let args = ffmpeg_args("/in/master.mp4", "/out/360p/360p_%04d.m4s", "/out/360p/360p.m3u8", &ladder[0]);
    assert_eq!(args.len(), 38);
    assert_eq!(&args[0..2], &["-i".to_string(), "/in/master.mp4".to_string()]);
    let vf = args.iter().position(|a| a == "-vf").unwrap();
    assert_eq!(args[vf + 1], "scale=640:360");
    let br = args.iter().position(|a| a == "-b:v").unwrap();
    assert_eq!(args[br + 1], "800k");
    assert_eq!(args[args.len() - 2], "-y");
    assert_eq!(args[args.len() - 1], "/out/360p/360p.m3u8");
}

#[test]
fn progress_lines_report_seconds_capped_at_99() {
    assert_eq!(progress_from_line("out_time_us=42000000"), Some(42));
    assert_eq!(progress_from_line("out_time_us=500000000"), Some(99));
    assert_eq!(progress_from_line("out_time_us=abc"), None);
    assert_eq!(progress_from_line("frame=10"), None);
}

#[test]
fn outcome_of_an_ffmpeg_run() {
    let ladder = h264_ladder();
    let ok = rendition_outcome(&ladder[1], "/w/480p".to_string(), true, Some(0)).unwrap();
    assert_eq!(ok.resolution, "480p");
    assert_eq!(ok.output_dir, "/w/480p");
    assert_eq!(ok.segment_pattern, "480p_%04d.m4s");
    assert_eq!(ok.playlist_file, "480p.m3u8");
    let err = rendition_outcome(&ladder[1], "/w/480p".to_string(), false, Some(1)).unwrap_err();
    assert_eq!(err, "FFmpeg failed for 480p with exit code: Some(1)");
    let killed = rendition_outcome(&ladder[1], "/w/480p".to_string(), false, None).unwrap_err();
    assert_eq!(killed, "FFmpeg failed for 480p with exit code: None");
}

#[test]
fn default_profile_covers_the_ladder() {
    let p = TranscodeProfile::h264_default();
    assert_eq!(p.codec.as_deref(), Some("h264"));
    assert_eq!(p.format.as_deref(), Some("cmaf"));
    let ladder: Vec<String> = h264_ladder().into_iter().map(|r| r.name).collect();
    assert_eq!(p.resolutions.unwrap(), ladder);
}

#[test]
fn rewritten_master_playlist_keeps_its_shape() {
    let rs = vec![
        RenditionInfo { name: "720p".to_string(), width: 1280, height: 720, bandwidth: 3_000_000, playlist_file: "720p.m3u8".to_string() },
        RenditionInfo { name: "480p".to_string(), width: 854, height: 480, bandwidth: 1_500_000, playlist_file: "480p.m3u8".to_string() },
    ];
    let m = generate_hls_master(&rs, "videos/f1");
    let r = pavilion::manifest::rewrite_hls_manifest(&m, "p1", "f1", "pl1", "s3cret", 600, "/seg/");
    let out: Vec<&str> = r.lines().collect();
    let orig: Vec<&str> = m.lines().collect();
    assert_eq!(out.len(), 2 + 2 * rs.len());
    assert_eq!(out[0], "#EXTM3U");
    assert_eq!(out[1], "#EXT-X-VERSION:7");
    for (k, rd) in rs.iter().enumerate() {
        assert_eq!(out[2 + 2 * k], orig[2 + 2 * k]);
        let tk = out[3 + 2 * k].strip_prefix("/seg/").unwrap();
        let v = pavilion::token::SegmentToken::verify(tk, "s3cret").unwrap();
        assert_eq!((v.subject.as_str(), v.resource.as_str(), v.scope.as_str()), ("p1", "f1", "pl1"));
        assert_eq!(v.segment_path, format!("videos/f1/{}/{}", rd.name, rd.playlist_file));
    }
}
