use document_encoder::float_bits::FloatBits;
use document_encoder::numbers::NumberError;
use document_encoder::types::VideoQuality;
use document_encoder::video::{
    best_hardware_encoder, build_duration_probe_arguments, build_encode_arguments,
    build_frame_arguments, build_frame_filter, build_resolution_probe_arguments,
    build_split_arguments, build_trial_arguments, encoded_file_name, encoded_output_path,
    encoding_failure, encoding_finished, encoding_started, executable_candidates,
    frame_output_path, needs_encoding, needs_split, parse_resolution, plan_encoder, plan_frames,
    progress_time_text, read_resolution, segment_file_name, segment_is_due, segment_path,
    segment_start, settle_encoder, split_failure, target_quality_string, target_resolution,
    EncodeError, EncoderPlan, FramePlan, ResolutionError, VideoResolution,
};

fn strings(words: &[&str]) -> Vec<String> {
    words.iter().map(|w| w.to_string()).collect()
}

fn res(width: u32, height: u32) -> VideoResolution {
    VideoResolution { width, height }
}

#[test]
fn qualities_have_names_and_resolutions() {
    assert_eq!(target_quality_string(&VideoQuality::Quality1080p), "1080p");
    assert_eq!(target_quality_string(&VideoQuality::Quality720p), "720p");
    assert_eq!(target_quality_string(&VideoQuality::Quality480p), "480p");
    assert_eq!(target_quality_string(&VideoQuality::NoConversion), "original");
    assert_eq!(target_resolution(&VideoQuality::Quality1080p), Some(res(1920, 1080)));
    assert_eq!(target_resolution(&VideoQuality::Quality720p), Some(res(1280, 720)));
    assert_eq!(target_resolution(&VideoQuality::Quality480p), Some(res(854, 480)));
    assert_eq!(target_resolution(&VideoQuality::NoConversion), None);
}

#[test]
fn encoding_is_needed_only_to_reduce() {
    let target = res(1280, 720);
    assert!(needs_encoding(&res(1920, 1080), &target));
    assert!(needs_encoding(&res(100, 721), &target));
    assert!(needs_encoding(&res(1281, 720), &target));
    assert!(!needs_encoding(&res(1280, 720), &target));
    assert!(!needs_encoding(&res(4000, 719), &target));
    assert!(!needs_encoding(&res(640, 480), &target));
}

#[test]
fn resolution_is_read_from_the_probe_output() {
    assert_eq!(parse_resolution("1920x1080\n").unwrap(), res(1920, 1080));
    assert_eq!(parse_resolution("  640x480  ").unwrap(), res(640, 480));
    assert_eq!(read_resolution("+640x0480").unwrap(), res(640, 480));
}

fn resolution_error(output: &str) -> String {
    parse_resolution(output).unwrap_err().message()
}

fn expected_error(output: &str) -> String {
    let text = output.trim().to_string();
    let parts: Vec<&str> = text.split('x').collect();
    if parts.len() != 2 {
        return format!("Invalid resolution format: {}", text);
    }
    if let Err(e) = parts[0].parse::<u32>() {
        return format!("Failed to parse width '{}': {}", parts[0], e);
    }
    match parts[1].parse::<u32>() {
        Err(e) => format!("Failed to parse height '{}': {}", parts[1], e),
        Ok(_) => "no error".to_string(),
    }
}

#[test]
fn resolution_errors_are_worded_as_the_parts_fail() {
    for output in [
        "", "1920", "1920x1080x3", "x", "x1080", "1920x", "axb", "1920x10a", "1920 x 1080",
        "99999999999x1", "1x99999999999", "1920x1080\n1920x1080", "-1x5", "xx",
    ] {
        assert_eq!(resolution_error(output), expected_error(output), "{:?}", output);
    }
}

#[test]
fn resolution_error_variants_carry_their_parts() {
    assert!(matches!(read_resolution("abc"), Err(ResolutionError::InvalidFormat(t)) if t == "abc"));
    assert!(matches!(read_resolution("ax1"), Err(ResolutionError::InvalidWidth(p, NumberError::InvalidDigit)) if p == "a"));
    assert!(matches!(read_resolution("1x"), Err(ResolutionError::InvalidHeight(p, NumberError::Empty)) if p == ""));
}

#[test]
fn videos_longer_than_an_hour_are_split() {
    let bits = |x: f64| FloatBits::from_bits(x.to_bits());
    for d in [0.0, 1.0, 3599.9, 3600.0, -5.0, f64::NEG_INFINITY] {
        assert_eq!(needs_split(&bits(d)), !(d <= 3600.0), "{}", d);
        assert!(!needs_split(&bits(d)));
    }
    for d in [3600.0000001, 7200.0, 1e9, f64::INFINITY, f64::NAN] {
        assert_eq!(needs_split(&bits(d)), !(d <= 3600.0), "{}", d);
        assert!(needs_split(&bits(d)));
    }
}

#[test]
fn segments_are_named_and_placed_beside_the_video() {
    assert_eq!(segment_file_name("talk", 0), "talk_segment_0.mp4");
    assert_eq!(segment_file_name("talk", 12), "talk_segment_12.mp4");
    assert_eq!(segment_path("/videos/talk.mov", 2), Some("/videos/talk_segment_2.mp4".to_string()));
    assert_eq!(segment_path("talk.mov", 0), Some("talk_segment_0.mp4".to_string()));
    assert_eq!(segment_path("/", 0), None);
    assert_eq!(segment_path("", 0), None);
    assert_eq!(segment_start(0), 0);
    assert_eq!(segment_start(3), 10800);
    for k in 0..5u64 {
        assert_eq!(segment_start(k).to_string(), (3600.0 * k as f64).to_string());
    }
}

#[test]
fn split_arguments_name_start_and_length() {
    assert_eq!(
        build_split_arguments("/v/talk.mov", 2, "/v/talk_segment_2.mp4"),
        strings(&["-i", "/v/talk.mov", "-ss", "7200", "-t", "3600", "-c", "copy", "/v/talk_segment_2.mp4"])
    );
}

#[test]
fn encoded_files_are_named_after_video_and_quality() {
    assert_eq!(encoded_file_name("talk", &VideoQuality::Quality720p), "talk_720p.mp4");
    assert_eq!(
        encoded_output_path("/videos/talk.mov", &VideoQuality::Quality480p, "/out"),
        Ok("/out/talk_480p.mp4".to_string())
    );
    assert_eq!(encoded_output_path("/", &VideoQuality::Quality480p, "/out"), Err(EncodeError::InvalidFileName));
    assert_eq!(EncodeError::InvalidFileName.message(), "Invalid video file name");
}

#[test]
fn the_encoder_is_planned_and_settled() {
    assert!(matches!(plan_encoder(false, Some("h264_nvenc".to_string())), EncoderPlan::Software));
    assert!(matches!(plan_encoder(false, None), EncoderPlan::Software));
    assert!(matches!(
        plan_encoder(true, None),
        EncoderPlan::Fallback { notice } if notice == "ハードウェアエンコーダーが利用できません。ソフトウェアエンコーダーを使用します..."
    ));
    assert!(matches!(
        plan_encoder(true, Some("h264_nvenc".to_string())),
        EncoderPlan::Try { encoder, notice } if encoder == "h264_nvenc" && notice == "ハードウェアエンコーダーを使用します: h264_nvenc"
    ));
    assert_eq!(settle_encoder("h264_nvenc".to_string(), true), ("h264_nvenc".to_string(), None));
    assert_eq!(
        settle_encoder("h264_nvenc".to_string(), false),
        (
            "libx264".to_string(),
            Some("ハードウェアエンコーダーのテストに失敗しました。ソフトウェアエンコーダーを使用します...".to_string())
        )
    );
}

#[test]
fn encode_arguments_set_quality_by_encoder() {
    assert_eq!(
        build_encode_arguments("in.mov", &res(1280, 720), "libx264", "/out/in_720p.mp4"),
        strings(&[
            "-i", "in.mov", "-vf", "scale=1280:720", "-c:v", "libx264", "-c:a", "aac", "-crf", "23",
            "-progress", "pipe:1", "-y", "/out/in_720p.mp4",
        ])
    );
    assert_eq!(
        build_encode_arguments("in.mov", &res(854, 480), "h264_qsv", "o.mp4"),
        strings(&[
            "-i", "in.mov", "-vf", "scale=854:480", "-c:v", "h264_qsv", "-c:a", "aac", "-b:v", "5M",
            "-progress", "pipe:1", "-y", "o.mp4",
        ])
    );
}

#[test]
fn progress_lines_give_their_time() {
    assert_eq!(progress_time_text("out_time_ms=1500000"), Some("1500000".to_string()));
    assert_eq!(progress_time_text("out_time_ms="), Some("".to_string()));
    assert_eq!(progress_time_text("out_time_ms"), None);
    assert_eq!(progress_time_text(" out_time_ms=1"), None);
    assert_eq!(progress_time_text("frame=12"), None);
    assert_eq!(progress_time_text(""), None);
}

#[test]
fn the_best_hardware_encoder_is_the_first_listed_in_priority() {
    assert_eq!(best_hardware_encoder(" V..... h264_qsv\n V..... h264_nvenc\n"), Some("h264_nvenc".to_string()));
    assert_eq!(best_hardware_encoder("h264_v4l2m2m h264_vaapi"), Some("h264_vaapi".to_string()));
    assert_eq!(best_hardware_encoder("h264_videotoolbox h264_nvenc"), Some("h264_videotoolbox".to_string()));
    assert_eq!(best_hardware_encoder("h264_amf"), Some("h264_amf".to_string()));
    assert_eq!(best_hardware_encoder("libx264 libx265"), None);
    assert_eq!(best_hardware_encoder(""), None);
}

#[test]
fn tools_are_looked_for_in_the_common_directories() {
    assert_eq!(
        executable_candidates("ffmpeg"),
        strings(&[
            "/opt/homebrew/bin/ffmpeg",
            "/usr/local/bin/ffmpeg",
            "/usr/bin/ffmpeg",
            "/bin/ffmpeg",
            "/opt/local/bin/ffmpeg",
            "/sw/bin/ffmpeg",
            "/usr/local/opt/ffmpeg/bin/ffmpeg",
            "/opt/homebrew/opt/ffmpeg/bin/ffmpeg",
        ])
    );
}

#[test]
fn probe_and_trial_arguments_are_fixed() {
    assert_eq!(
        build_resolution_probe_arguments("a.mp4"),
        strings(&["-v", "error", "-select_streams", "v:0", "-show_entries", "stream=width,height", "-of", "csv=s=x:p=0", "a.mp4"])
    );
    assert_eq!(
        build_duration_probe_arguments("a.mp4"),
        strings(&["-v", "error", "-show_entries", "format=duration", "-of", "default=noprint_wrappers=1:nokey=1", "a.mp4"])
    );
    assert_eq!(
        build_trial_arguments("h264_nvenc"),
        strings(&["-f", "lavfi", "-i", "testsrc=duration=1:size=320x240:rate=30", "-c:v", "h264_nvenc", "-t", "1", "-f", "null", "-"])
    );
}

#[test]
fn frame_arguments_seek_before_the_input() {
    assert_eq!(
        build_frame_arguments("a.mp4", "83.5", "o.png", false),
        strings(&["-ss", "83.5", "-i", "a.mp4", "-vframes", "1", "-q:v", "2", "-y", "o.png"])
    );
    assert_eq!(
        build_frame_arguments("a.mp4", "14", "o.png", true),
        strings(&["-ss", "14", "-i", "a.mp4", "-vframes", "1", "-q:v", "2", "-f", "image2", "-seek2any", "0", "-y", "o.png"])
    );
}

#[test]
fn batch_frames_are_numbered_with_three_digits() {
    for n in [1u64, 9, 10, 99, 100, 1000] {
        assert_eq!(frame_output_path("/out", "clip", n), format!("{}/{}_frame_{:03}.jpg", "/out", "clip", n));
    }
    assert_eq!(build_frame_filter("14", 3), format!("[0:v]trim=start={}:duration=0.1,select=eq(n\\,0)[out{}]", "14", 3));
}

#[test]
fn frames_are_planned_by_their_number() {
    assert!(matches!(plan_frames("a.mp4", &[], "/out", "clip"), FramePlan::Nothing));
    assert!(matches!(
        plan_frames("a.mp4", &strings(&["14"]), "/out", "clip"),
        FramePlan::Single { output_path } if output_path == "/out/clip_frame_001.jpg"
    ));
    let moments = strings(&["14", "83.5"]);
    match plan_frames("a.mp4", &moments, "/out", "clip") {
        FramePlan::Batch { arguments, output_paths } => {
            assert_eq!(output_paths, strings(&["/out/clip_frame_001.jpg", "/out/clip_frame_002.jpg"]));
            assert_eq!(
                arguments,
                strings(&[
                    "-i",
                    "a.mp4",
                    "-filter_complex",
                    "[0:v]trim=start=14:duration=0.1,select=eq(n\\,0)[out0];[0:v]trim=start=83.5:duration=0.1,select=eq(n\\,0)[out1]",
                    "-map",
                    "[out0]",
                    "-q:v",
                    "2",
                    "/out/clip_frame_001.jpg",
                    "-map",
                    "[out1]",
                    "-q:v",
                    "2",
                    "/out/clip_frame_002.jpg",
                    "-y",
                ])
            );
        }
        _ => panic!("a batch was expected"),
    }
}

#[test]
fn a_segment_is_due_while_it_begins_before_the_end() {
    let bits = |x: f64| FloatBits::from_bits(x.to_bits());
    for duration in [0.0, 1.0, 3600.0, 3600.5, 7200.0, 7200.0001, 10000.0, f64::INFINITY, f64::NAN, -1.0] {
        for k in 0..5u64 {
            let start = (k * 3600) as f64;
            assert_eq!(segment_is_due(&bits(start), &bits(duration)), start < duration, "{} < {}", start, duration);
        }
    }
}

#[test]
fn a_long_video_is_cut_into_as_many_segments_as_hours_begun() {
    let bits = |x: f64| FloatBits::from_bits(x.to_bits());
    for (duration, expected) in [(3600.5, 2usize), (7200.0, 2), (7200.1, 3), (10800.0, 3), (36001.0, 11)] {
        let mut count = 0usize;
        let mut k = 0u64;
        while segment_is_due(&bits(segment_start(k) as f64), &bits(duration)) {
            count += 1;
            k += 1;
        }
        assert_eq!(count, expected);
        assert_eq!(count, (duration / 3600.0f64).ceil() as usize);
    }
}

#[test]
fn failures_and_notices_of_video_work_are_worded() {
    assert_eq!(split_failure(0), "ffmpeg split failed for segment 0");
    assert_eq!(split_failure(12), format!("ffmpeg split failed for segment {}", 12));
    assert_eq!(encoding_started(), "動画のエンコードを開始しています...");
    assert_eq!(encoding_finished(), "エンコードが完了しました");
    assert_eq!(encoding_failure("codec not found\n"), "Video encoding failed: codec not found\n");
    assert_eq!(encoding_failure(""), "Video encoding failed: ");
}
