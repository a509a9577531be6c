use studigo::editor::plan::{segment_transitions, stitch_order, xfade_chain};
use studigo::editor::probe::{probe_streams, ProbeError};
use studigo::editor::reply::{clip_description, clips_to_stitch, plan_rationale, reply_subject_action, stitch_rationale, vision_request};
use studigo::editor::{first_err_line, normalize_input_path, parse_json_object};

#[test]
fn test_normalize_input_path_plain() {
    assert_eq!(normalize_input_path(r"C:\clips\a.mp4"), r"C:\clips\a.mp4");
}

#[test]
fn test_normalize_input_path_asset_uri() {
    let out = normalize_input_path("asset://localhost/C:/clips/a%20b.mp4");
    assert!(out.contains("a%20b.mp4") || out.contains("a b.mp4"));
}

#[test]
fn test_parse_json_object_direct() {
    let v = parse_json_object(r#"{"interest":7,"subject":"dog"}"#);
    assert_eq!(v["interest"], 7);
    assert_eq!(v["subject"], "dog");
}

#[test]
fn test_parse_json_object_embedded() {
    let v = parse_json_object("Sure! Here: {\"action\":\"running\"} Done.");
    assert_eq!(v["action"], "running");
}

#[test]
fn asset_uri_becomes_windows_path() {
    assert_eq!(normalize_input_path("asset://localhost/C:/clips/a%20b.mp4"), r"C:\clips\a b.mp4");
    assert_eq!(normalize_input_path("  'http://asset.localhost/D:/x/y.mov?t=3#frag' "), r"D:\x\y.mov");
    assert_eq!(normalize_input_path("asset:C:/v.mp4"), r"asset:C:\v.mp4");
}

#[test]
fn plain_path_is_trimmed_of_space_and_quotes() {
    assert_eq!(normalize_input_path("  \"C:\\a b\\c.mp4\"\n"), "C:\\a b\\c.mp4");
    assert_eq!(normalize_input_path("x/y?z"), "x/y?z");
    assert_eq!(normalize_input_path(""), "");
}

#[test]
fn json_reply_fallbacks() {
    let v = parse_json_object("  [1, 2]  ");
    assert_eq!(v[1], 2);
    let v = parse_json_object("no json here");
    assert!(v.is_object());
    assert_eq!(v.as_object().unwrap().len(), 0);
    let v = parse_json_object("} broken {");
    assert_eq!(v.as_object().unwrap().len(), 0);
    let v = parse_json_object("x {not json} y");
    assert_eq!(v.as_object().unwrap().len(), 0);
}

#[test]
fn error_line_is_found() {
    assert_eq!(first_err_line("ok\r\n  Error opening file  \r\nerror 2\n"), "Error opening file");
    assert_eq!(first_err_line("line\nanother error here"), "another error here");
    assert_eq!(first_err_line("all good\n"), "see stderr");
    assert_eq!(first_err_line(""), "see stderr");
    assert_eq!(first_err_line("ERROR only"), "see stderr");
}

#[test]
fn probe_report_is_read_by_stream() {
    let report = br#"{"streams":[{"codec_type":"video","width":1920,"height":1080,"duration":"12.5"},{"codec_type":"audio","duration":"12.4"},{"codec_type":"data"}],"format":{"duration":"12.6"}}"#;
    let info = probe_streams(report).unwrap();
    assert_eq!((info.width, info.height, info.has_audio), (1920, 1080, true));
    assert_eq!(info.stream_durations.len(), 2);
    assert!(info.stream_durations[0].video);
    assert_eq!(info.stream_durations[0].duration.as_deref(), Some("12.5"));
    assert!(!info.stream_durations[1].video);
    assert_eq!(info.stream_durations[1].duration.as_deref(), Some("12.4"));
    assert_eq!(info.format_duration.as_deref(), Some("12.6"));
}

#[test]
fn probe_report_edge_cases() {
    assert!(matches!(probe_streams(b"not json"), Err(ProbeError::InvalidJson)));
    let info = probe_streams(br#"{"format":{}}"#).unwrap();
    assert_eq!((info.width, info.height, info.has_audio), (0, 0, false));
    assert!(info.stream_durations.is_empty());
    assert_eq!(info.format_duration, None);
    // A width past 32 bits is truncated, as the cast does.
    let info = probe_streams(br#"{"streams":[{"codec_type":"video","width":4294967297,"height":"x"}]}"#).unwrap();
    assert_eq!((info.width, info.height), (1, 0));
    assert_eq!(info.stream_durations[0].duration, None);
}

#[test]
fn replies_are_read_with_defaults() {
    assert_eq!(
        reply_subject_action("sure: {\"subject\":\"dog\",\"interest\":7} bye"),
        ("dog".to_string(), "moment".to_string())
    );
    assert_eq!(
        reply_subject_action("{\"subject\":\"cat\",\"action\":\"jumps\"}"),
        ("cat".to_string(), "jumps".to_string())
    );
    assert_eq!(clip_description(None), ("unknown".to_string(), "moment".to_string()));
    assert_eq!(clip_description(Some("nothing")), ("subject".to_string(), "moment".to_string()));
    assert_eq!(plan_rationale("{\"rationale\":\"best first\"}"), "best first");
    assert_eq!(plan_rationale("{\"rationale\":3}"), "No rationale provided.");
    assert_eq!(stitch_rationale(None), "Auto-ordered by visual interest.");
    assert_eq!(stitch_rationale(Some("why".to_string())), "why");
    assert_eq!(clips_to_stitch(0), Err("No valid clips to stitch.".to_string()));
    assert_eq!(clips_to_stitch(2), Ok(()));
}

#[test]
fn vision_request_encodes_the_frame() {
    let (prompt, image) = vision_request("a.mp4", b"Man");
    assert_eq!(image, "TWFu");
    assert_eq!(
        prompt,
        "Look at this single video frame from a clip named \"a.mp4\". Describe in 8 words what the SUBJECT and ACTION are. Then rate the cinematic / storytelling INTEREST of this moment from 0 to 10 (10 = fascinating, 0 = boring). Reply with ONLY JSON like {\"subject\":\"...\",\"action\":\"...\",\"interest\":5}."
    );
    assert_eq!(vision_request("b", b"Ma").1, "TWE=");
    assert_eq!(vision_request("b", b"").1, "");
}

#[test]
fn clips_are_ordered_by_interest() {
    assert_eq!(stitch_order(&vec![3, 7, 7, 1, 9]), vec![4, 1, 2, 0, 3]);
    assert_eq!(stitch_order(&vec![5; 10]), vec![0, 1, 2, 3, 4, 5, 6, 7]);
    assert_eq!(stitch_order(&vec![1, 2, 3, 4, 5, 6, 7, 8, 9]), vec![8, 7, 6, 5, 4, 3, 2, 1]);
    assert!(stitch_order(&vec![]).is_empty());
}

#[test]
fn transitions_and_crossfade_labels() {
    assert_eq!(segment_transitions(3), vec!["none".to_string(), "fade".to_string(), "fade".to_string()]);
    assert!(segment_transitions(0).is_empty());
    let (steps, end) = xfade_chain(3);
    assert_eq!(
        steps,
        vec![
            ("[v0]".to_string(), "[v1]".to_string(), "[x1]".to_string()),
            ("[x1]".to_string(), "[v2]".to_string(), "[x2]".to_string()),
        ]
    );
    assert_eq!(end, "[x2]");
    let (steps, end) = xfade_chain(1);
    assert!(steps.is_empty());
    assert_eq!(end, "[v0]");
    let (steps, end) = xfade_chain(12);
    assert_eq!(steps[10], ("[x10]".to_string(), "[v11]".to_string(), "[x11]".to_string()));
    assert_eq!(end, "[x11]");
}

#[test]
fn asset_uri_is_decoded_to_a_windows_path() {
    assert_eq!(normalize_input_path(" 'asset://localhost/C:/clips/a%20b.mp4?x=1' "), r"C:\clips\a b.mp4");
    assert_eq!(normalize_input_path("http://asset.localhost/D:/v/c.mov#t"), r"D:\v\c.mov");
}
