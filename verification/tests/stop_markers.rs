use agent_workflow::text::{find_stop, truncate_at_stop_marker};

#[test]
fn stop_marker_truncates_output() {
    let markers = vec!["<DONE>".to_string()];
    let out = truncate_at_stop_marker("result is 84 <DONE> trailing", &markers);
    assert_eq!(out, Some("result is 84 ".to_string()));
}

#[test]
fn no_marker_no_truncation() {
    let markers = vec!["<DONE>".to_string()];
    assert_eq!(truncate_at_stop_marker("result is 84", &markers), None);
    assert_eq!(find_stop("result is 84", &markers), None);
}

#[test]
fn earliest_of_several_markers_wins() {
    let markers = vec!["STOP".to_string(), "<DONE>".to_string(), "END".to_string()];
    let text = "one <DONE> two STOP three END";
    assert_eq!(find_stop(text, &markers), Some(4));
    assert_eq!(truncate_at_stop_marker(text, &markers), Some("one ".to_string()));
    let text = "a END b STOP c <DONE>";
    assert_eq!(truncate_at_stop_marker(text, &markers), Some("a ".to_string()));
}

#[test]
fn marker_at_the_start_gives_empty_output() {
    let markers = vec!["<DONE>".to_string()];
    assert_eq!(truncate_at_stop_marker("<DONE> rest", &markers), Some(String::new()));
    assert_eq!(truncate_at_stop_marker("<DONE>", &markers), Some(String::new()));
}

#[test]
fn marker_at_the_end_keeps_everything_before_it() {
    let markers = vec!["<DONE>".to_string()];
    assert_eq!(truncate_at_stop_marker("all of it<DONE>", &markers), Some("all of it".to_string()));
}

#[test]
fn first_occurrence_of_a_repeated_marker() {
    let markers = vec!["ab".to_string()];
    assert_eq!(find_stop("xxabyyabzz", &markers), Some(2));
    assert_eq!(find_stop("aab", &markers), Some(1));
}

#[test]
fn partial_marker_does_not_stop() {
    let markers = vec!["<DONE>".to_string()];
    assert_eq!(truncate_at_stop_marker("almost <DONE", &markers), None);
    assert_eq!(truncate_at_stop_marker("", &markers), None);
    assert_eq!(truncate_at_stop_marker("<DON", &markers), None);
}

#[test]
fn no_markers_never_stop() {
    let markers: Vec<String> = Vec::new();
    assert_eq!(truncate_at_stop_marker("anything <DONE>", &markers), None);
}

#[test]
fn empty_marker_stops_at_once() {
    let markers = vec![String::new()];
    assert_eq!(find_stop("text", &markers), Some(0));
    assert_eq!(truncate_at_stop_marker("text", &markers), Some(String::new()));
    assert_eq!(truncate_at_stop_marker("", &markers), Some(String::new()));
}

#[test]
fn positions_count_characters_not_bytes() {
    let markers = vec!["fin".to_string()];
    let text = "héllo wörld ☃ fin après";
    assert_eq!(find_stop(text, &markers), Some(14));
    assert_eq!(truncate_at_stop_marker(text, &markers), Some("héllo wörld ☃ ".to_string()));
    let markers = vec!["☃".to_string()];
    assert_eq!(truncate_at_stop_marker(text, &markers), Some("héllo wörld ".to_string()));
}

#[test]
fn truncated_output_holds_no_marker() {
    let markers = vec!["<DONE>".to_string(), "STOP".to_string()];
    for text in ["x STOP y <DONE>", "<DONE>STOP", "a<DONE", "STO STOP", "no marker here"] {
        if let Some(out) = truncate_at_stop_marker(text, &markers) {
            assert!(text.starts_with(&out));
            for marker in &markers {
                assert!(!out.contains(marker.as_str()));
            }
        } else {
            for marker in &markers {
                assert!(!text.contains(marker.as_str()));
            }
        }
    }
}
