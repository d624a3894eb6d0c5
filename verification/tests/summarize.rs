use sticky_notes::error::{ApiError, Status};
use sticky_notes::summarize::{
    check_body_size, check_text, extract_text, get_summary, preview, previews_response,
    summarize_request, summarized, summary_found, Limits, Summary, DEFAULT_MAX_BODY_BYTES,
    DEFAULT_MAX_CHARS, DEFAULT_MIN_CHARS, PREVIEW_CHARS, RECENT_LIMIT,
};

fn record(id: i64, summary: &str) -> Summary {
    Summary {
        id,
        input_text: "the whole text".to_string(),
        summary: summary.to_string(),
        created_at: format!("2024-01-{:02} 00:00:00", id % 100),
    }
}

fn assert_error(e: &ApiError, status: u16, code: &str) {
    assert_eq!(e.status_code(), status);
    assert_eq!(e.code, code);
    assert!(!e.message.is_empty());
}

#[test]
fn default_limits() {
    let limits = Limits::default();
    assert_eq!(limits.max_body_bytes, 32 * 1024);
    assert_eq!(limits.min_chars, 5);
    assert_eq!(limits.max_chars, 8000);
    assert_eq!(DEFAULT_MAX_BODY_BYTES, 32768);
    assert_eq!(DEFAULT_MIN_CHARS, 5);
    assert_eq!(DEFAULT_MAX_CHARS, 8000);
    assert_eq!(Limits::new(None, None, None), limits);
}

#[test]
fn configured_limits_override_the_defaults() {
    let limits = Limits::new(Some(1024), None, Some(100));
    assert_eq!(limits, Limits { max_body_bytes: 1024, min_chars: 5, max_chars: 100 });
    let limits = Limits::new(None, Some(1), None);
    assert_eq!(limits, Limits { max_body_bytes: 32768, min_chars: 1, max_chars: 8000 });
}

#[test]
fn text_shorter_than_minimum_is_too_short() {
    let e = summarize_request(&Limits::default(), false, "text", b"hi").unwrap_err();
    assert_eq!(e.status_code(), 422);
    assert_eq!(e.status, Status::Unprocessable);
    assert_eq!(e.code, "text_too_short");
}

#[test]
fn json_text_shorter_than_minimum_is_too_short() {
    let e = summarize_request(&Limits::default(), true, "text", br#"{"text":"hi"}"#).unwrap_err();
    assert_eq!(e.status_code(), 422);
    assert_eq!(e.code, "text_too_short");
}

#[test]
fn body_over_the_ceiling_is_too_large_whatever_it_holds() {
    let limits = Limits::default();
    let bodies: [Vec<u8>; 4] = [
        vec![b'a'; 32769],
        vec![b' '; 40000],
        vec![0xff; 32769],
        {
            let mut json = br#"{"text":""#.to_vec();
            json.extend(std::iter::repeat(b'x').take(33000));
            json.extend_from_slice(br#""}"#);
            json
        },
    ];
    for body in bodies.iter() {
        for is_json in [false, true] {
            let e = summarize_request(&limits, is_json, "text", body).unwrap_err();
            assert_eq!(e.status_code(), 413);
            assert_eq!(e.status, Status::PayloadTooLarge);
            assert_eq!(e.code, "payload_too_large");
        }
    }
}

#[test]
fn body_at_the_ceiling_is_read() {
    let limits = Limits::new(Some(10), None, None);
    assert_eq!(summarize_request(&limits, false, "text", b"0123456789").unwrap(), "0123456789");
    let e = summarize_request(&limits, false, "text", b"0123456789a").unwrap_err();
    assert_eq!(e.status_code(), 413);
}

#[test]
fn check_body_size_against_the_ceiling() {
    let limits = Limits::default();
    assert!(check_body_size(&limits, 0).is_ok());
    assert!(check_body_size(&limits, 32768).is_ok());
    assert_error(&check_body_size(&limits, 32769).unwrap_err(), 413, "payload_too_large");
    assert_error(&check_body_size(&limits, usize::MAX).unwrap_err(), 413, "payload_too_large");
}

#[test]
fn plain_body_is_the_text() {
    let r = summarize_request(&Limits::default(), false, "text", "  長い文章をここに書く  ".as_bytes());
    assert_eq!(r.unwrap(), "長い文章をここに書く");
}

#[test]
fn json_body_carries_the_text_in_a_field() {
    let body = br#"{"text":"  summarise this please ","other":1}"#;
    assert_eq!(
        summarize_request(&Limits::default(), true, "text", body).unwrap(),
        "summarise this please"
    );
    let body = br#"{"input":"summarise this please"}"#;
    assert_eq!(
        summarize_request(&Limits::default(), true, "input", body).unwrap(),
        "summarise this please"
    );
}

#[test]
fn json_body_read_as_plain_text_is_itself() {
    let body = br#"{"text":"hello"}"#;
    assert_eq!(
        summarize_request(&Limits::default(), false, "text", body).unwrap(),
        r#"{"text":"hello"}"#
    );
}

#[test]
fn invalid_body_is_a_bad_request() {
    let limits = Limits::default();
    let bodies: [&[u8]; 6] = [
        b"not json",
        b"",
        br#"{"other":"long enough"}"#,
        br#"{"text":12345}"#,
        br#"{"text":null}"#,
        br#"["long enough text"]"#,
    ];
    for body in bodies {
        let e = summarize_request(&limits, true, "text", body).unwrap_err();
        assert_error(&e, 400, "invalid_body");
        assert_eq!(e.status, Status::BadRequest);
    }
    let e = summarize_request(&limits, false, "text", &[b'a', 0xff, b'b', b'c', b'd']).unwrap_err();
    assert_error(&e, 400, "invalid_body");
}

#[test]
fn empty_text_is_a_bad_request() {
    let limits = Limits::default();
    for body in ["", "   ", "\n\t\u{3000}"] {
        let e = summarize_request(&limits, false, "text", body.as_bytes()).unwrap_err();
        assert_error(&e, 400, "text_empty");
    }
    let e = summarize_request(&limits, true, "text", br#"{"text":"  "}"#).unwrap_err();
    assert_error(&e, 400, "text_empty");
}

#[test]
fn text_length_is_counted_in_characters_after_trimming() {
    let limits = Limits::default();
    // four characters, twelve bytes
    assert_error(&check_text(&limits, "日本語だ").unwrap_err(), 422, "text_too_short");
    // five characters
    assert_eq!(check_text(&limits, "日本語だよ").unwrap(), "日本語だよ");
    // four characters and a lot of white space
    assert_error(&check_text(&limits, "   abcd      ").unwrap_err(), 422, "text_too_short");
    assert_eq!(check_text(&limits, " abcde ").unwrap(), "abcde");
}

#[test]
fn text_longer_than_maximum_is_too_long() {
    let limits = Limits::default();
    let exactly = "x".repeat(8000);
    assert_eq!(check_text(&limits, &exactly).unwrap(), exactly);
    let over = "x".repeat(8001);
    let e = check_text(&limits, &over).unwrap_err();
    assert_error(&e, 422, "text_too_long");
    assert_eq!(e.status, Status::Unprocessable);
    // white space around the text does not count
    let padded = format!("  {}  ", exactly);
    assert_eq!(check_text(&limits, &padded).unwrap(), exactly);
}

#[test]
fn text_limits_follow_the_configuration() {
    let limits = Limits::new(None, Some(2), Some(3));
    assert_error(&check_text(&limits, "a").unwrap_err(), 422, "text_too_short");
    assert_eq!(check_text(&limits, "ab").unwrap(), "ab");
    assert_eq!(check_text(&limits, "abc").unwrap(), "abc");
    assert_error(&check_text(&limits, "abcd").unwrap_err(), 422, "text_too_long");
    assert_error(&check_text(&limits, "").unwrap_err(), 400, "text_empty");
    // with no minimum, nothing is still not enough
    let limits = Limits::new(None, Some(0), None);
    assert_error(&check_text(&limits, " ").unwrap_err(), 400, "text_empty");
}

#[test]
fn extract_text_from_either_kind_of_body() {
    assert_eq!(extract_text(false, "text", b"plain"), Some("plain".to_string()));
    assert_eq!(extract_text(false, "text", b""), Some(String::new()));
    assert_eq!(extract_text(false, "text", &[0xc3, 0x28]), None);
    assert_eq!(extract_text(true, "text", br#"{"text":"a\nb"}"#), Some("a\nb".to_string()));
    assert_eq!(extract_text(true, "text", br#"{"text":""}"#), Some(String::new()));
    assert_eq!(extract_text(true, "text", br#"{"Text":"a"}"#), None);
    assert_eq!(extract_text(true, "text", b"plain"), None);
}

#[test]
fn preview_is_the_first_eighty_characters() {
    assert_eq!(PREVIEW_CHARS, 80);
    assert_eq!(preview(""), "");
    assert_eq!(preview("short"), "short");
    let exactly = "a".repeat(80);
    assert_eq!(preview(&exactly), exactly);
    let over = format!("{}bcd", exactly);
    assert_eq!(preview(&over), exactly);
    // characters, not bytes
    let wide = "要".repeat(100);
    assert_eq!(preview(&wide), "要".repeat(80));
    assert_eq!(preview(&wide).chars().count(), 80);
}

#[test]
fn previews_keep_the_order_of_the_rows() {
    let long = "b".repeat(200);
    let rows = vec![record(3, "newest"), record(2, &long), record(1, "")];
    let previews = previews_response(rows);
    assert_eq!(previews.len(), 3);
    assert_eq!(previews[0].id, 3);
    assert_eq!(previews[0].preview, "newest");
    assert_eq!(previews[0].created_at, "2024-01-03 00:00:00");
    assert_eq!(previews[1].id, 2);
    assert_eq!(previews[1].preview, "b".repeat(80));
    assert_eq!(previews[2].id, 1);
    assert_eq!(previews[2].preview, "");
    assert!(previews_response(Vec::new()).is_empty());
}

#[test]
fn recent_list_is_capped() {
    assert_eq!(RECENT_LIMIT, 100);
    let rows: Vec<Summary> = (1..=150).rev().map(|id| record(id, "s")).collect();
    let previews = previews_response(rows);
    assert_eq!(previews.len(), 100);
    assert_eq!(previews[0].id, 150);
    assert_eq!(previews[99].id, 51);
    let rows: Vec<Summary> = (1..=100).rev().map(|id| record(id, "s")).collect();
    assert_eq!(previews_response(rows).len(), 100);
}

#[test]
fn summarized_answers_id_and_summary() {
    let r = summarized(7, "- one\n- two".to_string());
    assert_eq!(r.id, 7);
    assert_eq!(r.summary, "- one\n- two");
}

#[test]
fn summary_id_has_to_be_positive() {
    assert_eq!(get_summary(1).unwrap(), 1);
    assert_eq!(get_summary(i64::MAX).unwrap(), i64::MAX);
    assert_error(&get_summary(0).unwrap_err(), 400, "invalid_id");
    assert_error(&get_summary(-3).unwrap_err(), 400, "invalid_id");
}

#[test]
fn summary_found_or_not() {
    let s = summary_found(Some(record(4, "s"))).unwrap();
    assert_eq!(s.id, 4);
    assert_eq!(s.summary, "s");
    assert_eq!(s.input_text, "the whole text");
    let e = summary_found(None).unwrap_err();
    assert_error(&e, 404, "summary_not_found");
    assert_eq!(e.status, Status::NotFound);
}
