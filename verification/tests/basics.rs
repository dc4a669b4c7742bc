use grok_video::status::{is_transient, HttpStatus};
use grok_video::text::{begins_with, decimal_text, finishes_with, join, lists, same_text};
use grok_video::validate::{
    valid_aspect_ratios, valid_resolutions, validate_aspect_ratio, validate_duration,
    validate_resolution,
};

#[test]
fn decimal_notation() {
    for n in [0u64, 7, 10, 99, 100, 12345, u64::MAX] {
        assert_eq!(decimal_text(n), n.to_string());
    }
}

#[test]
fn decimal_notation_tells_numbers_apart() {
    assert_ne!(decimal_text(1), decimal_text(10));
    assert_ne!(decimal_text(11), decimal_text(101));
}

#[test]
fn text_comparison() {
    assert!(same_text("", ""));
    assert!(same_text("größe", "größe"));
    assert!(!same_text("größe", "grösse"));
    assert!(!same_text("abc", "abd"));
    assert!(begins_with("héllo", "hé"));
    assert!(begins_with("x", ""));
    assert!(!begins_with("h", "he"));
    assert!(!begins_with("Http://a", "http://"));
    assert!(finishes_with("bild-ö.png", ".png"));
    assert!(finishes_with(".png", ".png"));
    assert!(!finishes_with("png", ".png"));
    assert!(!finishes_with("a.PNG", ".png"));
}

#[test]
fn lists_and_joins() {
    assert!(lists(&["a", "b"], "b"));
    assert!(!lists(&["a", "b"], "c"));
    assert!(!lists(&[], ""));
    assert_eq!(join(&[], ", "), "");
    assert_eq!(join(&["a"], ", "), "a");
    assert_eq!(join(&["a", "b", "c"], ", "), "a, b, c");
}

#[test]
fn durations() {
    assert_eq!(validate_duration(None), Ok(()));
    assert_eq!(validate_duration(Some(1)), Ok(()));
    assert_eq!(validate_duration(Some(15)), Ok(()));
    assert_eq!(
        validate_duration(Some(0)),
        Err("duration must be between 1 and 15 seconds, got 0".to_string())
    );
    assert_eq!(
        validate_duration(Some(16)),
        Err("duration must be between 1 and 15 seconds, got 16".to_string())
    );
    assert_eq!(
        validate_duration(Some(255)),
        Err("duration must be between 1 and 15 seconds, got 255".to_string())
    );
}

#[test]
fn aspect_ratios() {
    assert_eq!(validate_aspect_ratio(None), Ok(()));
    for ratio in ["1:1", "16:9", "9:16", "4:3", "3:4", "3:2", "2:3"] {
        assert_eq!(validate_aspect_ratio(Some(ratio)), Ok(()));
    }
    assert_eq!(
        validate_aspect_ratio(Some("21:9")),
        Err(
            "Invalid aspect_ratio \"21:9\". Valid options: 1:1, 16:9, 9:16, 4:3, 3:4, 3:2, 2:3"
                .to_string()
        )
    );
    assert!(validate_aspect_ratio(Some("")).is_err());
    assert_eq!(valid_aspect_ratios().len(), 7);
}

#[test]
fn resolutions() {
    assert_eq!(validate_resolution(None), Ok(()));
    assert_eq!(validate_resolution(Some("480p")), Ok(()));
    assert_eq!(validate_resolution(Some("720p")), Ok(()));
    assert_eq!(
        validate_resolution(Some("1080p")),
        Err("Invalid resolution \"1080p\". Valid options: 480p, 720p".to_string())
    );
    assert_eq!(valid_resolutions(), vec!["480p", "720p"]);
}

#[test]
fn status_codes() {
    assert!(HttpStatus::from_u16(99).is_none());
    assert!(HttpStatus::from_u16(1000).is_none());
    assert_eq!(HttpStatus::from_u16(100).unwrap().as_u16(), 100);
    assert_eq!(HttpStatus::from_u16(999).unwrap().as_u16(), 999);
    for code in 100..1000u16 {
        let status = HttpStatus::from_u16(code).unwrap();
        let reference = reqwest::StatusCode::from_u16(code).unwrap();
        assert_eq!(status.is_success(), reference.is_success());
        assert_eq!(status.line(), reference.to_string());
        let transient = reference == reqwest::StatusCode::TOO_MANY_REQUESTS
            || reference == reqwest::StatusCode::SERVICE_UNAVAILABLE
            || reference == reqwest::StatusCode::GATEWAY_TIMEOUT
            || reference == reqwest::StatusCode::BAD_GATEWAY;
        assert_eq!(is_transient(status), transient);
        assert!(!(status.is_success() && is_transient(status)));
    }
}

#[test]
fn status_lines() {
    assert_eq!(HttpStatus::from_u16(200).unwrap().line(), "200 OK");
    assert_eq!(HttpStatus::from_u16(429).unwrap().line(), "429 Too Many Requests");
    assert_eq!(HttpStatus::from_u16(999).unwrap().line(), "999 <unknown status code>");
}
