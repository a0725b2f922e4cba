use skinhelm::error::AppError;
use skinhelm::types::{
    is_username_valid, normalize_size, normalize_uuid, parse_player, parse_size, PlayerInput,
    DEFAULT_SIZE,
};

#[test]
fn normalizes_hyphenated_uuid() {
    let input = "BC881E02-9216-4F6E-A80F-7B9DF0CCF9E9";
    assert_eq!(
        normalize_uuid(input).as_deref(),
        Some("bc881e0292164f6ea80f7b9df0ccf9e9")
    );
}

#[test]
fn detects_plain_uuid() {
    let input = "bc881e0292164f6ea80f7b9df0ccf9e9";
    assert_eq!(normalize_uuid(input).as_deref(), Some(input));
}

#[test]
fn rejects_invalid_uuid() {
    assert!(normalize_uuid("bc881e0292164f6ea80f7b9df0ccf9ez").is_none());
    assert!(normalize_uuid("bc881e02-9216-4f6e-a80f-7b9df0ccf9e").is_none());
    assert!(normalize_uuid("bc881e0292164f6ea80f7b9df0ccf9e90").is_none());
}

#[test]
fn validates_username() {
    assert!(is_username_valid("Steve"));
    assert!(is_username_valid("Alex_123"));
    assert!(!is_username_valid(""));
    assert!(!is_username_valid("ab"));
    assert!(!is_username_valid("abcdefghijklmnopq"));
    assert!(!is_username_valid("bad-name"));
    assert!(!is_username_valid("álex"));
}

#[test]
fn validates_size() {
    assert_eq!(parse_size(Some("8")).expect("valid size"), 8);
    assert_eq!(parse_size(Some("512")).expect("valid size"), 512);
    assert!(parse_size(Some("abc")).is_err());
}

#[test]
fn defaults_missing_size_to_even_minecraft_pixels() {
    assert_eq!(parse_size(None).expect("default size"), 184);
}

#[test]
fn rounds_size_to_nearest_minecraft_pixel_multiple() {
    assert_eq!(parse_size(Some("180")).expect("valid size"), 184);
    assert_eq!(parse_size(Some("179")).expect("valid size"), 176);
    assert_eq!(parse_size(Some("511")).expect("valid size"), 512);
}

#[test]
fn rejects_size_above_512() {
    assert!(parse_size(Some("513")).is_err());
}

#[test]
fn rejects_size_below_8() {
    assert!(parse_size(Some("7")).is_err());
}

#[test]
fn hyphenated_and_compact_uuid_normalize_alike() {
    let hyphenated = normalize_uuid("bc881e02-9216-4f6e-a80f-7b9df0ccf9e9");
    let compact = normalize_uuid("BC881E0292164F6EA80F7B9DF0CCF9E9");
    assert_eq!(hyphenated, compact);
    let again = normalize_uuid(hyphenated.as_deref().unwrap());
    assert_eq!(again, hyphenated);
}

#[test]
fn rejects_misplaced_hyphens() {
    assert!(normalize_uuid("bc881e0-29216-4f6e-a80f-7b9df0ccf9e9").is_none());
    assert!(normalize_uuid("bc881e02-9216-4f6e-a80f-7b9df0ccf9é9").is_none());
}

#[test]
fn parse_player_prefers_uuid_then_username() {
    assert_eq!(
        parse_player("BC881E02-9216-4F6E-A80F-7B9DF0CCF9E9").unwrap(),
        PlayerInput::Uuid("bc881e0292164f6ea80f7b9df0ccf9e9".to_owned())
    );
    assert_eq!(
        parse_player("Steve").unwrap(),
        PlayerInput::Username("Steve".to_owned())
    );
    assert_eq!(parse_player("no way").unwrap_err(), AppError::InvalidPlayer);
}

#[test]
fn size_parsing_follows_u32_rules() {
    assert_eq!(parse_size(Some("+16")).unwrap(), 16);
    assert_eq!(parse_size(Some("0016")).unwrap(), 16);
    assert_eq!(parse_size(Some("")).unwrap_err(), AppError::InvalidSize);
    assert_eq!(parse_size(Some("+")).unwrap_err(), AppError::InvalidSize);
    assert_eq!(parse_size(Some("-16")).unwrap_err(), AppError::InvalidSize);
    assert_eq!(parse_size(Some(" 16")).unwrap_err(), AppError::InvalidSize);
    assert_eq!(parse_size(Some("4294967296")).unwrap_err(), AppError::InvalidSize);
    assert_eq!(parse_size(Some("99999999999999999999")).unwrap_err(), AppError::InvalidSize);
}

#[test]
fn normalized_sizes_are_multiples_of_eight_near_the_request() {
    for size in 8..=512u32 {
        let rounded = normalize_size(size).unwrap();
        assert_eq!(rounded % 8, 0);
        assert!(rounded + 3 >= size && size + 4 >= rounded);
    }
    assert_eq!(normalize_size(4).unwrap_err(), AppError::InvalidSize);
    assert_eq!(normalize_size(DEFAULT_SIZE).unwrap(), 184);
    assert_eq!(normalize_size(12).unwrap(), 16);
    assert_eq!(normalize_size(11).unwrap(), 8);
}
