use scratch_ir::project::{is_sprite, parse_u32, Error, ProjectPath};

#[test]
fn project_file_with_version() {
    let p = ProjectPath::from_path("games/pong.sb3").unwrap();
    assert_eq!(p.version, 3);
    assert_eq!(p.path, "games/pong.sb3");
    assert_eq!(ProjectPath::from_path("old.sb2").unwrap().version, 2);
}

#[test]
fn project_file_errors() {
    assert_eq!(ProjectPath::from_path("games/pong"), Err(Error::NoExtension));
    assert_eq!(ProjectPath::from_path("pong.zip"), Err(Error::NotScratchFileExtension("zip".to_string())));
    assert_eq!(ProjectPath::from_path("pong.sbx"), Err(Error::InvalidScratchVersion("x".to_string())));
    assert_eq!(ProjectPath::from_path("pong.sb"), Err(Error::InvalidScratchVersion(String::new())));
    assert_eq!(ProjectPath::from_extension("a", "SB3"), Err(Error::NotScratchFileExtension("SB3".to_string())));
    assert_eq!(ProjectPath::from_extension("a", "sb3").unwrap().version, 3);
}

#[test]
fn decimal_parsing() {
    assert_eq!(parse_u32("3"), Some(3));
    assert_eq!(parse_u32("+7"), Some(7));
    assert_eq!(parse_u32("0042"), Some(42));
    assert_eq!(parse_u32("4294967295"), Some(4294967295));
    assert_eq!(parse_u32("4294967296"), None);
    assert_eq!(parse_u32(""), None);
    assert_eq!(parse_u32("+"), None);
    assert_eq!(parse_u32("-1"), None);
    assert_eq!(parse_u32("1a"), None);
    assert_eq!(parse_u32("1é"), None);
    for s in ["0", "17", "+5", "99999", "12x"] {
        assert_eq!(parse_u32(s), s.parse::<u32>().ok());
    }
}

#[test]
fn archive_kind() {
    assert_eq!(is_sprite(true, false), Some(false));
    assert_eq!(is_sprite(true, true), Some(false));
    assert_eq!(is_sprite(false, true), Some(true));
    assert_eq!(is_sprite(false, false), None);
}
