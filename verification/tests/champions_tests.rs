use skin_injection::champions::{champion_name_from, find_champion_name, strip_spaces};

#[test]
fn spaces_are_taken_out() {
    assert_eq!(strip_spaces("lee sin"), "leesin");
    assert_eq!(strip_spaces("  a  b  "), "ab");
    assert_eq!(strip_spaces(""), "");
    assert_eq!(strip_spaces("   "), "");
    assert_eq!(strip_spaces("tab\there"), "tab\there");
}

#[test]
fn champion_name_from_descriptor_fields() {
    assert_eq!(champion_name_from(Some(64), Some("Lee Sin"), 64), Some("leesin".to_string()));
    assert_eq!(champion_name_from(Some(64), Some("Lee Sin"), 65), None);
    assert_eq!(champion_name_from(Some(64), None, 64), None);
    assert_eq!(champion_name_from(None, Some("Lee Sin"), 64), None);
    assert_eq!(
        champion_name_from(Some(0x1_0000_0040), Some("Aurelion Sol"), 64),
        Some("aurelionsol".to_string())
    );
}

#[test]
fn champion_name_is_found_among_descriptors() {
    let descriptors = vec![
        "not json".to_string(),
        "{\"id\": 1, \"name\": \"Annie\"}".to_string(),
        "{\"id\": 64}".to_string(),
        "{\"id\": \"64\", \"name\": \"Wrong Type\"}".to_string(),
        "{\"id\": 64, \"name\": \"Lee Sin\", \"skins\": []}".to_string(),
        "{\"id\": 64, \"name\": \"Second\"}".to_string(),
    ];
    assert_eq!(find_champion_name(&descriptors, 64), Some("leesin".to_string()));
    assert_eq!(find_champion_name(&descriptors, 1), Some("annie".to_string()));
    assert_eq!(find_champion_name(&descriptors, 2), None);
    assert_eq!(find_champion_name(&Vec::new(), 1), None);
}
