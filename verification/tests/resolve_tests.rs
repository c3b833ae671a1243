use skin_injection::error::{ErrorKind, InjectionError};
use skin_injection::index::{FileIndex, WalkItem};
use skin_injection::resolve::{
    file_name_matches, find_by_name, find_by_skin, find_fantome_fallback, missing_archive,
    resolve_archive, Findings, Scan,
};
use skin_injection::types::Skin;

fn walk_file(path: &str, name: &str) -> WalkItem {
    let extension = name.rsplit_once('.').map(|(_, e)| e.to_string());
    WalkItem::Entry { path: path.to_string(), file_name: name.to_string(), extension, is_file: true }
}

fn pick(champion_id: u32, skin_id: u32, chroma_id: Option<u32>, hint: Option<&str>) -> Skin {
    Skin { champion_id, skin_id, chroma_id, fantome_path: hint.map(|h| h.to_string()) }
}

fn found_in(walk: Vec<WalkItem>) -> Findings {
    Findings { direct: None, champion_file: None, champion_dir: None, walk }
}

#[test]
fn file_name_matching_with_and_without_chroma() {
    assert!(file_name_matches("10_SkinName.fantome", 10, None));
    assert!(!file_name_matches("10_SkinName_chroma_7.fantome", 10, None));
    assert!(file_name_matches("10_SkinName_chroma_7.fantome", 10, Some(7)));
    assert!(!file_name_matches("10_SkinName_chroma_7.fantome", 10, Some(8)));
    assert!(!file_name_matches("10_SkinName.fantome", 10, Some(7)));
    assert!(!file_name_matches("11_SkinName.fantome", 10, None));
}

#[test]
fn skin_number_is_matched_as_a_token() {
    assert!(!file_name_matches("110_Other.fantome", 10, None));
    assert!(!file_name_matches("x210y.fantome", 10, None));
    assert!(!file_name_matches("Skin10.fantome", 10, None));
    assert!(!file_name_matches("1_Other.fantome", 10, None));
    assert!(!file_name_matches("10_Other.fantome", 1, None));
    assert!(file_name_matches("Other-10.fantome", 10, None));
    assert!(file_name_matches("Other (010).fantome", 10, None));
    assert!(file_name_matches("a_1_b.fantome", 1, None));
    assert!(!file_name_matches("10_chroma_17.fantome", 10, Some(7)));
    assert!(!file_name_matches("10_chroma7.fantome", 10, Some(7)));
    assert!(file_name_matches("10_monochrome.fantome", 10, None));
    assert!(file_name_matches("7_chroma_7.fantome", 7, Some(7)));
    assert!(!file_name_matches(".fantome", 0, None));
    assert!(file_name_matches("0.fantome", 0, None));
}

#[test]
fn archive_of_another_skin_does_not_serve() {
    let selection = pick(1, 10, None, None);
    let found = found_in(vec![walk_file("/root/110_Other.fantome", "110_Other.fantome")]);
    assert_eq!(find_fantome_fallback(&selection, &found).unwrap(), None);
}

#[test]
fn scenario_filename_token_fallback() {
    let index = FileIndex::new();
    let selection = pick(1, 10, None, None);
    let found = found_in(vec![
        walk_file("/root/readme.txt", "readme.txt"),
        walk_file("/root/sub/10_SkinName.fantome", "10_SkinName.fantome"),
    ]);
    assert_eq!(index.find_fantome_for_skin(&selection, None), None);
    let resolved = resolve_archive(&index, &selection, &found);
    assert_eq!(resolved.unwrap(), "/root/sub/10_SkinName.fantome");
    let slow = find_fantome_fallback(&selection, &found).unwrap();
    assert_eq!(slow, Some("/root/sub/10_SkinName.fantome".to_string()));
}

#[test]
fn scenario_filename_token_fallback_with_built_cache() {
    let mut index = FileIndex::new();
    let walk = vec![walk_file("/root/sub/10_SkinName.fantome", "10_SkinName.fantome")];
    index.index_fantome_files("/root", Some(&walk), 1).unwrap();
    let selection = pick(1, 10, None, None);
    assert_eq!(index.find_fantome_for_skin(&selection, None), None);
    let resolved = resolve_archive(&index, &selection, &found_in(walk));
    assert_eq!(resolved.unwrap(), "/root/sub/10_SkinName.fantome");
}

#[test]
fn unserved_selection_is_missing_archive() {
    let index = FileIndex::new();
    let selection = pick(1, 10, Some(3), Some("skins/none.fantome"));
    let found = found_in(vec![
        walk_file("/root/11_Other.fantome", "11_Other.fantome"),
        walk_file("/root/10_Base.fantome", "10_Base.fantome"),
        walk_file("/root/10.txt", "10.txt"),
    ]);
    let err = resolve_archive(&index, &selection, &found).unwrap_err();
    assert!(matches!(err, InjectionError::MissingFantomeFile(_)));
    assert_eq!(err.kind(), ErrorKind::MissingFantomeFile);
    assert_eq!(
        err.detail(),
        "No fantome file found for skin: champion_id=1, skin_id=10, chroma_id=Some(3)"
    );
    assert_eq!(
        err.describe(),
        "Missing fantome file: No fantome file found for skin: champion_id=1, skin_id=10, chroma_id=Some(3)"
    );
}

#[test]
fn missing_archive_message_without_chroma() {
    let err = missing_archive(&pick(266, 266003, None, None));
    assert_eq!(
        err.detail(),
        "No fantome file found for skin: champion_id=266, skin_id=266003, chroma_id=None"
    );
}

#[test]
fn fallback_order_of_hint_routes() {
    let selection = pick(1, 10, None, Some("skins/wanted.fantome"));
    let walk = vec![
        walk_file("/root/a/wanted.fantome", "wanted.fantome"),
        walk_file("/root/10_Base.fantome", "10_Base.fantome"),
    ];
    let mut found = found_in(walk);
    found.direct = Some("/root/skins/wanted.fantome".to_string());
    found.champion_file = Some("/root/annie/wanted.fantome".to_string());
    assert_eq!(
        find_fantome_fallback(&selection, &found).unwrap(),
        Some("/root/skins/wanted.fantome".to_string())
    );
    found.direct = None;
    assert_eq!(
        find_fantome_fallback(&selection, &found).unwrap(),
        Some("/root/annie/wanted.fantome".to_string())
    );
    found.champion_file = None;
    assert_eq!(
        find_fantome_fallback(&selection, &found).unwrap(),
        Some("/root/a/wanted.fantome".to_string())
    );
    let other = pick(1, 10, None, Some("skins/unknown.fantome"));
    assert_eq!(
        find_fantome_fallback(&other, &found).unwrap(),
        Some("/root/10_Base.fantome".to_string())
    );
}

#[test]
fn fallback_searches_champion_directory_first() {
    let selection = pick(1, 10, None, None);
    let mut found = found_in(vec![walk_file("/root/z/10_Walk.fantome", "10_Walk.fantome")]);
    found.champion_dir = Some(vec![
        walk_file("/root/annie/10_chroma_2.fantome", "10_chroma_2.fantome"),
        walk_file("/root/annie/10_Dir.fantome", "10_Dir.fantome"),
    ]);
    assert_eq!(
        find_fantome_fallback(&selection, &found).unwrap(),
        Some("/root/annie/10_Dir.fantome".to_string())
    );
    let chroma = pick(1, 10, Some(2), None);
    assert_eq!(
        find_fantome_fallback(&chroma, &found).unwrap(),
        Some("/root/annie/10_chroma_2.fantome".to_string())
    );
}

#[test]
fn fallback_reports_broken_listings() {
    let selection = pick(1, 10, None, Some("wanted.fantome"));
    let found = found_in(vec![
        WalkItem::Failed("walk broke".to_string()),
        walk_file("/root/wanted.fantome", "wanted.fantome"),
    ]);
    let err = find_fantome_fallback(&selection, &found).unwrap_err();
    assert!(matches!(err, InjectionError::WalkdirError(_)));
    assert_eq!(err.detail(), "walk broke");

    let no_hint = pick(1, 10, None, None);
    let mut dir_broken = found_in(vec![walk_file("/root/10_a.fantome", "10_a.fantome")]);
    dir_broken.champion_dir = Some(vec![WalkItem::Failed("dir broke".to_string())]);
    let err = find_fantome_fallback(&no_hint, &dir_broken).unwrap_err();
    assert!(matches!(err, InjectionError::IoError(_)));
    assert_eq!(err.detail(), "dir broke");
}

#[test]
fn scans_stop_at_first_match() {
    let items = vec![
        walk_file("/r/a/10_x.fantome", "10_x.fantome"),
        walk_file("/r/b/10_x.fantome", "10_x.fantome"),
        WalkItem::Failed("late".to_string()),
    ];
    assert!(matches!(
        find_by_name(&items, &"10_x.fantome".to_string()),
        Scan::Found(p) if p == "/r/a/10_x.fantome"
    ));
    assert!(matches!(find_by_skin(&items, 10, None), Scan::Found(p) if p == "/r/a/10_x.fantome"));
    assert!(matches!(find_by_skin(&items, 11, None), Scan::Failed(m) if m == "late"));
    assert!(matches!(find_by_name(&items[..2].iter().map(|i| match i {
        WalkItem::Entry { path, file_name, extension, is_file } => WalkItem::Entry {
            path: path.clone(),
            file_name: file_name.clone(),
            extension: extension.clone(),
            is_file: *is_file,
        },
        WalkItem::Failed(m) => WalkItem::Failed(m.clone()),
    }).collect(), &"none".to_string()), Scan::Nothing));
}
