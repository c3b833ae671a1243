use skin_injection::error::{ErrorKind, FailedAt, InjectionError};
use skin_injection::error::failure_report;
use skin_injection::tools::{
    candidate_locations, check_staged_mod, choose_tool, stray_process_ids, valid_mod_names, Base,
    Probe, StagedEntry,
};
use skin_injection::types::{to_skins, SavedConfig, SkinData};

fn probe(round: u32, found: Option<&str>) -> Probe {
    Probe { round, found: found.map(|f| f.to_string()) }
}

#[test]
fn candidate_locations_in_order() {
    let list = candidate_locations();
    let seen: Vec<(u32, Base, &str)> = list.iter().map(|l| (l.round, l.base, l.tail)).collect();
    assert_eq!(
        seen,
        vec![
            (0, Base::Resources, "mod-tools.exe"),
            (0, Base::Resources, "cslol-tools/mod-tools.exe"),
            (1, Base::LocalData, "mod-tools.exe"),
            (2, Base::LocalData, "cslol-tools/mod-tools.exe"),
            (
                2,
                Base::LocalData,
                "../cslol-manager-2024-10-27-401067d-prerelease/cslol-tools/mod-tools.exe"
            ),
            (3, Base::Executable, "cslol-tools/mod-tools.exe"),
            (3, Base::Executable, "resources/cslol-tools/mod-tools.exe"),
            (3, Base::Executable, "mod-tools.exe"),
        ]
    );
}

#[test]
fn first_round_with_a_hit_decides() {
    assert_eq!(choose_tool(&Vec::new()), None);
    assert_eq!(choose_tool(&vec![probe(0, None), probe(1, None)]), None);
    assert_eq!(
        choose_tool(&vec![probe(0, Some("a")), probe(0, Some("b")), probe(1, Some("c"))]),
        Some("b".to_string())
    );
    assert_eq!(
        choose_tool(&vec![probe(0, None), probe(0, None), probe(1, Some("c")), probe(2, Some("d"))]),
        Some("c".to_string())
    );
    assert_eq!(
        choose_tool(&vec![probe(0, Some("a")), probe(0, None), probe(3, Some("z"))]),
        Some("a".to_string())
    );
    assert_eq!(
        choose_tool(&vec![probe(3, Some("x")), probe(3, Some("y")), probe(3, Some("z"))]),
        Some("z".to_string())
    );
}

#[test]
fn process_ids_are_read_from_a_listing() {
    assert_eq!(
        stray_process_ids("ProcessId  \r\n1234  \r\n\r\n5678\r\n"),
        vec!["1234".to_string(), "5678".to_string()]
    );
    assert_eq!(stray_process_ids(""), Vec::<String>::new());
    assert_eq!(stray_process_ids("No Instance(s) Available.\n"), Vec::<String>::new());
    assert_eq!(stray_process_ids("12 34\n 7 \n8x\n9"), vec!["7".to_string(), "9".to_string()]);
    assert_eq!(stray_process_ids("\n\n42"), vec!["42".to_string()]);
}

#[test]
fn process_ids_agree_with_line_filter() {
    for listing in ["ProcessId\n1\n2\n", "  10\t\n\n x \n٣\n003", "7", "\r\n8\r\n"] {
        let expected: Vec<String> = listing
            .lines()
            .map(|l| l.trim())
            .filter(|l| *l != "ProcessId" && !l.is_empty() && l.chars().all(|c| c.is_digit(10)))
            .map(|l| l.to_string())
            .collect();
        assert_eq!(stray_process_ids(listing), expected, "{:?}", listing);
    }
}

#[test]
fn valid_mods_are_directories_with_a_descriptor() {
    let entries = vec![
        StagedEntry { name: Some("one".to_string()), is_dir: true, has_descriptor: true },
        StagedEntry { name: Some("file".to_string()), is_dir: false, has_descriptor: true },
        StagedEntry { name: Some("bare".to_string()), is_dir: true, has_descriptor: false },
        StagedEntry { name: None, is_dir: true, has_descriptor: true },
        StagedEntry { name: Some("two".to_string()), is_dir: true, has_descriptor: true },
    ];
    assert_eq!(valid_mod_names(&entries), vec!["one".to_string(), "two".to_string()]);
    assert_eq!(valid_mod_names(&Vec::new()), Vec::<String>::new());
}

#[test]
fn staged_mod_without_descriptor_is_invalid() {
    assert!(check_staged_mod(true).is_ok());
    let err = check_staged_mod(false).unwrap_err();
    assert!(matches!(err, InjectionError::MissingFantomeFile(_)));
    assert_eq!(err.detail(), "Mod structure invalid");
}

#[test]
fn every_error_is_described_by_its_class() {
    let cases = vec![
        (InjectionError::IoError("x".to_string()), ErrorKind::Io, "IO Error: x"),
        (
            InjectionError::InvalidGamePath("x".to_string()),
            ErrorKind::InvalidGamePath,
            "Invalid game path: x",
        ),
        (
            InjectionError::MissingFantomeFile("x".to_string()),
            ErrorKind::MissingFantomeFile,
            "Missing fantome file: x",
        ),
        (InjectionError::ProcessError("x".to_string()), ErrorKind::Process, "Process error: x"),
        (InjectionError::ConfigError("x".to_string()), ErrorKind::Config, "Configuration error: x"),
        (InjectionError::OverlayError("x".to_string()), ErrorKind::Overlay, "Overlay error: x"),
        (InjectionError::Timeout("x".to_string()), ErrorKind::Timeout, "Timeout: x"),
        (InjectionError::Aborted("x".to_string()), ErrorKind::Aborted, "Aborted: x"),
        (InjectionError::WalkdirError("x".to_string()), ErrorKind::Walkdir, "Walkdir error: x"),
        (InjectionError::ZipError("x".to_string()), ErrorKind::Zip, "Zip error: x"),
    ];
    for (error, kind, line) in cases {
        assert_eq!(error.kind(), kind);
        assert_eq!(error.detail(), "x");
        assert_eq!(error.describe(), line);
    }
}

#[test]
fn failure_reports_name_the_part() {
    let error = InjectionError::OverlayError("no tool".to_string());
    assert_eq!(
        failure_report(FailedAt::Construction, &error),
        "Failed to create injector: Overlay error: no tool"
    );
    assert_eq!(
        failure_report(FailedAt::Initialization, &error),
        "Failed to initialize: Overlay error: no tool"
    );
    assert_eq!(
        failure_report(FailedAt::Injection, &error),
        "Failed to inject skins: Overlay error: no tool"
    );
    assert_eq!(
        failure_report(FailedAt::Cleanup, &error),
        "Failed to stop skin injection: Overlay error: no tool"
    );
}

#[test]
fn stored_skins_become_selections() {
    let stored = vec![
        SkinData { champion_id: 1, skin_id: 1001, chroma_id: None, fantome: None },
        SkinData {
            champion_id: 64,
            skin_id: 64003,
            chroma_id: Some(7),
            fantome: Some("leesin/x.fantome".to_string()),
        },
    ];
    let skins = to_skins(&stored);
    assert_eq!(skins.len(), 2);
    assert_eq!(skins[0].champion_id, 1);
    assert_eq!(skins[0].skin_id, 1001);
    assert_eq!(skins[0].chroma_id, None);
    assert_eq!(skins[0].fantome_path, None);
    assert_eq!(skins[1].champion_id, 64);
    assert_eq!(skins[1].skin_id, 64003);
    assert_eq!(skins[1].chroma_id, Some(7));
    assert_eq!(skins[1].fantome_path, Some("leesin/x.fantome".to_string()));
    assert!(to_skins(&Vec::new()).is_empty());
}

#[test]
fn stored_skins_are_picked_for_the_champions_of_a_session() {
    let stored = |champion_id: u32, skin_id: u32| SkinData {
        champion_id,
        skin_id,
        chroma_id: None,
        fantome: None,
    };
    let config = SavedConfig {
        league_path: None,
        skins: vec![stored(1, 1001), stored(64, 64003), stored(1, 1002), stored(103, 103015)],
        favorites: Vec::new(),
        theme: None,
    };
    let picked = config.skins_for_champions(&vec![103, 0, -5, 1, 7, 1, 0x1_0000_0040]);
    let seen: Vec<(u32, u32)> = picked.iter().map(|s| (s.champion_id, s.skin_id)).collect();
    assert_eq!(seen, vec![(103, 103015), (1, 1001), (1, 1001), (64, 64003)]);
    assert!(config.skins_for_champions(&Vec::new()).is_empty());
    assert!(config.skins_for_champions(&vec![0, -1]).is_empty());
}
