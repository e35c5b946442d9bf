use tango_lockstep::browse::{
    listable, sort_replays, GameInfoMeta, PatchRef, ReplayListEntry, SideMeta,
};
use tango_lockstep::game::{
    bn3b, bn3w, exe3b, exe3w, find_by_family_and_variant, Family, Language, Save, SaveGameInfo,
    Variant,
};
use tango_lockstep::hooks::{megamanbn4bm, HookEvent, MemoryRegion};
use tango_lockstep::patches::{parse_version, resolve_patch, ParsedVersion, PatchMeta, PatchVersionInfo};
use tango_lockstep::save_view::{available_tabs, select_tab, SaveViewCaps, Tab};
use tango_lockstep::vfile::{SeekFrom, VFile};

#[test]
fn game_registry_identities() {
    let g = exe3w();
    assert_eq!(&g.rom_code_and_revision().0, b"A6BJ");
    assert_eq!(g.rom_code_and_revision().1, 0x01);
    assert_eq!(g.family_and_variant(), (Family::Exe3, 0));
    assert_eq!(g.language(), Language::JaJp);
    assert_eq!(g.expected_crc32(), 0xe48e6bc9);
    assert_eq!(g.match_types(), vec![4, 1]);
    assert_eq!(&exe3b().rom_code_and_revision().0, b"A3XJ");
    assert_eq!(exe3b().expected_crc32(), 0xfd57493b);
    assert_eq!(&bn3w().rom_code_and_revision().0, b"A6BE");
    assert_eq!(bn3w().expected_crc32(), 0x0be4410a);
    assert_eq!(&bn3b().rom_code_and_revision().0, b"A3XE");
    assert_eq!(bn3b().expected_crc32(), 0xc0c780f9);
    assert_eq!(bn3b().language(), Language::EnUs);
}

#[test]
fn game_lookup_by_family_and_variant() {
    let g = find_by_family_and_variant(Family::Bn3, 1).expect("registered build");
    assert_eq!(g.expected_crc32(), 0xc0c780f9);
    assert!(find_by_family_and_variant(Family::Bn3, 2).is_none());
    assert!(find_by_family_and_variant(Family::Exe3, 9).is_none());
}

#[test]
fn save_compatibility_is_checked_by_variant() {
    let white = exe3w();
    let wram = vec![0u8; 16];
    let save = white.save_from_wram(&wram);
    assert_eq!(save.game_info, SaveGameInfo { variant: Variant::White });
    assert_eq!(save.wram, wram);
    assert!(white.parse_save(&save).is_ok());
    let blue_save = Save { game_info: SaveGameInfo { variant: Variant::Blue }, wram };
    let err = white.parse_save(&blue_save).expect_err("wrong variant");
    assert_eq!(err.got, SaveGameInfo { variant: Variant::Blue });
}

#[test]
fn hook_lookup_resolves_installed_hooks_and_hides_missing_ones() {
    let offsets = megamanbn4bm();
    assert_eq!(offsets.lookup(HookEvent::MainReadJoyflags), Some(0x080003c6));
    assert_eq!(offsets.lookup(HookEvent::RoundStartRet), Some(0x08006710));
    // the link-play menu entry points are not known for this build
    assert_eq!(offsets.lookup(HookEvent::CommMenuInitRet), None);
    assert_eq!(offsets.lookup(HookEvent::OpponentName), None);
    assert_eq!(offsets.lookup_region(MemoryRegion::Rng2State), Some(0x02001790));
    assert_eq!(offsets.lookup_region(MemoryRegion::TxPacket), Some(0x02037bc0));
}

#[test]
fn required_hooks_gate_session_construction() {
    let offsets = megamanbn4bm();
    // optional hooks may be missing: the table still supports a session
    assert!(offsets.validate_required().is_ok());
    let mut broken = offsets;
    broken.rom.round_start_ret = 0;
    assert_eq!(broken.validate_required(), Err(HookEvent::RoundStartRet));
    let mut broken2 = offsets;
    broken2.rom.main_read_joyflags = 0;
    assert_eq!(broken2.validate_required(), Err(HookEvent::MainReadJoyflags));
}

fn entry(ts: u64, link_code: &[u8], round: u32) -> ReplayListEntry {
    ReplayListEntry {
        ts,
        link_code: link_code.to_vec(),
        round,
        has_inputs: true,
        local_side: None,
        remote_side: None,
    }
}

#[test]
fn replays_sort_newest_first_then_link_code_then_round() {
    let sorted = sort_replays(vec![
        entry(100, b"bb", 1),
        entry(300, b"zz", 9),
        entry(100, b"aa", 2),
        entry(100, b"aa", 1),
        entry(200, b"mm", 4),
    ]);
    let keys: Vec<(u64, Vec<u8>, u32)> = sorted
        .iter()
        .map(|e| (e.ts, e.link_code.clone(), e.round))
        .collect();
    assert_eq!(
        keys,
        vec![
            (300, b"zz".to_vec(), 9),
            (200, b"mm".to_vec(), 4),
            (100, b"aa".to_vec(), 1),
            (100, b"aa".to_vec(), 2),
            (100, b"bb".to_vec(), 1),
        ]
    );
}

#[test]
fn sorting_keeps_every_entry() {
    let sorted = sort_replays(vec![
        entry(5, b"x", 0),
        entry(5, b"x", 0),
        entry(1, b"y", 0),
    ]);
    assert_eq!(sorted.len(), 3);
    assert_eq!(sorted[0].ts, 5);
    assert_eq!(sorted[1].ts, 5);
    assert_eq!(sorted[2].ts, 1);
}

#[test]
fn only_fully_described_replays_are_listable() {
    let mut e = entry(1, b"code", 1);
    assert!(listable(&e).is_none());
    e.local_side = Some(SideMeta {
        nickname: "left".to_owned(),
        game_info: Some(GameInfoMeta { rom_family: Family::Exe3, rom_variant: 1, patch: None }),
    });
    // remote side still missing
    assert!(listable(&e).is_none());
    e.remote_side = Some(SideMeta { nickname: "right".to_owned(), game_info: None });
    let g = listable(&e).expect("fully described");
    assert_eq!(g.expected_crc32(), 0xfd57493b);
    // an unregistered variant is not listable
    e.local_side = Some(SideMeta {
        nickname: "left".to_owned(),
        game_info: Some(GameInfoMeta { rom_family: Family::Exe3, rom_variant: 7, patch: None }),
    });
    assert!(listable(&e).is_none());
    let _ = PatchRef { name: "p".to_owned(), version: "1.0.0".to_owned() };
}

#[test]
fn version_parsing_follows_semver() {
    let v = parse_version(&"1.2.3".to_owned()).expect("well-formed");
    assert_eq!((v.major, v.minor, v.patch), (1, 2, 3));
    assert_eq!(v.pre, "");
    assert_eq!(v.build, "");
    let v2 = parse_version(&"2.0.1-alpha.1+build5".to_owned()).expect("well-formed");
    assert_eq!((v2.major, v2.minor, v2.patch), (2, 0, 1));
    assert_eq!(v2.pre, "alpha.1");
    assert_eq!(v2.build, "build5");
    assert!(parse_version(&"not-a-version".to_owned()).is_none());
    assert!(parse_version(&"1.2".to_owned()).is_none());
}

fn patch_with(name: &str, versions: Vec<(&str, Option<Language>)>) -> PatchMeta {
    PatchMeta {
        name: name.to_owned(),
        versions: versions
            .into_iter()
            .map(|(v, lang)| {
                (
                    parse_version(&v.to_owned()).expect("well-formed version"),
                    PatchVersionInfo { language_override: lang },
                )
            })
            .collect(),
    }
}

#[test]
fn patch_resolution_needs_name_and_exact_version() {
    let patches = vec![
        patch_with("alpha-patch", vec![("1.0.0", None), ("1.1.0", Some(Language::JaJp))]),
        patch_with("beta-patch", vec![("0.9.0", None)]),
    ];
    let hit = resolve_patch(&patches, &"alpha-patch".to_owned(), &"1.1.0".to_owned())
        .expect("installed version");
    assert_eq!(hit.language_override, Some(Language::JaJp));
    assert!(resolve_patch(&patches, &"alpha-patch".to_owned(), &"1.2.0".to_owned()).is_none());
    assert!(resolve_patch(&patches, &"gamma-patch".to_owned(), &"1.0.0".to_owned()).is_none());
    assert!(resolve_patch(&patches, &"alpha-patch".to_owned(), &"garbage".to_owned()).is_none());
    // pre-release part must match exactly
    let pre = vec![patch_with("p", vec![("1.0.0-rc.1", None)])];
    assert!(resolve_patch(&pre, &"p".to_owned(), &"1.0.0".to_owned()).is_none());
    assert!(resolve_patch(&pre, &"p".to_owned(), &"1.0.0-rc.1".to_owned()).is_some());
    let _ = ParsedVersion { major: 0, minor: 0, patch: 0, pre: String::new(), build: String::new() };
}

#[test]
fn save_view_tabs_follow_capabilities() {
    let caps = SaveViewCaps { navi: true, chips: false, patch_cards: true, auto_battle_data: false };
    assert_eq!(available_tabs(caps), vec![Tab::Navi, Tab::PatchCards]);
    let none = SaveViewCaps { navi: false, chips: false, patch_cards: false, auto_battle_data: false };
    assert!(available_tabs(none).is_empty());
    assert_eq!(select_tab(Some(Tab::Folder), caps, false), Some(Tab::Folder));
    assert_eq!(select_tab(None, caps, true), None);
    assert_eq!(select_tab(None, caps, false), Some(Tab::Navi));
    assert_eq!(select_tab(None, none, false), None);
}

#[test]
fn vfile_seek_read_write() {
    let mut f = VFile::from_vec(vec![1, 2, 3]);
    assert_eq!(f.size(), 3);
    assert_eq!(f.seek(SeekFrom::End(-1)), Ok(2));
    assert_eq!(f.read(10), vec![3]);
    assert_eq!(f.pos, 3);
    assert_eq!(f.seek(SeekFrom::Start(1)), Ok(1));
    assert_eq!(f.read(1), vec![2]);
    assert_eq!(f.seek(SeekFrom::Current(-2)), Ok(0));
    assert!(f.seek(SeekFrom::Current(-1)).is_err());
    // a failed seek moves nothing
    assert_eq!(f.pos, 0);
    // writing past the end zero-fills the gap
    assert_eq!(f.seek(SeekFrom::Start(5)), Ok(5));
    assert_eq!(f.write(&[9, 9]), 2);
    assert_eq!(f.data, vec![1, 2, 3, 0, 0, 9, 9]);
    assert_eq!(f.pos, 7);
}

#[test]
fn vfile_resize_map_unmap_sync() {
    let mut f = VFile::from_vec(vec![4, 5, 6, 7]);
    f.resize(2);
    assert_eq!(f.data, vec![4, 5]);
    f.resize(4);
    assert_eq!(f.data, vec![4, 5, 0, 0]);
    let _ = f.seek(SeekFrom::Start(1));
    let mapped = f.map(3).expect("file long enough");
    assert_eq!(mapped, vec![4, 5, 0]);
    // mapping does not move the cursor
    assert_eq!(f.pos, 1);
    assert!(f.map(9).is_none());
    f.unmap(&[8, 8]);
    assert_eq!(f.data, vec![8, 8, 0, 0]);
    assert_eq!(f.pos, 1);
    assert!(f.sync());
    assert_eq!(f.into_vec(), vec![8, 8, 0, 0]);
}
