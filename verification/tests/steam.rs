use steam_box::steam::{
    appid_from_lua_file_name, detect_steam_path, game_count, get_filesystem_candidates,
    get_lua_dir, list_lua_games, lua_file_name, lua_file_path, registry_steam_path,
    windows_filesystem_candidates,
    PathProbe, SteamError,
};

fn probe(path: &str, exists: bool, exe: bool, exe_cap: bool, apps: bool) -> PathProbe {
    PathProbe {
        path: path.to_string(),
        exists,
        has_steam_exe: exe,
        has_steam_exe_capitalized: exe_cap,
        has_steamapps: apps,
    }
}

#[test]
fn registry_path_wins_when_it_exists() {
    let reg = Some(probe("/reg", true, false, false, false));
    let cands = vec![probe("/a", true, true, false, false)];
    assert_eq!(detect_steam_path(&reg, &cands), Ok("/reg".to_string()));
    let missing = Some(probe("/reg", false, false, false, false));
    assert_eq!(detect_steam_path(&missing, &cands), Ok("/a".to_string()));
}

#[test]
fn first_steam_like_candidate_wins() {
    let cands = vec![
        probe("/plain", true, false, false, false),
        probe("/apps", true, false, false, true),
        probe("/exe", true, true, false, false),
    ];
    assert_eq!(detect_steam_path(&None, &cands), Ok("/apps".to_string()));
}

#[test]
fn capitalized_exe_counts_even_without_the_directory() {
    let cands = vec![
        probe("/plain", true, false, false, false),
        probe("/odd", false, false, true, false),
    ];
    assert_eq!(detect_steam_path(&None, &cands), Ok("/odd".to_string()));
    let cands = vec![probe("/ghost", false, true, false, true), probe("/plain", true, false, false, false)];
    assert_eq!(detect_steam_path(&None, &cands), Ok("/plain".to_string()));
}

#[test]
fn nothing_found_is_not_found() {
    let cands = vec![probe("/x", false, false, false, false)];
    assert_eq!(detect_steam_path(&None, &cands), Err(SteamError::NotFound));
    assert_eq!(detect_steam_path(&None, &vec![]), Err(SteamError::NotFound));
    assert_eq!(SteamError::NotFound.message(), "Steam installation not found");
    assert_eq!(SteamError::Io("disk".to_string()).message(), "IO error: disk");
    assert_eq!(SteamError::Registry("key".to_string()).message(), "Registry error: key");
}

#[test]
fn candidates_under_home() {
    assert!(get_filesystem_candidates(&None).is_empty());
    let c = get_filesystem_candidates(&Some("/home/u".to_string()));
    assert_eq!(
        c,
        vec![
            "/home/u/.steam/steam".to_string(),
            "/home/u/.local/share/Steam".to_string(),
            "/home/u/Library/Application Support/Steam".to_string(),
        ]
    );
    let w = windows_filesystem_candidates();
    assert_eq!(w.len(), 5);
    assert_eq!(w[0], r"C:\Program Files (x86)\Steam");
    assert_eq!(w[4], r"E:\Steam");
}

#[test]
fn lua_dir_and_file_paths() {
    assert_eq!(get_lua_dir("/opt/steam"), "/opt/steam/config/stplug-in");
    assert_eq!(get_lua_dir("/opt/steam/"), "/opt/steam/config/stplug-in");
    let dir = get_lua_dir("/opt/steam");
    assert_eq!(lua_file_path(&dir, "730"), "/opt/steam/config/stplug-in/game_730.lua");
}

#[test]
fn lua_file_names_round_trip() {
    assert_eq!(lua_file_name("730"), "game_730.lua");
    assert_eq!(appid_from_lua_file_name("game_730.lua"), Some("730".to_string()));
    assert_eq!(appid_from_lua_file_name(&lua_file_name("ä b")), Some("ä b".to_string()));
    assert_eq!(appid_from_lua_file_name("game_.lua"), Some(String::new()));
    assert_eq!(appid_from_lua_file_name("game_730.txt"), None);
    assert_eq!(appid_from_lua_file_name("other_730.lua"), None);
    assert_eq!(appid_from_lua_file_name("game.lua"), None);
    assert_eq!(appid_from_lua_file_name(""), None);
}

#[test]
fn listing_and_counting_games() {
    let entries: Vec<String> = vec!["game_1.lua", "readme.txt", "game_22.lua", "game_3.luac"]
        .into_iter()
        .map(String::from)
        .collect();
    assert_eq!(list_lua_games(&entries), vec!["1".to_string(), "22".to_string()]);
    assert_eq!(game_count(&entries), 2);
    assert_eq!(game_count(&vec![]), 0);
}

#[test]
fn a_written_game_is_listed_last() {
    let mut entries: Vec<String> = vec!["game_5.lua".to_string(), "notes".to_string()];
    entries.push(lua_file_name("77"));
    let listed = list_lua_games(&entries);
    assert_eq!(listed.last(), Some(&"77".to_string()));
    assert_eq!(listed.len(), 2);
}

#[test]
fn registry_values_in_order() {
    let s = |t: &str| Some(t.to_string());
    assert_eq!(registry_steam_path(s("a"), s("b"), s("c"), s("d")), s("a"));
    assert_eq!(registry_steam_path(None, s("b"), s("c"), s("d")), s("b"));
    assert_eq!(registry_steam_path(None, None, s("c"), s("d")), s("c"));
    assert_eq!(registry_steam_path(None, None, None, s("d")), s("d"));
    assert_eq!(registry_steam_path(None, None, None, None), None);
}

#[test]
fn a_written_game_counts_wherever_it_stands() {
    let mut entries: Vec<String> = vec!["game_5.lua".to_string(), "notes".to_string(), "game_6.lua".to_string()];
    let before = game_count(&entries);
    entries.insert(1, lua_file_name("77"));
    assert_eq!(game_count(&entries), before + 1);
    assert_eq!(list_lua_games(&entries), vec!["5", "77", "6"]);
    entries.remove(1);
    assert_eq!(game_count(&entries), before);
}

#[test]
fn joining_edge_cases() {
    assert_eq!(get_lua_dir(""), "config/stplug-in");
    assert_eq!(get_lua_dir("/srv/what?"), "/srv/what?/config/stplug-in");
    assert_eq!(lua_file_path(&get_lua_dir("/s"), "a:b"), "/s/config/stplug-in/game_a:b.lua");
}
