//! The Steam installation: where it is, where its Lua plugin files live and
//! which games have one.

use crate::paths::{
    is_ordinary_base, is_path_join, is_plain_relative, is_verbatim, lemma_join_keeps_ordinary,
    path_join,
};
use crate::text::{chars_of, opt_view, views};
use vstd::prelude::*;

verus! {

/// Errors of the Steam helpers.
#[derive(Debug, PartialEq)]
pub enum SteamError {
    NotFound,
    Io(String),
    Registry(String),
}

impl SteamError {
    /// The text shown for this error.
    pub open spec fn spec_message(&self) -> Seq<char> {
        match self {
            SteamError::NotFound => "Steam installation not found"@,
            SteamError::Io(d) => "IO error: "@ + d@,
            SteamError::Registry(d) => "Registry error: "@ + d@,
        }
    }

    /// The text shown for this error.
    pub fn message(&self) -> (text: String)
        ensures
            text@ == self.spec_message(),
    {
        match self {
            SteamError::NotFound => String::from_str("Steam installation not found"),
            SteamError::Io(d) => {
                let mut text = String::from_str("IO error: ");
                text.append(d.as_str());
                text
            },
            SteamError::Registry(d) => {
                let mut text = String::from_str("Registry error: ");
                text.append(d.as_str());
                text
            },
        }
    }
}

/// What the file system showed of one candidate Steam directory `path`:
/// whether it exists, and whether `steam.exe`, `Steam.exe` and `steamapps`
/// exist inside it.
pub struct PathProbe {
    pub path: String,
    pub exists: bool,
    pub has_steam_exe: bool,
    pub has_steam_exe_capitalized: bool,
    pub has_steamapps: bool,
}

/// A candidate that looks like a Steam installation. The test on `Steam.exe`
/// does not ask the directory itself to exist.
pub open spec fn looks_like_steam(p: PathProbe) -> bool {
    ||| p.exists && p.has_steam_exe
    ||| p.has_steam_exe_capitalized
    ||| p.exists && p.has_steamapps
}

/// The Steam path that the Windows registry gives: `SteamPath`, then
/// `InstallPath`, of `HKCU\SOFTWARE\Valve\Steam`, then `InstallPath` of
/// `HKLM\SOFTWARE\Valve\Steam`, then that of its `WOW6432Node` twin; each is
/// `None` when its key or value could not be read.
pub fn registry_steam_path(
    hkcu_steam_path: Option<String>,
    hkcu_install_path: Option<String>,
    hklm_install_path: Option<String>,
    wow64_install_path: Option<String>,
) -> (path: Option<String>)
    ensures
        hkcu_steam_path is Some ==> opt_view(path) == opt_view(hkcu_steam_path),
        hkcu_steam_path is None && hkcu_install_path is Some ==> opt_view(path) == opt_view(
            hkcu_install_path,
        ),
        hkcu_steam_path is None && hkcu_install_path is None && hklm_install_path is Some
            ==> opt_view(path) == opt_view(hklm_install_path),
        hkcu_steam_path is None && hkcu_install_path is None && hklm_install_path is None
            ==> opt_view(path) == opt_view(wow64_install_path),
{
    if hkcu_steam_path.is_some() {
        return hkcu_steam_path;
    }
    if hkcu_install_path.is_some() {
        return hkcu_install_path;
    }
    if hklm_install_path.is_some() {
        return hklm_install_path;
    }
    wow64_install_path
}

/// The registry's answer is taken when the directory it names exists.
pub open spec fn registry_hit(registry: Option<PathProbe>) -> bool {
    registry matches Some(p) && p.exists
}

/// `i` is the first candidate that looks like a Steam installation.
pub open spec fn is_first_steam_like(c: Seq<PathProbe>, i: int) -> bool {
    &&& 0 <= i < c.len()
    &&& looks_like_steam(c[i])
    &&& forall|j: int| 0 <= j < i ==> !looks_like_steam(#[trigger] c[j])
}

/// `i` is the first candidate that exists.
pub open spec fn is_first_existing(c: Seq<PathProbe>, i: int) -> bool {
    &&& 0 <= i < c.len()
    &&& c[i].exists
    &&& forall|j: int| 0 <= j < i ==> !(#[trigger] c[j]).exists
}

/// Detect the Steam installation path.
///
/// The directory named by the registry wins when it exists; then the first
/// candidate that holds `steam.exe`, `Steam.exe` or `steamapps`; then the first
/// candidate that exists at all.
pub fn detect_steam_path(registry: &Option<PathProbe>, candidates: &Vec<PathProbe>) -> (r: Result<
    String,
    SteamError,
>)
    ensures
        registry_hit(*registry) ==> (r matches Ok(p) && p@ == registry->0.path@),
        !registry_hit(*registry) ==> forall|i: int|
            is_first_steam_like(candidates@, i) ==> (r matches Ok(p) && p@ == candidates@[i].path@),
        !registry_hit(*registry) && (forall|j: int|
            0 <= j < candidates@.len() ==> !looks_like_steam(#[trigger] candidates@[j]))
            ==> forall|i: int|
            is_first_existing(candidates@, i) ==> (r matches Ok(p) && p@ == candidates@[i].path@),
        r is Err <==> !registry_hit(*registry) && forall|j: int|
            0 <= j < candidates@.len() ==> !looks_like_steam(#[trigger] candidates@[j])
                && !candidates@[j].exists,
        r is Err ==> r == Err::<String, SteamError>(SteamError::NotFound),
{
    if let Some(p) = registry {
        if p.exists {
            return Ok(p.path.clone());
        }
    }
    let n = candidates.len();
    let mut i: usize = 0;
    while i < n
        invariant
            n == candidates@.len(),
            !registry_hit(*registry),
            i <= n,
            forall|j: int| 0 <= j < i ==> !looks_like_steam(#[trigger] candidates@[j]),
        decreases n - i,
    {
        let p = &candidates[i];
        if p.exists && p.has_steam_exe || p.has_steam_exe_capitalized {
            assert(is_first_steam_like(candidates@, i as int));
            return Ok(p.path.clone());
        }
        if p.exists && p.has_steamapps {
            assert(is_first_steam_like(candidates@, i as int));
            return Ok(p.path.clone());
        }
        i = i + 1;
    }
    let mut k: usize = 0;
    while k < n
        invariant
            n == candidates@.len(),
            !registry_hit(*registry),
            k <= n,
            forall|j: int| 0 <= j < n ==> !looks_like_steam(#[trigger] candidates@[j]),
            forall|j: int| 0 <= j < k ==> !(#[trigger] candidates@[j]).exists,
        decreases n - k,
    {
        if candidates[k].exists {
            assert(is_first_existing(candidates@, k as int));
            return Ok(candidates[k].path.clone());
        }
        k = k + 1;
    }
    Err(SteamError::NotFound)
}

/// The directories under the home directory where Steam is usually installed
/// on Linux and macOS: `.steam/steam`, `.local/share/Steam` and
/// `Library/Application Support/Steam`.
pub fn get_filesystem_candidates(home: &Option<String>) -> (candidates: Vec<String>)
    ensures
        home is None ==> candidates@.len() == 0,
        home matches Some(h) ==> candidates@.len() == 3,
        home is Some && !is_verbatim(home->0@) ==> {
            &&& is_path_join(home->0@, ".steam/steam"@, candidates@[0]@)
            &&& is_path_join(home->0@, ".local/share/Steam"@, candidates@[1]@)
            &&& is_path_join(
                home->0@,
                "Library/Application Support/Steam"@,
                candidates@[2]@,
            )
        },
{
    let mut candidates: Vec<String> = Vec::new();
    if let Some(h) = home {
        proof {
            reveal_strlit(".steam/steam");
            reveal_strlit(".local/share/Steam");
            reveal_strlit("Library/Application Support/Steam");
            assert(is_plain_relative(".steam/steam"@));
            assert(is_plain_relative(".local/share/Steam"@));
            assert(is_plain_relative("Library/Application Support/Steam"@));
        }
        candidates.push(path_join(h.as_str(), ".steam/steam"));
        candidates.push(path_join(h.as_str(), ".local/share/Steam"));
        candidates.push(path_join(h.as_str(), "Library/Application Support/Steam"));
    }
    candidates
}

/// The directories where Steam is usually installed on Windows.
pub fn windows_filesystem_candidates() -> (candidates: Vec<String>)
    ensures
        candidates@.len() == 5,
        candidates@[0]@ == "C:\\Program Files (x86)\\Steam"@,
        candidates@[1]@ == "C:\\Program Files\\Steam"@,
        candidates@[2]@ == "D:\\Steam"@,
        candidates@[3]@ == "D:\\Program Files (x86)\\Steam"@,
        candidates@[4]@ == "E:\\Steam"@,
{
    let mut candidates: Vec<String> = Vec::new();
    candidates.push(String::from_str("C:\\Program Files (x86)\\Steam"));
    candidates.push(String::from_str("C:\\Program Files\\Steam"));
    candidates.push(String::from_str("D:\\Steam"));
    candidates.push(String::from_str("D:\\Program Files (x86)\\Steam"));
    candidates.push(String::from_str("E:\\Steam"));
    candidates
}

/// The Lua plugin configuration directory: `<steam_path>/config/stplug-in`.
pub open spec fn is_lua_dir_of(steam_path: Seq<char>, dir: Seq<char>) -> bool {
    exists|config: Seq<char>|
        is_path_join(steam_path, "config"@, config) && is_path_join(
            config,
            "stplug-in"@,
            dir,
        )
}

/// Get the path to the Lua plugin configuration directory.
/// This is `<steam_path>/config/stplug-in/`, with the platform's separators;
/// it is stated for every Steam path that does not start with `\\?`.
pub fn get_lua_dir(steam_path: &str) -> (dir: String)
    ensures
        is_ordinary_base(steam_path@) ==> is_lua_dir_of(steam_path@, dir@),
        is_ordinary_base(steam_path@) ==> is_ordinary_base(dir@),
{
    proof {
        reveal_strlit("config");
        reveal_strlit("stplug-in");
        assert(is_plain_relative("config"@));
        assert(is_plain_relative("stplug-in"@));
    }
    let config = path_join(steam_path, "config");
    proof {
        if is_ordinary_base(steam_path@) {
            lemma_join_keeps_ordinary(steam_path@, "config"@, config@);
        }
    }
    let dir = path_join(config.as_str(), "stplug-in");
    proof {
        if is_ordinary_base(steam_path@) {
            assert(is_path_join(steam_path@, "config"@, config@));
            lemma_join_keeps_ordinary(config@, "stplug-in"@, dir@);
        }
    }
    dir
}

/// The name of the Lua file of a game: `game_{appid}.lua`.
pub open spec fn spec_lua_file_name(appid: Seq<char>) -> Seq<char> {
    "game_"@ + appid + ".lua"@
}

/// The game that a Lua file name belongs to: the part between `game_` and
/// `.lua`, when the name starts and ends with them.
pub open spec fn spec_appid_of(name: Seq<char>) -> Option<Seq<char>> {
    if name.len() >= 5 && name.take(5) == "game_"@ && name.len() >= 4 && name.skip(name.len() - 4)
        == ".lua"@ {
        Some(name.subrange(5, name.len() - 4))
    } else {
        None
    }
}

/// A name gives AppID `a` exactly when it is `game_` followed by `a` and `.lua`.
pub proof fn lemma_appid_of_is_game_file(name: Seq<char>, a: Seq<char>)
    ensures
        spec_appid_of(name) == Some(a) <==> name == "game_"@ + a + ".lua"@,
{
    reveal_strlit("game_");
    reveal_strlit(".lua");
    if name == "game_"@ + a + ".lua"@ {
        assert(name.take(5) =~= "game_"@);
        assert(name.skip(name.len() - 4) =~= ".lua"@);
        assert(name.subrange(5, name.len() - 4) =~= a);
    }
    if spec_appid_of(name) == Some(a) {
        let n = name.len();
        assert(name.take(5)[4] == name[4]);
        assert(name.skip(n - 4)[0] == name[n - 4]);
        assert(name[4] == '_');
        assert(name[n - 4] == '.');
        if n < 9 {
            assert(name.skip(n - 4)[8 - n] == name[4]);
        }
        assert(n >= 9);
        assert(name =~= "game_"@ + a + ".lua"@) by {
            assert forall|k: int| 0 <= k < n implies name[k] == ("game_"@ + a + ".lua"@)[k] by {
                if k < 5 {
                    assert(name[k] == name.take(5)[k]);
                } else if k >= n - 4 {
                    assert(name[k] == name.skip(n - 4)[k - (n - 4)]);
                } else {
                    assert(name[k] == name.subrange(5, n - 4)[k - 5]);
                }
            }
        }
    }
}

/// Every game listed among the entries of the plugin directory comes from an
/// entry named `game_` followed by that AppID and `.lua`.
pub proof fn lemma_listed_games_are_game_files(entries: Seq<Seq<char>>)
    ensures
        forall|i: int|
            0 <= i < spec_lua_games(entries).len() ==> exists|j: int|
                0 <= j < entries.len() && #[trigger] entries[j] == "game_"@ + (
                #[trigger] spec_lua_games(entries)[i]) + ".lua"@,
    decreases entries.len(),
{
    if entries.len() > 0 {
        let rest = entries.drop_last();
        lemma_listed_games_are_game_files(rest);
        assert forall|i: int| 0 <= i < spec_lua_games(entries).len() implies exists|j: int|
            0 <= j < entries.len() && #[trigger] entries[j] == "game_"@ + (
            #[trigger] spec_lua_games(entries)[i]) + ".lua"@ by {
            if i < spec_lua_games(rest).len() {
                assert(spec_lua_games(entries)[i] == spec_lua_games(rest)[i]);
                let j = choose|j: int|
                    0 <= j < rest.len() && #[trigger] rest[j] == "game_"@ + (
                    #[trigger] spec_lua_games(rest)[i]) + ".lua"@;
                assert(entries[j] == rest[j]);
            } else {
                let a = spec_appid_of(entries.last())->0;
                lemma_appid_of_is_game_file(entries.last(), a);
                assert(entries[entries.len() - 1] == entries.last());
            }
        }
    }
}

/// The Lua file name of a game AppID: `game_{appid}.lua`.
pub fn lua_file_name(appid: &str) -> (name: String)
    ensures
        name@ == spec_lua_file_name(appid@),
        name@ == "game_"@ + appid@ + ".lua"@,
{
    let mut name = String::from_str("game_");
    name.append(appid);
    name.append(".lua");
    name
}

/// The AppID that a Lua file name encodes, if it has the form `game_{appid}.lua`.
pub fn appid_from_lua_file_name(name: &str) -> (appid: Option<String>)
    ensures
        appid matches Some(a) ==> spec_appid_of(name@) == Some(a@),
        appid is None ==> spec_appid_of(name@) is None,
        appid matches Some(a) ==> name@ == "game_"@ + a@ + ".lua"@,
        appid is None ==> forall|a: Seq<char>| name@ != "game_"@ + a + ".lua"@,
{
    proof {
        if spec_appid_of(name@) is Some {
            lemma_appid_of_is_game_file(name@, spec_appid_of(name@)->0);
        } else {
            assert forall|a: Seq<char>| name@ != "game_"@ + a + ".lua"@ by {
                if name@ == "game_"@ + a + ".lua"@ {
                    lemma_appid_of_is_game_file(name@, a);
                }
            }
        }
    }
    proof {
        reveal_strlit("game_");
        reveal_strlit(".lua");
    }
    let chars = chars_of(name);
    let n = chars.len();
    if n < 5 || chars[0] != 'g' || chars[1] != 'a' || chars[2] != 'm' || chars[3] != 'e' || chars[4]
        != '_' {
        proof {
            if n >= 5 {
                assert(name@.take(5)[0] == name@[0]);
                assert(name@.take(5)[1] == name@[1]);
                assert(name@.take(5)[2] == name@[2]);
                assert(name@.take(5)[3] == name@[3]);
                assert(name@.take(5)[4] == name@[4]);
            }
        }
        return None;
    }
    if n < 4 || chars[n - 4] != '.' || chars[n - 3] != 'l' || chars[n - 2] != 'u' || chars[n - 1]
        != 'a' {
        proof {
            if n >= 4 {
                let t = name@.skip(n - 4);
                assert(t[0] == name@[n - 4]);
                assert(t[1] == name@[n - 3]);
                assert(t[2] == name@[n - 2]);
                assert(t[3] == name@[n - 1]);
            }
        }
        return None;
    }
    proof {
        assert(name@.take(5) =~= "game_"@);
        assert(name@.skip(n - 4) =~= ".lua"@);
    }
    let mut appid = String::new();
    let mut i: usize = 5;
    while i < n - 4
        invariant
            chars@ == name@,
            n == chars@.len(),
            9 <= n,
            5 <= i <= n - 4,
            appid@ == name@.subrange(5, i as int),
        decreases n - 4 - i,
    {
        appid.push(chars[i]);
        i = i + 1;
        proof {
            assert(appid@ =~= name@.subrange(5, i as int));
        }
    }
    Some(appid)
}

/// The path of the Lua file of game `appid` inside the Lua plugin directory
/// `lua_dir` (the one that `get_lua_dir` gives): `<lua_dir>/game_{appid}.lua`.
pub fn lua_file_path(lua_dir: &str, appid: &str) -> (path: String)
    ensures
        !is_verbatim(lua_dir@) ==> is_path_join(lua_dir@, spec_lua_file_name(appid@), path@),
{
    let name = lua_file_name(appid);
    proof {
        reveal_strlit("game_");
        reveal_strlit(".lua");
        assert(name@[0] == 'g' && name@[1] == 'a');
    }
    path_join(lua_dir, name.as_str())
}

/// A Lua file name of a game gives that game back.
pub proof fn lemma_lua_file_name_round_trip(appid: Seq<char>)
    ensures
        spec_appid_of(spec_lua_file_name(appid)) == Some(appid),
{
    reveal_strlit("game_");
    reveal_strlit(".lua");
    let name = spec_lua_file_name(appid);
    assert(name.take(5) =~= "game_"@);
    assert(name.skip(name.len() - 4) =~= ".lua"@);
    assert(name.subrange(5, name.len() - 4) =~= appid);
}

/// The AppIDs of the Lua files among the entries of the plugin directory, in
/// the order of the entries.
pub open spec fn spec_lua_games(entries: Seq<Seq<char>>) -> Seq<Seq<char>>
    decreases entries.len(),
{
    if entries.len() == 0 {
        seq![]
    } else {
        let rest = spec_lua_games(entries.drop_last());
        match spec_appid_of(entries.last()) {
            Some(a) => rest.push(a),
            None => rest,
        }
    }
}

/// List all game AppIDs that have Lua files among the entry names of the
/// stplug-in directory.
pub fn list_lua_games(entry_names: &Vec<String>) -> (appids: Vec<String>)
    ensures
        views(appids@) == spec_lua_games(views(entry_names@)),
{
    let mut appids: Vec<String> = Vec::new();
    let n = entry_names.len();
    let mut i: usize = 0;
    while i < n
        invariant
            n == entry_names@.len(),
            i <= n,
            views(appids@) == spec_lua_games(views(entry_names@).take(i as int)),
        decreases n - i,
    {
        let found = appid_from_lua_file_name(entry_names[i].as_str());
        proof {
            let prefix = views(entry_names@).take(i as int + 1);
            assert(prefix.drop_last() =~= views(entry_names@).take(i as int));
            assert(prefix.last() == entry_names@[i as int]@);
        }
        match found {
            Some(a) => {
                appids.push(a);
                proof {
                    assert(views(appids@) =~= spec_lua_games(views(entry_names@).take(i as int)).push(
                        a@,
                    ));
                }
            },
            None => {},
        }
        i = i + 1;
    }
    proof {
        assert(views(entry_names@).take(n as int) =~= views(entry_names@));
    }
    appids
}

/// Adding the Lua file of a game to the plugin directory adds that game, last,
/// to the games listed.
pub proof fn lemma_written_game_is_listed(entries: Seq<Seq<char>>, appid: Seq<char>)
    ensures
        spec_lua_games(entries.push(spec_lua_file_name(appid))) == spec_lua_games(entries).push(
            appid,
        ),
{
    lemma_lua_file_name_round_trip(appid);
    assert(entries.push(spec_lua_file_name(appid)).drop_last() =~= entries);
}

/// The games of two lists of entries are those of the first, then those of
/// the second.
pub proof fn lemma_lua_games_concat(first: Seq<Seq<char>>, second: Seq<Seq<char>>)
    ensures
        spec_lua_games(first + second) == spec_lua_games(first) + spec_lua_games(second),
    decreases second.len(),
{
    if second.len() == 0 {
        assert(first + second =~= first);
        assert(spec_lua_games(second) =~= seq![]);
        assert(spec_lua_games(first) + spec_lua_games(second) =~= spec_lua_games(first));
    } else {
        lemma_lua_games_concat(first, second.drop_last());
        assert((first + second).drop_last() =~= first + second.drop_last());
        assert((first + second).last() == second.last());
        match spec_appid_of(second.last()) {
            Some(a) => {
                assert(spec_lua_games(first) + spec_lua_games(second) =~= (spec_lua_games(first)
                    + spec_lua_games(second.drop_last())).push(a));
            },
            None => {},
        }
    }
}

/// Wherever the Lua file of a game stands among the entries of the plugin
/// directory, that game is listed at that place: writing the file adds one
/// game to the count, and removing it takes one away.
pub proof fn lemma_game_file_counts_once(before: Seq<Seq<char>>, after: Seq<Seq<char>>, appid: Seq<char>)
    ensures
        spec_lua_games(before + seq![spec_lua_file_name(appid)] + after) == spec_lua_games(before)
            + seq![appid] + spec_lua_games(after),
        spec_lua_games(before + seq![spec_lua_file_name(appid)] + after).len() == spec_lua_games(
            before + after,
        ).len() + 1,
{
    let name = spec_lua_file_name(appid);
    lemma_lua_file_name_round_trip(appid);
    lemma_lua_games_concat(before + seq![name], after);
    lemma_lua_games_concat(before, seq![name]);
    lemma_lua_games_concat(before, after);
    assert(seq![name].drop_last() =~= Seq::<Seq<char>>::empty());
    assert(spec_lua_games(Seq::<Seq<char>>::empty()) =~= seq![]);
    assert(seq![name].last() == name);
    assert(spec_lua_games(seq![name]) =~= seq![appid]);
}

/// Count the number of Lua game files among the entry names of the stplug-in
/// directory.
pub fn game_count(entry_names: &Vec<String>) -> (count: usize)
    ensures
        count == spec_lua_games(views(entry_names@)).len(),
{
    list_lua_games(entry_names).len()
}

} // verus!
