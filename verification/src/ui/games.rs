//! The games on the settings page and in the top bar.
use vstd::prelude::*;

use crate::config::{DetectedGame, GameProfile, RunningProcess};
use crate::settings::games::GameProfileRow;
use crate::steam::suggest_name;
use crate::text::{comes_before, decimal, ends_with, join, join2, join3, list_contains, same,
    to_lowercase, trim};

verus! {

/// The names of games.
pub open spec fn game_names(games: Seq<DetectedGame>) -> Seq<Seq<char>> {
    games.map_values(|g: DetectedGame| g.name@)
}

/// What is said of the games that run.
pub open spec fn running_text(games: Seq<DetectedGame>) -> Seq<char> {
    if games.len() == 0 {
        "Running now: no known game"@
    } else {
        "Running now: "@ + crate::text::joined(game_names(games), ", "@)
    }
}

/// What is said of the games that run.
pub fn describe_running(games: &Vec<DetectedGame>) -> (r: String)
    ensures
        r@ == running_text(games@),
{
    if games.len() == 0 {
        return "Running now: no known game".to_owned();
    }
    let mut names: Vec<String> = Vec::new();
    let mut i: usize = 0;
    while i < games.len()
        invariant
            i <= games.len(),
            names.len() == i,
            forall|k: int| 0 <= k < i ==> (#[trigger] names@[k])@ == games@[k].name@,
        decreases games.len() - i,
    {
        names.push(games[i].name.clone());
        i = i + 1;
    }
    assert(crate::text::views(names@) =~= game_names(games@));
    join2("Running now: ", join(&names, ", ").as_str())
}

/// What a look at the running games changes.
#[derive(Debug)]
pub struct GamePoll {
    /// The name that the top bar shows from now on, if it is another one.
    pub name: Option<String>,
    /// What the settings page says of the running games, if it is something
    /// else.
    pub running: Option<String>,
}

/// The name of the game that is active.
pub open spec fn active_name(active: Option<&DetectedGame>) -> Seq<char> {
    match active {
        Some(game) => game.name@,
        None => super::status::no_game(),
    }
}

/// What a look at the running games changes. `shown` is the name in the top
/// bar, `told` what the settings page says.
pub fn poll_games(
    games: &Vec<DetectedGame>,
    active: Option<&DetectedGame>,
    shown: &str,
    told: &str,
) -> (r: GamePoll)
    ensures
        match r.name {
            Some(name) => name@ == active_name(active) && name@ != shown@,
            None => active_name(active) == shown@,
        },
        match r.running {
            Some(text) => text@ == running_text(games@) && text@ != told@,
            None => running_text(games@) == told@,
        },
{
    let name = match active {
        Some(game) => game.name.clone(),
        None => "No game detected".to_owned(),
    };
    let text = describe_running(games);
    GamePoll {
        name: if same(name.as_str(), shown) {
            None
        } else {
            Some(name)
        },
        running: if same(text.as_str(), told) {
            None
        } else {
            Some(text)
        },
    }
}

/// The games whose executable is not in a list.
pub open spec fn unlisted(exes: Seq<Seq<char>>) -> spec_fn(DetectedGame) -> bool {
    |g: DetectedGame| !exes.contains(g.exe@)
}

/// How a running game is offered.
pub open spec fn offer(game: DetectedGame) -> Seq<char> {
    game.name@ + " ("@ + game.exe@ + ")"@
}

/// The executables of rows, in lower case.
pub open spec fn row_exes(rows: Seq<GameProfileRow>) -> Seq<Seq<char>> {
    rows.map_values(|r: GameProfileRow| crate::text::lowercase(r.exe@))
}

/// The running games that are offered: those without a row of their own.
/// `listed` holds the executables of the rows in lower case.
pub fn offers(games: &Vec<DetectedGame>, listed: &Vec<String>) -> (r: Vec<String>)
    ensures
        crate::text::views(r@) == games@.filter(
            unlisted(crate::text::views(listed@)),
        ).map_values(|g: DetectedGame| offer(g)),
{
    let ghost p = unlisted(crate::text::views(listed@));
    let ghost f = |g: DetectedGame| offer(g);
    let mut out: Vec<String> = Vec::new();
    let mut i: usize = 0;
    proof {
        crate::lists::filter_take_all(games@, p);
    }
    assert(crate::text::views(out@) =~= games@.take(0).filter(p).map_values(f));
    while i < games.len()
        invariant
            i <= games.len(),
            p == unlisted(crate::text::views(listed@)),
            f == (|g: DetectedGame| offer(g)),
            crate::text::views(out@) == games@.take(i as int).filter(p).map_values(f),
        decreases games.len() - i,
    {
        proof {
            crate::lists::filter_take_succ(games@, p, i as int);
        }
        if !list_contains(listed, games[i].exe.as_str()) {
            let ghost before = crate::text::views(out@);
            let ghost kept = games@.take(i as int).filter(p);
            let mut text = join3(games[i].name.as_str(), " (", games[i].exe.as_str());
            text.append(")");
            out.push(text);
            assert(crate::text::views(out@) =~= before.push(offer(games@[i as int])));
            assert(kept.push(games@[i as int]).map_values(f) =~= kept.map_values(f).push(
                f(games@[i as int]),
            ));
        }
        i = i + 1;
    }
    proof {
        crate::lists::filter_take_all(games@, p);
    }
    out
}

/// The running games that are offered: those without a row of their own.
pub fn running_known(games: &Vec<DetectedGame>, rows: &Vec<GameProfileRow>) -> (r: Vec<String>)
    ensures
        crate::text::views(r@) == games@.filter(unlisted(row_exes(rows@))).map_values(
            |g: DetectedGame| offer(g),
        ),
{
    let mut listed: Vec<String> = Vec::new();
    let mut i: usize = 0;
    while i < rows.len()
        invariant
            i <= rows.len(),
            listed.len() == i,
            forall|k: int| 0 <= k < i ==> (#[trigger] listed@[k])@ == row_exes(rows@)[k],
        decreases rows.len() - i,
    {
        listed.push(to_lowercase(rows[i].exe.as_str()));
        i = i + 1;
    }
    assert(crate::text::views(listed@) =~= row_exes(rows@));
    offers(games, &listed)
}

/// The executables of profiles.
pub open spec fn profile_exes(profiles: Seq<GameProfile>) -> Seq<Seq<char>> {
    profiles.map_values(|p: GameProfile| p.exe@)
}

fn exes_of(profiles: &Vec<GameProfile>) -> (r: Vec<String>)
    ensures
        crate::text::views(r@) == profile_exes(profiles@),
{
    let mut out: Vec<String> = Vec::new();
    let mut i: usize = 0;
    while i < profiles.len()
        invariant
            i <= profiles.len(),
            out.len() == i,
            forall|k: int| 0 <= k < i ==> (#[trigger] out@[k])@ == profile_exes(profiles@)[k],
        decreases profiles.len() - i,
    {
        out.push(profiles[i].exe.clone());
        i = i + 1;
    }
    assert(crate::text::views(out@) =~= profile_exes(profiles@));
    out
}

/// Whether a profile list became `b` by one more profile with this executable
/// and name, everything else as in `blank`.
pub open spec fn is_added(
    a: Seq<GameProfile>,
    blank: GameProfile,
    exe: Seq<char>,
    name: Seq<char>,
    b: Seq<GameProfile>,
) -> bool {
    &&& b.len() == a.len() + 1
    &&& b.drop_last() == a
    &&& b.last().exe@ == exe
    &&& b.last().name@ == name
    &&& b.last() == (GameProfile { exe: b.last().exe, name: b.last().name, ..blank })
}

/// Adds the running game that is chosen among the offers. `blank` is a
/// profile in which nothing is set. Returns what is said of it, nothing when
/// there is no such offer.
pub fn add_running_game(
    profiles: &mut Vec<GameProfile>,
    games: &Vec<DetectedGame>,
    index: i32,
    blank: GameProfile,
) -> (r: Option<String>)
    ensures
        ({
            let open = games@.filter(unlisted(profile_exes(old(profiles)@)));
            let at = if index < 0 {
                0
            } else {
                index as int
            };
            match r {
                Some(text) => {
                    &&& at < open.len()
                    &&& text@ == "Added "@ + open[at].name@ + "."@
                    &&& is_added(
                        old(profiles)@,
                        blank,
                        open[at].exe@,
                        open[at].name@,
                        final(profiles)@,
                    )
                },
                None => at >= open.len() && final(profiles)@ == old(profiles)@,
            }
        }),
{
    let listed = exes_of(profiles);
    let ghost p = unlisted(profile_exes(profiles@));
    let ghost open = games@.filter(p);
    let at: usize = if index < 0 {
        0
    } else {
        index as usize
    };
    let mut passed: usize = 0;
    let mut i: usize = 0;
    proof {
        crate::lists::filter_take_all(games@, p);
    }
    while i < games.len()
        invariant
            i <= games.len(),
            passed <= at,
            passed <= i,
            p == unlisted(crate::text::views(listed@)),
            p == unlisted(profile_exes(old(profiles)@)),
            open == games@.filter(p),
            profiles@ == old(profiles)@,
            passed == games@.take(i as int).filter(p).len(),
            at == if index < 0 {
                0
            } else {
                index as int
            },
        decreases games.len() - i,
    {
        proof {
            crate::lists::filter_take_succ(games@, p, i as int);
        }
        if !list_contains(&listed, games[i].exe.as_str()) {
            if passed == at {
                let game = &games[i];
                proof {
                    let front = games@.take(i + 1);
                    let back = games@.skip(i + 1);
                    assert(games@ =~= front + back);
                    Seq::filter_distributes_over_add(front, back, p);
                    assert(open[at as int] == front.filter(p)[at as int]);
                }
                let mut text = join2("Added ", game.name.as_str());
                text.append(".");
                profiles.push(
                    GameProfile { exe: game.exe.clone(), name: game.name.clone(), ..blank },
                );
                assert(profiles@.drop_last() =~= old(profiles)@);
                return Some(text);
            }
            passed = passed + 1;
        }
        i = i + 1;
    }
    proof {
        crate::lists::filter_take_all(games@, p);
    }
    None
}

/// The executable that a lowercased text names: with the ending that the
/// executables of games have.
pub open spec fn with_exe(lower: Seq<char>) -> Seq<char> {
    if crate::text::ends_in(lower, ".exe"@) {
        lower
    } else {
        lower + ".exe"@
    }
}

/// Adds the ending that the executables of games have.
pub fn complete_exe(lower: &str) -> (r: String)
    ensures
        r@ == with_exe(lower@),
{
    if ends_with(lower, ".exe") {
        lower.to_owned()
    } else {
        join2(lower, ".exe")
    }
}

/// The executable that the user typed, or what is said when there is none.
pub fn typed_exe(text: &str) -> (r: Result<String, String>)
    ensures
        ({
            let lower = crate::text::lowercase(crate::text::trimmed(text@));
            match r {
                Ok(exe) => lower.len() > 0 && exe@ == with_exe(lower),
                Err(message) => lower.len() == 0 && message@
                    == "Enter the executable name, for example game.exe."@,
            }
        }),
{
    let lower = to_lowercase(trim(text).as_str());
    if lower.as_str().unicode_len() == 0 {
        return Err("Enter the executable name, for example game.exe.".to_owned());
    }
    Ok(complete_exe(lower.as_str()))
}

/// Adds a game that the user typed. `known` is the name that the database
/// gives the executable, for a game whose name was left out. Returns what is
/// said of it.
pub fn add_game(
    profiles: &mut Vec<GameProfile>,
    exe: &str,
    name: &str,
    known: Option<String>,
    blank: GameProfile,
) -> (r: Result<String, String>)
    ensures
        match r {
            Ok(text) => {
                &&& !profile_exes(old(profiles)@).contains(exe@)
                &&& text@ == "Added "@ + exe@ + "."@
                &&& is_added(
                    old(profiles)@,
                    blank,
                    exe@,
                    if crate::text::trimmed(name@).len() > 0 {
                        crate::text::trimmed(name@)
                    } else if known is Some {
                        known->0@
                    } else {
                        Seq::empty()
                    },
                    final(profiles)@,
                )
            },
            Err(text) => {
                &&& profile_exes(old(profiles)@).contains(exe@)
                &&& text@ == exe@ + " is already in the list."@
                &&& final(profiles)@ == old(profiles)@
            },
        },
{
    let listed = exes_of(profiles);
    if list_contains(&listed, exe) {
        return Err(join2(exe, " is already in the list."));
    }
    let own = trim(name);
    let name = if own.as_str().unicode_len() > 0 {
        own
    } else {
        match known {
            Some(name) => name,
            None => String::new(),
        }
    };
    let mut text = join2("Added ", exe);
    text.append(".");
    profiles.push(GameProfile { exe: exe.to_owned(), name, ..blank });
    assert(profiles@.drop_last() =~= old(profiles)@);
    Ok(text)
}

/// The profiles of other executables.
pub open spec fn is_other(exe: Seq<char>) -> spec_fn(GameProfile) -> bool {
    |p: GameProfile| p.exe@ != exe
}

/// Removes the profiles of an executable. Returns what is said of it.
pub fn remove_game(profiles: &mut Vec<GameProfile>, exe: &str) -> (r: &'static str)
    ensures
        final(profiles)@ == old(profiles)@.filter(is_other(exe@)),
        r@ == "Removed."@,
{
    let ghost all = profiles@;
    let ghost p = is_other(exe@);
    let mut i: usize = 0;
    let ghost mut done: int = 0;
    proof {
        crate::lists::filter_take_all(all, p);
        assert(profiles@ =~= all.take(0).filter(p) + all.skip(0));
    }
    while i < profiles.len()
        invariant
            all == old(profiles)@,
            p == is_other(exe@),
            i <= profiles.len(),
            0 <= done <= all.len(),
            i == all.take(done).filter(p).len(),
            profiles@ == all.take(done).filter(p) + all.skip(done),
        decreases all.len() - done,
    {
        let ghost kept = all.take(done).filter(p);
        let ghost before = profiles@;
        assert(before[i as int] == all[done]);
        proof {
            crate::lists::filter_take_succ(all, p, done);
        }
        if same(profiles[i].exe.as_str(), exe) {
            let _ = profiles.remove(i);
            assert(profiles@ =~= kept + all.skip(done + 1));
        } else {
            assert(profiles@ =~= kept.push(all[done]) + all.skip(done + 1));
            i = i + 1;
        }
        proof {
            done = done + 1;
        }
    }
    proof {
        assert(done == all.len());
        crate::lists::filter_take_all(all, p);
        assert(profiles@ =~= all.filter(p));
    }
    "Removed."
}

/// The profiles without a name.
pub open spec fn is_nameless() -> spec_fn(GameProfile) -> bool {
    |p: GameProfile| crate::text::trimmed(p.name@).len() == 0
}

/// The executables of the profiles without a name, or what is said when every
/// game has one.
pub fn missing_names(profiles: &Vec<GameProfile>) -> (r: Result<Vec<String>, String>)
    ensures
        match r {
            Ok(missing) => {
                &&& missing.len() > 0
                &&& crate::text::views(missing@) == profile_exes(profiles@.filter(is_nameless()))
            },
            Err(text) => {
                &&& profiles@.filter(is_nameless()).len() == 0
                &&& text@ == "Every game in the list already has a name."@
            },
        },
{
    let ghost p = is_nameless();
    let mut out: Vec<String> = Vec::new();
    let mut i: usize = 0;
    proof {
        crate::lists::filter_take_all(profiles@, p);
    }
    assert(crate::text::views(out@) =~= profile_exes(profiles@.take(0).filter(p)));
    while i < profiles.len()
        invariant
            i <= profiles.len(),
            p == is_nameless(),
            crate::text::views(out@) == profile_exes(profiles@.take(i as int).filter(p)),
        decreases profiles.len() - i,
    {
        proof {
            crate::lists::filter_take_succ(profiles@, p, i as int);
        }
        if trim(profiles[i].name.as_str()).as_str().unicode_len() == 0 {
            let ghost before = crate::text::views(out@);
            let ghost kept = profiles@.take(i as int).filter(p);
            out.push(profiles[i].exe.clone());
            assert(crate::text::views(out@) =~= before.push(profiles@[i as int].exe@));
            assert(profile_exes(kept.push(profiles@[i as int])) =~= profile_exes(kept).push(
                profiles@[i as int].exe@,
            ));
        }
        i = i + 1;
    }
    proof {
        crate::lists::filter_take_all(profiles@, p);
        assert(profile_exes(profiles@.filter(p)).len() == profiles@.filter(p).len());
        assert(crate::text::views(out@).len() == out@.len());
    }
    if out.len() == 0 {
        Err("Every game in the list already has a name.".to_owned())
    } else {
        Ok(out)
    }
}

/// Whether a name is what the catalog suggests for an executable, if it
/// suggests any.
pub open spec fn is_suggestion(
    exe: Seq<char>,
    names: Seq<Seq<char>>,
    suggestion: Option<Seq<char>>,
) -> bool {
    exists|choice: Option<int>| #[trigger]
        crate::steam::is_choice(
            crate::steam::stem_of(exe),
            crate::steam::normals_of(names),
            names,
            choice,
        ) && suggestion == match choice {
            Some(i) => Some(names[i]),
            None => None,
        }
}

/// Whether `found` holds, in order, the executables for which the catalog
/// suggests a name, each with it.
pub open spec fn are_suggestions(
    missing: Seq<Seq<char>>,
    names: Seq<Seq<char>>,
    found: Seq<(Seq<char>, Seq<char>)>,
) -> bool
    decreases missing.len(),
{
    if missing.len() == 0 {
        found.len() == 0
    } else {
        let exe = missing.last();
        ||| is_suggestion(exe, names, None) && are_suggestions(missing.drop_last(), names, found)
        ||| found.len() > 0 && found.last().0 == exe && is_suggestion(
            exe,
            names,
            Some(found.last().1),
        ) && are_suggestions(missing.drop_last(), names, found.drop_last())
    }
}

/// What a list of pairs says.
pub open spec fn pair_views(pairs: Seq<(String, String)>) -> Seq<(Seq<char>, Seq<char>)> {
    pairs.map_values(|p: (String, String)| (p.0@, p.1@))
}

/// The names that the catalog suggests for executables.
pub fn suggestions(missing: &Vec<String>, names: &Vec<String>) -> (r: Vec<(String, String)>)
    ensures
        are_suggestions(
            crate::text::views(missing@),
            crate::text::views(names@),
            pair_views(r@),
        ),
{
    let ghost all = crate::text::views(missing@);
    let ghost catalog = crate::text::views(names@);
    let mut out: Vec<(String, String)> = Vec::new();
    let mut i: usize = 0;
    assert(are_suggestions(all.take(0), catalog, pair_views(out@)));
    while i < missing.len()
        invariant
            i <= missing.len(),
            all == crate::text::views(missing@),
            catalog == crate::text::views(names@),
            are_suggestions(all.take(i as int), catalog, pair_views(out@)),
        decreases missing.len() - i,
    {
        assert(all.take(i + 1).drop_last() =~= all.take(i as int));
        assert(all.take(i + 1).last() == missing@[i as int]@);
        let ghost before = pair_views(out@);
        match suggest_name(missing[i].as_str(), names.as_slice()) {
            Some(name) => {
                proof {
                    let choice = choose|choice: Option<int>| #[trigger]
                        crate::steam::is_choice(
                            crate::steam::stem_of(missing@[i as int]@),
                            crate::steam::normals_of(catalog),
                            catalog,
                            choice,
                        ) && choice is Some && 0 <= choice->0 < names@.len() && *name
                            == names@[choice->0];
                    assert(catalog[choice->0] == name@);
                    assert(is_suggestion(missing@[i as int]@, catalog, Some(name@)));
                }
                out.push((missing[i].clone(), name.clone()));
                assert(pair_views(out@).drop_last() =~= before);
                assert(pair_views(out@).last() == (missing@[i as int]@, name@));
            },
            None => {
                assert(is_suggestion(missing@[i as int]@, catalog, None));
            },
        }
        i = i + 1;
    }
    assert(all.take(i as int) =~= all);
    out
}

/// The pairs of an executable.
pub open spec fn pair_of(exe: Seq<char>) -> spec_fn((String, String)) -> bool {
    |p: (String, String)| p.0@ == exe
}

/// The name that a row gets.
pub open spec fn name_found(row: GameProfileRow, found: Seq<(String, String)>) -> Seq<char> {
    match crate::lists::first_where(found, pair_of(crate::text::lowercase(row.exe@))) {
        Some(i) => found[i].1@,
        None => row.name@,
    }
}

fn find_pair(found: &Vec<(String, String)>, exe: &str) -> (r: Option<usize>)
    ensures
        match r {
            Some(i) => i < found.len() && crate::lists::first_where(found@, pair_of(exe@)) == Some(
                i as int,
            ),
            None => crate::lists::first_where(found@, pair_of(exe@)) is None,
        },
{
    let mut i: usize = 0;
    while i < found.len()
        invariant
            i <= found.len(),
            forall|k: int| 0 <= k < i ==> !pair_of(exe@)(#[trigger] found@[k]),
        decreases found.len() - i,
    {
        if same(found[i].0.as_str(), exe) {
            proof {
                crate::lists::first_where_is_first(found@, pair_of(exe@));
                assert(pair_of(exe@)(found@[i as int]));
            }
            return Some(i);
        }
        i = i + 1;
    }
    proof {
        crate::lists::first_where_is_first(found@, pair_of(exe@));
    }
    None
}

/// Fills the names that were found into the rows. Returns what is said of it.
pub fn apply_steam_result(
    rows: &mut Vec<GameProfileRow>,
    result: Result<Vec<(String, String)>, String>,
) -> (r: String)
    ensures
        match result {
            Ok(found) => {
                &&& r@ == if found.len() == 0 {
                    "Steam had no matching names."@
                } else {
                    "Filled "@ + crate::text::dec(found.len() as nat) + " name(s) from Steam."@
                }
                &&& final(rows).len() == old(rows).len()
                &&& forall|i: int|
                    0 <= i < old(rows).len() ==> (#[trigger] final(rows)@[i]).name@ == name_found(
                        old(rows)@[i],
                        found@,
                    ) && final(rows)@[i] == (GameProfileRow {
                        name: final(rows)@[i].name,
                        ..old(rows)@[i]
                    })
            },
            Err(reason) => r == reason && final(rows)@ == old(rows)@,
        },
{
    let found = match result {
        Ok(found) => found,
        Err(reason) => return reason,
    };
    let ghost before = rows@;
    let mut i: usize = 0;
    while i < rows.len()
        invariant
            i <= rows.len() == before.len(),
            forall|k: int| i <= k < before.len() ==> #[trigger] rows@[k] == before[k],
            forall|k: int|
                0 <= k < i ==> (#[trigger] rows@[k]).name@ == name_found(before[k], found@)
                    && rows@[k] == (GameProfileRow { name: rows@[k].name, ..before[k] }),
        decreases rows.len() - i,
    {
        let exe = to_lowercase(rows[i].exe.as_str());
        if let Some(at) = find_pair(&found, exe.as_str()) {
            rows[i].name = found[at].1.clone();
        }
        i = i + 1;
    }
    if found.len() == 0 {
        "Steam had no matching names.".to_owned()
    } else {
        join3("Filled ", decimal(found.len() as u64).as_str(), " name(s) from Steam.")
    }
}

/// Whether an executable is part of the system and not offered.
pub open spec fn is_system(exe: Seq<char>) -> bool {
    ||| exe == "svchost.exe"@
    ||| exe == "csrss.exe"@
    ||| exe == "conhost.exe"@
    ||| exe == "dwm.exe"@
    ||| exe == "winlogon.exe"@
    ||| exe == "services.exe"@
    ||| exe == "lsass.exe"@
    ||| exe == "smss.exe"@
    ||| exe == "wininit.exe"@
    ||| exe == "fontdrvhost.exe"@
    ||| exe == "sihost.exe"@
    ||| exe == "taskhostw.exe"@
    ||| exe == "runtimebroker.exe"@
    ||| exe == "openclips.exe"@
}

fn is_skipped(exe: &str) -> (r: bool)
    ensures
        r == is_system(exe@),
{
    same(exe, "svchost.exe") || same(exe, "csrss.exe") || same(exe, "conhost.exe") || same(
        exe,
        "dwm.exe",
    ) || same(exe, "winlogon.exe") || same(exe, "services.exe") || same(exe, "lsass.exe") || same(
        exe,
        "smss.exe",
    ) || same(exe, "wininit.exe") || same(exe, "fontdrvhost.exe") || same(exe, "sihost.exe")
        || same(exe, "taskhostw.exe") || same(exe, "runtimebroker.exe") || same(
        exe,
        "openclips.exe",
    )
}

/// Whether a process is offered as an audio source.
pub open spec fn is_candidate(p: RunningProcess) -> bool {
    p.exe@.len() > 0 && !is_system(p.exe@)
}

/// Whether texts stand in strict order.
pub open spec fn is_ascending(names: Seq<Seq<char>>) -> bool {
    forall|i: int, j: int|
        0 <= i < j < names.len() ==> crate::text::lex_less(#[trigger] names[i], #[trigger] names[j])
}

/// Whether a list holds the executables of the candidates among processes,
/// each once, in order.
pub open spec fn are_candidates(running: Seq<RunningProcess>, names: Seq<Seq<char>>) -> bool {
    &&& is_ascending(names)
    &&& forall|n: Seq<char>| #[trigger]
        names.contains(n) <==> exists|i: int|
            0 <= i < running.len() && is_candidate(#[trigger] running[i]) && running[i].exe@ == n
}

/// The running executables that are offered as application audio sources, in
/// order and each once. System processes are left out to keep the list short.
pub fn app_candidates(running: &Vec<RunningProcess>) -> (r: Vec<String>)
    ensures
        are_candidates(running@, crate::text::views(r@)),
{
    let mut out: Vec<String> = Vec::new();
    let mut i: usize = 0;
    assert(are_candidates(running@.take(0), crate::text::views(out@)));
    while i < running.len()
        invariant
            i <= running.len(),
            are_candidates(running@.take(i as int), crate::text::views(out@)),
        decreases running.len() - i,
    {
        let exe = running[i].exe.as_str();
        let ghost front = running@.take(i as int);
        let ghost next = running@.take(i + 1);
        let ghost before = crate::text::views(out@);
        assert(next =~= front.push(running@[i as int]));
        if exe.unicode_len() > 0 && !is_skipped(exe) {
            insert_in_order(&mut out, exe);
        }
        let ghost after = crate::text::views(out@);
        proof {
            assert forall|n: Seq<char>| #[trigger] after.contains(n) <==> exists|k: int|
                0 <= k < next.len() && is_candidate(#[trigger] next[k]) && next[k].exe@ == n by {
                if after.contains(n) {
                    if before.contains(n) {
                        let k = choose|k: int|
                            0 <= k < front.len() && is_candidate(#[trigger] front[k])
                                && front[k].exe@ == n;
                        assert(next[k] == front[k]);
                    } else {
                        assert(is_candidate(next[i as int]) && next[i as int].exe@ == n);
                    }
                }
                if exists|k: int|
                    0 <= k < next.len() && is_candidate(#[trigger] next[k]) && next[k].exe@ == n {
                    let k = choose|k: int|
                        0 <= k < next.len() && is_candidate(#[trigger] next[k]) && next[k].exe@
                            == n;
                    if k < i {
                        assert(front[k] == next[k]);
                        assert(before.contains(n));
                    }
                }
            }
        }
        i = i + 1;
    }
    assert(running@.take(i as int) =~= running@);
    out
}

/// Puts a text where it belongs, unless it is there.
fn insert_in_order(list: &mut Vec<String>, text: &str)
    requires
        is_ascending(crate::text::views(old(list)@)),
    ensures
        is_ascending(crate::text::views(final(list)@)),
        forall|n: Seq<char>| #[trigger]
            crate::text::views(final(list)@).contains(n) <==> crate::text::views(
                old(list)@,
            ).contains(n) || n == text@,
{
    let ghost before = crate::text::views(list@);
    let mut k: usize = 0;
    while k < list.len() && comes_before(list[k].as_str(), text)
        invariant
            k <= list.len(),
            before == crate::text::views(list@),
            forall|i: int| 0 <= i < k ==> crate::text::lex_less(#[trigger] before[i], text@),
        decreases list.len() - k,
    {
        k = k + 1;
    }
    if k < list.len() && same(list[k].as_str(), text) {
        assert(before[k as int] == text@);
        return ;
    }
    proof {
        assert forall|i: int| k <= i < before.len() implies crate::text::lex_less(
            text@,
            #[trigger] before[i],
        ) by {
            crate::text::lex_is_total(before[k as int], text@);
            if i > k {
                assert(crate::text::lex_less(before[k as int], before[i]));
                crate::text::lex_is_transitive(text@, before[k as int], before[i]);
            }
        }
        assert(!before.contains(text@)) by {
            if before.contains(text@) {
                let i = choose|i: int| 0 <= i < before.len() && before[i] == text@;
                crate::text::lex_is_strict(text@);
            }
        }
    }
    list.insert(k, text.to_owned());
    let ghost after = crate::text::views(list@);
    proof {
        assert(after =~= before.insert(k as int, text@));
        assert forall|i: int, j: int| 0 <= i < j < after.len() implies crate::text::lex_less(
            #[trigger] after[i],
            #[trigger] after[j],
        ) by {
            if i < k && j > k {
                assert(after[i] == before[i] && after[j] == before[j - 1]);
            } else if j < k {
                assert(after[i] == before[i] && after[j] == before[j]);
            } else if i > k {
                assert(after[i] == before[i - 1] && after[j] == before[j - 1]);
            } else if i == k {
                assert(after[j] == before[j - 1]);
            } else {
                assert(after[i] == before[i]);
            }
        }
        assert forall|n: Seq<char>| #[trigger] after.contains(n) <==> before.contains(n) || n
            == text@ by {
            if before.contains(n) {
                let i = choose|i: int| 0 <= i < before.len() && before[i] == n;
                assert(after[if i < k {
                    i
                } else {
                    i + 1
                }] == n);
            }
            if n == text@ {
                assert(after[k as int] == n);
            }
            if after.contains(n) {
                let i = choose|i: int| 0 <= i < after.len() && after[i] == n;
                if i < k {
                    assert(before[i] == n);
                } else if i > k {
                    assert(before[i - 1] == n);
                }
            }
        }
    }
}

/// A game that was removed can be added again.
pub proof fn a_removed_game_can_be_added_again(profiles: Seq<GameProfile>, exe: Seq<char>)
    ensures
        !profile_exes(profiles.filter(is_other(exe))).contains(exe),
{
    let rest = profiles.filter(is_other(exe));
    if profile_exes(rest).contains(exe) {
        let i = choose|i: int| 0 <= i < rest.len() && profile_exes(rest)[i] == exe;
        assert(rest.contains(rest[i]));
        broadcast use vstd::seq_lib::group_filter_ensures;

        assert(is_other(exe)(rest[i]));
    }
}

/// No executable gets two profiles by adding games.
pub proof fn adding_keeps_executables_apart(
    a: Seq<GameProfile>,
    blank: GameProfile,
    exe: Seq<char>,
    name: Seq<char>,
    b: Seq<GameProfile>,
)
    requires
        profile_exes(a).no_duplicates(),
        !profile_exes(a).contains(exe),
        is_added(a, blank, exe, name, b),
    ensures
        profile_exes(b).no_duplicates(),
{
    assert forall|i: int, j: int| 0 <= i < j < b.len() implies profile_exes(b)[i] != profile_exes(
        b,
    )[j] by {
        assert(b.drop_last()[i] == a[i]);
        assert(profile_exes(a)[i] == profile_exes(b)[i]);
        if j < a.len() {
            assert(b.drop_last()[j] == a[j]);
            assert(profile_exes(a)[j] == profile_exes(b)[j]);
        } else {
            assert(profile_exes(a).contains(profile_exes(a)[i]));
        }
    }
}

/// An application is offered unless it belongs to the system or is this program.
pub proof fn applications_are_offered(p: RunningProcess)
    ensures
        is_candidate(p) <==> p.exe@.len() > 0 && !(p.exe@ == "svchost.exe"@ || p.exe@
            == "csrss.exe"@ || p.exe@ == "conhost.exe"@ || p.exe@ == "dwm.exe"@ || p.exe@
            == "winlogon.exe"@ || p.exe@ == "services.exe"@ || p.exe@ == "lsass.exe"@ || p.exe@
            == "smss.exe"@ || p.exe@ == "wininit.exe"@ || p.exe@ == "fontdrvhost.exe"@ || p.exe@
            == "sihost.exe"@ || p.exe@ == "taskhostw.exe"@ || p.exe@ == "runtimebroker.exe"@
            || p.exe@ == "openclips.exe"@),
{
}

/// The running games are named in their order, parted by commas.
pub proof fn running_games_are_named(games: Seq<DetectedGame>)
    ensures
        games.len() == 0 ==> running_text(games) == "Running now: no known game"@,
        games.len() == 1 ==> running_text(games) == "Running now: "@ + games[0].name@,
        games.len() == 2 ==> running_text(games) == "Running now: "@ + (games[0].name@ + ", "@
            + games[1].name@),
{
    reveal_with_fuel(crate::text::joined, 3);
    let names = game_names(games);
    if games.len() == 1 {
        assert(crate::text::joined(names, ", "@) =~= games[0].name@);
    } else if games.len() == 2 {
        assert(names.drop_last() =~= seq![games[0].name@]);
    }
}

} // verus!
