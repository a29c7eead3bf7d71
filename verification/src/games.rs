//! Game detection: which running games are known, and their icons.
use vstd::prelude::*;

use crate::config::{DetectedGame, GameProfile};
use crate::text::{join2, replace, same, to_ascii_lower};

verus! {

/// What tells a detected game from another: its executable and whether it is
/// in the foreground.
pub open spec fn sign(game: DetectedGame) -> (Seq<char>, bool) {
    (game.exe@, game.foreground)
}

/// The signs of detected games.
pub open spec fn signs(games: Seq<DetectedGame>) -> Seq<(Seq<char>, bool)> {
    games.map_values(|g: DetectedGame| sign(g))
}

/// The icon of an executable, missing when it has none.
#[derive(Debug)]
pub struct IconEntry {
    pub exe: String,
    pub icon: Option<String>,
}

/// What is known of an icon.
#[derive(Debug)]
pub enum Icon {
    /// The file of the icon, missing when the executable has none.
    Known(Option<String>),
    /// Nobody has looked yet.
    Unknown,
}

/// The entries of an executable.
pub open spec fn entry_of(exe: Seq<char>) -> spec_fn(IconEntry) -> bool {
    |e: IconEntry| e.exe@ == exe
}

/// The file name of the icon of an executable. `safe` is its name as a file
/// may be named.
pub fn icon_file_name(safe: &str) -> (r: String)
    ensures
        r@ == crate::text::replaced(safe@, ".exe"@, ""@) + ".png"@,
{
    proof {
        reveal_strlit(".exe");
    }
    let stem = replace(safe, ".exe", "");
    join2(stem.as_str(), ".png")
}

/// Whether two names differ in the case of ASCII letters alone.
pub open spec fn same_name(a: Seq<char>, b: Seq<char>) -> bool {
    crate::text::ascii_lower(a) == crate::text::ascii_lower(b)
}

fn named(a: &str, b: &str) -> (r: bool)
    ensures
        r == same_name(a@, b@),
{
    same(to_ascii_lower(a).as_str(), to_ascii_lower(b).as_str())
}

/// The profiles with this name.
pub open spec fn profile_named(name: Seq<char>) -> spec_fn(GameProfile) -> bool {
    |p: GameProfile| same_name(p.name@, name)
}

/// The games with this name.
pub open spec fn game_named(name: Seq<char>) -> spec_fn(DetectedGame) -> bool {
    |g: DetectedGame| same_name(g.name@, name)
}

/// The names of the database that are this one.
pub open spec fn entry_named(name: Seq<char>) -> spec_fn(Option<String>) -> bool {
    |n: Option<String>| n is Some && same_name(n->0@, name)
}

/// The detected games and their icons.
#[derive(Debug)]
pub struct GameService {
    pub detected: Vec<DetectedGame>,
    pub icons: Vec<IconEntry>,
}

impl GameService {
    /// Nothing is detected.
    pub fn new() -> (r: Self)
        ensures
            r.detected.len() == 0,
            r.icons.len() == 0,
    {
        GameService { detected: Vec::new(), icons: Vec::new() }
    }

    /// Takes over the games that were found among the processes. `paths`
    /// holds, for each of them, the file of its process, for those that come
    /// without. Returns whether the detected set changed.
    pub fn refresh(&mut self, detected: Vec<DetectedGame>, paths: &Vec<Option<String>>) -> (r: bool)
        requires
            detected.len() == paths.len(),
        ensures
            r == (signs(detected@) != signs(old(self).detected@)),
            final(self).icons == old(self).icons,
            final(self).detected.len() == detected.len(),
            forall|i: int|
                0 <= i < detected.len() ==> #[trigger] final(self).detected@[i] == if detected@[i].path is Some {
                    detected@[i]
                } else {
                    DetectedGame { path: paths@[i], ..detected@[i] }
                },
    {
        let changed = !same_signs(&detected, &self.detected);
        let ghost found = detected@;
        let mut filled = detected;
        let mut i: usize = 0;
        while i < filled.len()
            invariant
                i <= filled.len(),
                filled.len() == found.len() == paths.len(),
                forall|k: int| i <= k < found.len() ==> #[trigger] filled@[k] == found[k],
                forall|k: int|
                    0 <= k < i ==> #[trigger] filled@[k] == if found[k].path is Some {
                        found[k]
                    } else {
                        DetectedGame { path: paths@[k], ..found[k] }
                    },
            decreases filled.len() - i,
        {
            if filled[i].path.is_none() {
                filled[i].path = match &paths[i] {
                    Some(path) => Some(path.clone()),
                    None => None,
                };
            }
            i = i + 1;
        }
        self.detected = filled;
        changed
    }

    /// The games that run.
    pub fn detected(&self) -> (r: &Vec<DetectedGame>)
        ensures
            *r == self.detected,
    {
        &self.detected
    }

    /// What is known of the icon of an executable.
    pub open spec fn icon_of(self, exe: Seq<char>) -> Option<Option<String>> {
        match crate::lists::first_where(self.icons@, entry_of(exe)) {
            Some(i) => Some(self.icons@[i].icon),
            None => None,
        }
    }

    fn find_icon(&self, exe: &str) -> (r: Option<usize>)
        ensures
            match r {
                Some(i) => crate::lists::first_where(self.icons@, entry_of(exe@)) == Some(i as int)
                    && i < self.icons.len(),
                None => crate::lists::first_where(self.icons@, entry_of(exe@)) is None,
            },
    {
        let mut i: usize = 0;
        while i < self.icons.len()
            invariant
                i <= self.icons.len(),
                forall|k: int| 0 <= k < i ==> !entry_of(exe@)(#[trigger] self.icons@[k]),
            decreases self.icons.len() - i,
        {
            if same(self.icons[i].exe.as_str(), exe) {
                proof {
                    crate::lists::first_where_is_first(self.icons@, entry_of(exe@));
                    assert(entry_of(exe@)(self.icons@[i as int]));
                }
                return Some(i);
            }
            i = i + 1;
        }
        proof {
            crate::lists::first_where_is_first(self.icons@, entry_of(exe@));
        }
        None
    }

    /// The icon of an executable, if somebody has looked.
    pub fn icon_for_exe(&self, exe: &str) -> (r: Icon)
        ensures
            match self.icon_of(exe@) {
                Some(icon) => r == Icon::Known(icon),
                None => r is Unknown,
            },
    {
        match self.find_icon(exe) {
            Some(i) => Icon::Known(
                match &self.icons[i].icon {
                    Some(path) => Some(path.clone()),
                    None => None,
                },
            ),
            None => Icon::Unknown,
        }
    }

    /// Remembers the icon of an executable, or that it has none.
    pub fn icon_made(&mut self, exe: &str, icon: Option<String>)
        requires
            old(self).icon_of(exe@) is None,
        ensures
            final(self).detected == old(self).detected,
            final(self).icons.len() == old(self).icons.len() + 1,
            final(self).icons@.drop_last() == old(self).icons@,
            final(self).icons@.last().exe@ == exe@,
            final(self).icons@.last().icon == icon,
    {
        self.icons.push(IconEntry { exe: exe.to_owned(), icon });
        assert(self.icons@.drop_last() =~= old(self).icons@);
    }

    /// The icon of an executable, without making one: the one that is known,
    /// else the file at `path` when it exists.
    pub fn cached_icon(&self, exe: &str, path: String, exists: bool) -> (r: Option<String>)
        ensures
            r == match self.icon_of(exe@) {
                Some(icon) => icon,
                None => if exists {
                    Some(path)
                } else {
                    None
                },
            },
    {
        match self.find_icon(exe) {
            Some(i) => match &self.icons[i].icon {
                Some(known) => Some(known.clone()),
                None => None,
            },
            None => if exists {
                Some(path)
            } else {
                None
            },
        }
    }

    /// The executable of a game name: that of a profile, else of a detected
    /// game, else of an icon. `known` holds, for each icon, the name that the
    /// database gives its executable.
    pub open spec fn exe_named(
        self,
        name: Seq<char>,
        profiles: Seq<GameProfile>,
        known: Seq<Option<String>>,
    ) -> Option<Seq<char>> {
        match crate::lists::first_where(profiles, profile_named(name)) {
            Some(i) => Some(profiles[i].exe@),
            None => match crate::lists::first_where(self.detected@, game_named(name)) {
                Some(i) => Some(self.detected@[i].exe@),
                None => match crate::lists::first_where(known, entry_named(name)) {
                    Some(i) => Some(self.icons@[i].exe@),
                    None => None,
                },
            },
        }
    }

    /// The executable of a game name. The gallery only stores names, and
    /// finds icons through it.
    pub fn exe_for_name(
        &self,
        name: &str,
        profiles: &Vec<GameProfile>,
        known: &Vec<Option<String>>,
    ) -> (r: Option<String>)
        requires
            known.len() == self.icons.len(),
        ensures
            match r {
                Some(exe) => self.exe_named(name@, profiles@, known@) == Some(exe@),
                None => self.exe_named(name@, profiles@, known@) is None,
            },
    {
        let mut i: usize = 0;
        while i < profiles.len()
            invariant
                i <= profiles.len(),
                forall|k: int| 0 <= k < i ==> !profile_named(name@)(#[trigger] profiles@[k]),
            decreases profiles.len() - i,
        {
            if named(profiles[i].name.as_str(), name) {
                proof {
                    crate::lists::first_where_is_first(profiles@, profile_named(name@));
                    assert(profile_named(name@)(profiles@[i as int]));
                }
                return Some(profiles[i].exe.clone());
            }
            i = i + 1;
        }
        proof {
            crate::lists::first_where_is_first(profiles@, profile_named(name@));
        }
        let mut j: usize = 0;
        while j < self.detected.len()
            invariant
                j <= self.detected.len(),
                crate::lists::first_where(profiles@, profile_named(name@)) is None,
                forall|k: int| 0 <= k < j ==> !game_named(name@)(#[trigger] self.detected@[k]),
            decreases self.detected.len() - j,
        {
            if named(self.detected[j].name.as_str(), name) {
                proof {
                    crate::lists::first_where_is_first(self.detected@, game_named(name@));
                    assert(game_named(name@)(self.detected@[j as int]));
                }
                return Some(self.detected[j].exe.clone());
            }
            j = j + 1;
        }
        proof {
            crate::lists::first_where_is_first(self.detected@, game_named(name@));
        }
        let mut n: usize = 0;
        while n < known.len()
            invariant
                n <= known.len() == self.icons.len(),
                crate::lists::first_where(profiles@, profile_named(name@)) is None,
                crate::lists::first_where(self.detected@, game_named(name@)) is None,
                forall|k: int| 0 <= k < n ==> !entry_named(name@)(#[trigger] known@[k]),
            decreases known.len() - n,
        {
            let fits = match &known[n] {
                Some(own) => named(own.as_str(), name),
                None => false,
            };
            if fits {
                proof {
                    crate::lists::first_where_is_first(known@, entry_named(name@));
                    assert(entry_named(name@)(known@[n as int]));
                }
                return Some(self.icons[n].exe.clone());
            }
            n = n + 1;
        }
        proof {
            crate::lists::first_where_is_first(known@, entry_named(name@));
        }
        None
    }
}

fn same_signs(a: &Vec<DetectedGame>, b: &Vec<DetectedGame>) -> (r: bool)
    ensures
        r == (signs(a@) == signs(b@)),
{
    if a.len() != b.len() {
        assert(signs(a@).len() != signs(b@).len());
        return false;
    }
    let mut i: usize = 0;
    while i < a.len()
        invariant
            i <= a.len() == b.len(),
            forall|k: int| 0 <= k < i ==> #[trigger] signs(a@)[k] == signs(b@)[k],
        decreases a.len() - i,
    {
        if !same(a[i].exe.as_str(), b[i].exe.as_str()) || a[i].foreground != b[i].foreground {
            assert(signs(a@)[i as int] != signs(b@)[i as int]);
            return false;
        }
        i = i + 1;
    }
    assert(signs(a@) =~= signs(b@));
    true
}

/// An icon is looked for once: what was remembered of an executable stays,
/// even that it has none.
pub proof fn an_icon_is_made_once(
    before: GameService,
    after: GameService,
    made: Seq<char>,
    icon: Option<String>,
    exe: Seq<char>,
)
    requires
        before.icon_of(made) is None,
        after.icons.len() == before.icons.len() + 1,
        after.icons@.drop_last() == before.icons@,
        after.icons@.last().exe@ == made,
        after.icons@.last().icon == icon,
    ensures
        after.icon_of(made) == Some(icon),
        exe != made ==> after.icon_of(exe) == before.icon_of(exe),
{
    crate::lists::first_where_is_first(before.icons@, entry_of(made));
    crate::lists::first_where_is_first(before.icons@, entry_of(exe));
    assert forall|i: int| 0 <= i < before.icons.len() implies #[trigger] after.icons@[i]
        == before.icons@[i] by {
        assert(after.icons@.drop_last()[i] == before.icons@[i]);
    }
}

/// A game name leads to an executable: that of the first profile with the name,
/// else of a running game, else of one whose icon is known. Neither the case of
/// the letters nor what comes later counts.
pub proof fn a_name_leads_to_an_executable(
    service: GameService,
    name: Seq<char>,
    profiles: Seq<GameProfile>,
    known: Seq<Option<String>>,
    i: int,
)
    ensures
        0 <= i < profiles.len() && same_name(profiles[i].name@, name) && (forall|k: int|
            0 <= k < i ==> !same_name((#[trigger] profiles[k]).name@, name)) ==> service.exe_named(
            name,
            profiles,
            known,
        ) == Some(profiles[i].exe@),
        (forall|k: int| 0 <= k < profiles.len() ==> !same_name((#[trigger] profiles[k]).name@, name))
            && 0 <= i < service.detected.len() && same_name(service.detected@[i].name@, name) && (
        forall|k: int|
            0 <= k < i ==> !same_name((#[trigger] service.detected@[k]).name@, name))
            ==> service.exe_named(name, profiles, known) == Some(service.detected@[i].exe@),
{
    crate::lists::first_where_is_first(profiles, profile_named(name));
    crate::lists::first_where_is_first(service.detected@, game_named(name));
    if 0 <= i < profiles.len() {
        assert(profile_named(name)(profiles[i]) == same_name(profiles[i].name@, name));
    }
    if 0 <= i < service.detected.len() {
        assert(game_named(name)(service.detected@[i]) == same_name(
            service.detected@[i].name@,
            name,
        ));
    }
}

/// The detected games count as changed when one comes, goes or changes between
/// foreground and background, and not otherwise.
pub proof fn a_game_that_comes_or_goes_is_a_change(
    a: Seq<DetectedGame>,
    b: Seq<DetectedGame>,
)
    ensures
        signs(a) == signs(b) <==> a.len() == b.len() && forall|i: int|
            0 <= i < a.len() ==> (#[trigger] a[i]).exe@ == b[i].exe@ && a[i].foreground
                == b[i].foreground,
{
    if signs(a) == signs(b) {
        assert(signs(a).len() == a.len() && signs(b).len() == b.len());
        assert forall|i: int| 0 <= i < a.len() implies (#[trigger] a[i]).exe@ == b[i].exe@
            && a[i].foreground == b[i].foreground by {
            assert(signs(a)[i] == sign(a[i]));
            assert(signs(b)[i] == sign(b[i]));
        }
    } else if a.len() == b.len() && forall|i: int|
        0 <= i < a.len() ==> (#[trigger] a[i]).exe@ == b[i].exe@ && a[i].foreground
            == b[i].foreground {
        assert forall|i: int| 0 <= i < a.len() implies signs(a)[i] == signs(b)[i] by {
            assert(a[i].exe@ == b[i].exe@);
        }
        assert(signs(a) =~= signs(b));
    }
}

/// The case of ASCII letters tells no two names apart.
pub proof fn the_case_of_a_name_does_not_count(a: Seq<char>, b: Seq<char>, i: int)
    requires
        same_name(a, b),
        0 <= i < a.len(),
    ensures
        a.len() == b.len(),
        a[i] == b[i] || 'A' <= a[i] <= 'Z' || 'A' <= b[i] <= 'Z',
{
    assert(crate::text::ascii_lower(a).len() == a.len());
    assert(crate::text::ascii_lower(b).len() == b.len());
    assert(crate::text::ascii_lower(a)[i] == crate::text::ascii_lower_char(a[i]));
    assert(crate::text::ascii_lower(b)[i] == crate::text::ascii_lower_char(b[i]));
}

} // verus!
