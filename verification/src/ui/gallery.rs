//! The gallery: what it is narrowed down to, and what is said below it.
use vstd::prelude::*;

use crate::i18n::{tr, tr_with, Translator};
use crate::library::cards::{CardData, CardFilter, CardSort};
use crate::library::{format_size, ClipKind, LibraryService};
use crate::text::{decimal, join3, same};

verus! {

/// How many clips the front page shows.
pub const RECENT_CLIPS: usize = 12;

/// The kind at this place of the list of kinds, all kinds for any other.
pub open spec fn kind_at(index: int) -> Option<ClipKind> {
    if index == 1 {
        Some(ClipKind::Replay)
    } else if index == 2 {
        Some(ClipKind::Recording)
    } else if index == 3 {
        Some(ClipKind::Edited)
    } else {
        None
    }
}

/// The kind at this place of the list of kinds, all kinds for any other.
pub fn kind_of_index(index: i32) -> (r: Option<ClipKind>)
    ensures
        r == kind_at(index as int),
{
    match index {
        1 => Some(ClipKind::Replay),
        2 => Some(ClipKind::Recording),
        3 => Some(ClipKind::Edited),
        _ => None,
    }
}

/// The game at this place of the list of games, whose first entry stands for
/// all of them.
pub open spec fn game_at(games: Seq<String>, index: int) -> Option<Seq<char>> {
    if 1 <= index <= games.len() {
        Some(games[index - 1]@)
    } else {
        None
    }
}

/// The game at this place of the list of games, whose first entry stands for
/// all of them.
pub fn selected_game(games: &Vec<String>, index: i32) -> (r: Option<&str>)
    ensures
        match r {
            Some(game) => game_at(games@, index as int) == Some(game@),
            None => game_at(games@, index as int) is None,
        },
{
    if index < 1 {
        return None;
    }
    let at: usize = index as usize;
    if at <= games.len() {
        Some(games[at - 1].as_str())
    } else {
        None
    }
}

/// The list of games and the place in it that is selected.
#[derive(Debug)]
pub struct GameList {
    pub names: Vec<String>,
    pub index: i32,
}

/// The names in the list of games.
pub open spec fn list_names(t: Translator, games: Seq<String>) -> Seq<Seq<char>> {
    seq![t.says("All games"@)] + crate::text::views(games)
}

/// The games with this name.
pub open spec fn is_game(name: Seq<char>) -> spec_fn(String) -> bool {
    |g: String| g@ == name
}

/// The place of the first game with this name.
pub open spec fn game_place(games: Seq<String>, game: Option<Seq<char>>) -> int {
    match game {
        Some(name) => match crate::lists::first_where(games, is_game(name)) {
            Some(i) => i + 1,
            None => 0,
        },
        None => 0,
    }
}

/// The list of games again, if it has another length than the one that is
/// shown; the game that was selected stays selected.
pub fn game_list(t: &Translator, games: &Vec<String>, shown: usize, index: i32) -> (r: Option<
    GameList,
>)
    requires
        games.len() < i32::MAX,
    ensures
        match r {
            Some(list) => {
                &&& shown != games.len() + 1
                &&& crate::text::views(list.names@) == list_names(*t, games@)
                &&& list.index == game_place(games@, game_at(games@, index as int))
            },
            None => shown == games.len() + 1,
        },
{
    if shown == games.len() + 1 {
        return None;
    }
    let mut names: Vec<String> = Vec::new();
    names.push(tr(t, "All games"));
    let mut i: usize = 0;
    assert(crate::text::views(names@) =~= list_names(*t, games@.take(0)));
    while i < games.len()
        invariant
            i <= games.len(),
            crate::text::views(names@) == list_names(*t, games@.take(i as int)),
        decreases games.len() - i,
    {
        let ghost before = crate::text::views(names@);
        names.push(games[i].clone());
        assert(crate::text::views(names@) =~= before.push(games@[i as int]@));
        assert(crate::text::views(games@.take(i + 1)) =~= crate::text::views(
            games@.take(i as int),
        ).push(games@[i as int]@));
        assert(list_names(*t, games@.take(i + 1)) =~= list_names(*t, games@.take(i as int)).push(
            games@[i as int]@,
        ));
        i = i + 1;
    }
    assert(games@.take(i as int) =~= games@);
    let place: i32 = match selected_game(games, index) {
        Some(name) => find_game(games, name),
        None => 0,
    };
    Some(GameList { names, index: place })
}

fn find_game(games: &Vec<String>, name: &str) -> (r: i32)
    requires
        games.len() < i32::MAX,
    ensures
        r == game_place(games@, Some(name@)),
{
    let ghost p = is_game(name@);
    let mut i: usize = 0;
    while i < games.len()
        invariant
            i <= games.len() < i32::MAX,
            p == is_game(name@),
            forall|k: int| 0 <= k < i ==> !p(#[trigger] games@[k]),
        decreases games.len() - i,
    {
        if same(games[i].as_str(), name) {
            proof {
                crate::lists::first_where_is_first(games@, p);
                assert(p(games@[i as int]));
            }
            return (i + 1) as i32;
        }
        i = i + 1;
    }
    proof {
        crate::lists::first_where_is_first(games@, p);
    }
    0
}

/// What is said of the number of clips.
pub open spec fn summary_text(t: Translator, n: usize) -> Seq<char> {
    if n == 0 {
        Seq::empty()
    } else if n == 1 {
        t.says("1 clip"@)
    } else {
        crate::text::replaced(t.says("{n} clips"@), "{n}"@, crate::text::dec(n as nat))
    }
}

/// What is said of the number of clips.
pub fn describe_count(t: &Translator, n: usize) -> (r: String)
    ensures
        r@ == summary_text(*t, n),
{
    if n == 0 {
        String::new()
    } else if n == 1 {
        tr(t, "1 clip")
    } else {
        proof {
            reveal_strlit("{n}");
        }
        tr_with(t, "{n} clips", "{n}", decimal(n as u64).as_str())
    }
}

/// What the gallery page is set to.
#[derive(Debug)]
pub struct GalleryPage {
    pub game_index: i32,
    pub kind_index: i32,
    pub sort_index: i32,
    pub search: String,
}

/// What a page narrows the gallery down to.
pub open spec fn is_filter_of(page: GalleryPage, games: Seq<String>, filter: CardFilter) -> bool {
    &&& match filter.game {
        Some(game) => game_at(games, page.game_index as int) == Some(game@),
        None => game_at(games, page.game_index as int) is None,
    }
    &&& filter.kind == kind_at(page.kind_index as int)
    &&& filter.search@ == page.search@
    &&& filter.sort == CardSort::at(page.sort_index as int)
}

/// What a page narrows the gallery down to.
pub fn page_filter<'a>(page: &'a GalleryPage, games: &'a Vec<String>) -> (r: CardFilter<'a>)
    ensures
        is_filter_of(*page, games@, r),
{
    CardFilter {
        game: selected_game(games, page.game_index),
        kind: kind_of_index(page.kind_index),
        search: page.search.as_str(),
        sort: CardSort::from_index(page.sort_index),
    }
}

/// The first places, as many as the front page shows.
pub open spec fn first_ones(order: Seq<int>) -> Seq<int> {
    if order.len() < RECENT_CLIPS {
        order
    } else {
        order.take(RECENT_CLIPS as int)
    }
}

/// The clips that the front page shows: the newest ones. `dates` holds the
/// date of each clip.
pub fn recent_clips(library: &LibraryService, dates: &Vec<String>) -> (r: Vec<CardData>)
    requires
        dates.len() == library.clips.len(),
    ensures
        exists|order: Seq<int>| #[trigger]
            crate::library::cards::is_gallery(
                library.clips@,
                (CardFilter { game: None, kind: None, search: "", sort: CardSort::Newest }),
                library.clips.len() as int,
                order,
            ) && crate::library::cards::all_shown(r@, library.clips@, first_ones(order))
                && crate::library::cards::all_dated(
                r@,
                crate::text::views(dates@),
                first_ones(order),
            ),
{
    let filter = CardFilter { game: None, kind: None, search: "", sort: CardSort::Newest };
    let mut cards = library.cards_with_dates(&filter, dates);
    let ghost all = cards@;
    let ghost order = choose|order: Seq<int>| #[trigger]
        crate::library::cards::is_gallery(
            library.clips@,
            filter,
            library.clips.len() as int,
            order,
        ) && crate::library::cards::all_shown(all, library.clips@, order)
            && crate::library::cards::all_dated(all, crate::text::views(dates@), order);
    if cards.len() > RECENT_CLIPS {
        cards.truncate(RECENT_CLIPS);
    }
    proof {
        let first = first_ones(order);
        assert(first.len() == cards@.len());
        assert forall|k: int| 0 <= k < cards@.len() implies crate::library::cards::shows(
            #[trigger] cards@[k],
            library.clips@[first[k]],
        ) by {
            assert(cards@[k] == all[k]);
            assert(first[k] == order[k]);
        }
        assert(crate::library::cards::all_shown(cards@, library.clips@, first));
        assert forall|k: int| 0 <= k < cards@.len() implies (#[trigger] cards@[k]).date@
            == crate::text::views(dates@)[first[k]] by {
            assert(cards@[k] == all[k]);
            assert(first[k] == order[k]);
        }
    }
    cards
}

/// The free and the whole space of a drive, in bytes.
#[derive(Debug, Clone, Copy, PartialEq, Eq, Structural)]
pub struct DiskSpace {
    pub free: u64,
    pub total: u64,
}

/// What is said of the space that the clips take.
#[derive(Debug)]
pub struct Storage {
    /// What the window says.
    pub line: String,
    /// What the settings page says.
    pub settings_line: String,
    /// The bytes of the drive that are taken, of how many, for the bar.
    pub taken: u64,
    pub of: u64,
}

/// What is said of the space that the clips take. `space` is that of their
/// drive, if it is known.
pub fn update_storage(t: &Translator, used: u64, space: Option<DiskSpace>) -> (r: Storage)
    requires
        space is Some ==> space->0.free <= space->0.total,
    ensures
        match space {
            Some(s) if s.total > 0 => {
                &&& r.line@ == crate::library::size_text(used) + " used\n"@
                    + crate::library::size_text(s.free) + " free"@
                &&& r.settings_line@ == crate::library::size_text(used)
                    + " of clips in this folder. "@ + crate::library::size_text(s.free)
                    + " free of "@ + crate::library::size_text(s.total) + " on the drive."@
                &&& r.taken == s.total - s.free && r.of == s.total
            },
            _ => {
                &&& r.line@ == crate::text::replaced(
                    t.says("{size} used"@),
                    "{size}"@,
                    crate::library::size_text(used),
                )
                &&& r.settings_line@ == crate::text::replaced(
                    t.says("{size} of clips in this folder."@),
                    "{size}"@,
                    crate::library::size_text(used),
                )
                &&& r.taken == 0 && r.of == 1
            },
        },
{
    let size = format_size(used);
    if let Some(s) = space {
        if s.total > 0 {
            let free = format_size(s.free);
            let mut line = join3(size.as_str(), " used\n", free.as_str());
            line.append(" free");
            let mut settings_line = join3(
                size.as_str(),
                " of clips in this folder. ",
                free.as_str(),
            );
            settings_line.append(" free of ");
            settings_line.append(format_size(s.total).as_str());
            settings_line.append(" on the drive.");
            return Storage { line, settings_line, taken: s.total - s.free, of: s.total };
        }
    }
    proof {
        reveal_strlit("{size}");
    }
    Storage {
        line: tr_with(t, "{size} used", "{size}", size.as_str()),
        settings_line: tr_with(
            t,
            "{size} of clips in this folder.",
            "{size}",
            size.as_str(),
        ),
        taken: 0,
        of: 1,
    }
}

/// The gallery is narrowed down to what the page has chosen.
pub proof fn the_page_narrows_the_gallery(
    page: GalleryPage,
    games: Seq<String>,
    filter: CardFilter,
)
    requires
        is_filter_of(page, games, filter),
    ensures
        filter.search@ == page.search@,
        filter.kind == kind_at(page.kind_index as int),
        filter.sort == CardSort::at(page.sort_index as int),
        1 <= page.game_index <= games.len() ==> filter.game is Some && filter.game->0@ == games[
            page.game_index - 1
        ]@,
        page.game_index <= 0 || page.game_index > games.len() ==> filter.game is None,
{
}

/// One clip is told apart from several, and none is not told.
pub proof fn clips_are_counted(t: Translator, n: usize)
    ensures
        summary_text(t, 0).len() == 0,
        summary_text(t, 1) == t.says("1 clip"@),
        n > 1 ==> summary_text(t, n) == crate::text::replaced(
            t.says("{n} clips"@),
            "{n}"@,
            crate::text::dec(n as nat),
        ),
{
}

} // verus!
