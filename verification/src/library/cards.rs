//! What the gallery shows of the clips.
use vstd::prelude::*;

use super::{format_duration, format_size, ClipKind, ClipRecord, LibraryService, Moment};
use crate::text::{contains, same, to_lowercase, trim};

verus! {

/// What the gallery shows for one clip.
#[derive(Debug)]
pub struct CardData {
    pub id: String,
    pub title: String,
    /// The game, or the kind of the clip when no game is known.
    pub game: String,
    pub date: String,
    pub duration: String,
    pub size: String,
    pub kind: String,
    pub thumbnail: Option<String>,
}

/// The order of the gallery.
#[derive(Debug, Clone, Copy, PartialEq, Eq, Structural)]
pub enum CardSort {
    Newest,
    Oldest,
    Longest,
    Largest,
}

impl CardSort {
    /// The order at this place of the list of orders.
    pub open spec fn at(index: int) -> CardSort {
        if index == 1 {
            CardSort::Oldest
        } else if index == 2 {
            CardSort::Longest
        } else if index == 3 {
            CardSort::Largest
        } else {
            CardSort::Newest
        }
    }

    /// The order at this place of the list of orders, newest first for a
    /// place that the list does not have.
    pub fn from_index(index: i32) -> (r: Self)
        ensures
            r == CardSort::at(index as int),
    {
        match index {
            1 => CardSort::Oldest,
            2 => CardSort::Longest,
            3 => CardSort::Largest,
            _ => CardSort::Newest,
        }
    }
}

impl Default for CardSort {
    fn default() -> (r: Self)
        ensures
            r == CardSort::Newest,
    {
        CardSort::Newest
    }
}

/// What the gallery is narrowed down to.
#[derive(Debug, Clone, Copy)]
pub struct CardFilter<'a> {
    pub game: Option<&'a str>,
    pub kind: Option<ClipKind>,
    pub search: &'a str,
    pub sort: CardSort,
}

/// What a search looks for.
pub open spec fn needle(search: Seq<char>) -> Seq<char> {
    crate::text::lowercase(crate::text::trimmed(search))
}

/// Whether a clip belongs to the gallery.
pub open spec fn passes(clip: ClipRecord, filter: CardFilter) -> bool {
    &&& filter.game is Some ==> clip.game is Some && clip.game->0@ == filter.game->0@
    &&& filter.kind is Some ==> clip.kind == filter.kind->0
    &&& needle(filter.search@).len() == 0 || crate::text::holds(
        crate::text::lowercase(clip.title@),
        needle(filter.search@),
    )
}

/// Whether clip `i` was made after clip `j`. Of two made at the same time
/// the one that stands earlier in the index comes first.
pub open spec fn is_newer(clips: Seq<ClipRecord>, i: int, j: int) -> bool {
    clips[i].created.is_after(clips[j].created) || clips[i].created == clips[j].created && i < j
}

/// Whether clip `i` is shown before clip `j`.
pub open spec fn is_shown_before(
    clips: Seq<ClipRecord>,
    sort: CardSort,
    i: int,
    j: int,
) -> bool {
    match sort {
        CardSort::Newest => is_newer(clips, i, j),
        CardSort::Oldest => is_newer(clips, j, i),
        CardSort::Longest => clips[i].duration_ms > clips[j].duration_ms
            || clips[i].duration_ms == clips[j].duration_ms && is_newer(clips, i, j),
        CardSort::Largest => clips[i].bytes > clips[j].bytes || clips[i].bytes == clips[j].bytes
            && is_newer(clips, i, j),
    }
}

/// Whether these are the places of the clips that pass among the first `n`,
/// in the order in which they are shown.
pub open spec fn is_gallery(
    clips: Seq<ClipRecord>,
    filter: CardFilter,
    n: int,
    order: Seq<int>,
) -> bool {
    &&& forall|k: int| 0 <= k < order.len() ==> 0 <= #[trigger] order[k] < n
    &&& forall|i: int|
        0 <= i < n ==> (#[trigger] order.contains(i) <==> passes(clips[i], filter))
    &&& forall|a: int, b: int|
        0 <= a < b < order.len() ==> is_shown_before(
            clips,
            filter.sort,
            #[trigger] order[a],
            #[trigger] order[b],
        )
}

/// Whether a card shows a clip, apart from its date.
pub open spec fn shows(card: CardData, clip: ClipRecord) -> bool {
    &&& card.id@ == clip.id@
    &&& card.title@ == clip.title@
    &&& card.game@ == match clip.game {
        Some(game) => game@,
        None => clip.kind.name(),
    }
    &&& card.duration@ == super::duration_text((clip.duration_ms / 1000) as nat)
    &&& card.size@ == super::size_text(clip.bytes)
    &&& card.kind@ == clip.kind.name()
    &&& crate::engine::model::text_view(card.thumbnail) == crate::engine::model::text_view(
        clip.thumbnail,
    )
}

/// Whether cards show clips, one each.
pub open spec fn all_shown(cards: Seq<CardData>, clips: Seq<ClipRecord>, order: Seq<int>) -> bool {
    cards.len() == order.len() && forall|k: int|
        0 <= k < cards.len() ==> shows(#[trigger] cards[k], clips[order[k]])
}

/// Whether the cards have their dates.
pub open spec fn all_dated(
    cards: Seq<CardData>,
    dates: Seq<Seq<char>>,
    order: Seq<int>,
) -> bool {
    forall|k: int| 0 <= k < cards.len() ==> (#[trigger] cards[k]).date@ == dates[order[k]]
}

/// Whether each card has the date of its clip, as far as that does not depend
/// on the time zone.
pub open spec fn all_have_dates(
    cards: Seq<CardData>,
    clips: Seq<ClipRecord>,
    order: Seq<int>,
) -> bool {
    forall|k: int|
        0 <= k < cards.len() ==> is_date_of(
            (#[trigger] cards[k]).date@,
            clips[order[k]].created.seconds as int,
        )
}

/// The first and the last second that can be written as a date, counted from
/// 1970: the calendar reaches from the year -262143 to the year 262142.
pub const FIRST_DATE: i64 = -8_334_601_228_800;

pub const LAST_DATE: i64 = 8_210_266_876_799;

/// Whether a time can be written as a date.
pub open spec fn has_date(created: Moment) -> bool {
    FIRST_DATE <= created.seconds <= LAST_DATE
}

/// Whether the year of a second has four digits in every time zone.
pub open spec fn is_short_year(seconds: int) -> bool {
    -62_000_000_000 <= seconds <= 253_000_000_000
}

/// Whether a text is a date with a time, as in "2024-05-31 18:04". A year before
/// the first or of more than four digits has a sign.
pub open spec fn is_date(s: Seq<char>) -> bool {
    let n = s.len() as int;
    &&& 16 <= n <= 19
    &&& s[n - 12] == '-' && s[n - 9] == '-' && s[n - 6] == ' ' && s[n - 3] == ':'
    &&& n > 16 ==> s[0] == '+' || s[0] == '-'
    &&& forall|i: int|
        (if n > 16 {
            1int
        } else {
            0
        }) <= i < n && i != n - 12 && i != n - 9 && i != n - 6 && i != n - 3 ==> '0'
            <= #[trigger] s[i] <= '9'
}

/// Whether a text is a date that a second can have.
pub open spec fn is_date_of(s: Seq<char>, seconds: int) -> bool {
    is_date(s) && (is_short_year(seconds) ==> s.len() == 16)
}

/// Writes a second as a local date with `chrono`: `DateTime::from_timestamp`,
/// `with_timezone` and `format`, as in "2024-05-31 18:04". The offset of the
/// local time zone comes from the machine, so nothing is said of which digits
/// they are, only of the shape.
#[verifier::external_body]
fn format_date(seconds: i64) -> (r: String)
    requires
        FIRST_DATE <= seconds <= LAST_DATE,
    ensures
        is_date_of(r@, seconds as int),
{
    let utc = chrono::DateTime::from_timestamp(seconds, 0).unwrap();
    let local = utc.with_timezone(&chrono::Local);
    local.format("%Y-%m-%d %H:%M").to_string()
}

fn newer(clips: &Vec<ClipRecord>, i: usize, j: usize) -> (r: bool)
    requires
        i < clips.len(),
        j < clips.len(),
    ensures
        r == is_newer(clips@, i as int, j as int),
{
    clips[i].created.after(&clips[j].created) || clips[i].created == clips[j].created && i < j
}

fn shown_before(clips: &Vec<ClipRecord>, sort: CardSort, i: usize, j: usize) -> (r: bool)
    requires
        i < clips.len(),
        j < clips.len(),
    ensures
        r == is_shown_before(clips@, sort, i as int, j as int),
{
    match sort {
        CardSort::Newest => newer(clips, i, j),
        CardSort::Oldest => newer(clips, j, i),
        CardSort::Longest => clips[i].duration_ms > clips[j].duration_ms || clips[i].duration_ms
            == clips[j].duration_ms && newer(clips, i, j),
        CardSort::Largest => clips[i].bytes > clips[j].bytes || clips[i].bytes == clips[j].bytes
            && newer(clips, i, j),
    }
}

fn is_wanted(clip: &ClipRecord, filter: &CardFilter<'_>, sought: &str) -> (r: bool)
    requires
        sought@ == needle(filter.search@),
    ensures
        r == passes(*clip, *filter),
{
    if let Some(game) = filter.game {
        let fits = match &clip.game {
            Some(own) => same(own.as_str(), game),
            None => false,
        };
        if !fits {
            return false;
        }
    }
    if let Some(kind) = filter.kind {
        if clip.kind != kind {
            return false;
        }
    }
    if sought.unicode_len() == 0 {
        return true;
    }
    contains(to_lowercase(clip.title.as_str()).as_str(), sought)
}

/// The places as numbers.
pub open spec fn places(list: Seq<usize>) -> Seq<int> {
    list.map_values(|i: usize| i as int)
}

/// Putting one place more where it belongs keeps the gallery in order.
proof fn insert_keeps_gallery(
    clips: Seq<ClipRecord>,
    filter: CardFilter,
    n: int,
    order: Seq<int>,
    k: int,
)
    requires
        0 <= n < clips.len(),
        is_gallery(clips, filter, n, order),
        passes(clips[n], filter),
        0 <= k <= order.len(),
        forall|a: int|
            0 <= a < k ==> is_shown_before(clips, filter.sort, #[trigger] order[a], n),
        forall|a: int|
            k <= a < order.len() ==> is_shown_before(clips, filter.sort, n, #[trigger] order[a]),
    ensures
        is_gallery(clips, filter, n + 1, order.insert(k, n)),
{
    let after = order.insert(k, n);
    assert forall|i: int| 0 <= i < n + 1 implies (#[trigger] after.contains(i) <==> passes(
        clips[i],
        filter,
    )) by {
        if i < n {
            if order.contains(i) {
                let a = choose|a: int| 0 <= a < order.len() && order[a] == i;
                assert(after[if a < k {
                    a
                } else {
                    a + 1
                }] == i);
            }
            if after.contains(i) {
                let a = choose|a: int| 0 <= a < after.len() && after[a] == i;
                assert(order[if a < k {
                    a
                } else {
                    a - 1
                }] == i);
            }
        } else {
            assert(after[k] == n);
        }
    }
    assert forall|a: int, b: int| 0 <= a < b < after.len() implies is_shown_before(
        clips,
        filter.sort,
        #[trigger] after[a],
        #[trigger] after[b],
    ) by {
        let a0 = if a < k {
            a
        } else {
            a - 1
        };
        let b0 = if b < k {
            b
        } else {
            b - 1
        };
        if a != k {
            assert(after[a] == order[a0]);
        }
        if b != k {
            assert(after[b] == order[b0]);
        }
    }
}

impl LibraryService {
    /// The places of the clips of the gallery in the order in which they are
    /// shown.
    pub fn gallery(&self, filter: &CardFilter<'_>) -> (r: Vec<usize>)
        ensures
            is_gallery(self.clips@, *filter, self.clips.len() as int, places(r@)),
    {
        let search = trim(filter.search);
        let sought = to_lowercase(search.as_str());
        let mut out: Vec<usize> = Vec::new();
        let mut i: usize = 0;
        while i < self.clips.len()
            invariant
                i <= self.clips.len(),
                sought@ == needle(filter.search@),
                is_gallery(self.clips@, *filter, i as int, places(out@)),
            decreases self.clips.len() - i,
        {
            if is_wanted(&self.clips[i], filter, sought.as_str()) {
                let ghost before = places(out@);
                let mut k: usize = out.len();
                assert forall|a: int| 0 <= a < out.len() implies #[trigger] out@[a] < i by {
                    assert(before[a] == out@[a]);
                }
                while k > 0 && !shown_before(&self.clips, filter.sort, out[k - 1], i)
                    invariant
                        k <= out.len(),
                        i < self.clips.len(),
                        before == places(out@),
                        is_gallery(self.clips@, *filter, i as int, before),
                        forall|a: int| 0 <= a < out.len() ==> #[trigger] out@[a] < i,
                        forall|a: int|
                            k <= a < before.len() ==> is_shown_before(
                                self.clips@,
                                filter.sort,
                                i as int,
                                #[trigger] before[a],
                            ),
                    decreases k,
                {
                    assert(before[k - 1] == out@[k - 1]);
                    k = k - 1;
                }
                proof {
                    assert forall|a: int| 0 <= a < k implies is_shown_before(
                        self.clips@,
                        filter.sort,
                        #[trigger] before[a],
                        i as int,
                    ) by {
                        assert(before[k - 1] == out@[k - 1]);
                        if a < k - 1 {
                            assert(is_shown_before(
                                self.clips@,
                                filter.sort,
                                before[a],
                                before[k - 1],
                            ));
                        }
                    }
                    insert_keeps_gallery(self.clips@, *filter, i as int, before, k as int);
                }
                out.insert(k, i);
                assert(places(out@) =~= before.insert(k as int, i as int));
            } else {
                assert(is_gallery(self.clips@, *filter, i + 1, places(out@)));
            }
            i = i + 1;
        }
        out
    }

    /// The cards of the gallery. `dates` holds the date of each clip.
    pub fn cards_with_dates(&self, filter: &CardFilter<'_>, dates: &Vec<String>) -> (r: Vec<
        CardData,
    >)
        requires
            dates.len() == self.clips.len(),
        ensures
            exists|order: Seq<int>| #[trigger]
                is_gallery(self.clips@, *filter, self.clips.len() as int, order) && all_shown(
                    r@,
                    self.clips@,
                    order,
                ) && all_dated(r@, crate::text::views(dates@), order),
    {
        let order = self.gallery(filter);
        let ghost shown = places(order@);
        let mut out: Vec<CardData> = Vec::new();
        let mut k: usize = 0;
        while k < order.len()
            invariant
                k <= order.len(),
                k == out.len(),
                dates.len() == self.clips.len(),
                shown == places(order@),
                is_gallery(self.clips@, *filter, self.clips.len() as int, shown),
                forall|a: int| 0 <= a < k ==> shows(#[trigger] out@[a], self.clips@[shown[a]]),
                forall|a: int|
                    0 <= a < k ==> (#[trigger] out@[a]).date@ == crate::text::views(
                        dates@,
                    )[shown[a]],
            decreases order.len() - k,
        {
            assert(shown[k as int] == order@[k as int]);
            let i: usize = order[k];
            let clip = &self.clips[i];
            let game = match &clip.game {
                Some(game) => game.clone(),
                None => clip.kind.label().to_owned(),
            };
            let thumbnail = match &clip.thumbnail {
                Some(path) => Some(path.clone()),
                None => None,
            };
            out.push(
                CardData {
                    id: clip.id.clone(),
                    title: clip.title.clone(),
                    game,
                    date: dates[i].clone(),
                    duration: format_duration(clip.duration_ms / 1000),
                    size: format_size(clip.bytes),
                    kind: clip.kind.label().to_owned(),
                    thumbnail,
                },
            );
            k = k + 1;
        }
        assert(all_shown(out@, self.clips@, shown));
        out
    }

    /// The cards of the gallery, dated in local time. Which digits a date has
    /// depends on the time zone of the machine and is not stated.
    pub fn cards(&self, filter: &CardFilter<'_>) -> (r: Vec<CardData>)
        requires
            forall|i: int|
                0 <= i < self.clips.len() ==> has_date((#[trigger] self.clips@[i]).created),
        ensures
            exists|order: Seq<int>| #[trigger]
                is_gallery(self.clips@, *filter, self.clips.len() as int, order) && all_shown(
                    r@,
                    self.clips@,
                    order,
                ) && all_have_dates(r@, self.clips@, order),
    {
        let mut dates: Vec<String> = Vec::new();
        let mut i: usize = 0;
        while i < self.clips.len()
            invariant
                i <= self.clips.len(),
                dates.len() == i,
                forall|i: int|
                    0 <= i < self.clips.len() ==> has_date((#[trigger] self.clips@[i]).created),
                forall|k: int|
                    0 <= k < i ==> is_date_of(
                        (#[trigger] dates@[k])@,
                        self.clips@[k].created.seconds as int,
                    ),
            decreases self.clips.len() - i,
        {
            dates.push(format_date(self.clips[i].created.seconds));
            i = i + 1;
        }
        let cards = self.cards_with_dates(filter, &dates);
        proof {
            let order = choose|order: Seq<int>| #[trigger]
                is_gallery(self.clips@, *filter, self.clips.len() as int, order) && all_shown(
                    cards@,
                    self.clips@,
                    order,
                ) && all_dated(cards@, crate::text::views(dates@), order);
            assert forall|k: int| 0 <= k < cards.len() implies is_date_of(
                (#[trigger] cards@[k]).date@,
                self.clips@[order[k]].created.seconds as int,
            ) by {
                assert(0 <= order[k] < self.clips.len());
                assert(crate::text::views(dates@)[order[k]] == dates@[order[k]]@);
            }
            assert(all_have_dates(cards@, self.clips@, order));
        }
        cards
    }
}

/// The order of the gallery is settled by the clips and the filter: two
/// galleries of them are the same.
pub proof fn the_gallery_is_settled(
    clips: Seq<ClipRecord>,
    filter: CardFilter,
    n: int,
    a: Seq<int>,
    b: Seq<int>,
)
    requires
        0 <= n <= clips.len(),
        is_gallery(clips, filter, n, a),
        is_gallery(clips, filter, n, b),
    ensures
        a == b,
{
    settled_from(clips, filter, n, a, b, 0);
}

proof fn settled_from(
    clips: Seq<ClipRecord>,
    filter: CardFilter,
    n: int,
    a: Seq<int>,
    b: Seq<int>,
    k: int,
)
    requires
        0 <= n <= clips.len(),
        is_gallery(clips, filter, n, a),
        is_gallery(clips, filter, n, b),
        0 <= k <= a.len(),
        k <= b.len(),
        forall|i: int| 0 <= i < k ==> a[i] == b[i],
    ensures
        a == b,
    decreases a.len() - k,
{
    if k == a.len() {
        if k < b.len() {
            assert(b.contains(b[k]));
            assert(a.contains(b[k]));
            let j = choose|j: int| 0 <= j < a.len() && a[j] == b[k];
            assert(b[j] == b[k]);
            assert(is_shown_before(clips, filter.sort, b[j], b[k]));
        }
        assert(a =~= b);
    } else {
        assert(a.contains(a[k]));
        assert(b.contains(a[k]));
        let i = choose|i: int| 0 <= i < b.len() && b[i] == a[k];
        if i < k {
            assert(is_shown_before(clips, filter.sort, a[i], a[k]));
        }
        assert(b.contains(b[k]));
        assert(a.contains(b[k]));
        let j = choose|j: int| 0 <= j < a.len() && a[j] == b[k];
        if j < k {
            assert(is_shown_before(clips, filter.sort, b[j], b[k]));
        }
        if i > k {
            assert(is_shown_before(clips, filter.sort, b[k], b[i]));
            if j > k {
                assert(is_shown_before(clips, filter.sort, a[k], a[j]));
            }
        }
        assert(a[k] == b[k]);
        settled_from(clips, filter, n, a, b, k + 1);
    }
}

/// The gallery from the oldest clip on is the one from the newest on, read
/// backwards.
pub proof fn the_oldest_order_is_the_newest_reversed(
    clips: Seq<ClipRecord>,
    newest: CardFilter,
    oldest: CardFilter,
    order: Seq<int>,
)
    requires
        newest.sort == CardSort::Newest,
        oldest == (CardFilter { sort: CardSort::Oldest, ..newest }),
        is_gallery(clips, newest, clips.len() as int, order),
    ensures
        is_gallery(clips, oldest, clips.len() as int, order.reverse()),
{
    let back = order.reverse();
    assert forall|i: int| 0 <= i < clips.len() implies (#[trigger] back.contains(i) <==> passes(
        clips[i],
        oldest,
    )) by {
        if order.contains(i) {
            let a = choose|a: int| 0 <= a < order.len() && order[a] == i;
            assert(back[order.len() - 1 - a] == i);
        }
        if back.contains(i) {
            let a = choose|a: int| 0 <= a < back.len() && back[a] == i;
            assert(order[order.len() - 1 - a] == i);
        }
    }
}

/// Whether two cards show the same, apart from their dates.
pub open spec fn is_same_card(a: CardData, b: CardData) -> bool {
    &&& a.id@ == b.id@
    &&& a.title@ == b.title@
    &&& a.game@ == b.game@
    &&& a.duration@ == b.duration@
    &&& a.size@ == b.size@
    &&& a.kind@ == b.kind@
    &&& crate::engine::model::text_view(a.thumbnail) == crate::engine::model::text_view(b.thumbnail)
}

/// Whether these are the cards of the gallery, whatever their dates.
pub open spec fn are_cards(cards: Seq<CardData>, clips: Seq<ClipRecord>, filter: CardFilter) -> bool {
    exists|order: Seq<int>| #[trigger]
        is_gallery(clips, filter, clips.len() as int, order) && all_shown(cards, clips, order)
}

/// The cards from the oldest clip on are exactly the cards from the newest on,
/// read backwards.
pub proof fn the_oldest_cards_are_the_newest_reversed(
    clips: Seq<ClipRecord>,
    newest: CardFilter,
    oldest: CardFilter,
    first: Seq<CardData>,
    second: Seq<CardData>,
)
    requires
        newest.sort == CardSort::Newest,
        oldest == (CardFilter { sort: CardSort::Oldest, ..newest }),
        are_cards(first, clips, newest),
        are_cards(second, clips, oldest),
    ensures
        second.len() == first.len(),
        forall|k: int|
            0 <= k < second.len() ==> is_same_card(
                #[trigger] second[k],
                first[first.len() - 1 - k],
            ),
{
    let n = clips.len() as int;
    let a = choose|order: Seq<int>| #[trigger]
        is_gallery(clips, newest, n, order) && all_shown(first, clips, order);
    let b = choose|order: Seq<int>| #[trigger]
        is_gallery(clips, oldest, n, order) && all_shown(second, clips, order);
    the_oldest_order_is_the_newest_reversed(clips, newest, oldest, a);
    the_gallery_is_settled(clips, oldest, n, a.reverse(), b);
    assert forall|k: int| 0 <= k < second.len() implies is_same_card(
        #[trigger] second[k],
        first[first.len() - 1 - k],
    ) by {
        assert(shows(second[k], clips[b[k]]));
        assert(shows(first[first.len() - 1 - k], clips[a[a.len() - 1 - k]]));
        assert(b[k] == a.reverse()[k]);
    }
}

/// What the longest and the largest order go by.
pub open spec fn measure(clip: ClipRecord, sort: CardSort) -> int {
    if sort == CardSort::Longest {
        clip.duration_ms as int
    } else {
        clip.bytes as int
    }
}

/// By length the durations never increase, by size the sizes never do, and
/// clips that tie keep the order from the newest on.
pub proof fn ties_keep_the_newest_order(
    clips: Seq<ClipRecord>,
    newest: CardFilter,
    by: CardFilter,
    base: Seq<int>,
    order: Seq<int>,
    a: int,
    b: int,
)
    requires
        newest.sort == CardSort::Newest,
        by.sort == CardSort::Longest || by.sort == CardSort::Largest,
        by == (CardFilter { sort: by.sort, ..newest }),
        is_gallery(clips, newest, clips.len() as int, base),
        is_gallery(clips, by, clips.len() as int, order),
        0 <= a < b < order.len(),
    ensures
        measure(clips[order[a]], by.sort) >= measure(clips[order[b]], by.sort),
        measure(clips[order[a]], by.sort) == measure(clips[order[b]], by.sort) ==> exists|
            c: int,
            d: int,
        |
            0 <= c < d < base.len() && #[trigger] base[c] == order[a] && #[trigger] base[d]
                == order[b],
{
    assert(is_shown_before(clips, by.sort, order[a], order[b]));
    assert(order.contains(order[a]) && order.contains(order[b]));
    assert(base.contains(order[a]) && base.contains(order[b]));
    let c = choose|c: int| 0 <= c < base.len() && base[c] == order[a];
    let d = choose|d: int| 0 <= d < base.len() && base[d] == order[b];
    if c > d {
        assert(is_shown_before(clips, newest.sort, base[d], base[c]));
    }
    if measure(clips[order[a]], by.sort) == measure(clips[order[b]], by.sort) {
        assert(is_newer(clips, order[a], order[b]));
        assert(c < d);
        assert(base[c] == order[a] && base[d] == order[b]);
    }
}

/// Another order shows the same clips.
pub proof fn every_order_shows_the_same_clips(
    clips: Seq<ClipRecord>,
    a: CardFilter,
    b: CardFilter,
    first: Seq<int>,
    second: Seq<int>,
)
    requires
        b == (CardFilter { sort: b.sort, ..a }),
        is_gallery(clips, a, clips.len() as int, first),
        is_gallery(clips, b, clips.len() as int, second),
    ensures
        first.to_set() == second.to_set(),
{
    assert forall|i: int| first.contains(i) implies second.contains(i) by {
        let k = choose|k: int| 0 <= k < first.len() && first[k] == i;
        assert(0 <= first[k] < clips.len());
    }
    assert forall|i: int| second.contains(i) implies first.contains(i) by {
        let k = choose|k: int| 0 <= k < second.len() && second[k] == i;
        assert(0 <= second[k] < clips.len());
    }
    assert(first.to_set() =~= second.to_set());
}

/// Whether a clip is of the game and the kind that are asked for, and the text
/// that is searched for stands at some place of its title, whatever the case of
/// the letters.
pub open spec fn is_asked_for(clip: ClipRecord, filter: CardFilter) -> bool {
    let title = crate::text::lowercase(clip.title@);
    let sought = crate::text::lowercase(crate::text::trimmed(filter.search@));
    &&& match filter.game {
        Some(game) => clip.game matches Some(own) && own@ == game@,
        None => true,
    }
    &&& match filter.kind {
        Some(kind) => clip.kind == kind,
        None => true,
    }
    &&& sought.len() == 0 || exists|i: int|
        0 <= i && i + sought.len() <= title.len() && #[trigger] title.subrange(
            i,
            i + sought.len(),
        ) == sought
}

proof fn what_passes_is_asked_for(clip: ClipRecord, filter: CardFilter)
    ensures
        passes(clip, filter) == is_asked_for(clip, filter),
{
    let title = crate::text::lowercase(clip.title@);
    let sought = needle(filter.search@);
    if crate::text::holds(title, sought) {
        let i = choose|i: int| crate::text::stands_at(title, sought, i);
        assert(title.subrange(i, i + sought.len()) == sought);
    }
    if exists|i: int|
        0 <= i && i + sought.len() <= title.len() && #[trigger] title.subrange(
            i,
            i + sought.len(),
        ) == sought {
        let i = choose|i: int|
            0 <= i && i + sought.len() <= title.len() && #[trigger] title.subrange(
                i,
                i + sought.len(),
            ) == sought;
        assert(crate::text::stands_at(title, sought, i));
    }
}

/// Every clip that is asked for has a card.
pub proof fn every_clip_that_is_asked_for_has_a_card(
    clips: Seq<ClipRecord>,
    filter: CardFilter,
    cards: Seq<CardData>,
    i: int,
)
    requires
        are_cards(cards, clips, filter),
        0 <= i < clips.len(),
        is_asked_for(clips[i], filter),
    ensures
        exists|k: int|
            0 <= k < cards.len() && (#[trigger] cards[k]).id@ == clips[i].id@ && cards[k].title@
                == clips[i].title@,
{
    what_passes_is_asked_for(clips[i], filter);
    let order = choose|order: Seq<int>| #[trigger]
        is_gallery(clips, filter, clips.len() as int, order) && all_shown(cards, clips, order);
    assert(order.contains(i));
    let k = choose|k: int| 0 <= k < order.len() && order[k] == i;
    assert(shows(cards[k], clips[order[k]]));
}

/// Every card shows a clip that is asked for.
pub proof fn every_card_shows_a_clip_that_is_asked_for(
    clips: Seq<ClipRecord>,
    filter: CardFilter,
    cards: Seq<CardData>,
    k: int,
)
    requires
        are_cards(cards, clips, filter),
        0 <= k < cards.len(),
    ensures
        exists|i: int|
            0 <= i < clips.len() && is_asked_for(#[trigger] clips[i], filter) && cards[k].id@
                == clips[i].id@ && cards[k].title@ == clips[i].title@,
{
    let order = choose|order: Seq<int>| #[trigger]
        is_gallery(clips, filter, clips.len() as int, order) && all_shown(cards, clips, order);
    let i = order[k];
    assert(order.contains(i));
    what_passes_is_asked_for(clips[i], filter);
    assert(shows(cards[k], clips[order[k]]));
}

/// A search finds a title that holds its text, whatever stands in front of it
/// and behind it.
pub proof fn a_search_finds_a_text_anywhere(
    clips: Seq<ClipRecord>,
    filter: CardFilter,
    cards: Seq<CardData>,
    i: int,
    front: Seq<char>,
    back: Seq<char>,
)
    requires
        are_cards(cards, clips, filter),
        filter.game is None,
        filter.kind is None,
        0 <= i < clips.len(),
        crate::text::lowercase(clips[i].title@) == front + crate::text::lowercase(
            crate::text::trimmed(filter.search@),
        ) + back,
    ensures
        exists|k: int| 0 <= k < cards.len() && (#[trigger] cards[k]).id@ == clips[i].id@,
{
    let title = crate::text::lowercase(clips[i].title@);
    let sought = crate::text::lowercase(crate::text::trimmed(filter.search@));
    let at = front.len() as int;
    assert(title.subrange(at, at + sought.len()) =~= sought);
    every_clip_that_is_asked_for_has_a_card(clips, filter, cards, i);
}

/// Without a filter every clip has its card.
pub proof fn without_a_filter_every_clip_is_shown(
    clips: Seq<ClipRecord>,
    filter: CardFilter,
    cards: Seq<CardData>,
)
    requires
        are_cards(cards, clips, filter),
        filter.game is None,
        filter.kind is None,
        needle(filter.search@).len() == 0,
    ensures
        cards.len() == clips.len(),
{
    let n = clips.len() as int;
    let order = choose|order: Seq<int>| #[trigger]
        is_gallery(clips, filter, n, order) && all_shown(cards, clips, order);
    assert forall|a: int, b: int| 0 <= a < b < order.len() implies order[a] != order[b] by {
        assert(is_shown_before(clips, filter.sort, order[a], order[b]));
    }
    let all = vstd::set_lib::set_int_range(0, n);
    vstd::set_lib::lemma_int_range(0, n);
    assert forall|i: int| order.to_set().contains(i) == all.contains(i) by {
        if 0 <= i < n {
            assert(passes(clips[i], filter));
            assert(order.contains(i));
        }
        if order.contains(i) {
            let k = choose|k: int| 0 <= k < order.len() && order[k] == i;
            assert(0 <= order[k] < n);
        }
    }
    assert(order.to_set() =~= all);
    order.unique_seq_to_set();
}

/// The cards stand in the order that was chosen: by the time of the clips, by
/// their length or by their size.
pub proof fn the_cards_stand_in_their_order(
    clips: Seq<ClipRecord>,
    filter: CardFilter,
    cards: Seq<CardData>,
    a: int,
    b: int,
)
    requires
        are_cards(cards, clips, filter),
        0 <= a < b < cards.len(),
    ensures
        exists|i: int, j: int|
            0 <= i < clips.len() && 0 <= j < clips.len() && i != j && cards[a].id@ == (
            #[trigger] clips[i]).id@ && cards[b].id@ == (#[trigger] clips[j]).id@
                && match filter.sort {
                CardSort::Newest => clips[i].created.seconds >= clips[j].created.seconds
                    && (clips[i].created.seconds == clips[j].created.seconds
                    ==> clips[i].created.nanos >= clips[j].created.nanos),
                CardSort::Oldest => clips[i].created.seconds <= clips[j].created.seconds
                    && (clips[i].created.seconds == clips[j].created.seconds
                    ==> clips[i].created.nanos <= clips[j].created.nanos),
                CardSort::Longest => clips[i].duration_ms >= clips[j].duration_ms,
                CardSort::Largest => clips[i].bytes >= clips[j].bytes,
            },
{
    let order = choose|order: Seq<int>| #[trigger]
        is_gallery(clips, filter, clips.len() as int, order) && all_shown(cards, clips, order);
    assert(shows(cards[a], clips[order[a]]));
    assert(shows(cards[b], clips[order[b]]));
    assert(is_shown_before(clips, filter.sort, order[a], order[b]));
    assert(clips[order[a]].id@ == cards[a].id@ && clips[order[b]].id@ == cards[b].id@);
}

/// The list of orders has the newest first, then the oldest, the longest and the
/// largest, each at a place of its own.
pub proof fn the_orders_are_listed(index: int)
    ensures
        CardSort::at(index) == CardSort::Oldest <==> index == 1,
        CardSort::at(index) == CardSort::Longest <==> index == 2,
        CardSort::at(index) == CardSort::Largest <==> index == 3,
{
}

/// Of clips that are equally long or equally large, the newer one is shown first.
pub proof fn equal_clips_are_shown_newest_first(
    clips: Seq<ClipRecord>,
    filter: CardFilter,
    order: Seq<int>,
    a: int,
    b: int,
)
    requires
        is_gallery(clips, filter, clips.len() as int, order),
        0 <= a < b < order.len(),
        match filter.sort {
            CardSort::Longest => clips[order[a]].duration_ms == clips[order[b]].duration_ms,
            CardSort::Largest => clips[order[a]].bytes == clips[order[b]].bytes,
            _ => false,
        },
    ensures
        clips[order[a]].created.seconds >= clips[order[b]].created.seconds,
        clips[order[a]].created.seconds == clips[order[b]].created.seconds
            ==> clips[order[a]].created.nanos >= clips[order[b]].created.nanos,
{
    assert(is_shown_before(clips, filter.sort, order[a], order[b]));
}

} // verus!
