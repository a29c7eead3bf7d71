//! The game profiles and the displays on the settings page.
use vstd::prelude::*;

use super::{game_action_of_index, index_of_game_action};
use crate::config::{position_of_monitor, DisplaySelection, GameProfile, MonitorInfo};
use crate::numbers::to_i32;
use crate::text::{decimal, join3, same, to_lowercase, trim};

verus! {

/// The text of a display in the list of displays.
pub open spec fn display_text(m: MonitorInfo) -> Seq<char> {
    m.name@ + " ("@ + crate::text::dec(m.width as nat) + "x"@ + crate::text::dec(m.height as nat)
        + " at "@ + crate::text::dec(m.refresh_hz as nat) + " Hz)"@
}

/// The list of displays: the primary one, then each by its name and mode.
pub fn display_names(monitors: &Vec<MonitorInfo>) -> (r: Vec<String>)
    ensures
        crate::text::views(r@) == seq!["Primary display"@] + monitors@.map_values(
            |m: MonitorInfo| display_text(m),
        ),
{
    let ghost texts = monitors@.map_values(|m: MonitorInfo| display_text(m));
    let mut names: Vec<String> = Vec::new();
    names.push("Primary display".to_owned());
    let mut i: usize = 0;
    assert(crate::text::views(names@) =~= seq!["Primary display"@] + texts.take(0));
    while i < monitors.len()
        invariant
            i <= monitors.len(),
            texts == monitors@.map_values(|m: MonitorInfo| display_text(m)),
            crate::text::views(names@) == seq!["Primary display"@] + texts.take(i as int),
        decreases monitors.len() - i,
    {
        let m = &monitors[i];
        let mut text = join3(m.name.as_str(), " (", decimal(m.width as u64).as_str());
        text.append("x");
        text.append(decimal(m.height as u64).as_str());
        text.append(" at ");
        text.append(decimal(m.refresh_hz as u64).as_str());
        text.append(" Hz)");
        let ghost before = crate::text::views(names@);
        names.push(text);
        assert(crate::text::views(names@) =~= before.push(text@));
        i = i + 1;
        assert(texts.take(i as int) =~= texts.take(i - 1).push(texts[i - 1]));
        assert(crate::text::views(names@) =~= seq!["Primary display"@] + texts.take(i as int));
    }
    assert(texts.take(i as int) =~= texts);
    names
}

/// The place of a selection in the list of displays; the primary display for
/// one that is not connected.
pub open spec fn display_index_of(
    monitors: Seq<MonitorInfo>,
    selected: crate::config::DisplayView,
) -> int {
    match selected {
        crate::config::DisplayView::Primary => 0,
        crate::config::DisplayView::Monitor(id) => match crate::config::monitor_index(
            monitors,
            id,
        ) {
            Some(i) => i + 1,
            None => 0,
        },
    }
}

/// The selection at a place in the list of displays.
pub open spec fn display_at(
    monitors: Seq<MonitorInfo>,
    index: int,
) -> crate::config::DisplayView {
    if 1 <= index <= monitors.len() {
        crate::config::DisplayView::Monitor(monitors[index - 1].id@)
    } else {
        crate::config::DisplayView::Primary
    }
}

/// The place of a selection in the list of displays.
pub fn display_index(monitors: &Vec<MonitorInfo>, selected: &DisplaySelection) -> (r: i32)
    requires
        monitors.len() < i32::MAX,
    ensures
        r == display_index_of(monitors@, selected@),
{
    match selected {
        DisplaySelection::Primary => 0,
        DisplaySelection::Monitor(id) => match position_of_monitor(
            monitors.as_slice(),
            id.as_str(),
        ) {
            Some(i) => i as i32 + 1,
            None => 0,
        },
    }
}

/// The selection at a place in the list of displays.
pub fn selected_display(index: i32, monitors: &Vec<MonitorInfo>) -> (r: DisplaySelection)
    ensures
        r@ == display_at(monitors@, index as int),
{
    if index <= 0 {
        return DisplaySelection::Primary;
    }
    let i: usize = index as usize - 1;
    if i < monitors.len() {
        DisplaySelection::Monitor(monitors[i].id.clone())
    } else {
        DisplaySelection::Primary
    }
}

/// The list of displays for a game profile.
pub fn set_profile_display_names(monitors: &Vec<MonitorInfo>) -> (r: Vec<String>)
    ensures
        crate::text::views(r@) == seq!["Use the global display"@, "Primary display"@]
            + monitors@.map_values(|m: MonitorInfo| m.name@),
{
    let ghost texts = monitors@.map_values(|m: MonitorInfo| m.name@);
    let ghost front = seq!["Use the global display"@, "Primary display"@];
    let mut names: Vec<String> = Vec::new();
    names.push("Use the global display".to_owned());
    names.push("Primary display".to_owned());
    let mut i: usize = 0;
    assert(crate::text::views(names@) =~= front + texts.take(0));
    while i < monitors.len()
        invariant
            i <= monitors.len(),
            texts == monitors@.map_values(|m: MonitorInfo| m.name@),
            crate::text::views(names@) == front + texts.take(i as int),
        decreases monitors.len() - i,
    {
        let ghost before = crate::text::views(names@);
        names.push(monitors[i].name.clone());
        assert(crate::text::views(names@) =~= before.push(monitors@[i as int].name@));
        i = i + 1;
        assert(texts.take(i as int) =~= texts.take(i - 1).push(texts[i - 1]));
        assert(crate::text::views(names@) =~= front + texts.take(i as int));
    }
    assert(texts.take(i as int) =~= texts);
    names
}

/// What a display override says.
pub open spec fn override_view(
    display: Option<DisplaySelection>,
) -> Option<crate::config::DisplayView> {
    match display {
        Some(d) => Some(d@),
        None => None,
    }
}

/// The place of a display override in the list for a game profile.
pub open spec fn override_index(
    monitors: Seq<MonitorInfo>,
    display: Option<crate::config::DisplayView>,
) -> int {
    match display {
        None => 0,
        Some(crate::config::DisplayView::Primary) => 1,
        Some(crate::config::DisplayView::Monitor(id)) => match crate::config::monitor_index(
            monitors,
            id,
        ) {
            Some(i) => i + 2,
            None => 0,
        },
    }
}

/// The display override at a place in the list for a game profile.
pub open spec fn override_at(monitors: Seq<MonitorInfo>, index: int) -> Option<
    crate::config::DisplayView,
> {
    if index == 1 {
        Some(crate::config::DisplayView::Primary)
    } else if 2 <= index < monitors.len() + 2 {
        Some(crate::config::DisplayView::Monitor(monitors[index - 2].id@))
    } else {
        None
    }
}

/// The place of a display override in the list for a game profile.
pub fn profile_display_index(display: &Option<DisplaySelection>, monitors: &Vec<MonitorInfo>) -> (r:
    i32)
    requires
        monitors.len() < i32::MAX - 1,
    ensures
        r == override_index(monitors@, override_view(*display)),
{
    match display {
        None => 0,
        Some(DisplaySelection::Primary) => 1,
        Some(DisplaySelection::Monitor(id)) => match position_of_monitor(
            monitors.as_slice(),
            id.as_str(),
        ) {
            Some(i) => i as i32 + 2,
            None => 0,
        },
    }
}

/// The display override at a place in the list for a game profile.
pub fn display_from_index(index: i32, monitors: &Vec<MonitorInfo>) -> (r: Option<DisplaySelection>)
    ensures
        override_view(r) == override_at(monitors@, index as int),
{
    if index <= 0 {
        None
    } else if index == 1 {
        Some(DisplaySelection::Primary)
    } else {
        let i: usize = index as usize - 2;
        if i < monitors.len() {
            Some(DisplaySelection::Monitor(monitors[i].id.clone()))
        } else {
            None
        }
    }
}

/// The selection of a connected display is found again by its place in the
/// list; one that is not connected becomes the primary display.
pub proof fn displays_are_found_by_index(
    monitors: Seq<MonitorInfo>,
    selected: crate::config::DisplayView,
)
    ensures
        display_at(monitors, display_index_of(monitors, selected)) == match selected {
            crate::config::DisplayView::Monitor(id) => if crate::config::lists_monitor(
                monitors,
                id,
            ) {
                selected
            } else {
                crate::config::DisplayView::Primary
            },
            crate::config::DisplayView::Primary => crate::config::DisplayView::Primary,
        },
{
    if let crate::config::DisplayView::Monitor(id) = selected {
        crate::config::monitor_index_is_first(monitors, id);
    }
}

/// The display override of a profile is found again by its place in the list;
/// one that is not connected is dropped.
pub proof fn overrides_are_found_by_index(
    monitors: Seq<MonitorInfo>,
    display: Option<crate::config::DisplayView>,
)
    ensures
        override_at(monitors, override_index(monitors, display)) == match display {
            Some(crate::config::DisplayView::Monitor(id)) => if crate::config::lists_monitor(
                monitors,
                id,
            ) {
                display
            } else {
                None
            },
            _ => display,
        },
{
    if let Some(crate::config::DisplayView::Monitor(id)) = display {
        crate::config::monitor_index_is_first(monitors, id);
    }
}

/// A game profile row of the settings page.
#[derive(Debug)]
pub struct GameProfileRow {
    pub exe: String,
    pub name: String,
    pub action_index: i32,
    pub replay_seconds: i32,
    pub subfolder: String,
    pub display_index: i32,
}

/// What a [`GameProfileRow`] says.
pub struct ProfileRowView {
    pub exe: Seq<char>,
    pub name: Seq<char>,
    pub action_index: int,
    pub replay_seconds: int,
    pub subfolder: Seq<char>,
    pub display_index: int,
}

impl View for GameProfileRow {
    type V = ProfileRowView;

    open spec fn view(&self) -> ProfileRowView {
        ProfileRowView {
            exe: self.exe@,
            name: self.name@,
            action_index: self.action_index as int,
            replay_seconds: self.replay_seconds as int,
            subfolder: self.subfolder@,
            display_index: self.display_index as int,
        }
    }
}

/// What a list of rows says.
pub open spec fn profile_row_views(rows: Seq<GameProfileRow>) -> Seq<ProfileRowView> {
    rows.map_values(|r: GameProfileRow| r@)
}

/// The row of a game profile.
pub open spec fn profile_row(monitors: Seq<MonitorInfo>) -> spec_fn(GameProfile) -> ProfileRowView {
    |p: GameProfile|
        ProfileRowView {
            exe: p.exe@,
            name: p.name@,
            action_index: super::game_action_index(p.action),
            replay_seconds: match p.replay_length_seconds {
                Some(s) => crate::numbers::as_i32(s),
                None => 0,
            },
            subfolder: match p.subfolder {
                Some(s) => s@,
                None => Seq::empty(),
            },
            display_index: override_index(monitors, override_view(p.display)),
        }
}

/// The rows of the game profiles, in order.
pub fn set_game_profiles(profiles: &Vec<GameProfile>, monitors: &Vec<MonitorInfo>) -> (r: Vec<
    GameProfileRow,
>)
    requires
        monitors.len() < i32::MAX - 1,
    ensures
        profile_row_views(r@) == profiles@.map_values(profile_row(monitors@)),
{
    let ghost wanted = profiles@.map_values(profile_row(monitors@));
    let mut rows: Vec<GameProfileRow> = Vec::new();
    let mut i: usize = 0;
    assert(profile_row_views(rows@) =~= wanted.take(0));
    while i < profiles.len()
        invariant
            i <= profiles.len(),
            monitors.len() < i32::MAX - 1,
            wanted == profiles@.map_values(profile_row(monitors@)),
            profile_row_views(rows@) == wanted.take(i as int),
        decreases profiles.len() - i,
    {
        let p = &profiles[i];
        let row = GameProfileRow {
            exe: p.exe.clone(),
            name: p.name.clone(),
            action_index: index_of_game_action(p.action),
            replay_seconds: match p.replay_length_seconds {
                Some(s) => to_i32(s),
                None => 0,
            },
            subfolder: match &p.subfolder {
                Some(s) => s.clone(),
                None => String::new(),
            },
            display_index: profile_display_index(&p.display, monitors),
        };
        assert(row@ == wanted[i as int]);
        let ghost before = profile_row_views(rows@);
        rows.push(row);
        assert(profile_row_views(rows@) =~= before.push(row@));
        i = i + 1;
        assert(wanted.take(i as int) =~= wanted.take(i - 1).push(wanted[i - 1]));
    }
    assert(wanted.take(i as int) =~= wanted);
    rows
}

/// What a game profile says.
pub struct ProfileView {
    pub exe: Seq<char>,
    pub name: Seq<char>,
    pub action: crate::config::GameAction,
    pub replay_length_seconds: Option<u32>,
    pub subfolder: Option<Seq<char>>,
    pub display: Option<crate::config::DisplayView>,
    pub capture_method: Option<crate::config::CaptureMethod>,
}

/// What a game profile says.
pub open spec fn profile_view(p: GameProfile) -> ProfileView {
    ProfileView {
        exe: p.exe@,
        name: p.name@,
        action: p.action,
        replay_length_seconds: p.replay_length_seconds,
        subfolder: match p.subfolder {
            Some(s) => Some(s@),
            None => None,
        },
        display: override_view(p.display),
        capture_method: p.capture_method,
    }
}

/// What a list of game profiles says.
pub open spec fn profile_views(profiles: Seq<GameProfile>) -> Seq<ProfileView> {
    profiles.map_values(|p: GameProfile| profile_view(p))
}

/// The capture method of the first profile of an executable.
pub open spec fn method_of(profiles: Seq<GameProfile>, exe: Seq<char>) -> Option<
    crate::config::CaptureMethod,
>
    decreases profiles.len(),
{
    if profiles.len() == 0 {
        None
    } else if profiles[0].exe@ == exe {
        profiles[0].capture_method
    } else {
        method_of(profiles.drop_first(), exe)
    }
}

fn find_method(profiles: &Vec<GameProfile>, exe: &str) -> (r: Option<crate::config::CaptureMethod>)
    ensures
        r == method_of(profiles@, exe@),
{
    let mut i: usize = 0;
    assert(profiles@.skip(0) =~= profiles@);
    while i < profiles.len()
        invariant
            i <= profiles.len(),
            method_of(profiles@, exe@) == method_of(profiles@.skip(i as int), exe@),
        decreases profiles.len() - i,
    {
        assert(profiles@.skip(i as int).drop_first() =~= profiles@.skip(i + 1));
        if same(profiles[i].exe.as_str(), exe) {
            return profiles[i].capture_method;
        }
        i = i + 1;
    }
    None
}

/// Rows with an executable.
pub open spec fn has_exe() -> spec_fn(ProfileRowView) -> bool {
    |r: ProfileRowView| crate::text::trimmed(r.exe).len() > 0
}

/// The game profile that a row means. The capture method has no control on
/// the page and is carried over from the previous profiles.
pub open spec fn profile_of_row(
    monitors: Seq<MonitorInfo>,
    previous: Seq<GameProfile>,
) -> spec_fn(ProfileRowView) -> ProfileView {
    |r: ProfileRowView|
        {
            let exe = crate::text::lowercase(crate::text::trimmed(r.exe));
            let sub = crate::text::trimmed(r.subfolder);
            ProfileView {
                exe,
                name: crate::text::trimmed(r.name),
                action: super::game_action_at(r.action_index),
                replay_length_seconds: if r.replay_seconds > 0 {
                    Some(r.replay_seconds as u32)
                } else {
                    None
                },
                subfolder: if sub.len() > 0 {
                    Some(sub)
                } else {
                    None
                },
                display: override_at(monitors, r.display_index),
                capture_method: method_of(previous, exe),
            }
        }
}

/// The game profiles that the rows mean.
pub open spec fn profiles_of(
    rows: Seq<ProfileRowView>,
    monitors: Seq<MonitorInfo>,
    previous: Seq<GameProfile>,
) -> Seq<ProfileView> {
    rows.filter(has_exe()).map_values(profile_of_row(monitors, previous))
}

/// Reads the profile rows back, dropping rows without an executable.
pub fn collect_game_profiles(
    rows: &Vec<GameProfileRow>,
    monitors: &Vec<MonitorInfo>,
    previous: &Vec<GameProfile>,
) -> (r: Vec<GameProfile>)
    ensures
        profile_views(r@) == profiles_of(profile_row_views(rows@), monitors@, previous@),
{
    let ghost all = profile_row_views(rows@);
    let ghost meaning = profile_of_row(monitors@, previous@);
    let mut profiles: Vec<GameProfile> = Vec::new();
    let mut i: usize = 0;
    proof {
        crate::lists::filter_take_all(all, has_exe());
    }
    assert(profile_views(profiles@) =~= all.take(0).filter(has_exe()).map_values(meaning));
    while i < rows.len()
        invariant
            i <= rows.len(),
            all == profile_row_views(rows@),
            meaning == profile_of_row(monitors@, previous@),
            profile_views(profiles@) == all.take(i as int).filter(has_exe()).map_values(meaning),
        decreases rows.len() - i,
    {
        proof {
            crate::lists::filter_take_succ(all, has_exe(), i as int);
        }
        let row = &rows[i];
        let file = trim(row.exe.as_str());
        if file.as_str().unicode_len() > 0 {
            let ghost before = profile_views(profiles@);
            let ghost kept = all.take(i as int).filter(has_exe());
            let exe = to_lowercase(file.as_str());
            let capture_method = find_method(previous, exe.as_str());
            let sub = trim(row.subfolder.as_str());
            let profile = GameProfile {
                exe,
                name: trim(row.name.as_str()),
                action: game_action_of_index(row.action_index),
                replay_length_seconds: if row.replay_seconds > 0 {
                    Some(row.replay_seconds as u32)
                } else {
                    None
                },
                subfolder: if sub.as_str().unicode_len() > 0 {
                    Some(sub)
                } else {
                    None
                },
                display: display_from_index(row.display_index, monitors),
                capture_method,
            };
            assert(profile_view(profile) == meaning(all[i as int]));
            profiles.push(profile);
            assert(profile_views(profiles@) =~= before.push(profile_view(profile)));
            assert(kept.push(all[i as int]).map_values(meaning) =~= kept.map_values(meaning).push(
                meaning(all[i as int]),
            ));
        }
        i = i + 1;
    }
    proof {
        crate::lists::filter_take_all(all, has_exe());
    }
    profiles
}

proof fn own_method_is_found(profiles: Seq<GameProfile>, i: int)
    requires
        0 <= i < profiles.len(),
        forall|a: int, b: int|
            0 <= a < b < profiles.len() ==> (#[trigger] profiles[a]).exe@ != (
            #[trigger] profiles[b]).exe@,
    ensures
        method_of(profiles, profiles[i].exe@) == profiles[i].capture_method,
    decreases profiles.len(),
{
    if i > 0 {
        let rest = profiles.drop_first();
        assert(profiles[0].exe@ != profiles[i].exe@);
        assert forall|a: int, b: int| 0 <= a < b < rest.len() implies (#[trigger] rest[a]).exe@ != (
        #[trigger] rest[b]).exe@ by {
            assert(rest[a] == profiles[a + 1] && rest[b] == profiles[b + 1]);
        }
        assert(rest[i - 1] == profiles[i]);
        own_method_is_found(rest, i - 1);
    }
}

/// A profile that its row can show: with an executable, a positive length
/// that fits, a connected display, and texts without white space around them.
pub open spec fn fits_row(p: GameProfile, monitors: Seq<MonitorInfo>) -> bool {
    &&& p.exe@.len() > 0 && crate::text::trimmed(p.exe@) == p.exe@
    &&& crate::text::trimmed(p.name@) == p.name@
    &&& p.replay_length_seconds matches Some(s) ==> 1 <= s <= i32::MAX
    &&& p.subfolder matches Some(s) ==> s@.len() > 0 && crate::text::trimmed(s@) == s@
    &&& override_view(p.display) matches Some(crate::config::DisplayView::Monitor(id))
        ==> crate::config::lists_monitor(monitors, id)
}

/// Game profiles survive their rows, one for one, the capture method that no
/// row shows included. Executables come back in lower case.
pub proof fn profiles_survive_their_rows(profiles: Seq<GameProfile>, monitors: Seq<MonitorInfo>)
    requires
        forall|i: int| 0 <= i < profiles.len() ==> fits_row(#[trigger] profiles[i], monitors),
        forall|a: int, b: int|
            0 <= a < b < profiles.len() ==> (#[trigger] profiles[a]).exe@ != (
            #[trigger] profiles[b]).exe@,
    ensures
        ({
            let back = profiles_of(
                profiles.map_values(profile_row(monitors)),
                monitors,
                profiles,
            );
            &&& back.len() == profiles.len()
            &&& forall|i: int|
                0 <= i < profiles.len() && crate::text::lowercase(profiles[i].exe@)
                    == profiles[i].exe@ ==> #[trigger] back[i] == profile_view(profiles[i])
        }),
{
    let rows = profiles.map_values(profile_row(monitors));
    assert forall|i: int| 0 <= i < rows.len() implies has_exe()(#[trigger] rows[i]) by {
        assert(fits_row(profiles[i], monitors));
    }
    crate::lists::filter_keeps_all(rows, has_exe());
    let back = profiles_of(rows, monitors, profiles);
    assert forall|i: int|
        0 <= i < profiles.len() && crate::text::lowercase(profiles[i].exe@)
            == profiles[i].exe@ implies #[trigger] back[i] == profile_view(profiles[i]) by {
        assert(fits_row(profiles[i], monitors));
        own_method_is_found(profiles, i);
        overrides_are_found_by_index(monitors, override_view(profiles[i].display));
        let empty = Seq::<char>::empty();
        assert(crate::text::trimmed(empty).len() == 0);
        assert(back[i] =~= profile_view(profiles[i]));
    }
}

/// The list of overrides has the global display first, then the primary display,
/// then the displays in their order.
pub proof fn the_overrides_are_in_order(monitors: Seq<MonitorInfo>, k: int)
    ensures
        override_at(monitors, 0) is None,
        override_at(monitors, 1) == Some(crate::config::DisplayView::Primary),
        0 <= k < monitors.len() ==> override_at(monitors, k + 2) == Some(
            crate::config::DisplayView::Monitor(monitors[k].id@),
        ),
        k < 0 || k >= monitors.len() + 2 ==> override_at(monitors, k) is None,
{
}

} // verus!
