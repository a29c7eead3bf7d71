//! The settings of the application, and the things of the machine that they
//! choose between: displays, encoders, audio devices, games.
use vstd::prelude::*;

use crate::text::{join3, same};

verus! {

/// Which encoder the user asks for.
#[derive(Debug, Clone, Copy, PartialEq, Eq, Structural)]
pub enum EncoderPreference {
    Auto,
    Nvenc,
    QuickSync,
    Amf,
    Software,
}

/// The families of H.264 encoders.
#[derive(Debug, Clone, Copy, PartialEq, Eq, Structural)]
pub enum EncoderKind {
    Nvenc,
    QuickSync,
    Amf,
    Vaapi,
    MediaFoundation,
    Software,
}

impl EncoderKind {
    /// The name shown to the user.
    pub open spec fn name(self) -> Seq<char> {
        match self {
            EncoderKind::Nvenc => "NVENC"@,
            EncoderKind::QuickSync => "Quick Sync"@,
            EncoderKind::Amf => "AMF"@,
            EncoderKind::Vaapi => "VA-API"@,
            EncoderKind::MediaFoundation => "Media Foundation"@,
            EncoderKind::Software => "Software"@,
        }
    }

    /// The name shown to the user.
    pub fn label(self) -> (r: &'static str)
        ensures
            r@ == self.name(),
    {
        match self {
            EncoderKind::Nvenc => "NVENC",
            EncoderKind::QuickSync => "Quick Sync",
            EncoderKind::Amf => "AMF",
            EncoderKind::Vaapi => "VA-API",
            EncoderKind::MediaFoundation => "Media Foundation",
            EncoderKind::Software => "Software",
        }
    }

    /// Whether the encoder runs on the GPU.
    pub fn is_hardware(self) -> (r: bool)
        ensures
            r == (self != EncoderKind::Software),
    {
        !matches!(self, EncoderKind::Software)
    }
}

/// An encoder that is registered on this machine.
#[derive(Debug)]
pub struct EncoderInfo {
    pub kind: EncoderKind,
    pub element: String,
}

/// What an [`EncoderInfo`] says.
pub ghost struct EncoderView {
    pub kind: EncoderKind,
    pub element: Seq<char>,
}

impl View for EncoderInfo {
    type V = EncoderView;

    open spec fn view(&self) -> EncoderView {
        EncoderView { kind: self.kind, element: self.element@ }
    }
}

impl Clone for EncoderInfo {
    fn clone(&self) -> (r: Self)
        ensures
            r == *self,
    {
        EncoderInfo { kind: self.kind, element: self.element.clone() }
    }
}

impl EncoderInfo {
    /// Whether two entries name the same encoder.
    pub fn same(&self, other: &EncoderInfo) -> (r: bool)
        ensures
            r == (self@ == other@),
    {
        self.kind == other.kind && same(self.element.as_str(), other.element.as_str())
    }
}

/// Which display is captured.
#[derive(Debug)]
pub enum DisplaySelection {
    Primary,
    Monitor(String),
}

/// What a [`DisplaySelection`] says.
pub ghost enum DisplayView {
    Primary,
    Monitor(Seq<char>),
}

impl View for DisplaySelection {
    type V = DisplayView;

    open spec fn view(&self) -> DisplayView {
        match self {
            DisplaySelection::Primary => DisplayView::Primary,
            DisplaySelection::Monitor(id) => DisplayView::Monitor(id@),
        }
    }
}

impl Clone for DisplaySelection {
    fn clone(&self) -> (r: Self)
        ensures
            r == *self,
    {
        match self {
            DisplaySelection::Primary => DisplaySelection::Primary,
            DisplaySelection::Monitor(id) => DisplaySelection::Monitor(id.clone()),
        }
    }
}

impl DisplaySelection {
    /// Whether two selections name the same display.
    pub fn same(&self, other: &DisplaySelection) -> (r: bool)
        ensures
            r == (self@ == other@),
    {
        match (self, other) {
            (DisplaySelection::Primary, DisplaySelection::Primary) => true,
            (DisplaySelection::Monitor(a), DisplaySelection::Monitor(b)) => same(
                a.as_str(),
                b.as_str(),
            ),
            _ => false,
        }
    }
}

/// Where the frames of a game come from.
#[derive(Debug, Clone, Copy, PartialEq, Eq, Structural)]
pub enum CaptureMethod {
    Display,
    Game,
}

/// The operating system interface that captures a display.
#[derive(Debug, Clone, Copy, PartialEq, Eq, Structural)]
pub enum CaptureApi {
    DesktopDuplication,
    GraphicsCapture,
}

/// Whether the buffer runs all the time or with a game.
#[derive(Debug, Clone, Copy, PartialEq, Eq, Structural)]
pub enum CaptureScope {
    Global,
    PerGame,
}

/// What a running game starts.
#[derive(Debug, Clone, Copy, PartialEq, Eq, Structural)]
pub enum GameAction {
    Buffer,
    Recording,
    Ignore,
}

/// What the game watcher wants to run.
#[derive(Debug, Clone, Copy, PartialEq, Eq, Structural)]
pub enum AutoCapture {
    Nothing,
    Buffer,
    Recording,
}

/// What a hotkey does.
#[derive(Debug, Clone, Copy, PartialEq, Eq, Structural)]
pub enum HotkeyActionKind {
    SaveReplay,
    ToggleBuffer,
    ToggleRecording,
}

/// What kind of audio source a device is.
#[derive(Debug, Clone, Copy, PartialEq, Eq, Structural)]
pub enum AudioDeviceKind {
    Output,
    Input,
    Application,
}

/// The name of a kind of audio source in a row of the settings page.
pub open spec fn kind_text(kind: AudioDeviceKind) -> Seq<char> {
    match kind {
        AudioDeviceKind::Output => "output"@,
        AudioDeviceKind::Input => "input"@,
        AudioDeviceKind::Application => "app"@,
    }
}

/// The name of a kind of audio source in a row of the settings page.
pub fn kind_name(kind: AudioDeviceKind) -> (r: &'static str)
    ensures
        r@ == kind_text(kind),
{
    match kind {
        AudioDeviceKind::Output => "output",
        AudioDeviceKind::Input => "input",
        AudioDeviceKind::Application => "app",
    }
}

/// The id of the audio device that follows the system default.
pub open spec fn default_audio_device_id() -> Seq<char> {
    "default"@
}

/// A connected display.
#[derive(Debug)]
pub struct MonitorInfo {
    pub id: String,
    pub name: String,
    pub width: u32,
    pub height: u32,
    pub x: i32,
    pub y: i32,
    pub refresh_hz: u32,
    pub primary: bool,
}

/// What a [`MonitorInfo`] says.
pub ghost struct MonitorView {
    pub id: Seq<char>,
    pub name: Seq<char>,
    pub width: u32,
    pub height: u32,
    pub x: i32,
    pub y: i32,
    pub refresh_hz: u32,
    pub primary: bool,
}

impl View for MonitorInfo {
    type V = MonitorView;

    open spec fn view(&self) -> MonitorView {
        MonitorView {
            id: self.id@,
            name: self.name@,
            width: self.width,
            height: self.height,
            x: self.x,
            y: self.y,
            refresh_hz: self.refresh_hz,
            primary: self.primary,
        }
    }
}

impl Clone for MonitorInfo {
    fn clone(&self) -> (r: Self)
        ensures
            r == *self,
    {
        MonitorInfo {
            id: self.id.clone(),
            name: self.name.clone(),
            width: self.width,
            height: self.height,
            x: self.x,
            y: self.y,
            refresh_hz: self.refresh_hz,
            primary: self.primary,
        }
    }
}

impl MonitorInfo {
    /// Whether two entries describe the same display in the same mode.
    pub fn same(&self, other: &MonitorInfo) -> (r: bool)
        ensures
            r == (self@ == other@),
    {
        same(self.id.as_str(), other.id.as_str()) && same(self.name.as_str(), other.name.as_str())
            && self.width == other.width && self.height == other.height && self.x == other.x
            && self.y == other.y && self.refresh_hz == other.refresh_hz && self.primary
            == other.primary
    }
}

/// What a list of displays says.
pub open spec fn monitor_views(monitors: Seq<MonitorInfo>) -> Seq<MonitorView> {
    monitors.map_values(|m: MonitorInfo| m@)
}

/// Whether two lists hold the same displays in the same order.
pub fn same_monitors(a: &Vec<MonitorInfo>, b: &Vec<MonitorInfo>) -> (r: bool)
    ensures
        r == (monitor_views(a@) == monitor_views(b@)),
{
    if a.len() != b.len() {
        assert(monitor_views(a@).len() != monitor_views(b@).len());
        return false;
    }
    let mut i: usize = 0;
    while i < a.len()
        invariant
            i <= a.len() == b.len(),
            forall|k: int| 0 <= k < i ==> a@[k]@ == b@[k]@,
        decreases a.len() - i,
    {
        if !a[i].same(&b[i]) {
            assert(monitor_views(a@)[i as int] != monitor_views(b@)[i as int]);
            return false;
        }
        i = i + 1;
    }
    assert(monitor_views(a@) =~= monitor_views(b@));
    true
}

/// Whether a display with this id is in the list.
pub open spec fn lists_monitor(monitors: Seq<MonitorInfo>, id: Seq<char>) -> bool {
    exists|i: int| 0 <= i < monitors.len() && (#[trigger] monitors[i]).id@ == id
}

/// The place of the display with this id, the first one if there are more.
pub open spec fn monitor_index(monitors: Seq<MonitorInfo>, id: Seq<char>) -> Option<int> {
    if lists_monitor(monitors, id) {
        Some(
            choose|i: int|
                0 <= i < monitors.len() && (#[trigger] monitors[i]).id@ == id && forall|j: int|
                    0 <= j < i ==> (#[trigger] monitors[j]).id@ != id,
        )
    } else {
        None
    }
}

/// The place of a listed display is one where it stands, and the first such.
pub proof fn monitor_index_is_first(monitors: Seq<MonitorInfo>, id: Seq<char>)
    ensures
        match monitor_index(monitors, id) {
            Some(i) => 0 <= i < monitors.len() && monitors[i].id@ == id && forall|j: int|
                0 <= j < i ==> (#[trigger] monitors[j]).id@ != id,
            None => !lists_monitor(monitors, id),
        },
{
    if lists_monitor(monitors, id) {
        let i = choose|i: int| 0 <= i < monitors.len() && (#[trigger] monitors[i]).id@ == id;
        first_monitor_exists(monitors, id, i);
    }
}

proof fn first_monitor_exists(monitors: Seq<MonitorInfo>, id: Seq<char>, i: int)
    requires
        0 <= i < monitors.len(),
        monitors[i].id@ == id,
    ensures
        exists|k: int|
            0 <= k < monitors.len() && (#[trigger] monitors[k]).id@ == id && forall|j: int|
                0 <= j < k ==> (#[trigger] monitors[j]).id@ != id,
    decreases i,
{
    if exists|j: int| 0 <= j < i && (#[trigger] monitors[j]).id@ == id {
        let j = choose|j: int| 0 <= j < i && (#[trigger] monitors[j]).id@ == id;
        first_monitor_exists(monitors, id, j);
    } else {
        assert(monitors[i].id@ == id);
    }
}

/// The place of the display with this id, the first one if there are more.
pub fn position_of_monitor(monitors: &[MonitorInfo], id: &str) -> (r: Option<usize>)
    ensures
        match r {
            Some(i) => monitor_index(monitors@, id@) == Some(i as int) && i < monitors.len()
                && monitors@[i as int].id@ == id@,
            None => monitor_index(monitors@, id@) is None,
        },
{
    let mut i: usize = 0;
    while i < monitors.len()
        invariant
            i <= monitors.len(),
            forall|k: int| 0 <= k < i ==> (#[trigger] monitors@[k]).id@ != id@,
        decreases monitors.len() - i,
    {
        if same(monitors[i].id.as_str(), id) {
            assert(monitors@[i as int].id@ == id@);
            return Some(i);
        }
        i = i + 1;
    }
    None
}

/// An audio device that can be recorded.
#[derive(Debug)]
pub struct AudioDeviceInfo {
    pub id: String,
    pub name: String,
    pub kind: AudioDeviceKind,
}

/// An audio source in the settings. The volume is the bit pattern of a 32 bit
/// float, 1.0 being the unchanged level.
#[derive(Debug)]
pub struct AudioSourceConfig {
    pub id: String,
    pub name: String,
    pub kind: AudioDeviceKind,
    pub enabled: bool,
    pub volume: u32,
    pub muted: bool,
}

impl Clone for AudioSourceConfig {
    fn clone(&self) -> (r: Self)
        ensures
            r == *self,
    {
        AudioSourceConfig {
            id: self.id.clone(),
            name: self.name.clone(),
            kind: self.kind,
            enabled: self.enabled,
            volume: self.volume,
            muted: self.muted,
        }
    }
}

/// The key that identifies an audio source in a running capture.
pub open spec fn source_key(kind: AudioDeviceKind, id: Seq<char>) -> Seq<char> {
    kind_text(kind) + ":"@ + id
}

/// The key that identifies an audio source in a running capture.
pub fn audio_source_key(kind: AudioDeviceKind, id: &str) -> (r: String)
    ensures
        r@ == source_key(kind, id@),
{
    join3(kind_name(kind), ":", id)
}

/// Different audio sources have different keys.
pub proof fn source_key_is_injective(
    kind1: AudioDeviceKind,
    id1: Seq<char>,
    kind2: AudioDeviceKind,
    id2: Seq<char>,
)
    requires
        source_key(kind1, id1) == source_key(kind2, id2),
    ensures
        kind1 == kind2,
        id1 == id2,
{
    reveal_strlit("output");
    reveal_strlit("input");
    reveal_strlit("app");
    reveal_strlit(":");
    let a = source_key(kind1, id1);
    let b = source_key(kind2, id2);
    assert(a[0] == kind_text(kind1)[0]);
    assert(b[0] == kind_text(kind2)[0]);
    let n = kind_text(kind1).len() as int;
    assert(a.subrange(n + 1, a.len() as int) =~= id1);
    assert(b.subrange(n + 1, b.len() as int) =~= id2);
}

/// A game the user has set up.
#[derive(Debug)]
pub struct GameProfile {
    /// The lowercase file name of the executable.
    pub exe: String,
    pub name: String,
    pub action: GameAction,
    pub replay_length_seconds: Option<u32>,
    pub subfolder: Option<String>,
    pub display: Option<DisplaySelection>,
    pub capture_method: Option<CaptureMethod>,
}

impl Clone for GameProfile {
    fn clone(&self) -> (r: Self)
        ensures
            r == *self,
    {
        GameProfile {
            exe: self.exe.clone(),
            name: self.name.clone(),
            action: self.action,
            replay_length_seconds: self.replay_length_seconds,
            subfolder: match &self.subfolder {
                Some(s) => Some(s.clone()),
                None => None,
            },
            display: match &self.display {
                Some(d) => Some(d.clone()),
                None => None,
            },
            capture_method: self.capture_method,
        }
    }
}

/// A process that is running.
#[derive(Debug)]
pub struct RunningProcess {
    pub pid: u32,
    /// The lowercase file name of the executable.
    pub exe: String,
    pub path: Option<String>,
    pub foreground: bool,
}

/// A running game.
#[derive(Debug)]
pub struct DetectedGame {
    pub name: String,
    pub exe: String,
    pub pid: u32,
    pub path: Option<String>,
    pub foreground: bool,
    pub profile: Option<GameProfile>,
}

impl Clone for DetectedGame {
    fn clone(&self) -> (r: Self)
        ensures
            r == *self,
    {
        DetectedGame {
            name: self.name.clone(),
            exe: self.exe.clone(),
            pid: self.pid,
            path: match &self.path {
                Some(p) => Some(p.clone()),
                None => None,
            },
            foreground: self.foreground,
            profile: match &self.profile {
                Some(p) => Some(p.clone()),
                None => None,
            },
        }
    }
}

/// The modifier keys of a hotkey.
#[derive(Debug, Clone, Copy, PartialEq, Eq, Structural)]
pub struct KeyModifiers {
    pub ctrl: bool,
    pub alt: bool,
    pub shift: bool,
    pub super_key: bool,
}

/// The key of a hotkey.
#[derive(Debug, Clone, Copy, PartialEq, Eq, Structural)]
pub enum Key {
    Char(char),
    F(u8),
    Numpad(u8),
    Space,
    Enter,
    Escape,
    Tab,
    Backspace,
    Delete,
    Insert,
    Home,
    End,
    PageUp,
    PageDown,
    Up,
    Down,
    Left,
    Right,
    PrintScreen,
    ScrollLock,
    Pause,
}

/// A key with its modifiers.
#[derive(Debug, Clone, Copy, PartialEq, Eq, Structural)]
pub struct Hotkey {
    pub modifiers: KeyModifiers,
    pub key: Key,
}

/// A hotkey and what it does. `seconds` is how far back a saved clip reaches,
/// zero for the whole buffer.
#[derive(Debug, Clone, Copy, PartialEq, Eq, Structural)]
pub struct HotkeyBinding {
    pub binding: Hotkey,
    pub action: HotkeyActionKind,
    pub seconds: u32,
}

/// The language of the interface.
#[derive(Debug, Clone, Copy, PartialEq, Eq, Structural)]
pub enum Language {
    English,
    Spanish,
    French,
    German,
    Russian,
    Portuguese,
    Italian,
}

#[derive(Debug)]
pub struct CaptureConfig {
    pub display: DisplaySelection,
    pub encoder: EncoderPreference,
    pub fps: u32,
    pub bitrate_kbps: u32,
    pub show_cursor: bool,
    pub stretch: bool,
    pub api: CaptureApi,
    pub method: CaptureMethod,
}

#[derive(Debug, Clone, Copy, PartialEq, Eq, Structural)]
pub struct GeneralConfig {
    pub launch_on_startup: bool,
    pub clip_sound: bool,
    pub clip_toast: bool,
    pub animations: bool,
    pub language: Language,
    pub start_minimized: bool,
    pub intro_done: bool,
}

#[derive(Debug)]
pub struct ReplayConfig {
    pub length_seconds: u32,
    pub memory_cap_mb: u32,
    pub start_on_launch: bool,
    pub temp_dir: Option<String>,
}

#[derive(Debug, Clone, Copy, PartialEq, Eq, Structural)]
pub struct UpdatesConfig {
    pub check: bool,
}

#[derive(Debug)]
pub struct DiscordConfig {
    pub enabled: bool,
    pub show_game: bool,
    pub client_id: String,
}

impl Default for DiscordConfig {
    fn default() -> (r: Self)
        ensures
            r.enabled,
            r.show_game,
            r.client_id@ == Seq::<char>::empty(),
    {
        DiscordConfig { enabled: true, show_game: true, client_id: String::new() }
    }
}

impl Clone for DiscordConfig {
    fn clone(&self) -> (r: Self)
        ensures
            r == *self,
    {
        DiscordConfig {
            enabled: self.enabled,
            show_game: self.show_game,
            client_id: self.client_id.clone(),
        }
    }
}

#[derive(Debug)]
pub struct OutputConfig {
    pub clips_dir: Option<String>,
    pub file_name_pattern: String,
    pub clips_subfolder: String,
    pub edited_subfolder: String,
}

#[derive(Debug)]
pub struct RecordingConfig {
    pub subfolder: String,
}

#[derive(Debug)]
pub struct AudioConfig {
    pub enabled: bool,
    pub separate_tracks: bool,
    pub bitrate_kbps: u32,
    pub sources: Vec<AudioSourceConfig>,
}

#[derive(Debug)]
pub struct GamesConfig {
    pub scope: CaptureScope,
    pub profiles: Vec<GameProfile>,
}

#[derive(Debug)]
pub struct HotkeyConfig {
    pub bindings: Vec<HotkeyBinding>,
}

/// Everything the user can set.
#[derive(Debug)]
pub struct Config {
    pub capture: CaptureConfig,
    pub general: GeneralConfig,
    pub replay: ReplayConfig,
    pub updates: UpdatesConfig,
    pub discord: DiscordConfig,
    pub output: OutputConfig,
    pub recording: RecordingConfig,
    pub audio: AudioConfig,
    pub games: GamesConfig,
    pub hotkeys: HotkeyConfig,
}

} // verus!
