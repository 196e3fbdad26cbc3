//! The choices the app's pages offer: the sidebar's pages and section
//! headings, gesture actions
//! and slots, ANC level buttons and the controls each ANC mode allows, the
//! find button, and the app's log level.
use crate::ipc::ServiceCommand;
use vstd::prelude::*;

verus! {

// ── Sidebar ──

/// A group of pages in the sidebar.
#[derive(Debug, Clone, Copy, PartialEq, Eq, Structural)]
pub enum Section {
    Audio,
    Controls,
    Health,
    Settings,
}

impl Section {
    /// The heading shown above the section; the settings have none.
    pub fn label(&self) -> (r: &'static str)
        ensures
            r@ == match *self {
                Section::Audio => "Audio"@,
                Section::Controls => "Controls"@,
                Section::Health => "Health"@,
                Section::Settings => ""@,
            },
    {
        match self {
            Section::Audio => "Audio",
            Section::Controls => "Controls",
            Section::Health => "Health",
            Section::Settings => "",
        }
    }
}

/// Whether the sidebar puts a heading before a page of `section`, when the
/// page before it was of `current` (`None` for the first page): a heading
/// starts every new section that has a label.
pub fn needs_header(current: Option<Section>, section: Section) -> (r: bool)
    ensures
        r == (current != Some(section) && section != Section::Settings),
{
    let new_section = match current {
        None => true,
        Some(s) => s != section,
    };
    new_section && !matches!(section, Section::Settings)
}

/// The space above a section heading: 4 for the first, 12 after a page.
pub fn header_margin_top(current: Option<Section>) -> (r: u8)
    ensures
        r == (if current is Some { 12u8 } else { 4u8 }),
{
    match current {
        Some(_) => 12,
        None => 4,
    }
}

/// A page of the sidebar.
#[derive(Debug, Clone, Copy)]
pub struct SidebarPage {
    pub id: &'static str,
    pub title: &'static str,
    pub icon: &'static str,
    pub section: Section,
}

/// The sidebar's page `i`: its id, title, icon and section.
pub open spec fn sidebar_page(i: int) -> (Seq<char>, Seq<char>, Seq<char>, Section) {
    if i == 0 {
        ("anc"@, "ANC"@, "org.gnome.Settings-accessibility-hearing-symbolic"@, Section::Audio)
    } else if i == 1 {
        ("eq"@, "Equalizer"@, "audio-card-symbolic"@, Section::Audio)
    } else if i == 2 {
        ("spatial"@, "3D Audio"@, "audio-speakers-symbolic"@, Section::Audio)
    } else if i == 3 {
        ("gestures"@, "Gestures"@, "input-touchpad-symbolic"@, Section::Controls)
    } else if i == 4 {
        ("gaming"@, "Game Mode"@, "input-gaming-symbolic"@, Section::Controls)
    } else if i == 5 {
        ("find"@, "Find Earbuds"@, "find-location-symbolic"@, Section::Controls)
    } else if i == 6 {
        ("hearing"@, "Hearing Health"@, "heart-symbolic"@, Section::Health)
    } else {
        ("settings"@, "Settings"@, "settings-symbolic"@, Section::Settings)
    }
}

/// How many pages the sidebar lists.
pub const SIDEBAR_PAGES: usize = 8;

fn page_at(i: usize) -> (p: SidebarPage)
    ensures
        (p.id@, p.title@, p.icon@, p.section) == sidebar_page(i as int),
{
    if i == 0 {
        SidebarPage {
            id: "anc",
            title: "ANC",
            icon: "org.gnome.Settings-accessibility-hearing-symbolic",
            section: Section::Audio,
        }
    } else if i == 1 {
        SidebarPage { id: "eq", title: "Equalizer", icon: "audio-card-symbolic", section: Section::Audio }
    } else if i == 2 {
        SidebarPage {
            id: "spatial",
            title: "3D Audio",
            icon: "audio-speakers-symbolic",
            section: Section::Audio,
        }
    } else if i == 3 {
        SidebarPage {
            id: "gestures",
            title: "Gestures",
            icon: "input-touchpad-symbolic",
            section: Section::Controls,
        }
    } else if i == 4 {
        SidebarPage {
            id: "gaming",
            title: "Game Mode",
            icon: "input-gaming-symbolic",
            section: Section::Controls,
        }
    } else if i == 5 {
        SidebarPage {
            id: "find",
            title: "Find Earbuds",
            icon: "find-location-symbolic",
            section: Section::Controls,
        }
    } else if i == 6 {
        SidebarPage {
            id: "hearing",
            title: "Hearing Health",
            icon: "heart-symbolic",
            section: Section::Health,
        }
    } else {
        SidebarPage {
            id: "settings",
            title: "Settings",
            icon: "settings-symbolic",
            section: Section::Settings,
        }
    }
}

/// The sidebar's pages, top to bottom.
pub fn sidebar_pages() -> (v: Vec<SidebarPage>)
    ensures
        v@.len() == SIDEBAR_PAGES,
        forall|i: int|
            0 <= i < SIDEBAR_PAGES ==> (v@[i].id@, v@[i].title@, v@[i].icon@, v@[i].section)
                == sidebar_page(i),
{
    let mut v: Vec<SidebarPage> = Vec::new();
    let mut i: usize = 0;
    while i < SIDEBAR_PAGES
        invariant
            i <= SIDEBAR_PAGES,
            v@.len() == i,
            forall|j: int|
                0 <= j < i ==> (v@[j].id@, v@[j].title@, v@[j].icon@, v@[j].section)
                    == sidebar_page(j),
        decreases SIDEBAR_PAGES - i,
    {
        v.push(page_at(i));
        i += 1;
    }
    v
}

// ── Gestures ──

/// The command that sets what a gesture does.
pub const CMD_KEY: u8 = 0x22;

/// What a gesture can be set to do: its label and the function number the
/// earbuds know it by.
#[derive(Debug, Clone, Copy)]
pub struct KeyAction {
    pub label: &'static str,
    pub func: u8,
}

/// The actions offered, in menu order.
pub open spec fn key_actions() -> Seq<(Seq<char>, u8)> {
    seq![
        ("No action"@, 0u8),
        ("Toggle ANC"@, 9u8),
        ("Play / Pause"@, 7u8),
        ("Next track"@, 4u8),
        ("Previous track"@, 3u8),
        ("Volume up"@, 5u8),
        ("Volume down"@, 6u8),
        ("Voice assistant"@, 2u8),
        ("Game mode"@, 8u8),
        ("Answer call"@, 1u8),
    ]
}

/// `v` lists the actions of `key_actions`, in order.
pub open spec fn lists_key_actions(v: Seq<KeyAction>) -> bool {
    &&& v.len() == key_actions().len()
    &&& forall|i: int|
        0 <= i < v.len() ==> (#[trigger] v[i]).label@ == key_actions()[i].0 && v[i].func
            == key_actions()[i].1
}

impl KeyAction {
    /// The actions offered, in menu order.
    pub fn all() -> (v: Vec<KeyAction>)
        ensures
            lists_key_actions(v@),
    {
        let v = vec![
            KeyAction { label: "No action", func: 0 },
            KeyAction { label: "Toggle ANC", func: 9 },
            KeyAction { label: "Play / Pause", func: 7 },
            KeyAction { label: "Next track", func: 4 },
            KeyAction { label: "Previous track", func: 3 },
            KeyAction { label: "Volume up", func: 5 },
            KeyAction { label: "Volume down", func: 6 },
            KeyAction { label: "Voice assistant", func: 2 },
            KeyAction { label: "Game mode", func: 8 },
            KeyAction { label: "Answer call", func: 1 },
        ];
        assert(v@[0].label@ == key_actions()[0].0);
        v
    }
}

/// The menu entry of the action with function number `func`: the first
/// whose number matches.
pub fn action_position(actions: &Vec<KeyAction>, func: u8) -> (r: Option<usize>)
    ensures
        match r {
            Some(i) => i < actions@.len() && actions@[i as int].func == func && forall|j: int|
                0 <= j < i ==> actions@[j].func != func,
            None => forall|j: int| 0 <= j < actions@.len() ==> actions@[j].func != func,
        },
{
    let mut i: usize = 0;
    while i < actions.len()
        invariant
            i <= actions@.len(),
            forall|j: int| 0 <= j < i ==> actions@[j].func != func,
        decreases actions.len() - i,
    {
        if actions[i].func == func {
            return Some(i);
        }
        i += 1;
    }
    None
}

/// The payload that sets gesture `key_type` to do `func`.
pub fn key_setting_payload(key_type: u8, func: u8) -> (p: Vec<u8>)
    ensures
        p@ == seq![key_type, 1u8, func],
{
    vec![key_type, 1, func]
}

/// Whether some action of the menu has function number `f`.
pub open spec fn offers_function(f: u8) -> bool {
    exists|i: int| 0 <= i < key_actions().len() && #[trigger] key_actions()[i].1 == f
}

/// Every function the earbuds know (0 to 9) is offered exactly once.
pub proof fn law_key_actions_cover_functions()
    ensures
        forall|f: u8| f < 10 ==> #[trigger] offers_function(f),
        forall|i: int, j: int|
            0 <= i < j < key_actions().len() ==> #[trigger] key_actions()[i].1
                != #[trigger] key_actions()[j].1,
{
    let a = key_actions();
    assert(a[0].1 == 0 && a[9].1 == 1 && a[7].1 == 2 && a[4].1 == 3 && a[3].1 == 4);
    assert(a[5].1 == 5 && a[6].1 == 6 && a[2].1 == 7 && a[8].1 == 8 && a[1].1 == 9);
    assert forall|f: u8| f < 10 implies #[trigger] offers_function(f) by {
        if f == 0 {
            assert(a[0].1 == f);
        } else if f == 1 {
            assert(a[9].1 == f);
        } else if f == 2 {
            assert(a[7].1 == f);
        } else if f == 3 {
            assert(a[4].1 == f);
        } else if f == 4 {
            assert(a[3].1 == f);
        } else if f == 5 {
            assert(a[5].1 == f);
        } else if f == 6 {
            assert(a[6].1 == f);
        } else if f == 7 {
            assert(a[2].1 == f);
        } else if f == 8 {
            assert(a[8].1 == f);
        } else {
            assert(a[1].1 == f);
        }
    }
}

/// A gesture the app lets the user set: its label and key type.
#[derive(Debug, Clone, Copy)]
pub struct GestureSlot {
    pub label: &'static str,
    pub key_type: u8,
}

/// The gestures of one earbud, in menu order: single, double and triple
/// tap, long press; left key types are odd, right ones even.
pub open spec fn slots_of(v: Seq<GestureSlot>, right: bool) -> bool {
    &&& v.len() == 4
    &&& v[0].label@ == "Single tap"@
    &&& v[1].label@ == "Double tap"@
    &&& v[2].label@ == "Triple tap"@
    &&& v[3].label@ == "Long press"@
    &&& forall|i: int| 0 <= i < 4 ==> (#[trigger] v[i]).key_type == 2 * i + (if right {
        2int
    } else {
        1int
    })
}

/// The left earbud's gestures.
pub fn left_slots() -> (v: Vec<GestureSlot>)
    ensures
        slots_of(v@, false),
{
    vec![
        GestureSlot { label: "Single tap", key_type: 1 },
        GestureSlot { label: "Double tap", key_type: 3 },
        GestureSlot { label: "Triple tap", key_type: 5 },
        GestureSlot { label: "Long press", key_type: 7 },
    ]
}

/// The right earbud's gestures.
pub fn right_slots() -> (v: Vec<GestureSlot>)
    ensures
        slots_of(v@, true),
{
    vec![
        GestureSlot { label: "Single tap", key_type: 2 },
        GestureSlot { label: "Double tap", key_type: 4 },
        GestureSlot { label: "Triple tap", key_type: 6 },
        GestureSlot { label: "Long press", key_type: 8 },
    ]
}

// ── Device switches ──

/// An on/off setting a page switches by sending its command with a
/// single byte, 1 for on and 0 for off.
#[derive(Debug, Clone, Copy, PartialEq, Eq, Structural)]
pub enum DeviceSwitch {
    ChatMode,
    LongEndurance,
    FindDevice,
    GameMode,
    AreaTap,
    SpatialAudio,
    Led,
    InEarDetection,
    AdaptiveVolume,
    AutoAnswer,
    VoicePrompts,
}

/// The command byte of a switch.
pub open spec fn switch_command_id(s: DeviceSwitch) -> u8 {
    match s {
        DeviceSwitch::ChatMode => 0x35,
        DeviceSwitch::LongEndurance => 0x38,
        DeviceSwitch::FindDevice => 0x2A,
        DeviceSwitch::GameMode => 0x25,
        DeviceSwitch::AreaTap => 0x34,
        DeviceSwitch::SpatialAudio => 0x36,
        DeviceSwitch::Led => 0x2E,
        DeviceSwitch::InEarDetection => 0x26,
        DeviceSwitch::AdaptiveVolume => 0x45,
        DeviceSwitch::AutoAnswer => 0x47,
        DeviceSwitch::VoicePrompts => 0x48,
    }
}

impl DeviceSwitch {
    /// The command byte of this switch.
    pub fn command_id(self) -> (id: u8)
        ensures
            id == switch_command_id(self),
    {
        match self {
            DeviceSwitch::ChatMode => 0x35,
            DeviceSwitch::LongEndurance => 0x38,
            DeviceSwitch::FindDevice => 0x2A,
            DeviceSwitch::GameMode => 0x25,
            DeviceSwitch::AreaTap => 0x34,
            DeviceSwitch::SpatialAudio => 0x36,
            DeviceSwitch::Led => 0x2E,
            DeviceSwitch::InEarDetection => 0x26,
            DeviceSwitch::AdaptiveVolume => 0x45,
            DeviceSwitch::AutoAnswer => 0x47,
            DeviceSwitch::VoicePrompts => 0x48,
        }
    }

    /// The daemon request that turns this switch on or off.
    pub fn request(self, on: bool) -> (c: ServiceCommand)
        ensures
            c matches ServiceCommand::Custom { command_id, payload } && command_id
                == switch_command_id(self) && payload@ == seq![if on { 1u8 } else { 0u8 }],
    {
        ServiceCommand::Custom {
            command_id: self.command_id(),
            payload: vec![
                if on {
                    1
                } else {
                    0
                },
            ],
        }
    }
}

/// The daemon request that sets the prompt tone volume.
pub fn tone_volume_request(level: u8) -> (c: ServiceCommand)
    ensures
        c matches ServiceCommand::Custom { command_id, payload } && command_id == 0x46
            && payload@ == seq![level],
{
    ServiceCommand::Custom { command_id: 0x46, payload: vec![level] }
}

// ── ANC level buttons ──

/// The three level buttons of the ANC page.
#[derive(Debug, Clone, Copy, PartialEq, Eq, Structural)]
pub enum LevelChoice {
    Low,
    Medium,
    High,
}

/// The button that shows a reported level: 1–2 low, 3 medium, 4–5 high,
/// none otherwise.
pub open spec fn choice_for_level(level: u8) -> Option<LevelChoice> {
    if 1 <= level <= 2 {
        Some(LevelChoice::Low)
    } else if level == 3 {
        Some(LevelChoice::Medium)
    } else if 4 <= level <= 5 {
        Some(LevelChoice::High)
    } else {
        None
    }
}

/// The level a button sends.
pub open spec fn level_of_choice(c: LevelChoice) -> u8 {
    match c {
        LevelChoice::Low => 1,
        LevelChoice::Medium => 3,
        LevelChoice::High => 5,
    }
}

impl LevelChoice {
    /// The button that shows a reported level.
    pub fn for_level(level: u8) -> (r: Option<LevelChoice>)
        ensures
            r == choice_for_level(level),
    {
        if 1 <= level && level <= 2 {
            Some(LevelChoice::Low)
        } else if level == 3 {
            Some(LevelChoice::Medium)
        } else if 4 <= level && level <= 5 {
            Some(LevelChoice::High)
        } else {
            None
        }
    }

    /// The level this button sends.
    pub fn level(self) -> (l: u8)
        ensures
            l == level_of_choice(self),
    {
        match self {
            LevelChoice::Low => 1,
            LevelChoice::Medium => 3,
            LevelChoice::High => 5,
        }
    }
}

/// Pressing a level button and reading the level back lights the same
/// button.
pub proof fn law_level_choice_roundtrip(c: LevelChoice)
    ensures
        choice_for_level(level_of_choice(c)) == Some(c),
{
}

// ── ANC mode controls ──

/// Which ANC page controls can be used in a mode.
#[derive(Debug, Clone, Copy, PartialEq, Eq, Structural)]
pub struct ModeControls {
    /// The three level buttons: usable unless ANC is off.
    pub levels: bool,
    /// The adaptive ANC switch: usable only in mode 1 (noise cancelling).
    pub adaptive: bool,
}

/// The controls usable in ANC mode `mode` (0 off, 1 noise cancelling,
/// 2 transparency).
pub fn mode_controls(mode: u8) -> (c: ModeControls)
    ensures
        c.levels == (mode != 0),
        c.adaptive == (mode == 1),
{
    ModeControls { levels: mode != 0, adaptive: mode == 1 }
}

/// The mode the page shows once a change from `previous` to `requested` has
/// been answered: the requested one if the change went through, else the
/// previous one again.
pub fn mode_after_change(previous: u8, requested: u8, succeeded: bool) -> (m: u8)
    ensures
        m == (if succeeded { requested } else { previous }),
{
    if succeeded {
        requested
    } else {
        previous
    }
}

// ── Find my earbuds ──

/// What a press of the find button does.
#[derive(Debug, Clone, Copy, PartialEq, Eq, Structural)]
pub enum FindClick {
    /// The earbuds are ringing: stop them.
    Stop,
    /// Start ringing the chosen earbuds.
    Start,
    /// Nothing is ringing and no earbud is chosen: ask for one.
    NeedEarbud,
}

/// The press of the find button while `finding`, with the left and right
/// earbuds chosen or not.
pub fn find_click(finding: bool, left: bool, right: bool) -> (c: FindClick)
    ensures
        c == (if finding {
            FindClick::Stop
        } else if left || right {
            FindClick::Start
        } else {
            FindClick::NeedEarbud
        }),
{
    if finding {
        FindClick::Stop
    } else if left || right {
        FindClick::Start
    } else {
        FindClick::NeedEarbud
    }
}

/// Whether the earbuds count as ringing after a press and the answer to its
/// request: a stop ends it whatever the answer, a start lasts only if its
/// request went through.
pub fn finding_after(click: FindClick, sent: bool) -> (f: bool)
    ensures
        f == (click == FindClick::Start && sent),
{
    match click {
        FindClick::Start => sent,
        _ => false,
    }
}

/// The find button's label.
pub fn find_button_label(finding: bool) -> (r: &'static str)
    ensures
        r@ == (if finding { "Stop Finding"@ } else { "Start Finding"@ }),
{
    if finding {
        "Stop Finding"
    } else {
        "Start Finding"
    }
}

/// The status line after a press.
pub fn find_status_text(click: FindClick, left: bool, right: bool) -> (r: &'static str)
    ensures
        r@ == match click {
            FindClick::Stop => ""@,
            FindClick::NeedEarbud => "Please select at least one earbud"@,
            FindClick::Start => if left && right {
                "Playing stereo beep on both earbuds..."@
            } else if left {
                "Playing beep on LEFT earbud..."@
            } else {
                "Playing beep on RIGHT earbud..."@
            },
        },
{
    match click {
        FindClick::Stop => "",
        FindClick::NeedEarbud => "Please select at least one earbud",
        FindClick::Start => if left && right {
            "Playing stereo beep on both earbuds..."
        } else if left {
            "Playing beep on LEFT earbud..."
        } else {
            "Playing beep on RIGHT earbud..."
        },
    }
}

// ── Log level ──

/// How much the app logs.
#[derive(Debug, Clone, Copy, PartialEq, Eq, PartialOrd, Ord, Structural)]
pub enum Level {
    /// Only errors and warnings.
    Info,
    /// And important state transitions.
    Warn,
    /// And verbose diagnostics.
    Full,
}

/// The rank a level is stored as.
pub open spec fn rank_of(l: Level) -> u8 {
    match l {
        Level::Info => 0,
        Level::Warn => 1,
        Level::Full => 2,
    }
}

/// The level a stored rank stands for; anything above 1 is Full.
pub open spec fn level_of(rank: u8) -> Level {
    if rank == 0 {
        Level::Info
    } else if rank == 1 {
        Level::Warn
    } else {
        Level::Full
    }
}

/// The app's log level, stored as its rank.
#[derive(Debug, Clone, Copy)]
pub struct Log {
    rank: u8,
}

impl Log {
    /// The level this setting stands for.
    pub closed spec fn current(self) -> Level {
        level_of(self.rank)
    }

    /// A log at Info.
    pub fn new() -> (l: Self)
        ensures
            l.current() == Level::Info,
    {
        Log { rank: 0 }
    }

    /// Sets the level.
    pub fn set_level(&mut self, level: Level)
        ensures
            final(self).current() == level,
    {
        self.rank = match level {
            Level::Info => 0,
            Level::Warn => 1,
            Level::Full => 2,
        };
    }

    /// The level set last.
    pub fn level(&self) -> (l: Level)
        ensures
            l == self.current(),
    {
        match self.rank {
            0 => Level::Info,
            1 => Level::Warn,
            _ => Level::Full,
        }
    }

    /// Whether a message of level `needed` is printed.
    pub fn shows(&self, needed: Level) -> (r: bool)
        ensures
            r == (rank_of(self.current()) >= rank_of(needed)),
    {
        let have: u8 = match self.level() {
            Level::Info => 0,
            Level::Warn => 1,
            Level::Full => 2,
        };
        let need: u8 = match needed {
            Level::Info => 0,
            Level::Warn => 1,
            Level::Full => 2,
        };
        have >= need
    }
}

} // verus!
