//! The tray menu: its entries, which ANC mode and EQ preset it shows as
//! chosen, and the command each choice sends to the window.
use vstd::prelude::*;
use vstd::string::*;

verus! {

/// A request from the tray to the app window.
#[derive(Debug, Clone, Copy, PartialEq, Eq, Structural)]
pub enum TrayCommand {
    PresentWindow,
    HideWindow,
    Quit,
    SetAncMode(u8),
    SetEqPreset(u8),
}

/// How many ANC modes the tray offers.
pub const TRAY_ANC_MODES: usize = 3;

/// How many EQ presets the tray offers.
pub const TRAY_EQ_PRESETS: usize = 6;

/// The label of ANC menu entry `idx`; past the end, `Off`.
pub open spec fn anc_mode_label(idx: int) -> Seq<char> {
    if idx == 1 {
        "ANC"@
    } else if idx == 2 {
        "Transparency"@
    } else {
        "Off"@
    }
}

/// The label of EQ menu entry `idx`; past the end, `Flat`.
pub open spec fn eq_preset_label(idx: int) -> Seq<char> {
    if idx == 1 {
        "Bass Boost"@
    } else if idx == 2 {
        "Rock"@
    } else if idx == 3 {
        "Jazz"@
    } else if idx == 4 {
        "Vocal"@
    } else if idx == 5 {
        "Treble Boost"@
    } else {
        "Flat"@
    }
}

/// The label of ANC menu entry `idx`.
pub fn anc_mode_name(idx: usize) -> (r: &'static str)
    ensures
        r@ == anc_mode_label(idx as int),
{
    if idx == 1 {
        "ANC"
    } else if idx == 2 {
        "Transparency"
    } else {
        "Off"
    }
}

/// The label of EQ menu entry `idx`.
pub fn eq_preset_name(idx: usize) -> (r: &'static str)
    ensures
        r@ == eq_preset_label(idx as int),
{
    if idx == 1 {
        "Bass Boost"
    } else if idx == 2 {
        "Rock"
    } else if idx == 3 {
        "Jazz"
    } else if idx == 4 {
        "Vocal"
    } else if idx == 5 {
        "Treble Boost"
    } else {
        "Flat"
    }
}

/// The tooltip naming the chosen ANC mode and EQ preset.
pub open spec fn tooltip(anc: int, eq: int) -> Seq<char> {
    "ANC: "@ + anc_mode_label(anc) + "  •  EQ: "@ + eq_preset_label(eq)
}

/// Words the tooltip.
pub fn tooltip_text(anc: usize, eq: usize) -> (r: String)
    ensures
        r@ == tooltip(anc as int, eq as int),
{
    let mut s = String::from_str("ANC: ");
    s.append(anc_mode_name(anc));
    s.append("  •  EQ: ");
    s.append(eq_preset_name(eq));
    s
}

/// The labels of the ANC menu entries, in order.
pub fn anc_mode_options() -> (v: Vec<&'static str>)
    ensures
        v@.len() == TRAY_ANC_MODES,
        forall|i: int| 0 <= i < v@.len() ==> v@[i]@ == anc_mode_label(i),
{
    let mut v: Vec<&'static str> = Vec::new();
    let mut i: usize = 0;
    while i < TRAY_ANC_MODES
        invariant
            i <= TRAY_ANC_MODES,
            v@.len() == i,
            forall|j: int| 0 <= j < i ==> v@[j]@ == anc_mode_label(j),
        decreases TRAY_ANC_MODES - i,
    {
        v.push(anc_mode_name(i));
        i += 1;
    }
    v
}

/// The labels of the EQ menu entries, in order.
pub fn eq_preset_options() -> (v: Vec<&'static str>)
    ensures
        v@.len() == TRAY_EQ_PRESETS,
        forall|i: int| 0 <= i < v@.len() ==> v@[i]@ == eq_preset_label(i),
{
    let mut v: Vec<&'static str> = Vec::new();
    let mut i: usize = 0;
    while i < TRAY_EQ_PRESETS
        invariant
            i <= TRAY_EQ_PRESETS,
            v@.len() == i,
            forall|j: int| 0 <= j < i ==> v@[j]@ == eq_preset_label(j),
        decreases TRAY_EQ_PRESETS - i,
    {
        v.push(eq_preset_name(i));
        i += 1;
    }
    v
}

/// The two groups of choices in the tray menu.
#[derive(Debug, Clone, Copy, PartialEq, Eq, Structural)]
pub enum TrayGroup {
    /// The ANC modes; picking one is `SpacePodsTray::select_anc_mode`.
    Anc,
    /// The EQ presets; picking one is `SpacePodsTray::select_eq_preset`.
    Eq,
}

/// An entry of the tray menu.
#[derive(Debug, Clone)]
pub enum TrayMenuItem {
    /// A clickable entry that sends `command` to the window.
    Action { label: &'static str, icon: &'static str, command: TrayCommand },
    /// A heading that cannot be clicked.
    Header { label: &'static str, icon: &'static str },
    /// A group of choices of which `selected` is shown as chosen.
    Choices { group: TrayGroup, selected: usize, options: Vec<&'static str> },
    /// A line between groups.
    Separator,
}

/// The options of a group: the ANC mode or EQ preset labels, in order.
pub open spec fn lists_group(options: Seq<&'static str>, group: TrayGroup) -> bool {
    match group {
        TrayGroup::Anc => options.len() == TRAY_ANC_MODES && forall|i: int|
            0 <= i < options.len() ==> options[i]@ == anc_mode_label(i),
        TrayGroup::Eq => options.len() == TRAY_EQ_PRESETS && forall|i: int|
            0 <= i < options.len() ==> options[i]@ == eq_preset_label(i),
    }
}

/// An action entry with this label, icon and command.
pub open spec fn is_action(
    it: TrayMenuItem,
    label: Seq<char>,
    icon: Seq<char>,
    command: TrayCommand,
) -> bool {
    it matches TrayMenuItem::Action { label: l, icon: c, command: k } && l@ == label && c@ == icon
        && k == command
}

/// A heading with this label and icon.
pub open spec fn is_header(it: TrayMenuItem, label: Seq<char>, icon: Seq<char>) -> bool {
    it matches TrayMenuItem::Header { label: l, icon: c } && l@ == label && c@ == icon
}

/// A group of choices of this kind with this entry chosen.
pub open spec fn is_choices(it: TrayMenuItem, group: TrayGroup, selected: usize) -> bool {
    it matches TrayMenuItem::Choices { group: g, selected: s, options: o } && g == group && s
        == selected && lists_group(o@, group)
}

/// The menu entries the tray shows as chosen.
#[derive(Debug, Clone, Copy, PartialEq, Eq, Structural)]
pub struct SpacePodsTray {
    pub anc_mode: usize,
    pub eq_preset: usize,
}

impl SpacePodsTray {
    /// A tray showing ANC off and the flat preset.
    pub fn new() -> (t: Self)
        ensures
            t.anc_mode == 0,
            t.eq_preset == 0,
    {
        SpacePodsTray { anc_mode: 0, eq_preset: 0 }
    }

    /// The user picked ANC entry `idx`: it becomes the chosen one, and the
    /// window is asked to set the mode of that number.
    pub fn select_anc_mode(&mut self, idx: usize) -> (c: TrayCommand)
        requires
            idx < TRAY_ANC_MODES,
        ensures
            final(self).anc_mode == idx,
            final(self).eq_preset == old(self).eq_preset,
            c == TrayCommand::SetAncMode(idx as u8),
    {
        self.anc_mode = idx;
        TrayCommand::SetAncMode(idx as u8)
    }

    /// The user picked EQ entry `idx`: it becomes the chosen one, and the
    /// window is asked to apply the preset of that number.
    pub fn select_eq_preset(&mut self, idx: usize) -> (c: TrayCommand)
        requires
            idx < TRAY_EQ_PRESETS,
        ensures
            final(self).eq_preset == idx,
            final(self).anc_mode == old(self).anc_mode,
            c == TrayCommand::SetEqPreset(idx as u8),
    {
        self.eq_preset = idx;
        TrayCommand::SetEqPreset(idx as u8)
    }

    /// The app changed the ANC mode elsewhere; the menu follows.
    pub fn set_anc_mode(&mut self, mode: u8)
        ensures
            final(self).anc_mode == mode as usize,
            final(self).eq_preset == old(self).eq_preset,
    {
        self.anc_mode = mode as usize;
    }

    /// The app changed the EQ preset elsewhere; the menu follows.
    pub fn set_eq_preset(&mut self, preset: u8)
        ensures
            final(self).eq_preset == preset as usize,
            final(self).anc_mode == old(self).anc_mode,
    {
        self.eq_preset = preset as usize;
    }

    /// The tray menu, top to bottom: show the window; the ANC heading and
    /// modes; the EQ heading and presets; hide the window; quit. Separators
    /// stand between these parts.
    pub fn menu(&self) -> (m: Vec<TrayMenuItem>)
        ensures
            m@.len() == 11,
            is_action(
                m@[0],
                "Show SpacePods"@,
                "window-restore-symbolic"@,
                TrayCommand::PresentWindow,
            ),
            m@[1] is Separator,
            is_header(m@[2], "ANC Mode"@, "org.gnome.Settings-accessibility-hearing-symbolic"@),
            is_choices(m@[3], TrayGroup::Anc, self.anc_mode),
            m@[4] is Separator,
            is_header(m@[5], "EQ Preset"@, "audio-card-symbolic"@),
            is_choices(m@[6], TrayGroup::Eq, self.eq_preset),
            m@[7] is Separator,
            is_action(
                m@[8],
                "Hide window"@,
                "window-minimize-symbolic"@,
                TrayCommand::HideWindow,
            ),
            m@[9] is Separator,
            is_action(m@[10], "Quit SpacePods"@, "application-exit-symbolic"@, TrayCommand::Quit),
    {
        let mut m: Vec<TrayMenuItem> = Vec::new();
        m.push(
            TrayMenuItem::Action {
                label: "Show SpacePods",
                icon: "window-restore-symbolic",
                command: TrayCommand::PresentWindow,
            },
        );
        m.push(TrayMenuItem::Separator);
        m.push(
            TrayMenuItem::Header {
                label: "ANC Mode",
                icon: "org.gnome.Settings-accessibility-hearing-symbolic",
            },
        );
        m.push(
            TrayMenuItem::Choices {
                group: TrayGroup::Anc,
                selected: self.anc_mode,
                options: anc_mode_options(),
            },
        );
        m.push(TrayMenuItem::Separator);
        m.push(TrayMenuItem::Header { label: "EQ Preset", icon: "audio-card-symbolic" });
        m.push(
            TrayMenuItem::Choices {
                group: TrayGroup::Eq,
                selected: self.eq_preset,
                options: eq_preset_options(),
            },
        );
        m.push(TrayMenuItem::Separator);
        m.push(
            TrayMenuItem::Action {
                label: "Hide window",
                icon: "window-minimize-symbolic",
                command: TrayCommand::HideWindow,
            },
        );
        m.push(TrayMenuItem::Separator);
        m.push(
            TrayMenuItem::Action {
                label: "Quit SpacePods",
                icon: "application-exit-symbolic",
                command: TrayCommand::Quit,
            },
        );
        m
    }

    /// The tooltip for the chosen entries.
    pub fn tooltip_text(&self) -> (r: String)
        ensures
            r@ == tooltip(self.anc_mode as int, self.eq_preset as int),
    {
        tooltip_text(self.anc_mode, self.eq_preset)
    }
}

} // verus!
