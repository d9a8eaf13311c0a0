//! The terminal interface's state and decisions: tabs, modes, the editor's
//! fields and how keys move between them, the events filter.
use vstd::prelude::*;
use crate::config::ThermalProfile;
use crate::ipc::EventType;

verus! {

/// What the interface is doing.
#[derive(Debug, Clone, Copy, PartialEq, Eq, Structural)]
pub enum AppMode {
    Monitoring,
    Editing,
    Help,
    Popup(PopupType),
}

/// Modal popups.
#[derive(Debug, Clone, Copy, PartialEq, Eq, Structural)]
pub enum PopupType {
    ConfirmExit,
}

/// The tabs, in display order.
#[derive(Debug, Clone, Copy, PartialEq, Eq, Structural)]
pub enum Tab {
    Status,
    Battery,
    CPU,
    Thermal,
    Events,
}

pub open spec fn tab_index(t: Tab) -> int {
    match t {
        Tab::Status => 0,
        Tab::Battery => 1,
        Tab::CPU => 2,
        Tab::Thermal => 3,
        Tab::Events => 4,
    }
}

pub open spec fn tab_at(i: int) -> Tab {
    if i == 1 {
        Tab::Battery
    } else if i == 2 {
        Tab::CPU
    } else if i == 3 {
        Tab::Thermal
    } else if i == 4 {
        Tab::Events
    } else {
        Tab::Status
    }
}

impl Tab {
    /// The number of tabs.
    pub const COUNT: usize = 5;

    /// The tab titles, in display order.
    pub fn titles() -> (r: &'static [&'static str])
        ensures
            r@.len() == 5,
            r@[0]@ == "Status"@,
            r@[1]@ == "Battery"@,
            r@[2]@ == "CPU"@,
            r@[3]@ == "Thermal"@,
            r@[4]@ == "Events"@,
    {
        &["Status", "Battery", "CPU", "Thermal", "Events"]
    }

    /// The tab at a position; out-of-range positions give the status tab.
    pub fn from_index(index: usize) -> (r: Tab)
        ensures
            r == tab_at(index as int),
    {
        match index {
            1 => Tab::Battery,
            2 => Tab::CPU,
            3 => Tab::Thermal,
            4 => Tab::Events,
            _ => Tab::Status,
        }
    }

    /// The tab's position.
    pub fn to_index(self) -> (r: usize)
        ensures
            r == tab_index(self),
    {
        match self {
            Tab::Status => 0,
            Tab::Battery => 1,
            Tab::CPU => 2,
            Tab::Thermal => 3,
            Tab::Events => 4,
        }
    }

    /// The next tab, wrapping from the last to the first.
    pub fn next(self) -> (r: Tab)
        ensures
            r == tab_at((tab_index(self) + 1) % 5),
    {
        Self::from_index((self.to_index() + 1) % Self::COUNT)
    }

    /// The previous tab, wrapping from the first to the last.
    pub fn previous(self) -> (r: Tab)
        ensures
            r == tab_at((tab_index(self) + 4) % 5),
    {
        Self::from_index((self.to_index() + Self::COUNT - 1) % Self::COUNT)
    }
}

/// Positions and tabs correspond one to one; `next` and `previous` undo each
/// other, and five steps of either come back to the start.
pub proof fn lemma_tab_laws(t: Tab, i: int)
    ensures
        tab_at(tab_index(t)) == t,
        0 <= i < 5 ==> tab_index(tab_at(i)) == i,
        tab_at((tab_index(tab_at((tab_index(t) + 1) % 5)) + 4) % 5) == t,
        tab_at((tab_index(tab_at((tab_index(t) + 4) % 5)) + 1) % 5) == t,
{
}

/// The editable configuration fields.
#[derive(Debug, Clone, Copy, PartialEq, Eq, Structural)]
pub enum EditField {
    BatteryThreshold,
    BatteryForceCharge,
    CpuGovernorAc,
    CpuGovernorBattery,
    CpuMinFreqKhz,
    CpuMaxFreqKhz,
    ThermalProfile,
    ThermalFanOff,
    ThermalHigh,
    ThermalWarn,
    ThermalFanMax,
    ThermalShutdown,
}

/// A one-line description of what each field does.
pub fn field_description(field: EditField) -> (r: &'static str)
    ensures
        r@ == match field {
            EditField::BatteryThreshold => "stop charging above this %"@,
            EditField::BatteryForceCharge => "one-shot charge to 100%"@,
            EditField::CpuGovernorAc => "governor on AC power"@,
            EditField::CpuGovernorBattery => "governor on battery"@,
            EditField::CpuMinFreqKhz => "min CPU freq (u=unlimited)"@,
            EditField::CpuMaxFreqKhz => "max CPU freq (u=unlimited)"@,
            EditField::ThermalProfile => "thermal preset"@,
            EditField::ThermalFanOff => "fan stops below this"@,
            EditField::ThermalHigh => "triggers throttling"@,
            EditField::ThermalWarn => "triggers caution"@,
            EditField::ThermalFanMax => "fan at max speed"@,
            EditField::ThermalShutdown => "emergency shutdown"@,
        },
{
    match field {
        EditField::BatteryThreshold => "stop charging above this %",
        EditField::BatteryForceCharge => "one-shot charge to 100%",
        EditField::CpuGovernorAc => "governor on AC power",
        EditField::CpuGovernorBattery => "governor on battery",
        EditField::CpuMinFreqKhz => "min CPU freq (u=unlimited)",
        EditField::CpuMaxFreqKhz => "max CPU freq (u=unlimited)",
        EditField::ThermalProfile => "thermal preset",
        EditField::ThermalFanOff => "fan stops below this",
        EditField::ThermalHigh => "triggers throttling",
        EditField::ThermalWarn => "triggers caution",
        EditField::ThermalFanMax => "fan at max speed",
        EditField::ThermalShutdown => "emergency shutdown",
    }
}

/// The human-readable name of a thermal profile.
pub fn thermal_profile_name(p: &ThermalProfile) -> (r: &'static str)
    ensures
        r@ == match *p {
            ThermalProfile::Conservative => "Conservative"@,
            ThermalProfile::Balanced => "Balanced"@,
            ThermalProfile::Performance => "Performance"@,
            ThermalProfile::Custom => "Custom"@,
        },
{
    match p {
        ThermalProfile::Conservative => "Conservative",
        ThermalProfile::Balanced => "Balanced",
        ThermalProfile::Performance => "Performance",
        ThermalProfile::Custom => "Custom",
    }
}

pub open spec fn event_tag_spec(et: EventType) -> Seq<char> {
    match et {
        EventType::ConfigChanged => "CFG"@,
        EventType::CommandExecuted => "CMD"@,
        EventType::HardwareAction => "HW"@,
        EventType::Error => "ERR"@,
        EventType::ServiceStart => "STA"@,
        EventType::ServiceStop => "STP"@,
    }
}

/// The colors the interface paints with.
#[derive(Debug, Clone, Copy, PartialEq, Eq, Structural)]
pub enum Tone {
    Cyan,
    White,
    Yellow,
    Red,
    Green,
    Blue,
    Magenta,
    DarkGray,
}

/// An event type's short tag and its color.
#[derive(Debug, Clone, Copy)]
pub struct EventTypeTag {
    pub tag: &'static str,
    pub color: Tone,
}

pub open spec fn event_tone(et: EventType) -> Tone {
    match et {
        EventType::ConfigChanged => Tone::Cyan,
        EventType::CommandExecuted => Tone::Blue,
        EventType::HardwareAction => Tone::Magenta,
        EventType::Error => Tone::Red,
        EventType::ServiceStart => Tone::Green,
        EventType::ServiceStop => Tone::Yellow,
    }
}

/// The short tag shown for an event type, with its color.
pub fn event_type_tag(et: &EventType) -> (r: EventTypeTag)
    ensures
        r.tag@ == event_tag_spec(*et),
        r.color == event_tone(*et),
{
    match et {
        EventType::ConfigChanged => EventTypeTag { tag: "CFG", color: Tone::Cyan },
        EventType::CommandExecuted => EventTypeTag { tag: "CMD", color: Tone::Blue },
        EventType::HardwareAction => EventTypeTag { tag: "HW", color: Tone::Magenta },
        EventType::Error => EventTypeTag { tag: "ERR", color: Tone::Red },
        EventType::ServiceStart => EventTypeTag { tag: "STA", color: Tone::Green },
        EventType::ServiceStop => EventTypeTag { tag: "STP", color: Tone::Yellow },
    }
}

/// The color of a temperature reading (°C): red from 70, yellow from 55,
/// green below.
pub fn zone_temp_color(temp: i32) -> (r: Tone)
    ensures
        r == if temp >= 70 { Tone::Red } else if temp >= 55 { Tone::Yellow } else { Tone::Green },
{
    if temp >= 70 {
        Tone::Red
    } else if temp >= 55 {
        Tone::Yellow
    } else {
        Tone::Green
    }
}

/// The color of the battery gauge: green while charging, red below 20 %,
/// yellow otherwise.
pub fn gauge_tone(capacity: u8, charging: bool) -> (r: Tone)
    ensures
        r == if charging { Tone::Green } else if capacity < 20 { Tone::Red } else { Tone::Yellow },
{
    if charging {
        Tone::Green
    } else if capacity < 20 {
        Tone::Red
    } else {
        Tone::Yellow
    }
}

/// A frequency reading for display: "n/a" when unknown, else in kHz.
pub fn freq_reading(khz: Option<u32>) -> (r: String)
    ensures
        r@ == match khz {
            None => "n/a"@,
            Some(f) => crate::text::decimal(f as nat) + " kHz"@,
        },
{
    match khz {
        None => String::from_str("n/a"),
        Some(f) => {
            let mut s = crate::text::decimal_string(f as u64);
            s.append(" kHz");
            s
        },
    }
}

/// A whole number with its sign, as written in decimal.
pub open spec fn signed_decimal(v: int) -> Seq<char> {
    if v < 0 {
        "-"@ + crate::text::decimal((-v) as nat)
    } else {
        crate::text::decimal(v as nat)
    }
}

/// A temperature for display, in °C.
pub fn temp_reading(temp: i32) -> (r: String)
    ensures
        r@ == signed_decimal(temp as int) + "°C"@,
{
    let mut s = if temp < 0 {
        let mut m = String::from_str("-");
        let magnitude: u64 = (-(temp as i64)) as u64;
        let d = crate::text::decimal_string(magnitude);
        m.append(d.as_str());
        m
    } else {
        crate::text::decimal_string(temp as u64)
    };
    s.append("°C");
    s
}

/// The words and colors of the battery's live status: whether it charges,
/// whether AC is connected, whether the threshold is holding the charge.
pub fn charging_words(charging: bool) -> (r: (&'static str, Tone))
    ensures
        r.0@ == (if charging { "CHARGING"@ } else { "idle"@ }),
        r.1 == (if charging { Tone::Green } else { Tone::Yellow }),
{
    if charging {
        ("CHARGING", Tone::Green)
    } else {
        ("idle", Tone::Yellow)
    }
}

pub fn ac_words(connected: bool) -> (r: (&'static str, Tone))
    ensures
        r.0@ == (if connected { "Connected"@ } else { "Disconnected"@ }),
        r.1 == (if connected { Tone::Green } else { Tone::Red }),
{
    if connected {
        ("Connected", Tone::Green)
    } else {
        ("Disconnected", Tone::Red)
    }
}

/// The threshold's state; `idle_tone` is the color for an inactive
/// threshold, which the tabs choose differently.
pub fn threshold_words(active: bool, idle_tone: Tone) -> (r: (&'static str, Tone))
    ensures
        r.0@ == (if active { "Active"@ } else { "Inactive"@ }),
        r.1 == (if active { Tone::Green } else { idle_tone }),
{
    if active {
        ("Active", Tone::Green)
    } else {
        ("Inactive", idle_tone)
    }
}

/// The battery threshold field's color and note: greyed out, with a note,
/// while force charge overrides it.
pub fn threshold_field_look(force_charge: bool) -> (r: (Tone, &'static str))
    ensures
        r.0 == (if force_charge { Tone::DarkGray } else { Tone::Cyan }),
        r.1@ == (if force_charge { " (inactive — force charge on)"@ } else { ""@ }),
{
    if force_charge {
        (Tone::DarkGray, " (inactive — force charge on)")
    } else {
        (Tone::Cyan, "")
    }
}

} // verus!

verus! {

/// A rectangle of terminal cells.
#[derive(Debug, Clone, Copy, PartialEq, Eq, Structural)]
pub struct Area {
    pub x: u16,
    pub y: u16,
    pub width: u16,
    pub height: u16,
}

/// A `width` × `height` box centered in `area` (shrunk to fit it).
pub fn centered_rect(width: u16, height: u16, area: Area) -> (r: Area)
    requires
        area.x + (if area.width > width { area.width - width } else { 0 }) / 2 <= u16::MAX,
        area.y + (if area.height > height { area.height - height } else { 0 }) / 2 <= u16::MAX,
    ensures
        r.x == area.x + (if area.width > width { area.width - width } else { 0 }) / 2,
        r.y == area.y + (if area.height > height { area.height - height } else { 0 }) / 2,
        r.width == if width < area.width { width } else { area.width },
        r.height == if height < area.height { height } else { area.height },
{
    let free_w: u16 = if area.width > width { area.width - width } else { 0 };
    let free_h: u16 = if area.height > height { area.height - height } else { 0 };
    Area {
        x: area.x + free_w / 2,
        y: area.y + free_h / 2,
        width: if width < area.width { width } else { area.width },
        height: if height < area.height { height } else { area.height },
    }
}

pub open spec fn mode_label_spec(mode: AppMode) -> Seq<char> {
    match mode {
        AppMode::Monitoring => "MONITOR"@,
        AppMode::Editing => "EDIT"@,
        AppMode::Help => "HELP"@,
        AppMode::Popup(_) => "POPUP"@,
    }
}

/// The footer's text: the mode, whether the service is online, and the
/// message when there is one (else the key hints).
pub fn footer_text(mode: AppMode, service_available: bool, message: Option<&str>) -> (r: String)
    ensures
        r@ == " "@ + mode_label_spec(mode) + " | "@ + (if service_available {
            "Service: Online"@
        } else {
            "Service: Offline"@
        }) + " | "@ + match message {
            Some(m) => m@,
            None => "Press 'h' for help, 'q' to quit"@,
        },
{
    let label: &str = match mode {
        AppMode::Monitoring => "MONITOR",
        AppMode::Editing => "EDIT",
        AppMode::Help => "HELP",
        AppMode::Popup(_) => "POPUP",
    };
    let mut s = String::from_str(" ");
    s.append(label);
    s.append(" | ");
    s.append(if service_available { "Service: Online" } else { "Service: Offline" });
    s.append(" | ");
    match message {
        Some(m) => s.append(m),
        None => s.append("Press 'h' for help, 'q' to quit"),
    }
    s
}

} // verus!
