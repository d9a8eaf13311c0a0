//! The terminal interface's application state and the decisions it takes on
//! each key: modes and tabs, the field editor, the events filter, and what the
//! screen asks of the service.
use vstd::prelude::*;
use crate::config::{BatteryConfig, Config, CpuConfig, CpuGovernor, ThermalConfig, ThermalProfile};
use crate::ipc::{Command, EventType};
use crate::tui::{AppMode, EditField, PopupType, Tab, Tone};

verus! {

/// A key, as the interface sees it.
#[derive(Debug, Clone, Copy, PartialEq, Eq, Structural)]
pub enum Key {
    Char(char),
    Esc,
    Enter,
    Tab,
    BackTab,
    Left,
    Right,
    Up,
    Down,
    F(u8),
    Other,
}

/// A key press: the key, and whether Control was held.
#[derive(Debug, Clone, Copy, PartialEq, Eq, Structural)]
pub struct KeyPress {
    pub code: Key,
    pub ctrl: bool,
}

/// What the program around the interface has to do after a key.
#[derive(Debug)]
pub enum KeyAction {
    Nothing,
    /// Read the status, events and configuration again.
    Refresh,
    /// Send this command to the service.
    Send(Command),
    /// Send the configuration being edited to the service (as an
    /// `ApplyConfig` command), then report with `finish_apply`.
    PushConfig,
}

/// How reading the service's status went.
#[derive(Debug)]
pub enum StatusRead {
    /// A status was there.
    Found,
    /// No status has been written: the service is not running.
    Missing,
    /// Reading failed.
    Failed(crate::error::SpinCtrlError),
}

/// The state of the terminal interface that its decisions read and change.
pub struct App {
    pub should_quit: bool,
    pub mode: AppMode,
    pub selected_tab: Tab,
    pub config: Config,
    /// The configuration as it was when editing began; Esc restores it.
    pub config_backup: Config,
    /// The events filter: `None` shows every event.
    pub event_filter: Option<EventType>,
    pub service_available: bool,
    pub error_message: Option<String>,
    pub editing_field: Option<EditField>,
    pub scroll_offset: usize,
    pub selected_item: usize,
    pub available_governors: Vec<CpuGovernor>,
    /// The frequencies (kHz) the hardware supports, when known; validation
    /// checks the frequency limits against them.
    pub available_frequencies: Option<Vec<u32>>,
    /// The frequency range (kHz) that the frequency fields move in.
    pub freq_range: (u32, u32),
}

/// The view of an optional frequency list.
pub open spec fn freqs_view(f: Option<Vec<u32>>) -> Option<Seq<u32>> {
    match f {
        Some(v) => Some(v@),
        None => None,
    }
}

/// The range used when the hardware lists no usable frequencies.
pub open spec fn fallback_freq_range() -> (u32, u32) {
    (400_000u32, 3_500_000u32)
}

/// The frequency range for a hardware frequency list: its smallest and
/// largest entry when they differ, the fallback range otherwise.
pub open spec fn freq_range_for(available: Option<Seq<u32>>) -> (u32, u32) {
    match available {
        Some(f) => if f.len() > 0 && crate::config::seq_min(f) < crate::config::seq_max(f) {
            (crate::config::seq_min(f), crate::config::seq_max(f))
        } else {
            fallback_freq_range()
        },
        None => fallback_freq_range(),
    }
}

/// The field that editing starts on for a tab, if the tab has editable fields.
pub open spec fn first_field(tab: Tab, force_charge: bool) -> Option<EditField> {
    match tab {
        Tab::Battery => if force_charge {
            Some(EditField::BatteryForceCharge)
        } else {
            Some(EditField::BatteryThreshold)
        },
        Tab::CPU => Some(EditField::CpuGovernorAc),
        Tab::Thermal => Some(EditField::ThermalProfile),
        _ => None,
    }
}

/// The field that Tab moves to; `None` ends editing.
pub open spec fn following_field(cur: EditField, tab: Tab, force_charge: bool) -> Option<EditField> {
    match (cur, tab) {
        (EditField::BatteryThreshold, Tab::Battery) => Some(EditField::BatteryForceCharge),
        (EditField::BatteryForceCharge, Tab::Battery) => if force_charge {
            None
        } else {
            Some(EditField::BatteryThreshold)
        },
        (EditField::CpuGovernorAc, Tab::CPU) => Some(EditField::CpuGovernorBattery),
        (EditField::CpuGovernorBattery, Tab::CPU) => Some(EditField::CpuMinFreqKhz),
        (EditField::CpuMinFreqKhz, Tab::CPU) => Some(EditField::CpuMaxFreqKhz),
        (EditField::CpuMaxFreqKhz, Tab::CPU) => Some(EditField::CpuGovernorAc),
        (EditField::ThermalProfile, Tab::Thermal) => Some(EditField::ThermalFanOff),
        (EditField::ThermalFanOff, Tab::Thermal) => Some(EditField::ThermalHigh),
        (EditField::ThermalHigh, Tab::Thermal) => Some(EditField::ThermalWarn),
        (EditField::ThermalWarn, Tab::Thermal) => Some(EditField::ThermalFanMax),
        (EditField::ThermalFanMax, Tab::Thermal) => Some(EditField::ThermalShutdown),
        (EditField::ThermalShutdown, Tab::Thermal) => Some(EditField::ThermalProfile),
        _ => None,
    }
}

/// The bounds of a numeric field: (lowest, highest) for the temperature and
/// threshold fields, the frequency range for the frequency fields.
pub open spec fn field_bounds(field: EditField, freq_range: (u32, u32)) -> Option<(u32, u32)> {
    match field {
        EditField::BatteryThreshold => Some((50u32, 100u32)),
        EditField::CpuMinFreqKhz => Some(freq_range),
        EditField::CpuMaxFreqKhz => Some(freq_range),
        EditField::ThermalWarn => Some((40u32, 100u32)),
        EditField::ThermalHigh => Some((30u32, 90u32)),
        EditField::ThermalShutdown => Some((50u32, 110u32)),
        EditField::ThermalFanOff => Some((20u32, 80u32)),
        EditField::ThermalFanMax => Some((40u32, 100u32)),
        _ => None,
    }
}

/// What the track bar of the field being edited shows: bounds, the current
/// value (an unlimited frequency sits at the top of the range) and the color.
pub open spec fn track_of(c: Config, field: EditField, freq_range: (u32, u32)) -> Option<(u32, u32, u32, Tone)> {
    match field {
        EditField::BatteryThreshold => Some((50u32, 100u32, c.battery.threshold as u32, Tone::Cyan)),
        EditField::CpuMinFreqKhz => Some((freq_range.0, freq_range.1, match c.cpu.min_freq_khz {
            Some(v) => v,
            None => freq_range.1,
        }, Tone::White)),
        EditField::CpuMaxFreqKhz => Some((freq_range.0, freq_range.1, match c.cpu.max_freq_khz {
            Some(v) => v,
            None => freq_range.1,
        }, Tone::White)),
        EditField::ThermalWarn => Some((40u32, 100u32, c.thermal.warn_temp as u32, Tone::Yellow)),
        EditField::ThermalHigh => Some((30u32, 90u32, c.thermal.high_temp as u32, Tone::Yellow)),
        EditField::ThermalShutdown => Some((50u32, 110u32, c.thermal.shutdown_temp as u32, Tone::Red)),
        EditField::ThermalFanOff => Some((20u32, 80u32, c.thermal.fan_off_temp as u32, Tone::Green)),
        EditField::ThermalFanMax => Some((40u32, 100u32, c.thermal.fan_max_temp as u32, Tone::Red)),
        _ => None,
    }
}

/// The filter after `f` on the events tab: none, then each event type in
/// turn, then none again.
pub open spec fn next_filter(f: Option<EventType>) -> Option<EventType> {
    match f {
        None => Some(EventType::ConfigChanged),
        Some(EventType::ConfigChanged) => Some(EventType::CommandExecuted),
        Some(EventType::CommandExecuted) => Some(EventType::HardwareAction),
        Some(EventType::HardwareAction) => Some(EventType::Error),
        Some(EventType::Error) => Some(EventType::ServiceStart),
        Some(EventType::ServiceStart) => Some(EventType::ServiceStop),
        Some(EventType::ServiceStop) => None,
    }
}

/// Whether a field is edited by choosing among values rather than by
/// moving a number.
pub open spec fn is_choice_field(field: EditField) -> bool {
    field == EditField::BatteryForceCharge || field == EditField::CpuGovernorAc
        || field == EditField::CpuGovernorBattery || field == EditField::ThermalProfile
}

impl App {
    /// A fresh interface state: monitoring the status tab, nothing being
    /// edited, the service not yet seen.
    pub fn new(config: Config, available_governors: Vec<CpuGovernor>, available_frequencies: Option<Vec<u32>>) -> (r: App)
        ensures
            !r.should_quit,
            r.mode == AppMode::Monitoring,
            r.selected_tab == Tab::Status,
            r.config == config,
            r.config_backup == config,
            r.event_filter is None,
            !r.service_available,
            r.error_message is None,
            r.editing_field is None,
            r.scroll_offset == 0,
            r.selected_item == 0,
            r.available_governors@ == available_governors@,
            freqs_view(r.available_frequencies) == freqs_view(available_frequencies),
            r.freq_range == freq_range_for(freqs_view(available_frequencies)),
    {
        let config_backup = config.clone();
        let freq_range = match &available_frequencies {
            Some(v) => Self::compute_freq_range(Some(v.as_slice())),
            None => Self::compute_freq_range(None),
        };
        App {
            should_quit: false,
            mode: AppMode::Monitoring,
            selected_tab: Tab::Status,
            config,
            config_backup,
            event_filter: None,
            service_available: false,
            error_message: None,
            editing_field: None,
            scroll_offset: 0,
            selected_item: 0,
            available_governors,
            available_frequencies,
            freq_range,
        }
    }

    /// The range the frequency fields move in, from the hardware-supported
    /// frequency list (`None` when it could not be read).
    pub fn compute_freq_range(available: Option<&[u32]>) -> (r: (u32, u32))
        ensures
            r == freq_range_for(crate::config::slice_view(available)),
            r.0 < r.1,
            match available {
                Some(f) => if exists|i: int, j: int| 0 <= i < f@.len() && 0 <= j < f@.len() && f@[i] < f@[j] {
                    f@.contains(r.0) && f@.contains(r.1) && forall|k: int| 0 <= k < f@.len() ==> r.0 <= #[trigger] f@[k] <= r.1
                } else {
                    r == (400_000u32, 3_500_000u32)
                },
                None => r == (400_000u32, 3_500_000u32),
            },
    {
        proof {
            match available {
                Some(f) => lemma_freq_range_is_span(f@),
                None => lemma_freq_range_is_span(Seq::<u32>::empty()),
            }
        }
        match available {
            Some(f) => {
                if f.len() > 0 {
                    let min = crate::config::slice_min(f);
                    let max = crate::config::slice_max(f);
                    if min < max {
                        (min, max)
                    } else {
                        (400_000, 3_500_000)
                    }
                } else {
                    (400_000, 3_500_000)
                }
            },
            None => (400_000, 3_500_000),
        }
    }

    /// Take a snapshot of the configuration and select the tab's first
    /// editable field (tabs without one leave the field as it was).
    pub fn begin_editing(&mut self)
        ensures
            *final(self) == begun_editing(*old(self)),
    {
        self.config_backup = self.config.clone();
        let field = match self.selected_tab {
            Tab::Battery => {
                if self.config.battery.force_charge {
                    EditField::BatteryForceCharge
                } else {
                    EditField::BatteryThreshold
                }
            },
            Tab::CPU => EditField::CpuGovernorAc,
            Tab::Thermal => EditField::ThermalProfile,
            _ => return,
        };
        self.editing_field = Some(field);
    }

    /// Move to the next field of the tab; where there is none, leave editing.
    pub fn next_edit_field(&mut self)
        ensures
            *final(self) == after_next_field(*old(self)),
    {
        let cur = match self.editing_field {
            Some(f) => f,
            None => EditField::BatteryThreshold,
        };
        let next: Option<EditField> = match (cur, self.selected_tab) {
            (EditField::BatteryThreshold, Tab::Battery) => Some(EditField::BatteryForceCharge),
            (EditField::BatteryForceCharge, Tab::Battery) => {
                if self.config.battery.force_charge {
                    None
                } else {
                    Some(EditField::BatteryThreshold)
                }
            },
            (EditField::CpuGovernorAc, Tab::CPU) => Some(EditField::CpuGovernorBattery),
            (EditField::CpuGovernorBattery, Tab::CPU) => Some(EditField::CpuMinFreqKhz),
            (EditField::CpuMinFreqKhz, Tab::CPU) => Some(EditField::CpuMaxFreqKhz),
            (EditField::CpuMaxFreqKhz, Tab::CPU) => Some(EditField::CpuGovernorAc),
            (EditField::ThermalProfile, Tab::Thermal) => Some(EditField::ThermalFanOff),
            (EditField::ThermalFanOff, Tab::Thermal) => Some(EditField::ThermalHigh),
            (EditField::ThermalHigh, Tab::Thermal) => Some(EditField::ThermalWarn),
            (EditField::ThermalWarn, Tab::Thermal) => Some(EditField::ThermalFanMax),
            (EditField::ThermalFanMax, Tab::Thermal) => Some(EditField::ThermalShutdown),
            (EditField::ThermalShutdown, Tab::Thermal) => Some(EditField::ThermalProfile),
            _ => None,
        };
        match next {
            Some(f) => {
                self.editing_field = Some(f);
            },
            None => {
                self.mode = AppMode::Monitoring;
                self.editing_field = None;
            },
        }
    }

    /// The track bar of the numeric field being edited: its bounds, the
    /// current value and the color; `None` outside editing or for a choice
    /// field.
    pub fn numeric_field_range(&self) -> (r: Option<(u32, u32, u32, Tone)>)
        ensures
            r == (if self.mode == AppMode::Editing {
                match self.editing_field {
                    Some(f) => track_of(self.config, f, self.freq_range),
                    None => None,
                }
            } else {
                None
            }),
    {
        if self.mode != AppMode::Editing {
            return None;
        }
        let field = match self.editing_field {
            Some(f) => f,
            None => return None,
        };
        match field {
            EditField::BatteryThreshold => Some((50, 100, self.config.battery.threshold as u32, Tone::Cyan)),
            EditField::CpuMinFreqKhz => {
                let (min, max) = self.freq_range;
                let v = match self.config.cpu.min_freq_khz {
                    Some(v) => v,
                    None => max,
                };
                Some((min, max, v, Tone::White))
            },
            EditField::CpuMaxFreqKhz => {
                let (min, max) = self.freq_range;
                let v = match self.config.cpu.max_freq_khz {
                    Some(v) => v,
                    None => max,
                };
                Some((min, max, v, Tone::White))
            },
            EditField::ThermalWarn => Some((40, 100, self.config.thermal.warn_temp as u32, Tone::Yellow)),
            EditField::ThermalHigh => Some((30, 90, self.config.thermal.high_temp as u32, Tone::Yellow)),
            EditField::ThermalShutdown => Some((50, 110, self.config.thermal.shutdown_temp as u32, Tone::Red)),
            EditField::ThermalFanOff => Some((20, 80, self.config.thermal.fan_off_temp as u32, Tone::Green)),
            EditField::ThermalFanMax => Some((40, 100, self.config.thermal.fan_max_temp as u32, Tone::Red)),
            _ => None,
        }
    }

    /// Move the field being edited by one step in `direction` (an arrow
    /// key: -1 for left, 1 for right); see `adjusted_config`.
    pub fn adjust_field(&mut self, direction: i32)
        requires
            adjust_allowed(old(self).editing_field, old(self).freq_range),
        ensures
            *final(self) == after_adjust(*old(self), direction),
    {
        let field = match self.editing_field {
            Some(f) => f,
            None => return,
        };
        match field {
            EditField::BatteryThreshold => {
                if self.config.battery.force_charge {
                    return;
                }
                self.config.battery.threshold = stepped_u8(self.config.battery.threshold, direction, 50, 100);
            },
            EditField::BatteryForceCharge => {
                self.config.battery.force_charge = !self.config.battery.force_charge;
            },
            EditField::CpuGovernorAc => {
                cycle_governor(&self.available_governors, &mut self.config.cpu.governor_ac, direction);
            },
            EditField::CpuGovernorBattery => {
                cycle_governor(&self.available_governors, &mut self.config.cpu.governor_battery, direction);
            },
            EditField::CpuMinFreqKhz => {
                let (range_min, range_max) = self.freq_range;
                let current = match self.config.cpu.min_freq_khz {
                    Some(v) => v,
                    None => range_min,
                };
                self.config.cpu.min_freq_khz = Some(stepped_freq(current, direction, range_min, range_max));
            },
            EditField::CpuMaxFreqKhz => {
                let (range_min, range_max) = self.freq_range;
                let current = match self.config.cpu.max_freq_khz {
                    Some(v) => v,
                    None => range_max,
                };
                self.config.cpu.max_freq_khz = Some(stepped_freq(current, direction, range_min, range_max));
            },
            EditField::ThermalWarn => {
                self.config.thermal.warn_temp = stepped_u8(self.config.thermal.warn_temp, direction, 40, 100);
            },
            EditField::ThermalHigh => {
                self.config.thermal.high_temp = stepped_u8(self.config.thermal.high_temp, direction, 30, 90);
            },
            EditField::ThermalShutdown => {
                self.config.thermal.shutdown_temp = stepped_u8(self.config.thermal.shutdown_temp, direction, 50, 110);
            },
            EditField::ThermalFanOff => {
                self.config.thermal.fan_off_temp = stepped_u8(self.config.thermal.fan_off_temp, direction, 20, 80);
            },
            EditField::ThermalFanMax => {
                self.config.thermal.fan_max_temp = stepped_u8(self.config.thermal.fan_max_temp, direction, 40, 100);
            },
            EditField::ThermalProfile => {
                let cur: usize = match self.config.thermal.profile {
                    ThermalProfile::Conservative => 0,
                    ThermalProfile::Balanced => 1,
                    ThermalProfile::Performance => 2,
                    ThermalProfile::Custom => 3,
                };
                let next = wrap_step(cur, 4, direction);
                self.config.thermal.profile = match next {
                    0 => ThermalProfile::Conservative,
                    1 => ThermalProfile::Balanced,
                    2 => ThermalProfile::Performance,
                    _ => ThermalProfile::Custom,
                };
            },
        }
    }

    /// Handle a key in whatever mode the interface is in; see `key_step`.
    pub fn handle_key_event(&mut self, key: KeyPress) -> (r: KeyAction)
        requires
            key_allowed(*old(self), key),
        ensures
            key_step(*old(self), key, *final(self), r),
    {
        match self.mode {
            AppMode::Popup(popup_type) => {
                self.handle_popup_key(key, popup_type);
                KeyAction::Nothing
            },
            AppMode::Editing => self.handle_editing_key(key),
            AppMode::Help => {
                self.handle_help_key(key);
                KeyAction::Nothing
            },
            AppMode::Monitoring => self.handle_monitoring_key(key),
        }
    }

    /// Handle a key while monitoring; see `monitoring_result`.
    pub fn handle_monitoring_key(&mut self, key: KeyPress) -> (r: KeyAction)
        requires
            key.code == Key::Down ==> old(self).selected_item < usize::MAX,
        ensures
            (*final(self), r) == monitoring_result(*old(self), key),
            match key.code {
                Key::Char(c) => '1' <= c <= '5' ==> crate::tui::tab_index(final(self).selected_tab) == (c as int) - ('1' as int),
                _ => true,
            },
    {
        proof {
            match key.code {
                Key::Char(c) => if '1' <= c <= '5' {
                    lemma_digit_selects_tab(*old(self), c, key.ctrl);
                },
                _ => {},
            }
        }
        match key.code {
            Key::Char('q') => {
                if key.ctrl {
                    self.mode = AppMode::Popup(PopupType::ConfirmExit);
                } else {
                    self.should_quit = true;
                }
                KeyAction::Nothing
            },
            Key::Esc => {
                self.mode = AppMode::Popup(PopupType::ConfirmExit);
                KeyAction::Nothing
            },
            Key::Char('h') | Key::F(1) => {
                self.mode = AppMode::Help;
                KeyAction::Nothing
            },
            Key::Tab | Key::Right => {
                self.next_tab();
                KeyAction::Nothing
            },
            Key::BackTab | Key::Left => {
                self.previous_tab();
                KeyAction::Nothing
            },
            Key::Char('1') => {
                self.selected_tab = Tab::Status;
                KeyAction::Nothing
            },
            Key::Char('2') => {
                self.selected_tab = Tab::Battery;
                KeyAction::Nothing
            },
            Key::Char('3') => {
                self.selected_tab = Tab::CPU;
                KeyAction::Nothing
            },
            Key::Char('4') => {
                self.selected_tab = Tab::Thermal;
                KeyAction::Nothing
            },
            Key::Char('5') => {
                self.selected_tab = Tab::Events;
                KeyAction::Nothing
            },
            Key::Enter | Key::Char('e') => {
                if self.selected_tab != Tab::Status && self.selected_tab != Tab::Events {
                    self.mode = AppMode::Editing;
                    self.begin_editing();
                }
                KeyAction::Nothing
            },
            Key::Char('r') => KeyAction::Refresh,
            Key::Up => {
                if self.selected_item > 0 {
                    self.selected_item = self.selected_item - 1;
                }
                KeyAction::Nothing
            },
            Key::Down => {
                self.selected_item = self.selected_item + 1;
                KeyAction::Nothing
            },
            Key::Char('f') => match self.selected_tab {
                Tab::Battery => KeyAction::Send(Command::ForceCharge),
                Tab::Events => {
                    self.cycle_event_filter();
                    KeyAction::Nothing
                },
                _ => KeyAction::Nothing,
            },
            Key::Char('s') => {
                if self.selected_tab == Tab::Battery {
                    KeyAction::Send(Command::StopCharge)
                } else {
                    KeyAction::Nothing
                }
            },
            Key::Char('a') => {
                if self.selected_tab == Tab::Events {
                    self.clear_event_filter();
                }
                KeyAction::Nothing
            },
            _ => KeyAction::Nothing,
        }
    }

    /// Handle a key in the editor; see `editing_step`.
    pub fn handle_editing_key(&mut self, key: KeyPress) -> (r: KeyAction)
        requires
            (key.code == Key::Left || key.code == Key::Right) ==> adjust_allowed(old(self).editing_field, old(self).freq_range),
        ensures
            editing_step(*old(self), key, *final(self), r),
    {
        match key.code {
            Key::Esc => {
                self.config = self.config_backup.clone();
                self.editing_field = None;
                self.mode = AppMode::Monitoring;
                KeyAction::Nothing
            },
            Key::Enter => {
                if self.apply_config_in_place() {
                    KeyAction::PushConfig
                } else {
                    KeyAction::Nothing
                }
            },
            Key::Tab => {
                self.next_edit_field();
                KeyAction::Nothing
            },
            Key::Left => {
                self.adjust_field(-1);
                KeyAction::Nothing
            },
            Key::Right => {
                self.adjust_field(1);
                KeyAction::Nothing
            },
            Key::Char('u') | Key::Char('U') => {
                match self.editing_field {
                    Some(EditField::CpuMinFreqKhz) => {
                        self.config.cpu.min_freq_khz = None;
                    },
                    Some(EditField::CpuMaxFreqKhz) => {
                        self.config.cpu.max_freq_khz = None;
                    },
                    _ => {},
                }
                KeyAction::Nothing
            },
            _ => KeyAction::Nothing,
        }
    }

    /// Handle a key on the help screen: Esc, `q` or `h` go back.
    pub fn handle_help_key(&mut self, key: KeyPress)
        ensures
            *final(self) == help_result(*old(self), key),
    {
        match key.code {
            Key::Esc | Key::Char('q') | Key::Char('h') => {
                self.mode = AppMode::Monitoring;
            },
            _ => {},
        }
    }

    /// Handle a key on a popup: on the exit confirmation, `y` or Enter quit
    /// and `n` or Esc go back.
    pub fn handle_popup_key(&mut self, key: KeyPress, popup_type: PopupType)
        ensures
            *final(self) == popup_result(*old(self), key),
    {
        match popup_type {
            PopupType::ConfirmExit => match key.code {
                Key::Char('y') | Key::Char('Y') | Key::Enter => {
                    self.should_quit = true;
                },
                Key::Char('n') | Key::Char('N') | Key::Esc => {
                    self.mode = AppMode::Monitoring;
                },
                _ => {},
            },
        }
    }

    /// Enter in the editor: check that the service is there and that the
    /// configuration is valid, and say whether to push it; see `apply_step`.
    pub fn apply_config_in_place(&mut self) -> (push: bool)
        ensures
            apply_step(*old(self), *final(self), push),
    {
        if !self.service_available {
            self.error_message = Some(
                String::from_str("Service offline; changes held in-memory — start the service then press Enter to push"),
            );
            return false;
        }
        let checked = match &self.available_frequencies {
            Some(v) => self.config.validate_with_available(Some(v.as_slice())),
            None => self.config.validate_with_available(None),
        };
        match checked {
            Ok(()) => true,
            Err(e) => {
                let t = e.to_string();
                let m = crate::error::prefixed("Config validation failed: ", t.as_str());
                assert(m@ == invalid_message(self.config, freqs_view(self.available_frequencies))) by {
                    assert(m@ =~= invalid_message(self.config, freqs_view(self.available_frequencies)));
                }
                self.error_message = Some(m);
                false
            },
        }
    }

    /// Report how pushing the configuration went: on success the pushed
    /// configuration becomes the new snapshot and the message clears; on
    /// failure the message says why.
    pub fn finish_apply(&mut self, failure: Option<&str>)
        ensures
            match failure {
                None => *final(self) == App { error_message: None, config_backup: old(self).config, ..*old(self) },
                Some(e) => with_message(*old(self), *final(self), "Failed to apply config: "@ + e@),
            },
    {
        match failure {
            None => {
                self.error_message = None;
                self.config_backup = self.config.clone();
            },
            Some(e) => {
                self.error_message = Some(crate::error::prefixed("Failed to apply config: ", e));
            },
        }
    }

    /// Report that a command could not be sent.
    pub fn command_failed(&mut self, reason: &str)
        ensures
            with_message(*old(self), *final(self), "Failed to send command: "@ + reason@),
    {
        self.error_message = Some(crate::error::prefixed("Failed to send command: ", reason));
    }

    /// Take in how reading the service's status went: a status means the
    /// service is up and clears the message; no status means it is down
    /// (saying so unless another message stands); a failure says why.
    pub fn absorb_status(&mut self, read: &StatusRead)
        ensures
            match *read {
                StatusRead::Found => *final(self) == App { service_available: true, error_message: None, ..*old(self) },
                StatusRead::Missing => if old(self).error_message is Some {
                    *final(self) == App { service_available: false, ..*old(self) }
                } else {
                    with_message(App { service_available: false, ..*old(self) }, *final(self), "Service not running"@)
                },
                StatusRead::Failed(e) => {
                    &&& final(self).service_available == false
                    &&& *final(self) == App { service_available: false, error_message: final(self).error_message, ..*old(self) }
                    &&& (final(self).error_message matches Some(m) && "Failed to read status: "@.is_prefix_of(m@)
                        && (crate::error::explanation(e) matches Some(t) ==> m@ == "Failed to read status: "@ + t))
                },
            },
    {
        match read {
            StatusRead::Found => {
                self.service_available = true;
                self.error_message = None;
            },
            StatusRead::Missing => {
                self.service_available = false;
                if self.error_message.is_none() {
                    self.error_message = Some(String::from_str("Service not running"));
                }
            },
            StatusRead::Failed(e) => {
                self.service_available = false;
                let t = crate::error::explain_error(e);
                let m = crate::error::prefixed("Failed to read status: ", t.as_str());
                assert("Failed to read status: "@.is_prefix_of(m@)) by {
                    assert(m@.subrange(0, "Failed to read status: "@.len() as int) =~= "Failed to read status: "@);
                }
                self.error_message = Some(m);
            },
        }
    }

    /// Take in the configuration the service reports; while editing, the
    /// edits in progress are kept instead.
    pub fn absorb_config(&mut self, config: Config)
        ensures
            *final(self) == if old(self).mode != AppMode::Editing {
                App { config, ..*old(self) }
            } else {
                *old(self)
            },
    {
        if self.mode != AppMode::Editing {
            self.config = config;
        }
    }

    /// Step the events filter and go back to the top of the list.
    pub fn cycle_event_filter(&mut self)
        ensures
            *final(self) == after_filter_step(*old(self)),
    {
        self.event_filter = match self.event_filter {
            None => Some(EventType::ConfigChanged),
            Some(EventType::ConfigChanged) => Some(EventType::CommandExecuted),
            Some(EventType::CommandExecuted) => Some(EventType::HardwareAction),
            Some(EventType::HardwareAction) => Some(EventType::Error),
            Some(EventType::Error) => Some(EventType::ServiceStart),
            Some(EventType::ServiceStart) => Some(EventType::ServiceStop),
            Some(EventType::ServiceStop) => None,
        };
        self.selected_item = 0;
        self.scroll_offset = 0;
    }

    /// Show every event again and go back to the top of the list.
    pub fn clear_event_filter(&mut self)
        ensures
            *final(self) == after_filter_clear(*old(self)),
    {
        self.event_filter = None;
        self.selected_item = 0;
        self.scroll_offset = 0;
    }

    /// The filter's label: "All", or the tag of the event type shown.
    pub fn event_filter_label(&self) -> (r: &'static str)
        ensures
            r@ == match self.event_filter {
                None => "All"@,
                Some(t) => crate::tui::event_tag_spec(t),
            },
    {
        match self.event_filter {
            None => "All",
            Some(t) => crate::tui::event_type_tag(&t).tag,
        }
    }

    /// Select the next tab, with the first item of its list.
    pub fn next_tab(&mut self)
        ensures
            *final(self) == after_tab_step(*old(self), true),
    {
        self.selected_tab = self.selected_tab.next();
        self.selected_item = 0;
    }

    /// Select the previous tab, with the first item of its list.
    pub fn previous_tab(&mut self)
        ensures
            *final(self) == after_tab_step(*old(self), false),
    {
        self.selected_tab = self.selected_tab.previous();
        self.selected_item = 0;
    }
}

/// `v` held within `lo..=hi`.
pub open spec fn clamp_int(v: int, lo: int, hi: int) -> int {
    if v < lo {
        lo
    } else if v > hi {
        hi
    } else {
        v
    }
}

/// One step of a frequency field: 500 000 kHz up (for a positive direction)
/// or down, saturating at the ends of `u32`.
pub open spec fn freq_step(current: u32, direction: i32) -> int {
    if direction > 0 {
        if current + 500_000 > u32::MAX {
            u32::MAX as int
        } else {
            current + 500_000
        }
    } else {
        if current < 500_000 {
            0
        } else {
            current - 500_000
        }
    }
}

/// The position of a thermal profile in the cycle that the editor walks.
pub open spec fn profile_index(p: ThermalProfile) -> int {
    match p {
        ThermalProfile::Conservative => 0,
        ThermalProfile::Balanced => 1,
        ThermalProfile::Performance => 2,
        ThermalProfile::Custom => 3,
    }
}

pub open spec fn profile_at(i: int) -> ThermalProfile {
    if i == 0 {
        ThermalProfile::Conservative
    } else if i == 1 {
        ThermalProfile::Balanced
    } else if i == 2 {
        ThermalProfile::Performance
    } else {
        ThermalProfile::Custom
    }
}

/// The first position at or after `i` whose governor is `g`; 0 when there is
/// none.
pub open spec fn governor_index_from(s: Seq<crate::config::GovernorView>, g: crate::config::GovernorView, i: int) -> int
    decreases s.len() - i,
{
    if i < 0 || i >= s.len() {
        0
    } else if s[i] == g {
        i
    } else {
        governor_index_from(s, g, i + 1)
    }
}

/// The governor `direction` steps away from `current` in the available list,
/// wrapping around; a governor not in the list counts as the first one. An
/// empty list leaves `current` as it is.
pub open spec fn cycled_governor(avail: Seq<CpuGovernor>, current: CpuGovernor, direction: i32) -> CpuGovernor {
    if avail.len() == 0 {
        current
    } else {
        avail[(governor_index_from(crate::config::governor_views(avail), current@, 0) + direction) % (avail.len() as int)]
    }
}

pub open spec fn with_battery(c: Config, b: BatteryConfig) -> Config {
    Config { battery: b, cpu: c.cpu, thermal: c.thermal, version: c.version }
}

pub open spec fn with_cpu(c: Config, cpu: CpuConfig) -> Config {
    Config { battery: c.battery, cpu, thermal: c.thermal, version: c.version }
}

pub open spec fn with_thermal(c: Config, t: ThermalConfig) -> Config {
    Config { battery: c.battery, cpu: c.cpu, thermal: t, version: c.version }
}

/// The thermal settings with one temperature field replaced.
pub open spec fn with_temp(t: ThermalConfig, field: EditField, v: u8) -> ThermalConfig {
    ThermalConfig {
        warn_temp: if field == EditField::ThermalWarn { v } else { t.warn_temp },
        high_temp: if field == EditField::ThermalHigh { v } else { t.high_temp },
        shutdown_temp: if field == EditField::ThermalShutdown { v } else { t.shutdown_temp },
        fan_off_temp: if field == EditField::ThermalFanOff { v } else { t.fan_off_temp },
        fan_max_temp: if field == EditField::ThermalFanMax { v } else { t.fan_max_temp },
        profile: t.profile,
    }
}

pub open spec fn temp_of(t: ThermalConfig, field: EditField) -> u8 {
    match field {
        EditField::ThermalWarn => t.warn_temp,
        EditField::ThermalHigh => t.high_temp,
        EditField::ThermalShutdown => t.shutdown_temp,
        EditField::ThermalFanOff => t.fan_off_temp,
        _ => t.fan_max_temp,
    }
}

/// The configuration after an arrow key moves `field` by `direction`:
/// numbers step by one (frequencies by 500 000 kHz from the bottom of the
/// range, or the top for the maximum, when unset) and stay within the field's
/// bounds; the force-charge switch flips; profiles and governors cycle. The
/// threshold does not move while force charge is on.
pub open spec fn adjusted_config(
    c: Config,
    field: EditField,
    direction: i32,
    freq_range: (u32, u32),
    avail: Seq<CpuGovernor>,
) -> Config {
    match field {
        EditField::BatteryThreshold => if c.battery.force_charge {
            c
        } else {
            with_battery(c, BatteryConfig {
                threshold: clamp_int(c.battery.threshold + direction, 50, 100) as u8,
                force_charge: false,
            })
        },
        EditField::BatteryForceCharge => with_battery(c, BatteryConfig {
            threshold: c.battery.threshold,
            force_charge: !c.battery.force_charge,
        }),
        EditField::CpuGovernorAc => with_cpu(c, CpuConfig {
            governor_ac: cycled_governor(avail, c.cpu.governor_ac, direction),
            governor_battery: c.cpu.governor_battery,
            min_freq_khz: c.cpu.min_freq_khz,
            max_freq_khz: c.cpu.max_freq_khz,
        }),
        EditField::CpuGovernorBattery => with_cpu(c, CpuConfig {
            governor_ac: c.cpu.governor_ac,
            governor_battery: cycled_governor(avail, c.cpu.governor_battery, direction),
            min_freq_khz: c.cpu.min_freq_khz,
            max_freq_khz: c.cpu.max_freq_khz,
        }),
        EditField::CpuMinFreqKhz => with_cpu(c, CpuConfig {
            governor_ac: c.cpu.governor_ac,
            governor_battery: c.cpu.governor_battery,
            min_freq_khz: Some(clamp_int(freq_step(match c.cpu.min_freq_khz {
                Some(v) => v,
                None => freq_range.0,
            }, direction), freq_range.0 as int, freq_range.1 as int) as u32),
            max_freq_khz: c.cpu.max_freq_khz,
        }),
        EditField::CpuMaxFreqKhz => with_cpu(c, CpuConfig {
            governor_ac: c.cpu.governor_ac,
            governor_battery: c.cpu.governor_battery,
            min_freq_khz: c.cpu.min_freq_khz,
            max_freq_khz: Some(clamp_int(freq_step(match c.cpu.max_freq_khz {
                Some(v) => v,
                None => freq_range.1,
            }, direction), freq_range.0 as int, freq_range.1 as int) as u32),
        }),
        EditField::ThermalProfile => with_thermal(c, ThermalConfig {
            warn_temp: c.thermal.warn_temp,
            high_temp: c.thermal.high_temp,
            shutdown_temp: c.thermal.shutdown_temp,
            fan_off_temp: c.thermal.fan_off_temp,
            fan_max_temp: c.thermal.fan_max_temp,
            profile: profile_at((profile_index(c.thermal.profile) + direction) % 4),
        }),
        _ => {
            let (lo, hi) = match field_bounds(field, freq_range) {
                Some(b) => b,
                None => (0u32, 0u32),
            };
            with_thermal(c, with_temp(c.thermal, field, clamp_int(temp_of(c.thermal, field) + direction, lo as int, hi as int) as u8))
        },
    }
}

/// What an arrow key needs to be safe: a frequency field moves within a
/// range whose lower end is not above its upper end.
pub open spec fn adjust_allowed(field: Option<EditField>, freq_range: (u32, u32)) -> bool {
    (field == Some(EditField::CpuMinFreqKhz) || field == Some(EditField::CpuMaxFreqKhz)) ==> freq_range.0 <= freq_range.1
}

/// The state once editing begins on the selected tab: a snapshot of the
/// configuration, and the tab's first field selected.
pub open spec fn begun_editing(a: App) -> App {
    App {
        config_backup: a.config,
        editing_field: match first_field(a.selected_tab, a.config.battery.force_charge) {
            Some(f) => Some(f),
            None => a.editing_field,
        },
        ..a
    }
}

/// The state after Tab in the editor.
pub open spec fn after_next_field(a: App) -> App {
    let cur = match a.editing_field {
        Some(f) => f,
        None => EditField::BatteryThreshold,
    };
    match following_field(cur, a.selected_tab, a.config.battery.force_charge) {
        Some(f) => App { editing_field: Some(f), ..a },
        None => App { editing_field: None, mode: AppMode::Monitoring, ..a },
    }
}

/// The state after an arrow key in the editor.
pub open spec fn after_adjust(a: App, direction: i32) -> App {
    App {
        config: match a.editing_field {
            Some(f) => adjusted_config(a.config, f, direction, a.freq_range, a.available_governors@),
            None => a.config,
        },
        ..a
    }
}

pub open spec fn after_filter_step(a: App) -> App {
    App { event_filter: next_filter(a.event_filter), selected_item: 0, scroll_offset: 0, ..a }
}

pub open spec fn after_filter_clear(a: App) -> App {
    App { event_filter: None, selected_item: 0, scroll_offset: 0, ..a }
}

/// The state after moving one tab forward or back.
pub open spec fn after_tab_step(a: App, forward: bool) -> App {
    App {
        selected_tab: crate::tui::tab_at(
            (crate::tui::tab_index(a.selected_tab) + if forward { 1int } else { 4int }) % 5,
        ),
        selected_item: 0,
        ..a
    }
}

/// The tab that a digit key selects.
pub open spec fn digit_tab(c: char) -> Option<Tab> {
    if c == '1' {
        Some(Tab::Status)
    } else if c == '2' {
        Some(Tab::Battery)
    } else if c == '3' {
        Some(Tab::CPU)
    } else if c == '4' {
        Some(Tab::Thermal)
    } else if c == '5' {
        Some(Tab::Events)
    } else {
        None
    }
}

/// Enter (or `e`) while monitoring: start editing on the tabs that have
/// settings.
pub open spec fn enter_result(a: App) -> (App, KeyAction) {
    if a.selected_tab != Tab::Status && a.selected_tab != Tab::Events {
        (begun_editing(App { mode: AppMode::Editing, ..a }), KeyAction::Nothing)
    } else {
        (a, KeyAction::Nothing)
    }
}

/// The effect of a key while monitoring.
pub open spec fn monitoring_result(a: App, k: KeyPress) -> (App, KeyAction) {
    match k.code {
        Key::Char(c) => if c == 'q' {
            if k.ctrl {
                (App { mode: AppMode::Popup(PopupType::ConfirmExit), ..a }, KeyAction::Nothing)
            } else {
                (App { should_quit: true, ..a }, KeyAction::Nothing)
            }
        } else if c == 'h' {
            (App { mode: AppMode::Help, ..a }, KeyAction::Nothing)
        } else if digit_tab(c) is Some {
            (App { selected_tab: digit_tab(c)->0, ..a }, KeyAction::Nothing)
        } else if c == 'e' {
            enter_result(a)
        } else if c == 'r' {
            (a, KeyAction::Refresh)
        } else if c == 'f' {
            if a.selected_tab == Tab::Battery {
                (a, KeyAction::Send(Command::ForceCharge))
            } else if a.selected_tab == Tab::Events {
                (after_filter_step(a), KeyAction::Nothing)
            } else {
                (a, KeyAction::Nothing)
            }
        } else if c == 's' {
            if a.selected_tab == Tab::Battery {
                (a, KeyAction::Send(Command::StopCharge))
            } else {
                (a, KeyAction::Nothing)
            }
        } else if c == 'a' && a.selected_tab == Tab::Events {
            (after_filter_clear(a), KeyAction::Nothing)
        } else {
            (a, KeyAction::Nothing)
        },
        Key::Esc => (App { mode: AppMode::Popup(PopupType::ConfirmExit), ..a }, KeyAction::Nothing),
        Key::F(n) => if n == 1 {
            (App { mode: AppMode::Help, ..a }, KeyAction::Nothing)
        } else {
            (a, KeyAction::Nothing)
        },
        Key::Tab => (after_tab_step(a, true), KeyAction::Nothing),
        Key::Right => (after_tab_step(a, true), KeyAction::Nothing),
        Key::BackTab => (after_tab_step(a, false), KeyAction::Nothing),
        Key::Left => (after_tab_step(a, false), KeyAction::Nothing),
        Key::Enter => enter_result(a),
        Key::Up => if a.selected_item > 0 {
            (App { selected_item: (a.selected_item - 1) as usize, ..a }, KeyAction::Nothing)
        } else {
            (a, KeyAction::Nothing)
        },
        Key::Down => (App { selected_item: (a.selected_item + 1) as usize, ..a }, KeyAction::Nothing),
        Key::Other => (a, KeyAction::Nothing),
    }
}

pub open spec fn offline_message() -> Seq<char> {
    "Service offline; changes held in-memory — start the service then press Enter to push"@
}

/// The message for a configuration that fails validation.
pub open spec fn invalid_message(c: Config, available: Option<Seq<u32>>) -> Seq<char> {
    "Config validation failed: "@ + "Configuration validation error: "@ + crate::error::debug_list_text(
        crate::config::config_errors(c, available),
    )
}

/// `b` is `a` with only the message changed, to `m`.
pub open spec fn with_message(a: App, b: App, m: Seq<char>) -> bool {
    &&& b == App { error_message: b.error_message, ..a }
    &&& (b.error_message matches Some(t) && t@ == m)
}

/// Enter in the editor: with the service offline, or with a configuration
/// that fails validation, the edits stay and a message says why; otherwise
/// the configuration is to be pushed.
pub open spec fn apply_step(a: App, b: App, push: bool) -> bool {
    if !a.service_available {
        !push && with_message(a, b, offline_message())
    } else if crate::config::config_errors(a.config, freqs_view(a.available_frequencies)).len() > 0 {
        !push && with_message(a, b, invalid_message(a.config, freqs_view(a.available_frequencies)))
    } else {
        push && b == a
    }
}

/// `u` in the editor: the frequency field being edited becomes unlimited.
pub open spec fn unlimited(a: App) -> App {
    match a.editing_field {
        Some(EditField::CpuMinFreqKhz) => App {
            config: with_cpu(a.config, CpuConfig { min_freq_khz: None, ..a.config.cpu }),
            ..a
        },
        Some(EditField::CpuMaxFreqKhz) => App {
            config: with_cpu(a.config, CpuConfig { max_freq_khz: None, ..a.config.cpu }),
            ..a
        },
        _ => a,
    }
}

/// The effect of a key in the editor.
pub open spec fn editing_step(a: App, k: KeyPress, b: App, act: KeyAction) -> bool {
    match k.code {
        Key::Esc => b == App { config: a.config_backup, editing_field: None, mode: AppMode::Monitoring, ..a }
            && act == KeyAction::Nothing,
        Key::Enter => apply_step(a, b, act == KeyAction::PushConfig) && (act == KeyAction::PushConfig
            || act == KeyAction::Nothing),
        Key::Tab => b == after_next_field(a) && act == KeyAction::Nothing,
        Key::Left => b == after_adjust(a, -1i32) && act == KeyAction::Nothing,
        Key::Right => b == after_adjust(a, 1i32) && act == KeyAction::Nothing,
        Key::Char(c) => (if c == 'u' || c == 'U' {
            b == unlimited(a)
        } else {
            b == a
        }) && act == KeyAction::Nothing,
        _ => b == a && act == KeyAction::Nothing,
    }
}

/// The effect of a key on the help screen.
pub open spec fn help_result(a: App, k: KeyPress) -> App {
    if k.code == Key::Esc || k.code == Key::Char('q') || k.code == Key::Char('h') {
        App { mode: AppMode::Monitoring, ..a }
    } else {
        a
    }
}

/// The effect of a key on the exit confirmation.
pub open spec fn popup_result(a: App, k: KeyPress) -> App {
    if k.code == Key::Char('y') || k.code == Key::Char('Y') || k.code == Key::Enter {
        App { should_quit: true, ..a }
    } else if k.code == Key::Char('n') || k.code == Key::Char('N') || k.code == Key::Esc {
        App { mode: AppMode::Monitoring, ..a }
    } else {
        a
    }
}

/// The effect of a key in whatever mode the interface is in.
pub open spec fn key_step(a: App, k: KeyPress, b: App, act: KeyAction) -> bool {
    match a.mode {
        AppMode::Popup(_) => b == popup_result(a, k) && act == KeyAction::Nothing,
        AppMode::Editing => editing_step(a, k, b, act),
        AppMode::Help => b == help_result(a, k) && act == KeyAction::Nothing,
        AppMode::Monitoring => (b, act) == monitoring_result(a, k),
    }
}

/// The keys that the interface handles without overflow or a bad range: an
/// arrow in the editor needs a sound frequency range, and moving down the
/// list needs room below.
pub open spec fn key_allowed(a: App, k: KeyPress) -> bool {
    match a.mode {
        AppMode::Editing => (k.code == Key::Left || k.code == Key::Right) ==> adjust_allowed(a.editing_field, a.freq_range),
        AppMode::Monitoring => k.code == Key::Down ==> a.selected_item < usize::MAX,
        _ => true,
    }
}

/// `v + direction` held within `lo..=hi`.
fn stepped_u8(v: u8, direction: i32, lo: i64, hi: i64) -> (r: u8)
    requires
        0 <= lo <= hi <= 255,
    ensures
        r == clamp_int(v + direction, lo as int, hi as int),
{
    let w: i64 = v as i64 + direction as i64;
    let c: i64 = if w < lo {
        lo
    } else if w > hi {
        hi
    } else {
        w
    };
    c as u8
}

/// One frequency step, held within `lo..=hi`.
fn stepped_freq(current: u32, direction: i32, lo: u32, hi: u32) -> (r: u32)
    requires
        lo <= hi,
    ensures
        r == clamp_int(freq_step(current, direction), lo as int, hi as int),
{
    let stepped: u32 = if direction > 0 {
        if current > u32::MAX - 500_000 {
            u32::MAX
        } else {
            current + 500_000
        }
    } else {
        if current < 500_000 {
            0
        } else {
            current - 500_000
        }
    };
    if stepped < lo {
        lo
    } else if stepped > hi {
        hi
    } else {
        stepped
    }
}

/// The position `direction` steps from `cur` in a cycle of `len` places.
fn wrap_step(cur: usize, len: usize, direction: i32) -> (r: usize)
    requires
        cur < len,
    ensures
        r == (cur + direction) % (len as int),
        r < len,
{
    let neg = direction < 0;
    let a: u64 = if neg {
        (-(direction as i64)) as u64
    } else {
        direction as u64
    };
    let lenw: u64 = len as u64;
    let k: u64 = a % lenw;
    let d: u64 = if neg {
        if k == 0 {
            0
        } else {
            lenw - k
        }
    } else {
        k
    };
    let room: u64 = lenw - cur as u64;
    let r: u64 = if d < room {
        cur as u64 + d
    } else {
        d - room
    };
    proof {
        let m = len as int;
        let q = a as int / m;
        vstd::arithmetic::div_mod::lemma_fundamental_div_mod(a as int, m);
        assert(a == m * q + k);
        if neg {
            assert(cur + direction == cur - a);
            assert(m * (q + 1) == m * q + m) by (nonlinear_arith);
            vstd::arithmetic::div_mod::lemma_mod_multiples_vanish(q + 1, cur - a, m);
            assert(m * (q + 1) + (cur - a) == cur + m - k);
            if k == 0 {
                vstd::arithmetic::div_mod::lemma_mod_add_multiples_vanish(cur as int, m);
                vstd::arithmetic::div_mod::lemma_small_mod(cur as nat, m as nat);
            } else {
                if d < room {
                    vstd::arithmetic::div_mod::lemma_small_mod((cur + d) as nat, m as nat);
                } else {
                    vstd::arithmetic::div_mod::lemma_small_mod((d - room) as nat, m as nat);
                    vstd::arithmetic::div_mod::lemma_mod_add_multiples_vanish((d - room) as int, m);
                }
            }
        } else {
            vstd::arithmetic::div_mod::lemma_mod_multiples_vanish(q, cur + k, m);
            assert(m * q + (cur + k) == cur + a);
            if d < room {
                vstd::arithmetic::div_mod::lemma_small_mod((cur + d) as nat, m as nat);
            } else {
                vstd::arithmetic::div_mod::lemma_small_mod((d - room) as nat, m as nat);
                vstd::arithmetic::div_mod::lemma_mod_add_multiples_vanish((d - room) as int, m);
            }
        }
    }
    r as usize
}

/// The first position of `current` in `available`, or 0 when it is absent.
fn governor_position(available: &Vec<CpuGovernor>, current: &CpuGovernor) -> (r: usize)
    ensures
        r == governor_index_from(crate::config::governor_views(available@), current@, 0),
        available@.len() > 0 ==> r < available@.len(),
{
    let ghost s = crate::config::governor_views(available@);
    let mut i: usize = 0;
    while i < available.len()
        invariant
            i <= available@.len(),
            s == crate::config::governor_views(available@),
            governor_index_from(s, current@, 0) == governor_index_from(s, current@, i as int),
        decreases available@.len() - i,
    {
        if available[i].same_as(current) {
            assert(s[i as int] == available@[i as int]@);
            return i;
        }
        assert(s[i as int] == available@[i as int]@);
        i = i + 1;
    }
    0
}

/// Move `current` `direction` steps through the available governors.
fn cycle_governor(available: &Vec<CpuGovernor>, current: &mut CpuGovernor, direction: i32)
    ensures
        *final(current) == cycled_governor(available@, *old(current), direction),
{
    if available.len() == 0 {
        return;
    }
    let cur = governor_position(available, current);
    let next = wrap_step(cur, available.len(), direction);
    *current = available[next].clone();
}

/// The positions, among the first `n` events, of those the filter shows,
/// in order.
pub open spec fn shown_positions(types: Seq<EventType>, filter: Option<EventType>, n: int) -> Seq<usize>
    decreases n,
{
    if n <= 0 {
        seq![]
    } else {
        let prev = shown_positions(types, filter, n - 1);
        if filter is None || filter == Some(types[n - 1]) {
            prev.push((n - 1) as usize)
        } else {
            prev
        }
    }
}

/// The positions of the events (given by their types) that the filter
/// shows, in order.
pub fn visible_events(types: &[EventType], filter: Option<EventType>) -> (r: Vec<usize>)
    ensures
        r@ == shown_positions(types@, filter, types@.len() as int),
{
    let mut out: Vec<usize> = Vec::new();
    let mut i: usize = 0;
    while i < types.len()
        invariant
            i <= types@.len(),
            out@ == shown_positions(types@, filter, i as int),
        decreases types@.len() - i,
    {
        let shown = match filter {
            None => true,
            Some(t) => t == types[i],
        };
        if shown {
            out.push(i);
        }
        i = i + 1;
    }
    out
}

/// The window of a list of `len` entries (at least one) shown in `height`
/// rows: the first and one-past-last entries shown, and the row of the
/// highlighted entry. The selection is held to the last entry; the window
/// starts where it started before (`offset`) unless the selection lies
/// outside it, and then moves just enough to show it.
pub open spec fn window_of(len: int, selected: int, offset: int, height: int) -> (int, int, int) {
    let eff = if selected < len - 1 { selected } else { len - 1 };
    let start = if eff >= offset + height {
        (if eff >= height { eff - height } else { 0 }) + 1
    } else if eff < offset {
        eff
    } else {
        offset
    };
    let end = if start + height < len { start + height } else { len };
    (start, end, if eff >= start { eff - start } else { 0 })
}

/// The window of the events list to draw; see `window_of`.
pub fn event_window(len: usize, selected: usize, offset: usize, height: usize) -> (r: (usize, usize, usize))
    requires
        len > 0,
        offset + height <= usize::MAX,
    ensures
        (r.0 as int, r.1 as int, r.2 as int) == window_of(len as int, selected as int, offset as int, height as int),
{
    let max_item = len - 1;
    let eff = if selected < max_item {
        selected
    } else {
        max_item
    };
    let start = if eff >= offset + height {
        (if eff >= height {
            eff - height
        } else {
            0
        }) + 1
    } else if eff < offset {
        eff
    } else {
        offset
    };
    let end = if start + height < len {
        start + height
    } else {
        len
    };
    (start, end, if eff >= start {
        eff - start
    } else {
        0
    })
}

/// Whether the field is edited by choosing among values (shown between
/// arrows) rather than by moving a number along a track bar.
pub fn is_choice(field: EditField) -> (r: bool)
    ensures
        r == is_choice_field(field),
{
    match field {
        EditField::BatteryForceCharge | EditField::CpuGovernorAc | EditField::CpuGovernorBattery
        | EditField::ThermalProfile => true,
        _ => false,
    }
}

} // verus!

verus! {

/// Editing starts from a snapshot: on a tab with settings, Enter saves the
/// configuration as it was.
pub proof fn lemma_enter_snapshots_config(a: App)
    requires
        a.mode == AppMode::Monitoring,
        a.selected_tab == Tab::Battery || a.selected_tab == Tab::CPU || a.selected_tab == Tab::Thermal,
    ensures
        enter_result(a).0.mode == AppMode::Editing,
        enter_result(a).0.config_backup == a.config,
        enter_result(a).0.config == a.config,
        enter_result(a).0.editing_field is Some,
{
}

/// Esc abandons every edit of the session in one keystroke: it restores the
/// snapshot and leaves the editor; every other key in the editor keeps the
/// snapshot as it is.
pub proof fn lemma_esc_restores_snapshot(a: App, k: KeyPress, b: App, act: KeyAction)
    requires
        a.mode == AppMode::Editing,
        key_step(a, k, b, act),
    ensures
        k.code == Key::Esc ==> b.config == a.config_backup && b.mode == AppMode::Monitoring && b.editing_field is None,
        k.code != Key::Esc ==> b.config_backup == a.config_backup,
{
}

/// Nothing reaches the service that it would refuse: a configuration is
/// pushed only when the service is up and the configuration passes
/// validation, and asking for the push changes nothing yet.
pub proof fn lemma_push_only_valid(a: App, k: KeyPress, b: App, act: KeyAction)
    requires
        key_step(a, k, b, act),
        act == KeyAction::PushConfig,
    ensures
        a.mode == AppMode::Editing,
        a.service_available,
        crate::config::config_errors(a.config, freqs_view(a.available_frequencies)).len() == 0,
        b == a,
{
}

/// Stepping the events filter seven times comes back to where it started:
/// every event type in turn, then all events again.
pub proof fn lemma_filter_cycle(f: Option<EventType>)
    ensures
        next_filter(next_filter(next_filter(next_filter(next_filter(next_filter(next_filter(f))))))) == f,
        f is Some ==> next_filter(f) != f,
{
}

/// Moving a tab forward and then back (or back and then forward) returns to
/// the same tab.
pub proof fn lemma_tab_steps_undo(a: App)
    ensures
        after_tab_step(after_tab_step(a, true), false).selected_tab == a.selected_tab,
        after_tab_step(after_tab_step(a, false), true).selected_tab == a.selected_tab,
{
    crate::tui::lemma_tab_laws(a.selected_tab, 0);
}

/// An arrow on a numeric field leaves its value within the field's bounds
/// (the threshold stays as it is while force charge is on).
pub proof fn lemma_adjust_within_bounds(a: App, direction: i32)
    requires
        a.editing_field matches Some(f) && field_bounds(f, a.freq_range) is Some,
        adjust_allowed(a.editing_field, a.freq_range),
        !(a.editing_field == Some(EditField::BatteryThreshold) && a.config.battery.force_charge),
    ensures
        ({
            let f = a.editing_field->0;
            let (lo, hi) = field_bounds(f, a.freq_range)->0;
            track_of(after_adjust(a, direction).config, f, a.freq_range) matches Some((l, h, v, _)) && l == lo
                && h == hi && lo <= v <= hi
        }),
{
}

/// Right then left gives back the configuration for a temperature or the
/// threshold strictly below its upper bound, for the force-charge switch and
/// for the thermal profile.
pub proof fn lemma_arrow_round_trip(c: Config, f: EditField, freq_range: (u32, u32), avail: Seq<CpuGovernor>)
    requires
        f != EditField::CpuGovernorAc,
        f != EditField::CpuGovernorBattery,
        f != EditField::CpuMinFreqKhz,
        f != EditField::CpuMaxFreqKhz,
        track_of(c, f, freq_range) matches Some((lo, hi, v, _)) ==> lo <= v < hi,
    ensures
        adjusted_config(adjusted_config(c, f, 1i32, freq_range, avail), f, -1i32, freq_range, avail) == c,
{
    assert(adjusted_config(adjusted_config(c, f, 1i32, freq_range, avail), f, -1i32, freq_range, avail) =~= c);
}

/// The window of the events list always lies within the list; with at least
/// one row it shows the selected entry (held to the last one), on the
/// highlighted row, and no more rows than there are.
pub proof fn lemma_window_shows_selection(len: int, selected: int, offset: int, height: int)
    requires
        len > 0,
        selected >= 0,
        offset >= 0,
        height >= 0,
    ensures
        ({
            let (start, end, row) = window_of(len, selected, offset, height);
            let eff = if selected < len - 1 { selected } else { len - 1 };
            &&& 0 <= start <= end <= len
            &&& end - start <= height
            &&& height > 0 ==> start <= eff < end && row == eff - start && row < height
        }),
{
}

/// The filtered events are listed in order, each once, each within the
/// list and of the type the filter asks for; without a filter, all are.
pub proof fn lemma_shown_positions(types: Seq<EventType>, filter: Option<EventType>, n: int)
    requires
        0 <= n <= types.len(),
        types.len() <= usize::MAX,
    ensures
        ({
            let s = shown_positions(types, filter, n);
            &&& forall|i: int| 0 <= i < s.len() ==> (#[trigger] s[i]) < n
            &&& forall|i: int| 0 <= i < s.len() ==> (filter matches Some(t) ==> types[#[trigger] s[i] as int] == t)
            &&& forall|i: int, j: int| 0 <= i < j < s.len() ==> #[trigger] s[i] < #[trigger] s[j]
            &&& forall|p: int| 0 <= p < n && (filter is None || filter == Some(types[p])) ==> #[trigger] s.contains(p as usize)
            &&& filter is None ==> s.len() == n
        }),
    decreases n,
{
    if n > 0 {
        lemma_shown_positions(types, filter, n - 1);
        let prev = shown_positions(types, filter, n - 1);
        let s = shown_positions(types, filter, n);
        let shown = filter is None || filter == Some(types[n - 1]);
        if shown {
            assert(s == prev.push((n - 1) as usize));
        } else {
            assert(s == prev);
        }
        assert forall|i: int| 0 <= i < s.len() implies (#[trigger] s[i]) < n by {
            if i < prev.len() {
                assert(s[i] == prev[i]);
            }
        }
        assert forall|i: int| 0 <= i < s.len() implies (filter matches Some(t) ==> types[#[trigger] s[i] as int] == t) by {
            if i < prev.len() {
                assert(s[i] == prev[i]);
            }
        }
        assert forall|i: int, j: int| 0 <= i < j < s.len() implies #[trigger] s[i] < #[trigger] s[j] by {
            if j < prev.len() {
                assert(s[i] == prev[i]);
                assert(s[j] == prev[j]);
            } else {
                assert(s[i] == prev[i]);
                assert(prev[i] < n - 1);
            }
        }
        assert forall|p: int| 0 <= p < n && (filter is None || filter == Some(types[p])) implies #[trigger] s.contains(p as usize) by {
            if p < n - 1 {
                assert(prev.contains(p as usize));
                let k = choose|k: int| 0 <= k < prev.len() && prev[k] == p as usize;
                assert(s[k] == p as usize);
            } else {
                assert(s[s.len() - 1] == p as usize);
            }
        }
    }
}

} // verus!

verus! {

/// Cycling a governor always lands on one of the available governors (an
/// empty list leaves it as it was).
pub proof fn lemma_cycled_governor_available(avail: Seq<CpuGovernor>, current: CpuGovernor, direction: i32)
    requires
        avail.len() > 0,
    ensures
        avail.contains(cycled_governor(avail, current, direction)),
{
    let k = (governor_index_from(crate::config::governor_views(avail), current@, 0) + direction) % (avail.len() as int);
    assert(0 <= k < avail.len());
    assert(avail[k] == cycled_governor(avail, current, direction));
}

} // verus!

verus! {

/// The frequency fields move between the smallest and the largest
/// frequency the hardware lists, whatever order the list is in, as long as
/// the list holds two different frequencies; otherwise (no list, an empty
/// list, or one frequency only) between 400 000 and 3 500 000 kHz.
pub proof fn lemma_freq_range_is_span(f: Seq<u32>)
    ensures
        (exists|i: int, j: int| 0 <= i < f.len() && 0 <= j < f.len() && f[i] < f[j]) ==> ({
            let (lo, hi) = freq_range_for(Some(f));
            f.contains(lo) && f.contains(hi) && forall|k: int| 0 <= k < f.len() ==> lo <= #[trigger] f[k] <= hi
        }),
        !(exists|i: int, j: int| 0 <= i < f.len() && 0 <= j < f.len() && f[i] < f[j]) ==> freq_range_for(Some(f))
            == (400_000u32, 3_500_000u32),
        freq_range_for(None) == (400_000u32, 3_500_000u32),
{
    if f.len() > 0 {
        crate::config::lemma_seq_min_max(f);
        if exists|i: int, j: int| 0 <= i < f.len() && 0 <= j < f.len() && f[i] < f[j] {
            let (i, j) = choose|i: int, j: int| 0 <= i < f.len() && 0 <= j < f.len() && f[i] < f[j];
            assert(crate::config::seq_min(f) <= f[i]);
            assert(f[j] <= crate::config::seq_max(f));
        } else {
            let a = choose|a: int| 0 <= a < f.len() && f[a] == crate::config::seq_min(f);
            let b = choose|b: int| 0 <= b < f.len() && f[b] == crate::config::seq_max(f);
            assert(!(f[a] < f[b]));
        }
    }
}

/// While monitoring, the digit key `d` ('1' to '5') selects the tab at
/// position `d - '1'` of the display order (Status, Battery, CPU, Thermal,
/// Events) and changes nothing else.
pub proof fn lemma_digit_selects_tab(a: App, c: char, ctrl: bool)
    requires
        '1' <= c <= '5',
    ensures
        crate::tui::tab_index(monitoring_result(a, KeyPress { code: Key::Char(c), ctrl }).0.selected_tab)
            == (c as int) - ('1' as int),
        monitoring_result(a, KeyPress { code: Key::Char(c), ctrl }).0 == (App {
            selected_tab: monitoring_result(a, KeyPress { code: Key::Char(c), ctrl }).0.selected_tab,
            ..a
        }),
        monitoring_result(a, KeyPress { code: Key::Char(c), ctrl }).1 == KeyAction::Nothing,
{
    assert(c == '1' || c == '2' || c == '3' || c == '4' || c == '5') by {
        assert(('1' as int) == 49 && ('5' as int) == 53);
        assert(c as int == 49 || c as int == 50 || c as int == 51 || c as int == 52 || c as int == 53);
    }
}

} // verus!
