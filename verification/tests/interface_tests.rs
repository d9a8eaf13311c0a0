use spinctrl::config::{Config, CpuGovernor, StandardGovernor, ThermalProfile};
use spinctrl::error::SpinCtrlError;
use spinctrl::interface::{event_window, is_choice, visible_events, App, Key, KeyAction, KeyPress, StatusRead};
use spinctrl::ipc::{Command, EventType};
use spinctrl::tui::{AppMode, EditField, PopupType, Tab, Tone};

fn make_test_app() -> App {
    App::new(Config::default(), Config::governors_from_listing(None), None)
}

fn key(code: Key) -> KeyPress {
    KeyPress { code, ctrl: false }
}

#[test]
fn tests_test_app_new_succeeds_without_service() {
    let app = make_test_app();
    assert_eq!(app.selected_tab, Tab::Status);
    assert_eq!(app.mode, AppMode::Monitoring);
    assert!(!app.should_quit);
    assert!(!app.service_available);
    assert!(app.error_message.is_none());
    assert!(app.editing_field.is_none());
    assert_eq!(app.scroll_offset, 0);
    assert_eq!(app.selected_item, 0);
    assert_eq!(app.config, Config::default());
}

#[test]
fn tests_test_apply_config_in_place_without_service_sets_error_and_stays_editing() {
    let mut app = make_test_app();
    assert!(!app.service_available, "fresh App must report service unavailable");
    app.mode = AppMode::Editing;
    app.apply_config_in_place();
    assert_eq!(app.mode, AppMode::Editing, "must stay in Editing mode");
    assert!(app.error_message.is_some(), "must set error_message");
    assert!(app.error_message.as_deref().unwrap_or("").contains("offline"), "unexpected: {:?}", app.error_message);
}

#[test]
fn tests_test_apply_config_in_place_validates_before_pushing() {
    let mut app = make_test_app();
    app.service_available = true;
    app.mode = AppMode::Editing;
    app.config.battery.threshold = 30;
    app.apply_config_in_place();
    assert_eq!(app.mode, AppMode::Editing, "must stay in Editing mode even on validation failure");
    assert!(
        app.error_message.as_deref().unwrap_or("").contains("validation"),
        "expected validation msg, got: {:?}",
        app.error_message
    );
}

#[test]
fn tests_test_arrow_adjust_threshold_increments_and_clamps() {
    let mut app = make_test_app();
    app.selected_tab = Tab::Battery;
    app.begin_editing();
    assert_eq!(app.editing_field, Some(EditField::BatteryThreshold));
    assert_eq!(app.config.battery.threshold, 80, "default threshold");
    app.adjust_field(1);
    assert_eq!(app.config.battery.threshold, 81, "Right must increment by step 1");
    app.adjust_field(-1);
    app.adjust_field(-1);
    assert_eq!(app.config.battery.threshold, 79, "Left must decrement by step 1");
    app.config.battery.threshold = 100;
    app.adjust_field(1);
    assert_eq!(app.config.battery.threshold, 100, "must clamp at upper bound 100");
    app.config.battery.threshold = 50;
    app.adjust_field(-1);
    assert_eq!(app.config.battery.threshold, 50, "must clamp at lower bound 50");
}

#[test]
fn tests_test_arrow_adjust_thermal_temps_clamp_to_range() {
    let mut app = make_test_app();
    app.selected_tab = Tab::Thermal;
    app.begin_editing();
    app.editing_field = Some(EditField::ThermalWarn);
    app.config.thermal.warn_temp = 40;
    app.adjust_field(-1);
    assert_eq!(app.config.thermal.warn_temp, 40, "warn_temp lower bound 40");
    app.config.thermal.warn_temp = 100;
    app.adjust_field(1);
    assert_eq!(app.config.thermal.warn_temp, 100, "warn_temp upper bound 100");
}

#[test]
fn tests_test_next_edit_field_cycles_thermal_fields() {
    let mut app = make_test_app();
    app.selected_tab = Tab::Thermal;
    app.begin_editing();
    assert_eq!(app.editing_field, Some(EditField::ThermalProfile));
    app.next_edit_field();
    assert_eq!(app.editing_field, Some(EditField::ThermalFanOff));
    app.next_edit_field();
    assert_eq!(app.editing_field, Some(EditField::ThermalHigh));
    app.next_edit_field();
    assert_eq!(app.editing_field, Some(EditField::ThermalWarn));
    app.next_edit_field();
    assert_eq!(app.editing_field, Some(EditField::ThermalFanMax));
    app.next_edit_field();
    assert_eq!(app.editing_field, Some(EditField::ThermalShutdown));
    app.next_edit_field();
    assert_eq!(app.editing_field, Some(EditField::ThermalProfile), "must wrap to the first field");
}

#[test]
fn tests_test_battery_tab_cycles_threshold_and_force() {
    let mut app = make_test_app();
    app.selected_tab = Tab::Battery;
    app.begin_editing();
    assert_eq!(app.editing_field, Some(EditField::BatteryThreshold));
    app.next_edit_field();
    assert_eq!(app.editing_field, Some(EditField::BatteryForceCharge));
    app.next_edit_field();
    assert_eq!(app.editing_field, Some(EditField::BatteryThreshold), "must wrap to threshold");
}

#[test]
fn tests_test_cpu_tab_cycles_all_four_fields() {
    let mut app = make_test_app();
    app.selected_tab = Tab::CPU;
    app.begin_editing();
    assert_eq!(app.editing_field, Some(EditField::CpuGovernorAc));
    app.next_edit_field();
    assert_eq!(app.editing_field, Some(EditField::CpuGovernorBattery));
    app.next_edit_field();
    assert_eq!(app.editing_field, Some(EditField::CpuMinFreqKhz));
    app.next_edit_field();
    assert_eq!(app.editing_field, Some(EditField::CpuMaxFreqKhz));
    app.next_edit_field();
    assert_eq!(app.editing_field, Some(EditField::CpuGovernorAc), "must wrap to governor_ac");
}

#[test]
fn tests_test_arrow_toggle_force_charge() {
    let mut app = make_test_app();
    app.editing_field = Some(EditField::BatteryForceCharge);
    assert!(!app.config.battery.force_charge, "default false");
    app.adjust_field(1);
    assert!(app.config.battery.force_charge, "Right must toggle to true");
    app.adjust_field(-1);
    assert!(!app.config.battery.force_charge, "Left must toggle back to false");
    app.adjust_field(1);
    app.adjust_field(1);
    assert!(!app.config.battery.force_charge, "two toggles return to false");
}

#[test]
fn tests_test_arrow_cycle_profile() {
    let mut app = make_test_app();
    app.editing_field = Some(EditField::ThermalProfile);
    app.config.thermal.profile = ThermalProfile::Balanced;
    app.adjust_field(1);
    assert_eq!(app.config.thermal.profile, ThermalProfile::Performance);
    app.adjust_field(1);
    assert_eq!(app.config.thermal.profile, ThermalProfile::Custom);
    app.adjust_field(1);
    assert_eq!(app.config.thermal.profile, ThermalProfile::Conservative, "must wrap");
    app.adjust_field(-1);
    assert_eq!(app.config.thermal.profile, ThermalProfile::Custom, "Left must go to previous");
}

#[test]
fn tests_test_arrow_cycle_governor() {
    let mut app = make_test_app();
    app.editing_field = Some(EditField::CpuGovernorAc);
    let governors = app.available_governors.clone();
    assert!(!governors.is_empty());
    let start = app.config.cpu.governor_ac.clone();
    app.adjust_field(1);
    assert_ne!(app.config.cpu.governor_ac, start, "must move to next governor");
    for _ in 0..governors.len() {
        app.adjust_field(1);
    }
    assert_eq!(app.config.cpu.governor_ac, app.config.cpu.governor_ac, "cycling through all lands somewhere valid");
    assert!(Config::is_valid_governor(&app.config.cpu.governor_ac, &governors));
}

#[test]
fn tests_test_arrow_adjust_cpu_freq_option_none_becomes_some() {
    let mut app = make_test_app();
    app.editing_field = Some(EditField::CpuMinFreqKhz);
    assert!(app.config.cpu.min_freq_khz.is_none(), "default is None");
    let (range_min, _) = app.freq_range;
    app.adjust_field(1);
    assert_eq!(
        app.config.cpu.min_freq_khz,
        Some(range_min.saturating_add(500_000)),
        "from None→range_min + step 500_000"
    );
}

#[test]
fn tests_test_esc_reverts_config() {
    let mut app = make_test_app();
    let original_threshold = app.config.battery.threshold;
    app.selected_tab = Tab::Battery;
    app.mode = AppMode::Editing;
    app.begin_editing();
    assert_eq!(app.config_backup.battery.threshold, original_threshold);
    app.config.battery.threshold = 99;
    assert_ne!(app.config_backup.battery.threshold, 99);
    app.config = app.config_backup.clone();
    app.editing_field = None;
    app.mode = AppMode::Monitoring;
    assert_eq!(app.config.battery.threshold, original_threshold, "Esc must revert to backup");
    assert_eq!(app.mode, AppMode::Monitoring);
    assert!(app.editing_field.is_none());
}

#[test]
fn tests_test_cycle_event_filter_walks_all_variants_and_wraps() {
    let mut app = make_test_app();
    assert!(app.event_filter.is_none(), "fresh App starts with no filter");

    app.cycle_event_filter();
    assert!(matches!(app.event_filter, Some(EventType::ConfigChanged)));
    app.cycle_event_filter();
    assert!(matches!(app.event_filter, Some(EventType::CommandExecuted)));
    app.cycle_event_filter();
    assert!(matches!(app.event_filter, Some(EventType::HardwareAction)));
    app.cycle_event_filter();
    assert!(matches!(app.event_filter, Some(EventType::Error)));
    app.cycle_event_filter();
    assert!(matches!(app.event_filter, Some(EventType::ServiceStart)));
    app.cycle_event_filter();
    assert!(matches!(app.event_filter, Some(EventType::ServiceStop)));
    app.cycle_event_filter();
    assert!(app.event_filter.is_none(), "must wrap back to None after ServiceStop");

    app.event_filter = Some(EventType::Error);
    app.clear_event_filter();
    assert!(app.event_filter.is_none());
}

#[test]
fn tests_test_event_filter_label_matches_tag() {
    let mut app = make_test_app();
    assert_eq!(app.event_filter_label(), "All");
    app.event_filter = Some(EventType::Error);
    assert_eq!(app.event_filter_label(), "ERR");
    app.event_filter = Some(EventType::ConfigChanged);
    assert_eq!(app.event_filter_label(), "CFG");
}

#[test]
fn tests_test_numeric_field_range_battery_threshold() {
    let mut app = make_test_app();
    app.mode = AppMode::Editing;
    app.editing_field = Some(EditField::BatteryThreshold);
    let (min, max, value, _color) = app.numeric_field_range().expect("must return range");
    assert_eq!((min, max), (50, 100));
    assert_eq!(value, 80);
}

#[test]
fn tests_test_numeric_field_range_freq_none_returns_range_at_max() {
    let mut app = make_test_app();
    app.mode = AppMode::Editing;
    app.editing_field = Some(EditField::CpuMinFreqKhz);
    app.config.cpu.min_freq_khz = None;
    let (min, max, v, _color) = app.numeric_field_range().expect("must return range for None freq");
    assert_eq!(v, max, "None freq marker should be at max (far right = unlimited)");
    assert!(min < max, "range must be valid");
}

#[test]
fn tests_test_numeric_field_range_none_for_enum() {
    let mut app = make_test_app();
    app.mode = AppMode::Editing;
    app.editing_field = Some(EditField::ThermalProfile);
    assert!(app.numeric_field_range().is_none(), "enum fields must not produce a range");
}

#[test]
fn tests_test_numeric_field_range_none_when_not_editing() {
    let mut app = make_test_app();
    app.mode = AppMode::Monitoring;
    app.editing_field = Some(EditField::BatteryThreshold);
    assert!(app.numeric_field_range().is_none(), "must be None when not in Editing mode");
}

#[test]
fn tests_test_freq_range_fallback_is_400mhz_to_3500mhz() {
    let (min, max) = App::compute_freq_range(None);
    assert!(min < max, "freq_range must have min < max: got {min} >= {max}");
    assert_eq!((min, max), (400_000, 3_500_000));
}

#[test]
fn tests_test_arrow_adjust_cpu_freq_uses_500mhz_step_and_clamps() {
    let mut app = make_test_app();
    app.editing_field = Some(EditField::CpuMinFreqKhz);
    let (range_min, range_max) = app.freq_range;
    app.config.cpu.min_freq_khz = Some(range_min);
    app.adjust_field(1);
    assert_eq!(
        app.config.cpu.min_freq_khz,
        Some(range_min.saturating_add(500_000).min(range_max)),
        "step must be 500_000 kHz"
    );
    app.config.cpu.min_freq_khz = Some(range_max);
    app.adjust_field(1);
    assert_eq!(app.config.cpu.min_freq_khz, Some(range_max), "must clamp at upper bound");
}

#[test]
fn tests_test_arrow_adjust_cpu_freq_none_defaults_to_range_min() {
    let mut app = make_test_app();
    app.editing_field = Some(EditField::CpuMinFreqKhz);
    app.config.cpu.min_freq_khz = None;
    let (range_min, _) = app.freq_range;
    app.adjust_field(1);
    assert_eq!(
        app.config.cpu.min_freq_khz,
        Some(range_min.saturating_add(500_000)),
        "from None, min_freq starts at range_min then steps up"
    );
}

#[test]
fn tests_test_arrow_adjust_cpu_max_freq_none_defaults_to_range_max() {
    let mut app = make_test_app();
    app.editing_field = Some(EditField::CpuMaxFreqKhz);
    app.config.cpu.max_freq_khz = None;
    let (range_min, range_max) = app.freq_range;
    app.adjust_field(-1);
    assert_eq!(
        app.config.cpu.max_freq_khz,
        Some(range_max.saturating_sub(500_000).max(range_min)),
        "from None, max_freq starts at range_max then steps down"
    );
}

#[test]
fn tests_test_u_key_sets_freq_to_none() {
    let mut app = make_test_app();
    app.mode = AppMode::Editing;
    app.editing_field = Some(EditField::CpuMinFreqKhz);
    app.config.cpu.min_freq_khz = Some(2_000_000);
    app.handle_editing_key(key(Key::Char('u')));
    assert!(app.config.cpu.min_freq_khz.is_none(), "'u' must set min_freq_khz to None");

    app.editing_field = Some(EditField::CpuMaxFreqKhz);
    app.config.cpu.max_freq_khz = Some(3_000_000);
    app.handle_editing_key(key(Key::Char('U')));
    assert!(app.config.cpu.max_freq_khz.is_none(), "'U' must set max_freq_khz to None");

    app.editing_field = Some(EditField::BatteryThreshold);
    app.config.battery.threshold = 80;
    app.handle_editing_key(key(Key::Char('u')));
    assert_eq!(app.config.battery.threshold, 80, "'u' must not affect non-freq fields");
}

#[test]
fn tests_test_tab_cycles_fields_in_editing_mode() {
    let mut app = make_test_app();
    app.selected_tab = Tab::Battery;
    app.mode = AppMode::Editing;
    app.begin_editing();
    assert_eq!(app.editing_field, Some(EditField::BatteryThreshold));
    app.next_edit_field();
    assert_eq!(app.editing_field, Some(EditField::BatteryForceCharge));
    app.next_edit_field();
    assert_eq!(app.editing_field, Some(EditField::BatteryThreshold), "must wrap");
}

// Further cases: the keys, the laws on concrete values, the reports.

#[test]
fn esc_abandons_a_whole_editing_session() {
    let mut app = make_test_app();
    let before = app.config.clone();
    app.handle_key_event(key(Key::Char('4')));
    assert_eq!(app.selected_tab, Tab::Thermal);
    app.handle_key_event(key(Key::Enter));
    assert_eq!(app.mode, AppMode::Editing);
    app.handle_key_event(key(Key::Right));
    app.handle_key_event(key(Key::Tab));
    app.handle_key_event(key(Key::Left));
    app.handle_key_event(key(Key::Left));
    assert_ne!(app.config, before);
    app.handle_key_event(key(Key::Esc));
    assert_eq!(app.config, before);
    assert_eq!(app.mode, AppMode::Monitoring);
    assert_eq!(app.editing_field, None);
}

#[test]
fn enter_pushes_only_a_valid_config_to_a_running_service() {
    let mut app = make_test_app();
    app.service_available = true;
    app.selected_tab = Tab::Battery;
    app.handle_key_event(key(Key::Enter));
    assert!(matches!(app.handle_key_event(key(Key::Enter)), KeyAction::PushConfig));
    assert_eq!(app.error_message, None);
    app.config.thermal.warn_temp = 10;
    assert!(matches!(app.handle_key_event(key(Key::Enter)), KeyAction::Nothing));
    let msg = app.error_message.clone().unwrap();
    assert!(msg.starts_with("Config validation failed: Configuration validation error: "), "{msg}");
    app.service_available = false;
    assert!(matches!(app.handle_key_event(key(Key::Enter)), KeyAction::Nothing));
    assert_eq!(
        app.error_message.as_deref(),
        Some("Service offline; changes held in-memory — start the service then press Enter to push")
    );
}

#[test]
fn validation_uses_the_known_frequencies() {
    let mut app = App::new(Config::default(), Config::fallback_governors(), Some(vec![1_000_000, 2_000_000]));
    assert_eq!(app.freq_range, (1_000_000, 2_000_000));
    app.service_available = true;
    app.mode = AppMode::Editing;
    app.config.cpu.max_freq_khz = Some(3_000_000);
    assert!(!app.apply_config_in_place());
    assert!(app.error_message.as_deref().unwrap().contains("exceeds the highest available"));
    app.config.cpu.max_freq_khz = Some(2_000_000);
    assert!(app.apply_config_in_place());
    let flat = App::new(Config::default(), Config::fallback_governors(), Some(vec![800_000, 800_000]));
    assert_eq!(flat.freq_range, (400_000, 3_500_000));
}

#[test]
fn finishing_a_push_updates_the_snapshot_or_reports() {
    let mut app = make_test_app();
    app.config.battery.threshold = 90;
    app.error_message = Some("old".to_string());
    app.finish_apply(None);
    assert_eq!(app.config_backup.battery.threshold, 90);
    assert_eq!(app.error_message, None);
    app.finish_apply(Some("no reader"));
    assert_eq!(app.error_message.as_deref(), Some("Failed to apply config: no reader"));
    app.command_failed("boom");
    assert_eq!(app.error_message.as_deref(), Some("Failed to send command: boom"));
}

#[test]
fn monitoring_keys() {
    let mut app = make_test_app();
    assert!(matches!(app.handle_key_event(key(Key::Char('r'))), KeyAction::Refresh));
    app.handle_key_event(key(Key::Right));
    assert_eq!(app.selected_tab, Tab::Battery);
    assert!(matches!(app.handle_key_event(key(Key::Char('f'))), KeyAction::Send(Command::ForceCharge)));
    assert!(matches!(app.handle_key_event(key(Key::Char('s'))), KeyAction::Send(Command::StopCharge)));
    app.handle_key_event(key(Key::BackTab));
    assert_eq!(app.selected_tab, Tab::Status);
    app.handle_key_event(key(Key::Down));
    app.handle_key_event(key(Key::Down));
    assert_eq!(app.selected_item, 2);
    app.handle_key_event(key(Key::Up));
    assert_eq!(app.selected_item, 1);
    app.handle_key_event(key(Key::Enter));
    assert_eq!(app.mode, AppMode::Monitoring, "the status tab has nothing to edit");
    app.handle_key_event(key(Key::Char('5')));
    app.handle_key_event(key(Key::Char('f')));
    assert_eq!(app.event_filter, Some(EventType::ConfigChanged));
    app.handle_key_event(key(Key::Char('a')));
    assert_eq!(app.event_filter, None);
    app.handle_key_event(key(Key::F(1)));
    assert_eq!(app.mode, AppMode::Help);
    app.handle_key_event(key(Key::Char('x')));
    assert_eq!(app.mode, AppMode::Help);
    app.handle_key_event(key(Key::Char('h')));
    assert_eq!(app.mode, AppMode::Monitoring);
}

#[test]
fn quitting_asks_first_except_for_plain_q() {
    let mut app = make_test_app();
    app.handle_key_event(KeyPress { code: Key::Char('q'), ctrl: true });
    assert_eq!(app.mode, AppMode::Popup(PopupType::ConfirmExit));
    app.handle_key_event(key(Key::Char('n')));
    assert_eq!(app.mode, AppMode::Monitoring);
    assert!(!app.should_quit);
    app.handle_key_event(key(Key::Esc));
    app.handle_key_event(key(Key::Char('Y')));
    assert!(app.should_quit);
    let mut app = make_test_app();
    app.handle_key_event(key(Key::Char('q')));
    assert!(app.should_quit);
}

#[test]
fn threshold_frozen_while_force_charge_is_on() {
    let mut app = make_test_app();
    app.config.battery.force_charge = true;
    app.selected_tab = Tab::Battery;
    app.begin_editing();
    assert_eq!(app.editing_field, Some(EditField::BatteryForceCharge));
    app.editing_field = Some(EditField::BatteryThreshold);
    app.adjust_field(1);
    assert_eq!(app.config.battery.threshold, 80);
    app.mode = AppMode::Editing;
    app.editing_field = Some(EditField::BatteryForceCharge);
    app.next_edit_field();
    assert_eq!(app.mode, AppMode::Monitoring, "nothing else to edit: editing ends");
    assert_eq!(app.editing_field, None);
}

#[test]
fn governor_not_in_the_list_starts_from_the_first() {
    let mut app = App::new(
        Config::default(),
        vec![CpuGovernor::Standard(StandardGovernor::Powersave), CpuGovernor::Custom("userspace".to_string())],
        None,
    );
    app.editing_field = Some(EditField::CpuGovernorAc);
    app.adjust_field(1);
    assert_eq!(app.config.cpu.governor_ac, CpuGovernor::Custom("userspace".to_string()));
    app.adjust_field(-3);
    assert_eq!(app.config.cpu.governor_ac, CpuGovernor::Standard(StandardGovernor::Powersave));
    let mut empty = App::new(Config::default(), Vec::new(), None);
    empty.editing_field = Some(EditField::CpuGovernorBattery);
    empty.adjust_field(1);
    assert_eq!(empty.config.cpu.governor_battery, CpuGovernor::Standard(StandardGovernor::Powersave));
}

#[test]
fn large_steps_wrap_and_clamp() {
    let mut app = make_test_app();
    app.editing_field = Some(EditField::ThermalProfile);
    app.adjust_field(i32::MAX);
    assert_eq!(app.config.thermal.profile, ThermalProfile::Conservative);
    app.adjust_field(i32::MIN);
    assert_eq!(app.config.thermal.profile, ThermalProfile::Conservative);
    app.editing_field = Some(EditField::ThermalShutdown);
    app.adjust_field(i32::MAX);
    assert_eq!(app.config.thermal.shutdown_temp, 110);
    app.adjust_field(i32::MIN);
    assert_eq!(app.config.thermal.shutdown_temp, 50);
}

#[test]
fn numeric_ranges_per_field() {
    let mut app = make_test_app();
    app.mode = AppMode::Editing;
    app.editing_field = Some(EditField::ThermalShutdown);
    assert_eq!(app.numeric_field_range(), Some((50, 110, 80, Tone::Red)));
    app.editing_field = Some(EditField::ThermalFanOff);
    assert_eq!(app.numeric_field_range(), Some((20, 80, 50, Tone::Green)));
    assert!(is_choice(EditField::CpuGovernorBattery));
    assert!(!is_choice(EditField::ThermalHigh));
}

#[test]
fn status_reports() {
    let mut app = make_test_app();
    app.absorb_status(&StatusRead::Missing);
    assert!(!app.service_available);
    assert_eq!(app.error_message.as_deref(), Some("Service not running"));
    app.absorb_status(&StatusRead::Found);
    assert!(app.service_available);
    assert_eq!(app.error_message, None);
    app.absorb_status(&StatusRead::Failed(SpinCtrlError::PermissionDenied("/s".into())));
    assert!(!app.service_available);
    let msg = app.error_message.clone().unwrap();
    assert!(msg.starts_with("Failed to read status: Permission denied accessing /s."), "{msg}");
    app.absorb_status(&StatusRead::Missing);
    assert_eq!(app.error_message.as_deref(), Some(msg.as_str()), "an earlier message stands");
}

#[test]
fn service_config_does_not_overwrite_edits() {
    let mut app = make_test_app();
    let mut other = Config::default();
    other.battery.threshold = 95;
    app.mode = AppMode::Editing;
    app.absorb_config(other.clone());
    assert_eq!(app.config.battery.threshold, 80);
    app.mode = AppMode::Monitoring;
    app.absorb_config(other);
    assert_eq!(app.config.battery.threshold, 95);
}

#[test]
fn events_filter_and_window() {
    let types = [EventType::ServiceStart, EventType::Error, EventType::ConfigChanged, EventType::Error];
    assert_eq!(visible_events(&types, None), vec![0, 1, 2, 3]);
    assert_eq!(visible_events(&types, Some(EventType::Error)), vec![1, 3]);
    assert!(visible_events(&types, Some(EventType::ServiceStop)).is_empty());
    assert_eq!(event_window(10, 0, 0, 4), (0, 4, 0));
    assert_eq!(event_window(10, 5, 0, 4), (2, 6, 3));
    assert_eq!(event_window(10, 50, 0, 4), (6, 10, 3));
    assert_eq!(event_window(10, 1, 3, 4), (1, 5, 0));
    assert_eq!(event_window(3, 1, 0, 0), (2, 2, 0));
}

#[test]
fn app_test_app_new_succeeds_without_service() {
    let app = make_test_app();
    assert_eq!(app.selected_tab, Tab::Status);
    assert_eq!(app.mode, AppMode::Monitoring);
    assert!(!app.should_quit);
    assert!(!app.service_available);
    assert!(app.error_message.is_none());
    assert!(app.editing_field.is_none());
    assert_eq!(app.scroll_offset, 0);
    assert_eq!(app.selected_item, 0);
    assert_eq!(app.config, Config::default());
}

#[test]
fn app_test_apply_config_in_place_without_service_sets_error_and_stays_editing() {
    let mut app = make_test_app();
    assert!(!app.service_available, "fresh App must report service unavailable");
    app.mode = AppMode::Editing;
    app.apply_config_in_place();
    assert_eq!(app.mode, AppMode::Editing, "must stay in Editing mode");
    assert!(app.error_message.is_some(), "must set error_message");
    assert!(app.error_message.as_deref().unwrap_or("").contains("offline"), "unexpected: {:?}", app.error_message);
}

#[test]
fn app_test_apply_config_in_place_validates_before_pushing() {
    let mut app = make_test_app();
    app.service_available = true;
    app.mode = AppMode::Editing;
    app.config.battery.threshold = 30;
    app.apply_config_in_place();
    assert_eq!(app.mode, AppMode::Editing, "must stay in Editing mode even on validation failure");
    assert!(
        app.error_message.as_deref().unwrap_or("").contains("validation"),
        "expected validation msg, got: {:?}",
        app.error_message
    );
}

#[test]
fn app_test_arrow_adjust_threshold_increments_and_clamps() {
    let mut app = make_test_app();
    app.selected_tab = Tab::Battery;
    app.begin_editing();
    assert_eq!(app.editing_field, Some(EditField::BatteryThreshold));
    assert_eq!(app.config.battery.threshold, 80, "default threshold");
    app.adjust_field(1);
    assert_eq!(app.config.battery.threshold, 81, "Right must increment by step 1");
    app.adjust_field(-1);
    app.adjust_field(-1);
    assert_eq!(app.config.battery.threshold, 79, "Left must decrement by step 1");
    app.config.battery.threshold = 100;
    app.adjust_field(1);
    assert_eq!(app.config.battery.threshold, 100, "must clamp at upper bound 100");
    app.config.battery.threshold = 50;
    app.adjust_field(-1);
    assert_eq!(app.config.battery.threshold, 50, "must clamp at lower bound 50");
}

#[test]
fn app_test_arrow_adjust_thermal_temps_clamp_to_range() {
    let mut app = make_test_app();
    app.selected_tab = Tab::Thermal;
    app.begin_editing();
    app.editing_field = Some(EditField::ThermalWarn);
    app.config.thermal.warn_temp = 40;
    app.adjust_field(-1);
    assert_eq!(app.config.thermal.warn_temp, 40, "warn_temp lower bound 40");
    app.config.thermal.warn_temp = 100;
    app.adjust_field(1);
    assert_eq!(app.config.thermal.warn_temp, 100, "warn_temp upper bound 100");
}

#[test]
fn app_test_next_edit_field_cycles_thermal_fields() {
    let mut app = make_test_app();
    app.selected_tab = Tab::Thermal;
    app.begin_editing();
    assert_eq!(app.editing_field, Some(EditField::ThermalProfile));
    app.next_edit_field();
    assert_eq!(app.editing_field, Some(EditField::ThermalFanOff));
    app.next_edit_field();
    assert_eq!(app.editing_field, Some(EditField::ThermalHigh));
    app.next_edit_field();
    assert_eq!(app.editing_field, Some(EditField::ThermalWarn));
    app.next_edit_field();
    assert_eq!(app.editing_field, Some(EditField::ThermalFanMax));
    app.next_edit_field();
    assert_eq!(app.editing_field, Some(EditField::ThermalShutdown));
    app.next_edit_field();
    assert_eq!(app.editing_field, Some(EditField::ThermalProfile), "must wrap to the first field");
}

#[test]
fn app_test_battery_tab_cycles_threshold_and_force() {
    let mut app = make_test_app();
    app.selected_tab = Tab::Battery;
    app.begin_editing();
    assert_eq!(app.editing_field, Some(EditField::BatteryThreshold));
    app.next_edit_field();
    assert_eq!(app.editing_field, Some(EditField::BatteryForceCharge));
    app.next_edit_field();
    assert_eq!(app.editing_field, Some(EditField::BatteryThreshold), "must wrap to threshold");
}

#[test]
fn app_test_cpu_tab_cycles_all_four_fields() {
    let mut app = make_test_app();
    app.selected_tab = Tab::CPU;
    app.begin_editing();
    assert_eq!(app.editing_field, Some(EditField::CpuGovernorAc));
    app.next_edit_field();
    assert_eq!(app.editing_field, Some(EditField::CpuGovernorBattery));
    app.next_edit_field();
    assert_eq!(app.editing_field, Some(EditField::CpuMinFreqKhz));
    app.next_edit_field();
    assert_eq!(app.editing_field, Some(EditField::CpuMaxFreqKhz));
    app.next_edit_field();
    assert_eq!(app.editing_field, Some(EditField::CpuGovernorAc), "must wrap to governor_ac");
}

#[test]
fn app_test_arrow_toggle_force_charge() {
    let mut app = make_test_app();
    app.editing_field = Some(EditField::BatteryForceCharge);
    assert!(!app.config.battery.force_charge, "default false");
    app.adjust_field(1);
    assert!(app.config.battery.force_charge, "Right must toggle to true");
    app.adjust_field(-1);
    assert!(!app.config.battery.force_charge, "Left must toggle back to false");
    app.adjust_field(1);
    app.adjust_field(1);
    assert!(!app.config.battery.force_charge, "two toggles return to false");
}

#[test]
fn app_test_arrow_cycle_profile() {
    let mut app = make_test_app();
    app.editing_field = Some(EditField::ThermalProfile);
    app.config.thermal.profile = ThermalProfile::Balanced;
    app.adjust_field(1);
    assert_eq!(app.config.thermal.profile, ThermalProfile::Performance);
    app.adjust_field(1);
    assert_eq!(app.config.thermal.profile, ThermalProfile::Custom);
    app.adjust_field(1);
    assert_eq!(app.config.thermal.profile, ThermalProfile::Conservative, "must wrap");
    app.adjust_field(-1);
    assert_eq!(app.config.thermal.profile, ThermalProfile::Custom, "Left must go to previous");
}

#[test]
fn app_test_arrow_cycle_governor() {
    let mut app = make_test_app();
    app.editing_field = Some(EditField::CpuGovernorAc);
    let governors = app.available_governors.clone();
    assert!(!governors.is_empty());
    let start = app.config.cpu.governor_ac.clone();
    app.adjust_field(1);
    assert_ne!(app.config.cpu.governor_ac, start, "must move to next governor");
    for _ in 0..governors.len() {
        app.adjust_field(1);
    }
    assert_eq!(app.config.cpu.governor_ac, app.config.cpu.governor_ac, "cycling through all lands somewhere valid");
    assert!(Config::is_valid_governor(&app.config.cpu.governor_ac, &governors));
}

#[test]
fn app_test_arrow_adjust_cpu_freq_option_none_becomes_some() {
    let mut app = make_test_app();
    app.editing_field = Some(EditField::CpuMinFreqKhz);
    assert!(app.config.cpu.min_freq_khz.is_none(), "default is None");
    let (range_min, _) = app.freq_range;
    app.adjust_field(1);
    assert_eq!(
        app.config.cpu.min_freq_khz,
        Some(range_min.saturating_add(500_000)),
        "from None→range_min + step 500_000"
    );
}

#[test]
fn app_test_esc_reverts_config() {
    let mut app = make_test_app();
    let original_threshold = app.config.battery.threshold;
    app.selected_tab = Tab::Battery;
    app.mode = AppMode::Editing;
    app.begin_editing();
    assert_eq!(app.config_backup.battery.threshold, original_threshold);
    app.config.battery.threshold = 99;
    assert_ne!(app.config_backup.battery.threshold, 99);
    app.config = app.config_backup.clone();
    app.editing_field = None;
    app.mode = AppMode::Monitoring;
    assert_eq!(app.config.battery.threshold, original_threshold, "Esc must revert to backup");
    assert_eq!(app.mode, AppMode::Monitoring);
    assert!(app.editing_field.is_none());
}

#[test]
fn app_test_cycle_event_filter_walks_all_variants_and_wraps() {
    let mut app = make_test_app();
    assert!(app.event_filter.is_none(), "fresh App starts with no filter");

    app.cycle_event_filter();
    assert!(matches!(app.event_filter, Some(EventType::ConfigChanged)));
    app.cycle_event_filter();
    assert!(matches!(app.event_filter, Some(EventType::CommandExecuted)));
    app.cycle_event_filter();
    assert!(matches!(app.event_filter, Some(EventType::HardwareAction)));
    app.cycle_event_filter();
    assert!(matches!(app.event_filter, Some(EventType::Error)));
    app.cycle_event_filter();
    assert!(matches!(app.event_filter, Some(EventType::ServiceStart)));
    app.cycle_event_filter();
    assert!(matches!(app.event_filter, Some(EventType::ServiceStop)));
    app.cycle_event_filter();
    assert!(app.event_filter.is_none(), "must wrap back to None after ServiceStop");

    app.event_filter = Some(EventType::Error);
    app.clear_event_filter();
    assert!(app.event_filter.is_none());
}

#[test]
fn app_test_event_filter_label_matches_tag() {
    let mut app = make_test_app();
    assert_eq!(app.event_filter_label(), "All");
    app.event_filter = Some(EventType::Error);
    assert_eq!(app.event_filter_label(), "ERR");
    app.event_filter = Some(EventType::ConfigChanged);
    assert_eq!(app.event_filter_label(), "CFG");
}

#[test]
fn app_test_numeric_field_range_battery_threshold() {
    let mut app = make_test_app();
    app.mode = AppMode::Editing;
    app.editing_field = Some(EditField::BatteryThreshold);
    let (min, max, value, _color) = app.numeric_field_range().expect("must return range");
    assert_eq!((min, max), (50, 100));
    assert_eq!(value, 80);
}

#[test]
fn app_test_numeric_field_range_freq_none_returns_range_at_max() {
    let mut app = make_test_app();
    app.mode = AppMode::Editing;
    app.editing_field = Some(EditField::CpuMinFreqKhz);
    app.config.cpu.min_freq_khz = None;
    let (min, max, v, _color) = app.numeric_field_range().expect("must return range for None freq");
    assert_eq!(v, max, "None freq marker should be at max (far right = unlimited)");
    assert!(min < max, "range must be valid");
}

#[test]
fn app_test_numeric_field_range_none_for_enum() {
    let mut app = make_test_app();
    app.mode = AppMode::Editing;
    app.editing_field = Some(EditField::ThermalProfile);
    assert!(app.numeric_field_range().is_none(), "enum fields must not produce a range");
}

#[test]
fn app_test_numeric_field_range_none_when_not_editing() {
    let mut app = make_test_app();
    app.mode = AppMode::Monitoring;
    app.editing_field = Some(EditField::BatteryThreshold);
    assert!(app.numeric_field_range().is_none(), "must be None when not in Editing mode");
}

#[test]
fn app_test_freq_range_fallback_is_400mhz_to_3500mhz() {
    let (min, max) = App::compute_freq_range(None);
    assert!(min < max, "freq_range must have min < max: got {min} >= {max}");
    assert_eq!((min, max), (400_000, 3_500_000));
}

#[test]
fn app_test_arrow_adjust_cpu_freq_uses_500mhz_step_and_clamps() {
    let mut app = make_test_app();
    app.editing_field = Some(EditField::CpuMinFreqKhz);
    let (range_min, range_max) = app.freq_range;
    app.config.cpu.min_freq_khz = Some(range_min);
    app.adjust_field(1);
    assert_eq!(
        app.config.cpu.min_freq_khz,
        Some(range_min.saturating_add(500_000).min(range_max)),
        "step must be 500_000 kHz"
    );
    app.config.cpu.min_freq_khz = Some(range_max);
    app.adjust_field(1);
    assert_eq!(app.config.cpu.min_freq_khz, Some(range_max), "must clamp at upper bound");
}

#[test]
fn app_test_arrow_adjust_cpu_freq_none_defaults_to_range_min() {
    let mut app = make_test_app();
    app.editing_field = Some(EditField::CpuMinFreqKhz);
    app.config.cpu.min_freq_khz = None;
    let (range_min, _) = app.freq_range;
    app.adjust_field(1);
    assert_eq!(
        app.config.cpu.min_freq_khz,
        Some(range_min.saturating_add(500_000)),
        "from None, min_freq starts at range_min then steps up"
    );
}

#[test]
fn app_test_arrow_adjust_cpu_max_freq_none_defaults_to_range_max() {
    let mut app = make_test_app();
    app.editing_field = Some(EditField::CpuMaxFreqKhz);
    app.config.cpu.max_freq_khz = None;
    let (range_min, range_max) = app.freq_range;
    app.adjust_field(-1);
    assert_eq!(
        app.config.cpu.max_freq_khz,
        Some(range_max.saturating_sub(500_000).max(range_min)),
        "from None, max_freq starts at range_max then steps down"
    );
}

#[test]
fn app_test_tab_cycles_fields_in_editing_mode() {
    let mut app = make_test_app();
    app.selected_tab = Tab::Battery;
    app.mode = AppMode::Editing;
    app.begin_editing();
    assert_eq!(app.editing_field, Some(EditField::BatteryThreshold));
    app.next_edit_field();
    assert_eq!(app.editing_field, Some(EditField::BatteryForceCharge));
    app.next_edit_field();
    assert_eq!(app.editing_field, Some(EditField::BatteryThreshold), "must wrap");
}

#[test]
fn app_test_u_key_sets_freq_to_none() {
    let mut app = make_test_app();
    app.mode = AppMode::Editing;
    app.editing_field = Some(EditField::CpuMinFreqKhz);
    app.config.cpu.min_freq_khz = Some(2_000_000);
    app.handle_editing_key(key(Key::Char('u')));
    assert!(app.config.cpu.min_freq_khz.is_none(), "'u' must set min_freq_khz to None");

    app.editing_field = Some(EditField::CpuMaxFreqKhz);
    app.config.cpu.max_freq_khz = Some(3_000_000);
    app.handle_editing_key(key(Key::Char('U')));
    assert!(app.config.cpu.max_freq_khz.is_none(), "'U' must set max_freq_khz to None");

    app.editing_field = Some(EditField::BatteryThreshold);
    app.config.battery.threshold = 80;
    app.handle_editing_key(key(Key::Char('u')));
    assert_eq!(app.config.battery.threshold, 80, "'u' must not affect non-freq fields");
}

#[test]
fn status_read_permission_problem_gets_guidance() {
    let mut app = make_test_app();
    let io = std::io::Error::new(std::io::ErrorKind::PermissionDenied, "denied");
    app.absorb_status(&StatusRead::Failed(SpinCtrlError::Io(io, spinctrl::error::IoKind::PermissionDenied)));
    assert_eq!(
        app.error_message.as_deref(),
        Some("Failed to read status: Permission denied (EACCES). Add yourself to the 'spinctrl' group and re-login: sudo usermod -a -G spinctrl $USER")
    );
}
