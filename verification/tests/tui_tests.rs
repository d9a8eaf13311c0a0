use spinctrl::config::ThermalProfile;
use spinctrl::ipc::EventType;
use spinctrl::tui::{
    centered_rect, footer_text, Area, ac_words, charging_words, event_type_tag, field_description, freq_reading, gauge_tone, temp_reading,
    thermal_profile_name, threshold_field_look, threshold_words, zone_temp_color, AppMode, EditField, PopupType,
    Tab, Tone,
};

#[test]
fn tests_test_tab_from_index_valid() {
    assert_eq!(Tab::from_index(0), Tab::Status);
    assert_eq!(Tab::from_index(1), Tab::Battery);
    assert_eq!(Tab::from_index(2), Tab::CPU);
    assert_eq!(Tab::from_index(3), Tab::Thermal);
    assert_eq!(Tab::from_index(4), Tab::Events);
}

#[test]
fn tests_test_tab_from_index_out_of_range_defaults_to_status() {
    assert_eq!(Tab::from_index(5), Tab::Status);
    assert_eq!(Tab::from_index(usize::MAX), Tab::Status);
}

#[test]
fn tests_test_tab_to_index_round_trip() {
    for i in 0..Tab::COUNT {
        assert_eq!(Tab::from_index(i).to_index(), i);
    }
}

#[test]
fn tests_test_tab_next_wraps_around() {
    assert_eq!(Tab::Status.next(), Tab::Battery);
    assert_eq!(Tab::Battery.next(), Tab::CPU);
    assert_eq!(Tab::CPU.next(), Tab::Thermal);
    assert_eq!(Tab::Thermal.next(), Tab::Events);
    assert_eq!(Tab::Events.next(), Tab::Status);
}

#[test]
fn tests_test_tab_previous_wraps_around() {
    assert_eq!(Tab::Status.previous(), Tab::Events);
    assert_eq!(Tab::Events.previous(), Tab::Thermal);
    assert_eq!(Tab::Battery.previous(), Tab::Status);
}

#[test]
fn tests_test_tab_titles_count_match() {
    assert_eq!(Tab::titles().len(), Tab::COUNT);
    assert_eq!(Tab::COUNT, 5);
    assert_eq!(Tab::titles(), ["Status", "Battery", "CPU", "Thermal", "Events"]);
}

#[test]
fn tests_test_tab_is_copy() {
    let original = Tab::CPU;
    let copy = original;
    assert_eq!(original, copy);
}

#[test]
fn tests_test_appmode_equality() {
    assert_eq!(AppMode::Monitoring, AppMode::Monitoring);
    assert_ne!(AppMode::Monitoring, AppMode::Editing);
    assert_ne!(AppMode::Monitoring, AppMode::Help);
    assert_eq!(AppMode::Popup(PopupType::ConfirmExit), AppMode::Popup(PopupType::ConfirmExit));
    assert_ne!(AppMode::Popup(PopupType::ConfirmExit), AppMode::Monitoring);
}

#[test]
fn tests_test_popuptype_equality_and_clone() {
    assert_eq!(PopupType::ConfirmExit, PopupType::ConfirmExit);
    let a = PopupType::ConfirmExit;
    let b = a.clone();
    assert_eq!(a, b);
}

#[test]
fn app_test_tab_from_index_valid() {
    assert_eq!(Tab::from_index(0), Tab::Status);
    assert_eq!(Tab::from_index(1), Tab::Battery);
    assert_eq!(Tab::from_index(2), Tab::CPU);
    assert_eq!(Tab::from_index(3), Tab::Thermal);
    assert_eq!(Tab::from_index(4), Tab::Events);
}

#[test]
fn app_test_tab_from_index_out_of_range_defaults_to_status() {
    assert_eq!(Tab::from_index(5), Tab::Status);
    assert_eq!(Tab::from_index(usize::MAX), Tab::Status);
}

#[test]
fn app_test_tab_to_index_round_trip() {
    for i in 0..Tab::COUNT {
        assert_eq!(Tab::from_index(i).to_index(), i);
    }
}

#[test]
fn app_test_tab_next_wraps_around() {
    assert_eq!(Tab::Status.next(), Tab::Battery);
    assert_eq!(Tab::Battery.next(), Tab::CPU);
    assert_eq!(Tab::CPU.next(), Tab::Thermal);
    assert_eq!(Tab::Thermal.next(), Tab::Events);
    assert_eq!(Tab::Events.next(), Tab::Status);
}

#[test]
fn app_test_tab_previous_wraps_around() {
    assert_eq!(Tab::Status.previous(), Tab::Events);
    assert_eq!(Tab::Events.previous(), Tab::Thermal);
    assert_eq!(Tab::Battery.previous(), Tab::Status);
}

#[test]
fn app_test_tab_titles_count_match() {
    assert_eq!(Tab::titles().len(), Tab::COUNT);
    assert_eq!(Tab::COUNT, 5);
    assert_eq!(Tab::titles(), ["Status", "Battery", "CPU", "Thermal", "Events"]);
}

#[test]
fn app_test_tab_is_copy() {
    let original = Tab::CPU;
    let copy = original;
    assert_eq!(original, copy);
}

#[test]
fn app_test_appmode_equality() {
    assert_eq!(AppMode::Monitoring, AppMode::Monitoring);
    assert_ne!(AppMode::Monitoring, AppMode::Editing);
    assert_ne!(AppMode::Monitoring, AppMode::Help);
    assert_eq!(AppMode::Popup(PopupType::ConfirmExit), AppMode::Popup(PopupType::ConfirmExit));
    assert_ne!(AppMode::Popup(PopupType::ConfirmExit), AppMode::Monitoring);
}

#[test]
fn app_test_popuptype_equality_and_clone() {
    assert_eq!(PopupType::ConfirmExit, PopupType::ConfirmExit);
    let a = PopupType::ConfirmExit;
    let b = a.clone();
    assert_eq!(a, b);
}

// Further cases.

#[test]
fn tab_steps_undo_each_other() {
    for i in 0..Tab::COUNT {
        let t = Tab::from_index(i);
        assert_eq!(t.next().previous(), t);
        assert_eq!(t.previous().next(), t);
        let mut u = t;
        for _ in 0..5 {
            u = u.next();
        }
        assert_eq!(u, t);
    }
}

#[test]
fn labels_and_colors() {
    assert_eq!(field_description(EditField::ThermalShutdown), "emergency shutdown");
    assert_eq!(field_description(EditField::CpuMinFreqKhz), "min CPU freq (u=unlimited)");
    assert_eq!(thermal_profile_name(&ThermalProfile::Performance), "Performance");
    let tag = event_type_tag(&EventType::HardwareAction);
    assert_eq!(tag.tag, "HW");
    assert_eq!(tag.color, Tone::Magenta);
    assert_eq!(event_type_tag(&EventType::ServiceStop).tag, "STP");
    assert_eq!(zone_temp_color(70), Tone::Red);
    assert_eq!(zone_temp_color(69), Tone::Yellow);
    assert_eq!(zone_temp_color(55), Tone::Yellow);
    assert_eq!(zone_temp_color(54), Tone::Green);
    assert_eq!(gauge_tone(10, true), Tone::Green);
    assert_eq!(gauge_tone(19, false), Tone::Red);
    assert_eq!(gauge_tone(20, false), Tone::Yellow);
}

#[test]
fn readings_as_text() {
    assert_eq!(freq_reading(None), "n/a");
    assert_eq!(freq_reading(Some(2_400_000)), "2400000 kHz");
    assert_eq!(temp_reading(45), "45°C");
    assert_eq!(temp_reading(-5), "-5°C");
    assert_eq!(temp_reading(i32::MIN), "-2147483648°C");
    assert_eq!(charging_words(true), ("CHARGING", Tone::Green));
    assert_eq!(charging_words(false), ("idle", Tone::Yellow));
    assert_eq!(ac_words(false), ("Disconnected", Tone::Red));
    assert_eq!(threshold_words(false, Tone::DarkGray), ("Inactive", Tone::DarkGray));
    assert_eq!(threshold_words(true, Tone::Yellow), ("Active", Tone::Green));
    assert_eq!(threshold_field_look(true), (Tone::DarkGray, " (inactive — force charge on)"));
    assert_eq!(threshold_field_look(false), (Tone::Cyan, ""));
}

#[test]
fn popup_box_is_centered_and_fits() {
    let area = Area { x: 0, y: 0, width: 80, height: 24 };
    assert_eq!(centered_rect(50, 7, area), Area { x: 15, y: 8, width: 50, height: 7 });
    let small = Area { x: 2, y: 1, width: 30, height: 5 };
    assert_eq!(centered_rect(50, 7, small), Area { x: 2, y: 1, width: 30, height: 5 });
}

#[test]
fn footer_shows_mode_service_and_message() {
    assert_eq!(
        footer_text(AppMode::Monitoring, false, None),
        " MONITOR | Service: Offline | Press 'h' for help, 'q' to quit"
    );
    assert_eq!(footer_text(AppMode::Editing, true, Some("saved")), " EDIT | Service: Online | saved");
    assert_eq!(footer_text(AppMode::Popup(PopupType::ConfirmExit), true, None).starts_with(" POPUP"), true);
}
