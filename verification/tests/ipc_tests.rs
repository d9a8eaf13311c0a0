use std::path::PathBuf;
use spinctrl::hardware::BatteryHealthInfo;
use spinctrl::ipc::{
    newest_first, parse_command, status_parts, Command, IpcManager, ParsedCommand, ThermalZone, COMMANDS_FIFO, CONFIG_FILE, DEFAULT_CONFIG_PATH,
    DEFAULT_IPC_DIR, EVENTS_LOG, STATUS_FILE,
};
use tempfile::TempDir;

#[test]
fn test_command_serialization() {
    let ipc = IpcManager::new();

    assert_eq!(ipc.command_to_string(&Command::ForceCharge), "force_charge");

    assert_eq!(ipc.command_to_string(&Command::StopCharge), "stop_charge");

    assert_eq!(
        ipc.command_to_string(&Command::ApplyConfig(r#"{"battery":{"threshold":85}}"#.into())),
        r#"apply_config:{"battery":{"threshold":85}}"#
    );
}

#[test]
fn test_with_dir_colocates_config_and_runtime() {
    let temp = TempDir::new().unwrap();
    let dir = temp.path().to_str().unwrap();
    let ipc = IpcManager::with_dir(dir);
    assert_eq!(PathBuf::from(ipc.get_config_path()), temp.path().join(CONFIG_FILE));
    assert_eq!(PathBuf::from(ipc.get_status_path()), temp.path().join(STATUS_FILE));
    assert_eq!(PathBuf::from(ipc.get_commands_path()), temp.path().join(COMMANDS_FIFO));
    assert_eq!(PathBuf::from(ipc.get_events_path()), temp.path().join(EVENTS_LOG));
}

#[test]
fn test_with_paths_separates_config_and_runtime() {
    let config_temp = TempDir::new().unwrap();
    let runtime_temp = TempDir::new().unwrap();
    let config_path = config_temp.path().join(CONFIG_FILE);
    let ipc = IpcManager::with_paths(config_path.to_str().unwrap(), runtime_temp.path().to_str().unwrap());
    assert_eq!(PathBuf::from(ipc.get_config_path()), config_temp.path().join(CONFIG_FILE));
    assert_eq!(PathBuf::from(ipc.get_status_path()), runtime_temp.path().join(STATUS_FILE));
    assert_eq!(PathBuf::from(ipc.get_commands_path()), runtime_temp.path().join(COMMANDS_FIFO));
    assert_eq!(PathBuf::from(ipc.get_events_path()), runtime_temp.path().join(EVENTS_LOG));
}

#[test]
fn test_new_uses_production_paths() {
    let ipc = IpcManager::new();
    assert_eq!(PathBuf::from(ipc.get_config_path()), PathBuf::from(DEFAULT_CONFIG_PATH));
    assert_eq!(PathBuf::from(ipc.get_status_path()), PathBuf::from(DEFAULT_IPC_DIR).join(STATUS_FILE));
    assert_eq!(PathBuf::from(ipc.get_commands_path()), PathBuf::from(DEFAULT_IPC_DIR).join(COMMANDS_FIFO));
    assert_eq!(PathBuf::from(ipc.get_events_path()), PathBuf::from(DEFAULT_IPC_DIR).join(EVENTS_LOG));
}

#[test]
fn test_command_to_string_all_variants() {
    let ipc = IpcManager::new();
    assert_eq!(ipc.command_to_string(&Command::ForceCharge), "force_charge");
    assert_eq!(ipc.command_to_string(&Command::StopCharge), "stop_charge");
    assert_eq!(
        ipc.command_to_string(&Command::ApplyConfig(r#"{"battery":{"threshold":85}}"#.into())),
        r#"apply_config:{"battery":{"threshold":85}}"#
    );
    assert_eq!(ipc.command_to_string(&Command::ReloadConfig), "reload_config");
    assert_eq!(ipc.command_to_string(&Command::Shutdown), "shutdown");
}

#[test]
fn test_default_matches_new() {
    let new = IpcManager::new();
    let default = IpcManager::default();
    assert_eq!(new.get_config_path(), default.get_config_path());
}

#[test]
fn test_command_parsing_all_variants() {
    assert_eq!(parse_command("force_charge"), Some(ParsedCommand::ForceCharge));
    assert_eq!(parse_command("stop_charge"), Some(ParsedCommand::StopCharge));
    assert_eq!(parse_command("reload_config"), Some(ParsedCommand::ReloadConfig));
    assert_eq!(parse_command("shutdown"), Some(ParsedCommand::Shutdown));
    assert_eq!(
        parse_command("apply_config:{\"battery\":{\"threshold\":85}}"),
        Some(ParsedCommand::ApplyConfig("{\"battery\":{\"threshold\":85}}".to_string()))
    );
    assert_eq!(parse_command("unknown_cmd"), None);
    assert_eq!(parse_command(""), None);
}

// Further cases.

#[test]
fn wire_text_parses_back_to_the_command() {
    let ipc = IpcManager::new();
    let cases = vec![
        (Command::ForceCharge, ParsedCommand::ForceCharge),
        (Command::StopCharge, ParsedCommand::StopCharge),
        (Command::ReloadConfig, ParsedCommand::ReloadConfig),
        (Command::Shutdown, ParsedCommand::Shutdown),
        (Command::ApplyConfig("{}".to_string()), ParsedCommand::ApplyConfig("{}".to_string())),
        (Command::ApplyConfig(String::new()), ParsedCommand::ApplyConfig(String::new())),
    ];
    for (command, parsed) in cases {
        let wire = ipc.command_to_string(&command);
        assert_eq!(parse_command(&wire), Some(parsed), "{wire}");
    }
}

#[test]
fn near_miss_lines_are_not_commands() {
    assert_eq!(parse_command("force_charge "), None);
    assert_eq!(parse_command("Shutdown"), None);
    assert_eq!(parse_command("apply_config"), None);
}

#[test]
fn with_dir_joins_without_doubling_the_slash() {
    let ipc = IpcManager::with_dir("/tmp/spin/");
    assert_eq!(ipc.get_config_path(), "/tmp/spin/config.json");
    assert_eq!(ipc.get_status_path(), "/tmp/spin/status.json");
    let ipc = IpcManager::with_dir("/tmp/spin");
    assert_eq!(ipc.get_events_path(), "/tmp/spin/events.log");
    assert_eq!(ipc.get_runtime_dir(), "/tmp/spin");
}

#[test]
fn recent_events_newest_first_keeping_log_order_on_ties() {
    let stamps = [(10, 0), (30, 5), (20, 0), (30, 5), (30, 1)];
    assert_eq!(newest_first(&stamps, 10), vec![1, 3, 4, 2, 0]);
    assert_eq!(newest_first(&stamps, 2), vec![1, 3]);
    assert_eq!(newest_first(&stamps, 0), Vec::<usize>::new());
    assert_eq!(newest_first(&[], 5), Vec::<usize>::new());
}

#[test]
fn status_parts_follow_the_charge_rule() {
    let health = BatteryHealthInfo { health: Some(92), cycle_count: Some(109) };
    let (battery, power, thermal) = status_parts(85, health, true, "powersave".to_string(), Vec::new(), 80, false);
    assert_eq!(battery.capacity, 85);
    assert!(!battery.charging);
    assert!(battery.threshold_active);
    assert_eq!(battery.health, Some(92));
    assert_eq!(battery.cycle_count, Some(109));
    assert!(power.ac_connected);
    assert_eq!(power.cpu_governor, "powersave");
    assert_eq!(power.cpu_freq_khz, None);
    assert!(thermal.is_none());
    let zone = ThermalZone { id: 1, temperature: 48, trip_points: Vec::new() };
    let (battery, _, thermal) = status_parts(85, health, true, "x".to_string(), vec![zone], 80, true);
    assert!(battery.charging);
    assert!(!battery.threshold_active);
    assert_eq!(thermal.unwrap().zones[0].temperature, 48);
}
