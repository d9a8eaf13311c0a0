//! File-based IPC between the service and the interface: where the files
//! live, the status records, and the commands sent over the FIFO.
use vstd::prelude::*;
use crate::text::{starts_with_str, str_eq};

verus! {

/// Default runtime directory for IPC state (status, FIFO, events).
pub const DEFAULT_IPC_DIR: &'static str = "/var/lib/spinctrl";

/// The persistent runtime config the service writes and the interface reads.
pub const DEFAULT_CONFIG_PATH: &'static str = "/var/lib/spinctrl/config_status.json";

/// IPC file names within the runtime directory.
pub const CONFIG_FILE: &'static str = "config.json";
pub const STATUS_FILE: &'static str = "status.json";
pub const COMMANDS_FIFO: &'static str = "commands.fifo";
pub const EVENTS_LOG: &'static str = "events.log";

/// Battery status information.
#[derive(Debug, Clone, Copy, PartialEq, Eq, Structural)]
pub struct BatteryStatus {
    pub capacity: u8,
    pub charging: bool,
    pub threshold_active: bool,
    pub ac_connected: bool,
    /// State of health in percent (0-100); `None` when unavailable.
    pub health: Option<u8>,
    /// Cycle count; `None` when unavailable.
    pub cycle_count: Option<u32>,
}

/// Power management status.
#[derive(Debug, Clone)]
pub struct PowerStatus {
    pub ac_connected: bool,
    pub cpu_governor: String,
    pub cpu_freq_khz: Option<u32>,
}

/// One thermal zone's reading.
#[derive(Debug)]
pub struct ThermalZone {
    pub id: u8,
    pub temperature: i32,
    pub trip_points: Vec<i32>,
}

impl Clone for ThermalZone {
    fn clone(&self) -> (r: Self)
        ensures
            r.id == self.id,
            r.temperature == self.temperature,
            r.trip_points@ == self.trip_points@,
    {
        ThermalZone { id: self.id, temperature: self.temperature, trip_points: self.trip_points.clone() }
    }
}


/// Thermal status information.
#[derive(Debug, Clone)]
pub struct ThermalStatus {
    pub zones: Vec<ThermalZone>,
}

/// Kinds of logged events.
#[derive(Debug, Clone, Copy, PartialEq, Eq, Structural)]
pub enum EventType {
    ConfigChanged,
    CommandExecuted,
    HardwareAction,
    Error,
    ServiceStart,
    ServiceStop,
}

/// Commands the interface sends to the service.
#[derive(Debug)]
pub enum Command {
    ForceCharge,
    StopCharge,
    /// Push the full config JSON to the service.
    ApplyConfig(String),
    ReloadConfig,
    Shutdown,
}

/// What a command is, with the JSON of `ApplyConfig` as characters.
pub enum CommandView {
    ForceCharge,
    StopCharge,
    ApplyConfig(Seq<char>),
    ReloadConfig,
    Shutdown,
}

impl View for Command {
    type V = CommandView;

    open spec fn view(&self) -> CommandView {
        match self {
            Command::ForceCharge => CommandView::ForceCharge,
            Command::StopCharge => CommandView::StopCharge,
            Command::ApplyConfig(j) => CommandView::ApplyConfig(j@),
            Command::ReloadConfig => CommandView::ReloadConfig,
            Command::Shutdown => CommandView::Shutdown,
        }
    }
}

/// The FIFO line of a command (without its newline).
pub open spec fn wire_text(c: CommandView) -> Seq<char> {
    match c {
        CommandView::ForceCharge => "force_charge"@,
        CommandView::StopCharge => "stop_charge"@,
        CommandView::ApplyConfig(j) => "apply_config:"@ + j,
        CommandView::ReloadConfig => "reload_config"@,
        CommandView::Shutdown => "shutdown"@,
    }
}

/// `dir` joined with a relative file name, as `Path::join` does it: a `'/'`
/// goes between them unless `dir` is empty or already ends with one.
pub open spec fn join_path(dir: Seq<char>, name: Seq<char>) -> Seq<char> {
    if dir.len() == 0 || dir.last() == '/' { dir + name } else { dir + "/"@ + name }
}

pub fn join_path_str(dir: &str, name: &str) -> (r: String)
    ensures
        r@ == join_path(dir@, name@),
{
    let n = dir.unicode_len();
    let mut s = String::from_str(dir);
    if n != 0 && dir.get_char(n - 1) != '/' {
        s.append("/");
    }
    s.append(name);
    s
}

/// Where the IPC files live: the config file, and the runtime directory
/// that holds the status file, the command FIFO and the event log.
pub struct IpcManager {
    config_path: String,
    runtime_dir: String,
}

impl IpcManager {
    pub closed spec fn config_path_spec(&self) -> Seq<char> {
        self.config_path@
    }

    pub closed spec fn runtime_dir_spec(&self) -> Seq<char> {
        self.runtime_dir@
    }

    /// The production paths: `/var/lib/spinctrl/config_status.json` and
    /// `/var/lib/spinctrl/`.
    pub fn new() -> (r: Self)
        ensures
            r.config_path_spec() == DEFAULT_CONFIG_PATH@,
            r.runtime_dir_spec() == DEFAULT_IPC_DIR@,
    {
        IpcManager {
            config_path: String::from_str(DEFAULT_CONFIG_PATH),
            runtime_dir: String::from_str(DEFAULT_IPC_DIR),
        }
    }

    /// An explicit config path and runtime directory.
    pub fn with_paths(config_path: &str, runtime_dir: &str) -> (r: Self)
        ensures
            r.config_path_spec() == config_path@,
            r.runtime_dir_spec() == runtime_dir@,
    {
        IpcManager { config_path: String::from_str(config_path), runtime_dir: String::from_str(runtime_dir) }
    }

    /// Config file and runtime state both under `dir`.
    pub fn with_dir(dir: &str) -> (r: Self)
        ensures
            r.config_path_spec() == join_path(dir@, CONFIG_FILE@),
            r.runtime_dir_spec() == dir@,
    {
        IpcManager { config_path: join_path_str(dir, CONFIG_FILE), runtime_dir: String::from_str(dir) }
    }

    pub fn get_config_path(&self) -> (r: String)
        ensures
            r@ == self.config_path_spec(),
    {
        self.config_path.clone()
    }

    pub fn get_runtime_dir(&self) -> (r: String)
        ensures
            r@ == self.runtime_dir_spec(),
    {
        self.runtime_dir.clone()
    }

    pub fn get_status_path(&self) -> (r: String)
        ensures
            r@ == join_path(self.runtime_dir_spec(), STATUS_FILE@),
    {
        join_path_str(self.runtime_dir.as_str(), STATUS_FILE)
    }

    pub fn get_commands_path(&self) -> (r: String)
        ensures
            r@ == join_path(self.runtime_dir_spec(), COMMANDS_FIFO@),
    {
        join_path_str(self.runtime_dir.as_str(), COMMANDS_FIFO)
    }

    pub fn get_events_path(&self) -> (r: String)
        ensures
            r@ == join_path(self.runtime_dir_spec(), EVENTS_LOG@),
    {
        join_path_str(self.runtime_dir.as_str(), EVENTS_LOG)
    }

    /// The FIFO line of a command.
    pub fn command_to_string(&self, command: &Command) -> (r: String)
        ensures
            r@ == wire_text(command@),
    {
        match command {
            Command::ForceCharge => String::from_str("force_charge"),
            Command::StopCharge => String::from_str("stop_charge"),
            Command::ApplyConfig(json) => {
                let mut s = String::from_str("apply_config:");
                s.append(json.as_str());
                s
            },
            Command::ReloadConfig => String::from_str("reload_config"),
            Command::Shutdown => String::from_str("shutdown"),
        }
    }
}

impl Default for IpcManager {
    fn default() -> (r: Self)
        ensures
            r.config_path_spec() == DEFAULT_CONFIG_PATH@,
            r.runtime_dir_spec() == DEFAULT_IPC_DIR@,
    {
        Self::new()
    }
}

/// A command as the service reads it from the FIFO.
#[derive(Debug, Clone, PartialEq, Eq)]
pub enum ParsedCommand {
    ForceCharge,
    StopCharge,
    ApplyConfig(String),
    ReloadConfig,
    Shutdown,
}

impl View for ParsedCommand {
    type V = CommandView;

    open spec fn view(&self) -> CommandView {
        match self {
            ParsedCommand::ForceCharge => CommandView::ForceCharge,
            ParsedCommand::StopCharge => CommandView::StopCharge,
            ParsedCommand::ApplyConfig(j) => CommandView::ApplyConfig(j@),
            ParsedCommand::ReloadConfig => CommandView::ReloadConfig,
            ParsedCommand::Shutdown => CommandView::Shutdown,
        }
    }
}

/// The command a FIFO line denotes: one of the four fixed words, or
/// `apply_config:` followed by the config JSON; nothing else is a command.
pub open spec fn parse_wire(s: Seq<char>) -> Option<CommandView> {
    if s == "force_charge"@ {
        Some(CommandView::ForceCharge)
    } else if s == "stop_charge"@ {
        Some(CommandView::StopCharge)
    } else if s == "reload_config"@ {
        Some(CommandView::ReloadConfig)
    } else if s == "shutdown"@ {
        Some(CommandView::Shutdown)
    } else if "apply_config:"@.is_prefix_of(s) {
        Some(CommandView::ApplyConfig(s.skip("apply_config:"@.len() as int)))
    } else {
        None
    }
}

/// Parse a command line of the FIFO wire format.
pub fn parse_command(line: &str) -> (r: Option<ParsedCommand>)
    ensures
        match parse_wire(line@) {
            Some(c) => r matches Some(p) && p@ == c,
            None => r is None,
        },
{
    if str_eq(line, "force_charge") {
        Some(ParsedCommand::ForceCharge)
    } else if str_eq(line, "stop_charge") {
        Some(ParsedCommand::StopCharge)
    } else if str_eq(line, "reload_config") {
        Some(ParsedCommand::ReloadConfig)
    } else if str_eq(line, "shutdown") {
        Some(ParsedCommand::Shutdown)
    } else if starts_with_str(line, "apply_config:") {
        let n = line.unicode_len();
        let prefix_len = "apply_config:".unicode_len();
        let json = line.substring_char(prefix_len, n);
        assert(json@ =~= line@.skip("apply_config:"@.len() as int));
        Some(ParsedCommand::ApplyConfig(String::from_str(json)))
    } else {
        None
    }
}

/// Reading a command back from the line it is sent as gives the same
/// command, for every command (whatever JSON an `ApplyConfig` carries).
pub proof fn lemma_command_wire_round_trip(c: CommandView)
    ensures
        parse_wire(wire_text(c)) == Some(c),
{
    reveal_strlit("force_charge");
    reveal_strlit("stop_charge");
    reveal_strlit("reload_config");
    reveal_strlit("shutdown");
    reveal_strlit("apply_config:");
    assert("force_charge"@.len() == 12);
    assert("stop_charge"@.len() == 11);
    assert("reload_config"@.len() == 13);
    assert("shutdown"@.len() == 8);
    assert("reload_config"@[0] != "apply_config:"@[0]);
    match c {
        CommandView::ApplyConfig(j) => {
            let w = "apply_config:"@ + j;
            assert(w[0] == 'a');
            assert(w.len() >= 13);
            assert(w[0] != "force_charge"@[0]);
            assert(w[0] != "stop_charge"@[0]);
            assert(w[0] != "reload_config"@[0]);
            assert(w[0] != "shutdown"@[0]);
            assert("apply_config:"@.is_prefix_of(w)) by {
                assert(w.subrange(0, 13) =~= "apply_config:"@);
            }
            assert(w.skip(13) =~= j);
            assert("apply_config:"@.len() == 13);
            assert(w != "force_charge"@);
            assert(w != "stop_charge"@);
            assert(w != "reload_config"@);
            assert(w != "shutdown"@);
            assert(parse_wire(w) == Some(CommandView::ApplyConfig(w.skip(13))));
            assert(CommandView::ApplyConfig(w.skip(13)) == c);
        },
        CommandView::ForceCharge => { assert(parse_wire(wire_text(c)) == Some(c)); },
        CommandView::StopCharge => { assert(parse_wire(wire_text(c)) == Some(c)); },
        CommandView::ReloadConfig => { assert(parse_wire(wire_text(c)) == Some(c)); },
        CommandView::Shutdown => { assert(parse_wire(wire_text(c)) == Some(c)); },
    }
}

/// Different commands are sent as different lines.
pub proof fn lemma_command_wire_injective(a: CommandView, b: CommandView)
    ensures
        wire_text(a) == wire_text(b) ==> a == b,
{
    lemma_command_wire_round_trip(a);
    lemma_command_wire_round_trip(b);
}

} // verus!

verus! {

/// The battery, power and thermal parts of a status record, from the
/// hardware readings and the charge settings: charging and threshold flags
/// follow the charge-control rule, and no thermal part is reported when no
/// zone was read.
pub fn status_parts(
    capacity: u8,
    health: crate::hardware::BatteryHealthInfo,
    ac_connected: bool,
    cpu_governor: String,
    zones: Vec<ThermalZone>,
    threshold: u8,
    force_charge: bool,
) -> (r: (BatteryStatus, PowerStatus, Option<ThermalStatus>))
    ensures
        r.0 == (BatteryStatus {
            capacity,
            charging: ac_connected && (force_charge || capacity < threshold),
            threshold_active: ac_connected && !force_charge && capacity >= threshold,
            ac_connected,
            health: health.health,
            cycle_count: health.cycle_count,
        }),
        r.1.ac_connected == ac_connected,
        r.1.cpu_governor@ == cpu_governor@,
        r.1.cpu_freq_khz is None,
        zones@.len() == 0 ==> r.2 is None,
        zones@.len() > 0 ==> (r.2 matches Some(t) && t.zones@ == zones@),
{
    let (charging, threshold_active) = crate::control::charge_status(ac_connected, force_charge, capacity, threshold);
    let battery = BatteryStatus {
        capacity,
        charging,
        threshold_active,
        ac_connected,
        health: health.health,
        cycle_count: health.cycle_count,
    };
    let power = PowerStatus { ac_connected, cpu_governor, cpu_freq_khz: None };
    let thermal = if zones.len() == 0 {
        None
    } else {
        Some(ThermalStatus { zones })
    };
    (battery, power, thermal)
}

/// A list that holds every position below `n` is at least `n` long.
proof fn lemma_all_positions_listed(s: Seq<usize>, n: int)
    requires
        0 <= n <= usize::MAX,
        forall|t: int| 0 <= t < n ==> #[trigger] s.contains(t as usize),
    ensures
        s.len() >= n,
{
    let ints = s.map_values(|x: usize| x as int);
    let range = vstd::set_lib::set_int_range(0, n);
    vstd::set_lib::lemma_int_range(0, n);
    assert forall|t: int| range.contains(t) implies ints.to_set().contains(t) by {
        assert(s.contains(t as usize));
        let k = choose|k: int| 0 <= k < s.len() && s[k] == t as usize;
        assert(ints[k] == t);
    }
    ints.lemma_cardinality_of_set();
    vstd::set_lib::lemma_len_subset(range, ints.to_set());
}

/// An event's time as (seconds, nanoseconds): later times compare greater.
pub open spec fn later(a: (i64, u32), b: (i64, u32)) -> bool {
    a.0 > b.0 || (a.0 == b.0 && a.1 > b.1)
}

/// Whether event `i` comes before event `j` in the recent-events list:
/// newer first, and in log order among events of the same time.
pub open spec fn shown_before(stamps: Seq<(i64, u32)>, i: int, j: int) -> bool {
    later(stamps[i], stamps[j]) || (stamps[i] == stamps[j] && i < j)
}

/// The positions of the `limit` most recent events, newest first; events
/// of the same time keep their order in the log.
pub fn newest_first(stamps: &[(i64, u32)], limit: usize) -> (r: Vec<usize>)
    ensures
        r@.len() == if limit < stamps@.len() { limit as int } else { stamps@.len() as int },
        forall|k: int| 0 <= k < r@.len() ==> (#[trigger] r@[k]) < stamps@.len(),
        forall|a: int, b: int| 0 <= a < b < r@.len() ==> shown_before(stamps@, #[trigger] r@[a] as int, #[trigger] r@[b] as int),
        forall|j: int, k: int| 0 <= j < stamps@.len() && !r@.contains(j as usize) && 0 <= k < r@.len()
            ==> #[trigger] shown_before(stamps@, r@[k] as int, j),
{
    let n = stamps.len();
    let m = if limit < n { limit } else { n };
    let mut taken: Vec<bool> = Vec::new();
    let mut i: usize = 0;
    while i < n
        invariant
            n == stamps@.len(),
            i <= n,
            taken@.len() == i,
            forall|t: int| 0 <= t < i ==> !(#[trigger] taken@[t]),
        decreases n - i,
    {
        taken.push(false);
        i = i + 1;
    }
    let mut out: Vec<usize> = Vec::new();
    while out.len() < m
        invariant
            n == stamps@.len(),
            m <= n,
            taken@.len() == n,
            out@.len() <= m,
            forall|k: int| 0 <= k < out@.len() ==> (#[trigger] out@[k]) < n,
            forall|t: int| 0 <= t < n ==> (#[trigger] taken@[t] <==> out@.contains(t as usize)),
            forall|a: int, b: int| 0 <= a < b < out@.len() ==> shown_before(stamps@, #[trigger] out@[a] as int, #[trigger] out@[b] as int),
            forall|j: int, k: int| 0 <= j < n && !out@.contains(j as usize) && 0 <= k < out@.len()
                ==> #[trigger] shown_before(stamps@, out@[k] as int, j),
        decreases m - out@.len(),
    {
        // Some event is not yet taken: fewer than n are.
        proof {
            if forall|t: int| 0 <= t < n ==> #[trigger] taken@[t] {
                assert forall|t: int| 0 <= t < n implies #[trigger] out@.contains(t as usize) by {
                    assert(taken@[t]);
                }
                lemma_all_positions_listed(out@, n as int);
                assert(false);
            }
        }
        let mut best: usize = 0;
        let mut found = false;
        let mut j: usize = 0;
        while j < n
            invariant
                n == stamps@.len(),
                taken@.len() == n,
                j <= n,
                found ==> best < j && best < n && !taken@[best as int],
                found ==> forall|t: int| 0 <= t < j && !(#[trigger] taken@[t]) && t != best ==> shown_before(stamps@, best as int, t),
                !found ==> forall|t: int| 0 <= t < j ==> #[trigger] taken@[t],
            decreases n - j,
        {
            if !taken[j] {
                if !found {
                    best = j;
                    found = true;
                } else {
                    let sj = stamps[j];
                    let sb = stamps[best];
                    if sj.0 > sb.0 || (sj.0 == sb.0 && sj.1 > sb.1) {
                        best = j;
                    }
                }
            }
            j = j + 1;
        }
        proof {
            if !found {
                assert forall|t: int| 0 <= t < n implies #[trigger] out@.contains(t as usize) by {
                    assert(taken@[t]);
                }
                lemma_all_positions_listed(out@, n as int);
                assert(false);
            }
        }
        let ghost before = out@;
        let ghost tk = taken@;
        out.push(best);
        taken.set(best, true);
        proof {
            assert forall|t: int| 0 <= t < n implies (#[trigger] taken@[t] <==> out@.contains(t as usize)) by {
                if t == best as int {
                    assert(out@[out@.len() - 1] == best);
                } else {
                    if out@.contains(t as usize) {
                        let k = choose|k: int| 0 <= k < out@.len() && out@[k] == t as usize;
                        assert(k < before.len());
                        assert(before.contains(t as usize));
                    }
                    if before.contains(t as usize) {
                        let k = choose|k: int| 0 <= k < before.len() && before[k] == t as usize;
                        assert(out@[k] == t as usize);
                    }
                }
            }
            assert forall|a: int, b: int| 0 <= a < b < out@.len() implies shown_before(stamps@, #[trigger] out@[a] as int, #[trigger] out@[b] as int) by {
                if b < before.len() {
                    assert(out@[a] == before[a]);
                    assert(out@[b] == before[b]);
                } else {
                    assert(out@[a] == before[a]);
                    assert(!before.contains(best));
                }
            }
            assert forall|j: int, k: int| 0 <= j < n && !out@.contains(j as usize) && 0 <= k < out@.len()
                implies #[trigger] shown_before(stamps@, out@[k] as int, j) by {
                assert(out@[out@.len() - 1] == best);
                assert(j != best as int);
                assert(!before.contains(j as usize)) by {
                    if before.contains(j as usize) {
                        let q = choose|q: int| 0 <= q < before.len() && before[q] == j as usize;
                        assert(out@[q] == j as usize);
                    }
                }
                assert(!tk[j]);
                if k < before.len() {
                    assert(out@[k] == before[k]);
                } else {
                    assert(out@[k] == best);
                }
            }
        }
    }
    out
}

} // verus!
