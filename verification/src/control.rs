//! The service's decisions: which charge-control mode the battery needs,
//! what the status file reports, when the AC monitor touches the hardware,
//! which governor applies, and which configuration the service boots with.
use vstd::prelude::*;
use crate::config::{Config, CpuConfig, CpuGovernor};
use crate::hardware::ChargeMode;

verus! {

/// Idle (threshold enforcement) once the battery has reached the threshold
/// and charging is not forced; normal charging otherwise.
pub open spec fn desired_mode(force_charge: bool, threshold: u8, capacity: u8) -> ChargeMode {
    if force_charge || capacity < threshold { ChargeMode::Normal } else { ChargeMode::Idle }
}

/// The EC charge-control mode for the given battery state.
pub fn desired_charge_mode(force_charge: bool, threshold: u8, capacity: u8) -> (r: ChargeMode)
    ensures
        r == desired_mode(force_charge, threshold, capacity),
{
    if force_charge || capacity < threshold {
        ChargeMode::Normal
    } else {
        ChargeMode::Idle
    }
}

/// What the status file reports about charging, as (charging,
/// threshold_active).
pub fn charge_status(ac_connected: bool, force_charge: bool, capacity: u8, threshold: u8) -> (r: (bool, bool))
    ensures
        r.0 == (ac_connected && (force_charge || capacity < threshold)),
        r.1 == (ac_connected && !force_charge && capacity >= threshold),
{
    let charging = ac_connected && (force_charge || capacity < threshold);
    let threshold_active = ac_connected && !force_charge && capacity >= threshold;
    (charging, threshold_active)
}

/// The status file and the charge controller agree: on AC, the battery is
/// reported charging exactly when the controller wants normal charging, and
/// the threshold reported active exactly when it wants idle; never both.
pub proof fn lemma_status_mirrors_charge_mode(ac: bool, force: bool, capacity: u8, threshold: u8)
    ensures
        (ac && (force || capacity < threshold)) == (ac && desired_mode(force, threshold, capacity) == ChargeMode::Normal),
        (ac && !force && capacity >= threshold) == (ac && desired_mode(force, threshold, capacity) == ChargeMode::Idle),
        !((ac && (force || capacity < threshold)) && (ac && !force && capacity >= threshold)),
{
}

/// Forced charging always charges; without it the threshold decides.
pub proof fn lemma_threshold_rule(force: bool, capacity: u8, threshold: u8)
    ensures
        force ==> desired_mode(force, threshold, capacity) == ChargeMode::Normal,
        !force ==> (desired_mode(force, threshold, capacity) == ChargeMode::Idle <==> capacity >= threshold),
{
}

/// A change of the AC adapter's state seen between two readings.
#[derive(Debug, Clone, Copy, PartialEq, Eq, Structural)]
pub enum AcChange {
    /// No change (or the first reading).
    Unchanged,
    Plugged,
    Unplugged,
}

/// What the AC monitor remembers between polls.
#[derive(Debug, Clone, Copy, PartialEq, Eq, Structural)]
pub struct AcMonitorState {
    /// The last AC reading, `None` before the first.
    pub last_ac: Option<bool>,
    /// The charge mode last set, `None` when unknown.
    pub last_charge_mode: Option<ChargeMode>,
}

pub open spec fn ac_change_spec(last: Option<bool>, ac: bool) -> AcChange {
    match last {
        Some(false) => if ac { AcChange::Plugged } else { AcChange::Unchanged },
        Some(true) => if !ac { AcChange::Unplugged } else { AcChange::Unchanged },
        None => AcChange::Unchanged,
    }
}

impl AcMonitorState {
    /// Nothing seen yet.
    pub fn new() -> (r: Self)
        ensures
            r.last_ac is None,
            r.last_charge_mode is None,
    {
        AcMonitorState { last_ac: None, last_charge_mode: None }
    }

    /// Take in an AC reading: report a plug-in or unplug against the last
    /// reading (none on the first), and remember the reading.
    pub fn observe_ac(&mut self, ac: bool) -> (r: AcChange)
        ensures
            r == ac_change_spec(old(self).last_ac, ac),
            final(self).last_ac == Some(ac),
            final(self).last_charge_mode == old(self).last_charge_mode,
    {
        let change = match self.last_ac {
            Some(false) => if ac { AcChange::Plugged } else { AcChange::Unchanged },
            Some(true) => if !ac { AcChange::Unplugged } else { AcChange::Unchanged },
            None => AcChange::Unchanged,
        };
        self.last_ac = Some(ac);
        change
    }

    /// The mode to set on this poll while on AC: the desired mode when it
    /// differs from the one last set, `None` when nothing needs to change.
    pub fn charge_mode_change(&self, force_charge: bool, threshold: u8, capacity: u8) -> (r: Option<ChargeMode>)
        ensures
            r == charge_mode_change_spec(self.last_charge_mode, force_charge, threshold, capacity),
            r is None <==> self.last_charge_mode == Some(
                if force_charge || capacity < threshold { ChargeMode::Normal } else { ChargeMode::Idle },
            ),
            r matches Some(m) ==> m == (if force_charge || capacity < threshold { ChargeMode::Normal } else { ChargeMode::Idle }),
    {
        let mode = desired_charge_mode(force_charge, threshold, capacity);
        match self.last_charge_mode {
            Some(m) => if m == mode { None } else { Some(mode) },
            None => Some(mode),
        }
    }

    /// Remember a mode that was set (or that the plug-in handler chose).
    pub fn record_charge_mode(&mut self, mode: ChargeMode)
        ensures
            final(self).last_charge_mode == Some(mode),
            final(self).last_ac == old(self).last_ac,
    {
        self.last_charge_mode = Some(mode);
    }

    /// Forget the mode after an unplug (normal charging was restored).
    pub fn forget_charge_mode(&mut self)
        ensures
            final(self).last_charge_mode is None,
            final(self).last_ac == old(self).last_ac,
    {
        self.last_charge_mode = None;
    }
}

/// The monitor's poll step while on AC: set the desired mode unless it is
/// the one last set.
pub open spec fn charge_mode_change_spec(last: Option<ChargeMode>, force: bool, threshold: u8, capacity: u8) -> Option<ChargeMode> {
    if last == Some(desired_mode(force, threshold, capacity)) {
        None
    } else {
        Some(desired_mode(force, threshold, capacity))
    }
}

/// The monitor only ever sets the desired mode, and once it has set it,
/// it sends no further charge command while the battery state calls for the
/// same mode.
pub proof fn lemma_no_repeated_charge_commands(last: Option<ChargeMode>, force: bool, threshold: u8, capacity: u8)
    ensures
        charge_mode_change_spec(last, force, threshold, capacity) matches Some(m)
            ==> m == desired_mode(force, threshold, capacity),
        ({
            let after = match charge_mode_change_spec(last, force, threshold, capacity) {
                Some(m) => Some(m),
                None => last,
            };
            charge_mode_change_spec(after, force, threshold, capacity) is None
        }),
{
}

/// The monitor stays silent only when the mode last set is already the one
/// the battery calls for: with force charge on that is normal charging
/// whatever the capacity, without it idle exactly at or above the
/// threshold. Any other last mode (or none) brings a command for that mode.
pub proof fn lemma_charge_command_when_needed(last: Option<ChargeMode>, force: bool, threshold: u8, capacity: u8)
    ensures
        charge_mode_change_spec(last, force, threshold, capacity) is None <==> last == Some(
            if force || capacity < threshold { ChargeMode::Normal } else { ChargeMode::Idle },
        ),
        charge_mode_change_spec(last, force, threshold, capacity) matches Some(m) ==> m == (if force
            || capacity < threshold { ChargeMode::Normal } else { ChargeMode::Idle }),
        force && last != Some(ChargeMode::Normal) ==> charge_mode_change_spec(last, force, threshold, capacity)
            == Some(ChargeMode::Normal),
{
}

/// The mode the plug-in handler settles on: the desired one when the
/// capacity could be read, normal charging otherwise (then nothing is set).
pub fn plug_in_charge_mode(force_charge: bool, threshold: u8, capacity: Option<u8>) -> (r: ChargeMode)
    ensures
        r == match capacity {
            Some(c) => desired_mode(force_charge, threshold, c),
            None => ChargeMode::Normal,
        },
{
    match capacity {
        Some(c) => desired_charge_mode(force_charge, threshold, c),
        None => ChargeMode::Normal,
    }
}

/// The governor for the current power source.
pub fn governor_for(cpu: &CpuConfig, ac_connected: bool) -> (r: &CpuGovernor)
    ensures
        *r == if ac_connected { cpu.governor_ac } else { cpu.governor_battery },
{
    if ac_connected {
        &cpu.governor_ac
    } else {
        &cpu.governor_battery
    }
}

/// The `force_charge` command's hardware step: resume normal charging when
/// on AC.
pub fn force_charge_action(ac_connected: bool) -> (r: Option<ChargeMode>)
    ensures
        r == if ac_connected { Some(ChargeMode::Normal) } else { None::<ChargeMode> },
{
    if ac_connected {
        Some(ChargeMode::Normal)
    } else {
        None
    }
}

/// The `stop_charge` command's hardware step: idle when on AC and the
/// battery has reached the threshold.
pub fn stop_charge_action(ac_connected: bool, capacity: u8, threshold: u8) -> (r: Option<ChargeMode>)
    ensures
        r == if ac_connected && capacity >= threshold { Some(ChargeMode::Idle) } else { None::<ChargeMode> },
{
    if ac_connected && capacity >= threshold {
        Some(ChargeMode::Idle)
    } else {
        None
    }
}

/// The charge mode set at start-up: on AC, the mode the battery state
/// calls for (forced charging overrides the threshold); nothing on battery.
pub fn initial_charge_mode(ac_connected: bool, force_charge: bool, capacity: u8, threshold: u8) -> (r: Option<ChargeMode>)
    ensures
        r == if !ac_connected {
            None::<ChargeMode>
        } else {
            Some(desired_mode(force_charge, threshold, capacity))
        },
{
    if !ac_connected {
        None
    } else {
        Some(desired_charge_mode(force_charge, threshold, capacity))
    }
}

/// The configuration the service boots with, given what parsed and
/// validated: the persisted runtime config when there is one, else the
/// factory file, else the built-in defaults. The flag says whether the
/// choice must be persisted as the runtime config (whenever it did not come
/// from there).
pub fn boot_config(runtime: Option<Config>, factory: Option<Config>) -> (r: (Config, bool))
    ensures
        runtime matches Some(c) ==> r.0 == c && !r.1,
        runtime is None ==> (factory matches Some(c) ==> r.0 == c && r.1),
        runtime is None && factory is None ==> r.0 == crate::config::factory_defaults() && r.1,
{
    match runtime {
        Some(c) => (c, false),
        None => match factory {
            Some(c) => (c, true),
            None => (Config::default(), true),
        },
    }
}

} // verus!
