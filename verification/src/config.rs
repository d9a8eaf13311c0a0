//! Configuration model: battery, CPU and thermal settings, their defaults,
//! their validation rules and the thermal presets.
use vstd::prelude::*;
use crate::text::{decimal_string, parse_u32, split_runs, str_eq, Sep};
use crate::error::SpinCtrlError;

verus! {

/// Battery management configuration.
#[derive(Debug, Clone, Copy, PartialEq, Eq, Structural)]
pub struct BatteryConfig {
    /// Charge threshold percentage (50-100).
    pub threshold: u8,
    /// Force charging override.
    pub force_charge: bool,
}

/// Predefined thermal profiles.
#[derive(Debug, Clone, Copy, PartialEq, Eq, Structural)]
pub enum ThermalProfile {
    Conservative,
    Balanced,
    Performance,
    Custom,
}

/// Thermal management configuration, temperatures in degrees Celsius.
#[derive(Debug, Clone, Copy, PartialEq, Eq, Structural)]
pub struct ThermalConfig {
    pub warn_temp: u8,
    pub high_temp: u8,
    pub shutdown_temp: u8,
    pub fan_off_temp: u8,
    pub fan_max_temp: u8,
    pub profile: ThermalProfile,
}

/// The five standard Linux cpufreq governors.
#[derive(Debug, Clone, Copy, PartialEq, Eq, Hash, Structural)]
pub enum StandardGovernor {
    Performance,
    Powersave,
    Ondemand,
    Conservative,
    Schedutil,
}

/// A CPU governor: one of the standard ones, or any other name, kept as is.
#[derive(Debug, PartialEq, Eq, Hash)]
pub enum CpuGovernor {
    Standard(StandardGovernor),
    Custom(String),
}

/// What a governor is, with the name of a custom one as characters.
pub enum GovernorView {
    Standard(StandardGovernor),
    Custom(Seq<char>),
}

impl View for CpuGovernor {
    type V = GovernorView;

    open spec fn view(&self) -> GovernorView {
        match self {
            CpuGovernor::Standard(s) => GovernorView::Standard(*s),
            CpuGovernor::Custom(s) => GovernorView::Custom(s@),
        }
    }
}

impl Clone for CpuGovernor {
    fn clone(&self) -> (r: Self)
        ensures
            r == *self,
    {
        match self {
            CpuGovernor::Standard(s) => CpuGovernor::Standard(*s),
            CpuGovernor::Custom(s) => CpuGovernor::Custom(s.clone()),
        }
    }
}

/// CPU performance configuration.
#[derive(Debug, PartialEq)]
pub struct CpuConfig {
    /// Governor when the AC adapter is connected.
    pub governor_ac: CpuGovernor,
    /// Governor when running on battery.
    pub governor_battery: CpuGovernor,
    /// Minimum CPU frequency in kHz.
    pub min_freq_khz: Option<u32>,
    /// Maximum CPU frequency in kHz.
    pub max_freq_khz: Option<u32>,
}

impl Clone for CpuConfig {
    fn clone(&self) -> (r: Self)
        ensures
            r == *self,
    {
        CpuConfig {
            governor_ac: self.governor_ac.clone(),
            governor_battery: self.governor_battery.clone(),
            min_freq_khz: self.min_freq_khz,
            max_freq_khz: self.max_freq_khz,
        }
    }
}

/// Main configuration structure.
#[derive(Debug, PartialEq)]
pub struct Config {
    pub battery: BatteryConfig,
    pub cpu: CpuConfig,
    pub thermal: ThermalConfig,
    pub version: u32,
}

impl Clone for Config {
    fn clone(&self) -> (r: Self)
        ensures
            r == *self,
    {
        Config { battery: self.battery, cpu: self.cpu.clone(), thermal: self.thermal, version: self.version }
    }
}

pub open spec fn standard_name(g: StandardGovernor) -> Seq<char> {
    match g {
        StandardGovernor::Performance => "performance"@,
        StandardGovernor::Powersave => "powersave"@,
        StandardGovernor::Ondemand => "ondemand"@,
        StandardGovernor::Conservative => "conservative"@,
        StandardGovernor::Schedutil => "schedutil"@,
    }
}

/// The name a governor is written as (in JSON and on the cpupower command line).
pub open spec fn governor_name(g: GovernorView) -> Seq<char> {
    match g {
        GovernorView::Standard(s) => standard_name(s),
        GovernorView::Custom(s) => s,
    }
}

/// The governor a name denotes: a standard one for the five standard names,
/// otherwise a custom one with that name.
pub open spec fn governor_from_name(s: Seq<char>) -> GovernorView {
    if s == "performance"@ {
        GovernorView::Standard(StandardGovernor::Performance)
    } else if s == "powersave"@ {
        GovernorView::Standard(StandardGovernor::Powersave)
    } else if s == "ondemand"@ {
        GovernorView::Standard(StandardGovernor::Ondemand)
    } else if s == "conservative"@ {
        GovernorView::Standard(StandardGovernor::Conservative)
    } else if s == "schedutil"@ {
        GovernorView::Standard(StandardGovernor::Schedutil)
    } else {
        GovernorView::Custom(s)
    }
}

impl StandardGovernor {
    pub fn as_str(self) -> (r: &'static str)
        ensures
            r@ == standard_name(self),
    {
        match self {
            StandardGovernor::Performance => "performance",
            StandardGovernor::Powersave => "powersave",
            StandardGovernor::Ondemand => "ondemand",
            StandardGovernor::Conservative => "conservative",
            StandardGovernor::Schedutil => "schedutil",
        }
    }
}

impl CpuGovernor {
    pub fn as_str(&self) -> (r: &str)
        ensures
            r@ == governor_name(self@),
    {
        match self {
            CpuGovernor::Standard(s) => s.as_str(),
            CpuGovernor::Custom(s) => s.as_str(),
        }
    }

    /// The governor's name as an owned string (what `Display` prints).
    pub fn to_string(&self) -> (r: String)
        ensures
            r@ == governor_name(self@),
    {
        String::from_str(self.as_str())
    }

    /// The governor that `name` denotes (what `str::parse` gives).
    pub fn from_name(name: &str) -> (r: CpuGovernor)
        ensures
            r@ == governor_from_name(name@),
    {
        if str_eq(name, "performance") {
            CpuGovernor::Standard(StandardGovernor::Performance)
        } else if str_eq(name, "powersave") {
            CpuGovernor::Standard(StandardGovernor::Powersave)
        } else if str_eq(name, "ondemand") {
            CpuGovernor::Standard(StandardGovernor::Ondemand)
        } else if str_eq(name, "conservative") {
            CpuGovernor::Standard(StandardGovernor::Conservative)
        } else if str_eq(name, "schedutil") {
            CpuGovernor::Standard(StandardGovernor::Schedutil)
        } else {
            CpuGovernor::Custom(String::from_str(name))
        }
    }

    /// Whether two governors are the same (the derived `==`).
    pub fn same_as(&self, other: &CpuGovernor) -> (r: bool)
        ensures
            r == (self@ == other@),
    {
        match (self, other) {
            (CpuGovernor::Standard(a), CpuGovernor::Standard(b)) => *a == *b,
            (CpuGovernor::Custom(a), CpuGovernor::Custom(b)) => str_eq(a.as_str(), b.as_str()),
            _ => false,
        }
    }
}

impl std::str::FromStr for CpuGovernor {
    type Err = std::convert::Infallible;

    fn from_str(s: &str) -> (r: std::result::Result<Self, Self::Err>)
        ensures
            r matches Ok(g) && g@ == governor_from_name(s@),
    {
        Ok(CpuGovernor::from_name(s))
    }
}

} // verus!

verus! {

/// The factory defaults: threshold 80 %, no forced charge, `performance` on
/// AC and `powersave` on battery, no frequency limits, the balanced thermal
/// preset, format version 1.
pub open spec fn factory_defaults() -> Config {
    Config {
        battery: BatteryConfig { threshold: 80, force_charge: false },
        cpu: CpuConfig {
            governor_ac: CpuGovernor::Standard(StandardGovernor::Performance),
            governor_battery: CpuGovernor::Standard(StandardGovernor::Powersave),
            min_freq_khz: None,
            max_freq_khz: None,
        },
        thermal: ThermalConfig {
            warn_temp: 70,
            high_temp: 55,
            shutdown_temp: 80,
            fan_off_temp: 50,
            fan_max_temp: 75,
            profile: ThermalProfile::Balanced,
        },
        version: 1,
    }
}

impl Default for BatteryConfig {
    fn default() -> (r: Self)
        ensures
            r == factory_defaults().battery,
    {
        BatteryConfig { threshold: 80, force_charge: false }
    }
}

impl Default for CpuConfig {
    fn default() -> (r: Self)
        ensures
            r == factory_defaults().cpu,
    {
        CpuConfig {
            governor_ac: CpuGovernor::Standard(StandardGovernor::Performance),
            governor_battery: CpuGovernor::Standard(StandardGovernor::Powersave),
            min_freq_khz: None,
            max_freq_khz: None,
        }
    }
}

impl Default for ThermalConfig {
    fn default() -> (r: Self)
        ensures
            r == factory_defaults().thermal,
    {
        ThermalConfig {
            warn_temp: 70,
            high_temp: 55,
            shutdown_temp: 80,
            fan_off_temp: 50,
            fan_max_temp: 75,
            profile: ThermalProfile::Balanced,
        }
    }
}

impl Default for Config {
    fn default() -> (r: Self)
        ensures
            r == factory_defaults(),
    {
        Config {
            battery: BatteryConfig::default(),
            cpu: CpuConfig::default(),
            thermal: ThermalConfig::default(),
            version: 1,
        }
    }
}

/// The temperatures a preset sets: (warn, high, shutdown, fan off, fan max);
/// `None` for the custom profile, which keeps the current values.
pub open spec fn preset_temps(p: ThermalProfile) -> Option<(u8, u8, u8, u8, u8)> {
    match p {
        ThermalProfile::Conservative => Some((65, 50, 75, 45, 70)),
        ThermalProfile::Balanced => Some((70, 55, 80, 50, 75)),
        ThermalProfile::Performance => Some((80, 65, 90, 60, 85)),
        ThermalProfile::Custom => None,
    }
}

/// The thermal section after selecting profile `p`.
pub open spec fn with_profile(t: ThermalConfig, p: ThermalProfile) -> ThermalConfig {
    match preset_temps(p) {
        Some((w, h, s, fo, fm)) => ThermalConfig {
            warn_temp: w,
            high_temp: h,
            shutdown_temp: s,
            fan_off_temp: fo,
            fan_max_temp: fm,
            profile: p,
        },
        None => ThermalConfig { profile: p, ..t },
    }
}

/// The message list of battery validation.
pub open spec fn battery_errors(b: BatteryConfig) -> Seq<Seq<char>> {
    if 50 <= b.threshold && b.threshold <= 100 {
        seq![]
    } else {
        seq!["Battery threshold must be between 50-100%"@]
    }
}

/// The message list of thermal validation, range checks first, then the
/// ordering checks.
pub open spec fn thermal_errors(t: ThermalConfig) -> Seq<Seq<char>> {
    (if 40 <= t.warn_temp && t.warn_temp <= 100 { seq![] } else {
        seq!["Warning temperature must be between 40-100°C"@]
    }) + (if 50 <= t.shutdown_temp && t.shutdown_temp <= 110 { seq![] } else {
        seq!["Shutdown temperature must be between 50-110°C"@]
    }) + (if t.warn_temp <= t.high_temp {
        seq!["Warning temperature must be higher than high temperature"@]
    } else { seq![] }) + (if t.high_temp >= t.shutdown_temp {
        seq!["High temperature must be lower than shutdown temperature"@]
    } else { seq![] }) + (if t.fan_off_temp >= t.fan_max_temp {
        seq!["Fan off temperature must be lower than fan max temperature"@]
    } else { seq![] })
}

pub open spec fn seq_min(s: Seq<u32>) -> u32
    decreases s.len(),
{
    if s.len() <= 1 {
        s[0]
    } else {
        let m = seq_min(s.drop_last());
        if s.last() < m { s.last() } else { m }
    }
}

pub open spec fn seq_max(s: Seq<u32>) -> u32
    decreases s.len(),
{
    if s.len() <= 1 {
        s[0]
    } else {
        let m = seq_max(s.drop_last());
        if s.last() > m { s.last() } else { m }
    }
}

pub open spec fn below_range_msg(min: u32, lowest: u32) -> Seq<char> {
    "Minimum frequency "@ + crate::text::decimal(min as nat) + " kHz is below the lowest available "@
        + crate::text::decimal(lowest as nat) + " kHz"@
}

pub open spec fn above_range_msg(max: u32, highest: u32) -> Seq<char> {
    "Maximum frequency "@ + crate::text::decimal(max as nat) + " kHz exceeds the highest available "@
        + crate::text::decimal(highest as nat) + " kHz"@
}

/// Checks of the frequency limits against the hardware-supported list, when
/// one is known and not empty.
pub open spec fn range_errors(c: CpuConfig, available: Option<Seq<u32>>) -> Seq<Seq<char>> {
    match available {
        Some(f) => if f.len() > 0 {
            (match c.min_freq_khz {
                Some(mn) => if mn < seq_min(f) { seq![below_range_msg(mn, seq_min(f))] } else { seq![] },
                None => seq![],
            }) + (match c.max_freq_khz {
                Some(mx) => if mx > seq_max(f) { seq![above_range_msg(mx, seq_max(f))] } else { seq![] },
                None => seq![],
            })
        } else {
            seq![]
        },
        None => seq![],
    }
}

/// The message list of CPU validation.
pub open spec fn cpu_errors(c: CpuConfig, available: Option<Seq<u32>>) -> Seq<Seq<char>> {
    (if governor_name(c.governor_ac@).len() == 0 { seq!["AC governor cannot be empty"@] } else { seq![] })
        + (if governor_name(c.governor_battery@).len() == 0 {
        seq!["Battery governor cannot be empty"@]
    } else {
        seq![]
    }) + (match (c.min_freq_khz, c.max_freq_khz) {
        (Some(mn), Some(mx)) => if mn >= mx {
            seq!["Minimum frequency must be less than maximum frequency"@]
        } else {
            seq![]
        },
        _ => seq![],
    }) + range_errors(c, available)
}

/// Every message that validation reports for `c`, battery first, then CPU,
/// then thermal.
pub open spec fn config_errors(c: Config, available: Option<Seq<u32>>) -> Seq<Seq<char>> {
    battery_errors(c.battery) + cpu_errors(c.cpu, available) + thermal_errors(c.thermal)
}

pub open spec fn slice_view(available: Option<&[u32]>) -> Option<Seq<u32>> {
    match available {
        Some(f) => Some(f@),
        None => None,
    }
}

} // verus!

verus! {

proof fn lemma_views_add(a: Seq<String>, b: Seq<String>)
    ensures
        crate::text::views(a + b) == crate::text::views(a) + crate::text::views(b),
{
    assert(crate::text::views(a + b) =~= crate::text::views(a) + crate::text::views(b));
}

fn append_messages(errors: &mut Vec<String>, more: Vec<String>)
    ensures
        crate::text::views(final(errors)@) == crate::text::views(old(errors)@) + crate::text::views(more@),
{
    let mut more = more;
    proof { lemma_views_add(errors@, more@); }
    errors.append(&mut more);
}

fn push_message(errors: &mut Vec<String>, msg: String)
    ensures
        crate::text::views(final(errors)@) == crate::text::views(old(errors)@).push(msg@),
{
    errors.push(msg);
    proof {
        assert(crate::text::views(errors@) =~= crate::text::views(old(errors)@).push(msg@));
    }
}

/// The smallest element of a non-empty list.
pub fn slice_min(f: &[u32]) -> (r: u32)
    requires
        f@.len() > 0,
    ensures
        r == seq_min(f@),
{
    let mut m = f[0];
    let mut i: usize = 1;
    assert(f@.take(1).drop_last() =~= seq![]);
    while i < f.len()
        invariant
            1 <= i <= f@.len(),
            m == seq_min(f@.take(i as int)),
        decreases f@.len() - i,
    {
        assert(f@.take(i + 1).drop_last() =~= f@.take(i as int));
        if f[i] < m {
            m = f[i];
        }
        i = i + 1;
    }
    assert(f@.take(f@.len() as int) =~= f@);
    m
}

/// The largest element of a non-empty list.
pub fn slice_max(f: &[u32]) -> (r: u32)
    requires
        f@.len() > 0,
    ensures
        r == seq_max(f@),
{
    let mut m = f[0];
    let mut i: usize = 1;
    assert(f@.take(1).drop_last() =~= seq![]);
    while i < f.len()
        invariant
            1 <= i <= f@.len(),
            m == seq_max(f@.take(i as int)),
        decreases f@.len() - i,
    {
        assert(f@.take(i + 1).drop_last() =~= f@.take(i as int));
        if f[i] > m {
            m = f[i];
        }
        i = i + 1;
    }
    assert(f@.take(f@.len() as int) =~= f@);
    m
}

fn range_message(lead: &str, value: u32, middle: &str, bound: u32) -> (r: String)
    ensures
        r@ == lead@ + crate::text::decimal(value as nat) + middle@ + crate::text::decimal(bound as nat) + " kHz"@,
{
    let mut m = String::from_str(lead);
    let v = decimal_string(value as u64);
    m.append(v.as_str());
    m.append(middle);
    let b = decimal_string(bound as u64);
    m.append(b.as_str());
    m.append(" kHz");
    m
}

impl BatteryConfig {
    /// The battery validation messages.
    pub fn validate(&self) -> (r: Vec<String>)
        ensures
            crate::text::views(r@) == battery_errors(*self),
    {
        let mut errors: Vec<String> = Vec::new();
        assert(crate::text::views(errors@) =~= seq![]);
        if !(50 <= self.threshold && self.threshold <= 100) {
            push_message(&mut errors, String::from_str("Battery threshold must be between 50-100%"));
        }
        assert(crate::text::views(errors@) =~= battery_errors(*self));
        errors
    }
}

impl ThermalConfig {
    /// The thermal validation messages.
    pub fn validate(&self) -> (r: Vec<String>)
        ensures
            crate::text::views(r@) == thermal_errors(*self),
    {
        let mut errors: Vec<String> = Vec::new();
        assert(crate::text::views(errors@) =~= seq![]);
        if !(40 <= self.warn_temp && self.warn_temp <= 100) {
            push_message(&mut errors, String::from_str("Warning temperature must be between 40-100°C"));
        }
        if !(50 <= self.shutdown_temp && self.shutdown_temp <= 110) {
            push_message(&mut errors, String::from_str("Shutdown temperature must be between 50-110°C"));
        }
        if self.warn_temp <= self.high_temp {
            push_message(&mut errors, String::from_str("Warning temperature must be higher than high temperature"));
        }
        if self.high_temp >= self.shutdown_temp {
            push_message(&mut errors, String::from_str("High temperature must be lower than shutdown temperature"));
        }
        if self.fan_off_temp >= self.fan_max_temp {
            push_message(&mut errors, String::from_str("Fan off temperature must be lower than fan max temperature"));
        }
        assert(crate::text::views(errors@) =~= thermal_errors(*self));
        errors
    }
}

impl CpuConfig {
    /// The CPU validation messages. `available` is the hardware-supported
    /// frequency list in kHz; `None` skips the range check.
    pub fn validate_with_available(&self, available: Option<&[u32]>) -> (r: Vec<String>)
        ensures
            crate::text::views(r@) == cpu_errors(*self, slice_view(available)),
    {
        let mut errors: Vec<String> = Vec::new();
        assert(crate::text::views(errors@) =~= seq![]);
        if self.governor_ac.as_str().unicode_len() == 0 {
            push_message(&mut errors, String::from_str("AC governor cannot be empty"));
        }
        if self.governor_battery.as_str().unicode_len() == 0 {
            push_message(&mut errors, String::from_str("Battery governor cannot be empty"));
        }
        match (self.min_freq_khz, self.max_freq_khz) {
            (Some(mn), Some(mx)) => {
                if mn >= mx {
                    push_message(&mut errors, String::from_str("Minimum frequency must be less than maximum frequency"));
                }
            },
            _ => {},
        }
        let ghost before_range = crate::text::views(errors@);
        match available {
            Some(f) => {
                if f.len() > 0 {
                    let lowest = slice_min(f);
                    let highest = slice_max(f);
                    match self.min_freq_khz {
                        Some(mn) => {
                            if mn < lowest {
                                push_message(&mut errors, range_message("Minimum frequency ", mn, " kHz is below the lowest available ", lowest));
                            }
                        },
                        None => {},
                    }
                    match self.max_freq_khz {
                        Some(mx) => {
                            if mx > highest {
                                push_message(&mut errors, range_message("Maximum frequency ", mx, " kHz exceeds the highest available ", highest));
                            }
                        },
                        None => {},
                    }
                }
            },
            None => {},
        }
        assert(crate::text::views(errors@) =~= before_range + range_errors(*self, slice_view(available)));
        assert(crate::text::views(errors@) =~= cpu_errors(*self, slice_view(available)));
        errors
    }
}

} // verus!

verus! {

/// The built-in governor list, used when the kernel does not list its own.
pub open spec fn fallback_governors() -> Seq<GovernorView> {
    seq![
        GovernorView::Standard(StandardGovernor::Performance),
        GovernorView::Standard(StandardGovernor::Powersave),
        GovernorView::Standard(StandardGovernor::Ondemand),
        GovernorView::Standard(StandardGovernor::Conservative),
        GovernorView::Standard(StandardGovernor::Schedutil),
    ]
}

pub open spec fn governor_views(v: Seq<CpuGovernor>) -> Seq<GovernorView> {
    v.map_values(|g: CpuGovernor| g@)
}

/// The governors of a `scaling_available_governors` listing: one per
/// whitespace-separated name; the built-in list when the listing is absent
/// or names none.
pub open spec fn listed_governors(content: Option<Seq<char>>) -> Seq<GovernorView> {
    match content {
        Some(c) => if crate::text::runs(c, crate::text::Sep::Whitespace).len() > 0 {
            crate::text::runs(c, crate::text::Sep::Whitespace).map_values(|s: Seq<char>| governor_from_name(s))
        } else {
            fallback_governors()
        },
        None => fallback_governors(),
    }
}

/// No governor list ever holds a custom governor with an empty name: a
/// listing's names are non-empty tokens, and the built-in list holds only
/// standard governors. So `is_valid_governor` rejects an empty custom name
/// whatever the kernel lists.
pub proof fn lemma_no_empty_governor_listed(content: Option<Seq<char>>)
    ensures
        forall|i: int| 0 <= i < listed_governors(content).len()
            ==> #[trigger] listed_governors(content)[i] != GovernorView::Custom(Seq::<char>::empty()),
{
    match content {
        Some(c) => {
            let toks = crate::text::runs(c, crate::text::Sep::Whitespace);
            crate::text::lemma_runs_nonempty(c, crate::text::Sep::Whitespace);
            if toks.len() > 0 {
                assert forall|i: int| 0 <= i < listed_governors(content).len()
                    implies #[trigger] listed_governors(content)[i] != GovernorView::Custom(Seq::<char>::empty()) by {
                    assert(toks[i].len() > 0);
                    assert(listed_governors(content)[i] == governor_from_name(toks[i]));
                }
            }
        },
        None => {},
    }
}

/// The numbers among the tokens, in order, each token that `str::parse::<u32>`
/// accepts (the others are skipped).
pub open spec fn parsed_u32s(toks: Seq<Seq<char>>) -> Seq<u32>
    decreases toks.len(),
{
    if toks.len() == 0 {
        seq![]
    } else {
        parsed_u32s(toks.drop_last()) + match crate::text::parse_unsigned(toks.last(), u32::MAX as nat) {
            Some(v) => seq![v as u32],
            None => seq![],
        }
    }
}

/// The frequencies of a `scaling_available_frequencies` listing; `None` when
/// no token is a number.
pub open spec fn listed_frequencies(content: Seq<char>) -> Option<Seq<u32>> {
    let f = parsed_u32s(crate::text::runs(content, crate::text::Sep::Whitespace));
    if f.len() == 0 { None } else { Some(f) }
}

/// The temperatures that validation accepts, for some frequency list.
pub open spec fn config_is_valid(c: Config, available: Option<Seq<u32>>) -> bool {
    config_errors(c, available).len() == 0
}

impl Config {
    /// A configuration with default values.
    pub fn new() -> (r: Self)
        ensures
            r == factory_defaults(),
    {
        Self::default()
    }

    /// Validate all values against the rules, checking the frequency limits
    /// also against `available` (the hardware-supported list in kHz) when it
    /// is given. `Err` carries every message, battery first, then CPU, then
    /// thermal.
    pub fn validate_with_available(&self, available: Option<&[u32]>) -> (r: Result<(), SpinCtrlError>)
        ensures
            config_errors(*self, slice_view(available)).len() == 0 ==> r is Ok,
            config_errors(*self, slice_view(available)).len() > 0 ==> (r matches Err(SpinCtrlError::ConfigValidation(msgs))
                && crate::text::views(msgs@) == config_errors(*self, slice_view(available))),
    {
        let mut errors = self.battery.validate();
        append_messages(&mut errors, self.cpu.validate_with_available(available));
        append_messages(&mut errors, self.thermal.validate());
        if errors.len() == 0 {
            Ok(())
        } else {
            Err(SpinCtrlError::ConfigValidation(errors))
        }
    }

    /// Validate all values against the rules that hold on any machine (the
    /// frequency limits are not compared with a hardware list).
    pub fn validate(&self) -> (r: Result<(), SpinCtrlError>)
        ensures
            config_errors(*self, None).len() == 0 ==> r is Ok,
            config_errors(*self, None).len() > 0 ==> (r matches Err(SpinCtrlError::ConfigValidation(msgs))
                && crate::text::views(msgs@) == config_errors(*self, None)),
    {
        self.validate_with_available(None)
    }

    /// Select a thermal profile; the presets also set the five temperatures,
    /// the custom profile keeps them.
    pub fn apply_thermal_profile(&mut self, profile: ThermalProfile)
        ensures
            final(self).thermal == with_profile(old(self).thermal, profile),
            final(self).thermal.profile == profile,
            profile == ThermalProfile::Conservative ==> (final(self).thermal.warn_temp, final(self).thermal.high_temp,
                final(self).thermal.shutdown_temp, final(self).thermal.fan_off_temp, final(self).thermal.fan_max_temp)
                == (65u8, 50u8, 75u8, 45u8, 70u8),
            profile == ThermalProfile::Balanced ==> (final(self).thermal.warn_temp, final(self).thermal.high_temp,
                final(self).thermal.shutdown_temp, final(self).thermal.fan_off_temp, final(self).thermal.fan_max_temp)
                == (70u8, 55u8, 80u8, 50u8, 75u8),
            profile == ThermalProfile::Performance ==> (final(self).thermal.warn_temp, final(self).thermal.high_temp,
                final(self).thermal.shutdown_temp, final(self).thermal.fan_off_temp, final(self).thermal.fan_max_temp)
                == (80u8, 65u8, 90u8, 60u8, 85u8),
            profile == ThermalProfile::Custom ==> final(self).thermal == (ThermalConfig { profile, ..old(self).thermal }),
            final(self).battery == old(self).battery,
            final(self).cpu == old(self).cpu,
            final(self).version == old(self).version,
    {
        match profile {
            ThermalProfile::Conservative => {
                self.thermal.warn_temp = 65;
                self.thermal.high_temp = 50;
                self.thermal.shutdown_temp = 75;
                self.thermal.fan_off_temp = 45;
                self.thermal.fan_max_temp = 70;
            },
            ThermalProfile::Balanced => {
                self.thermal.warn_temp = 70;
                self.thermal.high_temp = 55;
                self.thermal.shutdown_temp = 80;
                self.thermal.fan_off_temp = 50;
                self.thermal.fan_max_temp = 75;
            },
            ThermalProfile::Performance => {
                self.thermal.warn_temp = 80;
                self.thermal.high_temp = 65;
                self.thermal.shutdown_temp = 90;
                self.thermal.fan_off_temp = 60;
                self.thermal.fan_max_temp = 85;
            },
            ThermalProfile::Custom => {},
        }
        self.thermal.profile = profile;
    }

    /// The built-in governor list.
    pub fn fallback_governors() -> (r: Vec<CpuGovernor>)
        ensures
            governor_views(r@) == fallback_governors(),
    {
        let v = vec![
            CpuGovernor::Standard(StandardGovernor::Performance),
            CpuGovernor::Standard(StandardGovernor::Powersave),
            CpuGovernor::Standard(StandardGovernor::Ondemand),
            CpuGovernor::Standard(StandardGovernor::Conservative),
            CpuGovernor::Standard(StandardGovernor::Schedutil),
        ];
        assert(governor_views(v@) =~= fallback_governors());
        v
    }

    /// The available governors given the content of the kernel's
    /// `scaling_available_governors` file (`None` when it could not be read).
    pub fn governors_from_listing(content: Option<&str>) -> (r: Vec<CpuGovernor>)
        ensures
            governor_views(r@) == listed_governors(match content { Some(c) => Some(c@), None => None }),
    {
        match content {
            Some(c) => {
                let names = split_runs(c, Sep::Whitespace);
                if names.len() > 0 {
                    let mut out: Vec<CpuGovernor> = Vec::new();
                    let mut i: usize = 0;
                    while i < names.len()
                        invariant
                            i <= names@.len(),
                            crate::text::views(names@) == crate::text::runs(c@, Sep::Whitespace),
                            governor_views(out@) =~= crate::text::views(names@).take(i as int).map_values(|s: Seq<char>| governor_from_name(s)),
                        decreases names@.len() - i,
                    {
                        let g = CpuGovernor::from_name(names[i].as_str());
                        let ghost prev = out@;
                        out.push(g);
                        let ghost nv = crate::text::views(names@);
                        assert(nv[i as int] == names@[i as int]@);
                        assert(governor_views(out@) =~= governor_views(prev).push(g@));
                        assert(nv.take(i + 1).map_values(|s: Seq<char>| governor_from_name(s)) =~= nv.take(i as int).map_values(|s: Seq<char>| governor_from_name(s)).push(governor_from_name(nv[i as int])));
                        i = i + 1;
                    }
                    assert(crate::text::views(names@).take(names@.len() as int) =~= crate::text::views(names@));
                    out
                } else {
                    Self::fallback_governors()
                }
            },
            None => Self::fallback_governors(),
        }
    }

    /// Whether `governor` is in the `available` list.
    pub fn is_valid_governor(governor: &CpuGovernor, available: &[CpuGovernor]) -> (r: bool)
        ensures
            r == (exists|i: int| 0 <= i < available@.len() && (#[trigger] available@[i])@ == governor@),
    {
        let mut i: usize = 0;
        while i < available.len()
            invariant
                i <= available@.len(),
                forall|j: int| 0 <= j < i ==> (#[trigger] available@[j])@ != governor@,
            decreases available@.len() - i,
        {
            if available[i].same_as(governor) {
                return true;
            }
            i = i + 1;
        }
        false
    }
}

/// The hardware-supported frequencies (kHz) listed in the content of the
/// kernel's `scaling_available_frequencies` file; tokens that are not numbers
/// are skipped, and `None` comes back when none is a number.
pub fn frequencies_from_listing(content: &str) -> (r: Option<Vec<u32>>)
    ensures
        match listed_frequencies(content@) {
            Some(f) => r matches Some(v) && v@ == f,
            None => r is None,
        },
{
    let toks = split_runs(content, Sep::Whitespace);
    let ghost t = crate::text::views(toks@);
    let mut out: Vec<u32> = Vec::new();
    let mut i: usize = 0;
    assert(t.take(0) =~= seq![]);
    while i < toks.len()
        invariant
            i <= toks@.len(),
            t == crate::text::views(toks@),
            t == crate::text::runs(content@, Sep::Whitespace),
            out@ == parsed_u32s(t.take(i as int)),
        decreases toks@.len() - i,
    {
        assert(t.take(i + 1).drop_last() =~= t.take(i as int));
        assert(t.take(i + 1).last() == toks@[i as int]@);
        match parse_u32(toks[i].as_str()) {
            Some(v) => {
                out.push(v);
            },
            None => {},
        }
        assert(out@ =~= parsed_u32s(t.take(i + 1)));
        i = i + 1;
    }
    assert(t.take(toks@.len() as int) =~= t);
    if out.len() == 0 { None } else { Some(out) }
}

} // verus!

verus! {

/// The validation rules of the configuration reference, as one predicate
/// (the frequency limits not compared with a hardware list).
pub open spec fn follows_rules(c: Config) -> bool {
    &&& 50 <= c.battery.threshold <= 100
    &&& governor_name(c.cpu.governor_ac@).len() > 0
    &&& governor_name(c.cpu.governor_battery@).len() > 0
    &&& match (c.cpu.min_freq_khz, c.cpu.max_freq_khz) {
        (Some(mn), Some(mx)) => mn < mx,
        _ => true,
    }
    &&& 40 <= c.thermal.warn_temp <= 100
    &&& c.thermal.warn_temp > c.thermal.high_temp
    &&& c.thermal.high_temp < c.thermal.shutdown_temp
    &&& 50 <= c.thermal.shutdown_temp <= 110
    &&& c.thermal.fan_off_temp < c.thermal.fan_max_temp
}

/// A configuration passes validation exactly when it follows the rules of
/// the configuration reference.
pub proof fn lemma_validation_matches_rules(c: Config)
    ensures
        config_is_valid(c, None) <==> follows_rules(c),
{
    match (c.cpu.min_freq_khz, c.cpu.max_freq_khz) {
        (Some(mn), Some(mx)) => {},
        _ => {},
    }
}

/// The factory defaults pass validation, whatever frequency list the
/// hardware offers.
pub proof fn lemma_defaults_are_valid(available: Option<Seq<u32>>)
    ensures
        config_is_valid(factory_defaults(), available),
{
    reveal_strlit("performance");
    reveal_strlit("powersave");
}

/// Every preset profile sets temperatures that pass thermal validation.
pub proof fn lemma_presets_are_valid(t: ThermalConfig, p: ThermalProfile)
    requires
        p != ThermalProfile::Custom,
    ensures
        thermal_errors(with_profile(t, p)).len() == 0,
{
}

/// Each preset sets exactly its documented temperatures (warn, high,
/// shutdown, fan off, fan max): conservative 65/50/75/45/70, balanced
/// 70/55/80/50/75, performance 80/65/90/60/85; the custom profile keeps
/// them. The presets are ordered: every temperature of conservative is at
/// most that of balanced, and every one of balanced at most that of
/// performance.
pub proof fn lemma_preset_temperatures(t: ThermalConfig)
    ensures
        ({
            let c = with_profile(t, ThermalProfile::Conservative);
            let b = with_profile(t, ThermalProfile::Balanced);
            let p = with_profile(t, ThermalProfile::Performance);
            &&& (c.warn_temp, c.high_temp, c.shutdown_temp, c.fan_off_temp, c.fan_max_temp) == (65u8, 50u8, 75u8, 45u8, 70u8)
            &&& (b.warn_temp, b.high_temp, b.shutdown_temp, b.fan_off_temp, b.fan_max_temp) == (70u8, 55u8, 80u8, 50u8, 75u8)
            &&& (p.warn_temp, p.high_temp, p.shutdown_temp, p.fan_off_temp, p.fan_max_temp) == (80u8, 65u8, 90u8, 60u8, 85u8)
            &&& c.profile == ThermalProfile::Conservative && b.profile == ThermalProfile::Balanced
                && p.profile == ThermalProfile::Performance
            &&& c.warn_temp <= b.warn_temp <= p.warn_temp
            &&& c.high_temp <= b.high_temp <= p.high_temp
            &&& c.shutdown_temp <= b.shutdown_temp <= p.shutdown_temp
            &&& c.fan_off_temp <= b.fan_off_temp <= p.fan_off_temp
            &&& c.fan_max_temp <= b.fan_max_temp <= p.fan_max_temp
        }),
        with_profile(t, ThermalProfile::Custom) == (ThermalConfig { profile: ThermalProfile::Custom, ..t }),
{
}

/// The smallest entry of a non-empty list is one of its entries and no
/// entry is below it; likewise the largest, and no entry is above it.
pub proof fn lemma_seq_min_max(s: Seq<u32>)
    requires
        s.len() > 0,
    ensures
        s.contains(seq_min(s)),
        s.contains(seq_max(s)),
        forall|k: int| 0 <= k < s.len() ==> seq_min(s) <= #[trigger] s[k] <= seq_max(s),
    decreases s.len(),
{
    if s.len() > 1 {
        let d = s.drop_last();
        lemma_seq_min_max(d);
        assert forall|k: int| 0 <= k < s.len() implies seq_min(s) <= #[trigger] s[k] <= seq_max(s) by {
            if k < s.len() - 1 {
                assert(s[k] == d[k]);
            }
        }
        let i = choose|i: int| 0 <= i < d.len() && d[i] == seq_min(d);
        let j = choose|j: int| 0 <= j < d.len() && d[j] == seq_max(d);
        assert(s[i] == d[i]);
        assert(s[j] == d[j]);
        assert(s[s.len() - 1] == s.last());
    } else {
        assert(s[0] == seq_min(s));
        assert(s[0] == seq_max(s));
    }
}

/// The balanced preset restores the default temperatures.
pub proof fn lemma_balanced_is_default(t: ThermalConfig)
    ensures
        with_profile(t, ThermalProfile::Balanced) == factory_defaults().thermal,
{
}

/// Selecting the same profile twice is the same as selecting it once; the
/// custom profile changes no temperature.
pub proof fn lemma_profile_idempotent(t: ThermalConfig, p: ThermalProfile)
    ensures
        with_profile(with_profile(t, p), p) == with_profile(t, p),
        p == ThermalProfile::Custom ==> ({
            let u = with_profile(t, p);
            u.warn_temp == t.warn_temp && u.high_temp == t.high_temp && u.shutdown_temp == t.shutdown_temp
                && u.fan_off_temp == t.fan_off_temp && u.fan_max_temp == t.fan_max_temp
        }),
{
}

proof fn lemma_standard_names_distinct()
    ensures
        "performance"@ != "powersave"@,
        "performance"@ != "ondemand"@,
        "performance"@ != "conservative"@,
        "performance"@ != "schedutil"@,
        "powersave"@ != "ondemand"@,
        "powersave"@ != "conservative"@,
        "powersave"@ != "schedutil"@,
        "ondemand"@ != "conservative"@,
        "ondemand"@ != "schedutil"@,
        "conservative"@ != "schedutil"@,
{
    reveal_strlit("performance");
    reveal_strlit("powersave");
    reveal_strlit("ondemand");
    reveal_strlit("conservative");
    reveal_strlit("schedutil");
    assert("performance"@.len() != "powersave"@.len());
    assert("performance"@.len() != "ondemand"@.len());
    assert("performance"@[0] != "conservative"@[0]);
    assert("performance"@[0] != "schedutil"@[0]);
    assert("powersave"@[0] != "ondemand"@[0]);
    assert("powersave"@.len() != "conservative"@.len());
    assert("powersave"@[0] != "schedutil"@[0]);
    assert("ondemand"@.len() != "conservative"@.len());
    assert("ondemand"@[0] != "schedutil"@[0]);
    assert("conservative"@.len() != "schedutil"@.len());
}

/// Writing a governor's name and reading it back gives the name unchanged,
/// and gives the governor back unless it is a custom one that carries a
/// standard name.
pub proof fn lemma_governor_name_round_trip(s: Seq<char>, g: GovernorView)
    ensures
        governor_name(governor_from_name(s)) == s,
        !(g matches GovernorView::Custom(n) && governor_from_name(n) != g) ==> governor_from_name(governor_name(g)) == g,
{
    lemma_standard_names_distinct();
}

/// Different standard governors have different names.
pub proof fn lemma_standard_names_injective(a: StandardGovernor, b: StandardGovernor)
    ensures
        standard_name(a) == standard_name(b) ==> a == b,
{
    lemma_standard_names_distinct();
}

} // verus!
