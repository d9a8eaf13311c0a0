//! The hardware side of the service: charge-control modes, the command lines
//! given to `ectool` and `cpupower`, the parsers for what sysfs and those
//! tools print, and a recording test double.
use vstd::prelude::*;
use crate::config::{CpuGovernor, ThermalConfig};
use crate::error::ServiceResult;
use crate::ipc::ThermalZone;
use crate::text::{
    contains_str, decimal_string, parse_i32, parse_u32, parse_u64, parse_u8, split_lines, split_pieces,
    split_runs, starts_with_str, str_eq, trim_str, Sep,
};

verus! {

/// EC charge-control mode.
#[derive(Debug, Clone, Copy, PartialEq, Eq, Structural)]
pub enum ChargeMode {
    Normal,
    Idle,
}

pub open spec fn ectool_arg(m: ChargeMode) -> Seq<char> {
    match m {
        ChargeMode::Normal => "normal"@,
        ChargeMode::Idle => "idle"@,
    }
}

impl ChargeMode {
    /// The argument `ectool chargecontrol` takes for this mode.
    pub fn as_ectool_arg(self) -> (r: &'static str)
        ensures
            r@ == ectool_arg(self),
    {
        match self {
            ChargeMode::Normal => "normal",
            ChargeMode::Idle => "idle",
        }
    }
}

/// Battery state of health and cycle count, each `None` when unknown.
#[derive(Debug, Clone, Copy, PartialEq, Eq, Structural)]
pub struct BatteryHealthInfo {
    pub health: Option<u8>,
    pub cycle_count: Option<u32>,
}

impl Default for BatteryHealthInfo {
    fn default() -> (r: Self)
        ensures
            r.health is None,
            r.cycle_count is None,
    {
        BatteryHealthInfo { health: None, cycle_count: None }
    }
}

/// `/sys/class/power_supply/AC/online` reads as connected.
pub fn parse_ac_online(content: &str) -> (r: bool)
    ensures
        r == (crate::text::trim(content@) == "1"@),
{
    str_eq(trim_str(content), "1")
}

/// The battery capacity in `/sys/class/power_supply/BAT0/capacity`.
pub fn parse_capacity(content: &str) -> (r: Option<u8>)
    ensures
        match crate::text::parse_unsigned(crate::text::trim(content@), u8::MAX as nat) {
            Some(v) => r == Some(v as u8),
            None => r is None,
        },
{
    parse_u8(trim_str(content))
}

/// Health in percent from a full-charge and a design capacity (in the same
/// unit): `full * 100 / design`, the product saturating at `u64::MAX`,
/// capped at 100; `None` when the design capacity is 0.
pub open spec fn health_percent_spec(full: u64, design: u64) -> Option<u8> {
    if design == 0 {
        None
    } else {
        let p = if full * 100 > u64::MAX { u64::MAX as int } else { full * 100 };
        let q = p / (design as int);
        Some((if q > 100 { 100 } else { q }) as u8)
    }
}

pub fn health_percent(full: u64, design: u64) -> (r: Option<u8>)
    ensures
        r == health_percent_spec(full, design),
{
    if design == 0 {
        return None;
    }
    let p: u64 = if full > u64::MAX / 100 { u64::MAX } else { full * 100 };
    let q = p / design;
    Some(if q > 100 { 100 } else { q as u8 })
}

/// Health from sysfs: the energy pair (µWh) when both values are known,
/// otherwise the charge pair (µAh).
pub open spec fn sysfs_health_spec(
    energy_full: Option<u64>,
    energy_design: Option<u64>,
    charge_full: Option<u64>,
    charge_design: Option<u64>,
) -> Option<u8> {
    let (full, design) = if energy_full is Some && energy_design is Some {
        (energy_full, energy_design)
    } else {
        (charge_full, charge_design)
    };
    match (full, design) {
        (Some(f), Some(d)) => health_percent_spec(f, d),
        _ => None,
    }
}

pub fn sysfs_health(
    energy_full: Option<u64>,
    energy_design: Option<u64>,
    charge_full: Option<u64>,
    charge_design: Option<u64>,
) -> (r: Option<u8>)
    ensures
        r == sysfs_health_spec(energy_full, energy_design, charge_full, charge_design),
{
    let (full, design) = if energy_full.is_some() && energy_design.is_some() {
        (energy_full, energy_design)
    } else {
        (charge_full, charge_design)
    };
    match (full, design) {
        (Some(f), Some(d)) => health_percent(f, d),
        _ => None,
    }
}

/// A sysfs number file's value (`None` when absent or not a number).
pub fn parse_sysfs_u64(content: Option<&str>) -> (r: Option<u64>)
    ensures
        match content {
            Some(c) => match crate::text::parse_unsigned(crate::text::trim(c@), u64::MAX as nat) {
                Some(v) => r == Some(v as u64),
                None => r is None,
            },
            None => r is None,
        },
{
    match content {
        Some(c) => parse_u64(trim_str(c)),
        None => None,
    }
}

/// The cycle count in `cycle_count`; 0 means "not available".
pub fn parse_cycle_count(content: Option<&str>) -> (r: Option<u32>)
    ensures
        match content {
            Some(c) => match crate::text::parse_unsigned(crate::text::trim(c@), u32::MAX as nat) {
                Some(v) => if v > 0 { r == Some(v as u32) } else { r is None },
                None => r is None,
            },
            None => r is None,
        },
{
    match content {
        Some(c) => match parse_u32(trim_str(c)) {
            Some(v) => if v > 0 { Some(v) } else { None },
            None => None,
        },
        None => None,
    }
}

/// The first line among `ls` in which `pat` occurs.
pub open spec fn first_line_with(ls: Seq<Seq<char>>, pat: Seq<char>) -> Option<Seq<char>>
    decreases ls.len(),
{
    if ls.len() == 0 {
        None
    } else if crate::text::has_sub(ls[0], pat) {
        Some(ls[0])
    } else {
        first_line_with(ls.drop_first(), pat)
    }
}

/// The first token made of ASCII digits only.
pub open spec fn first_number_token(ts: Seq<Seq<char>>) -> Option<Seq<char>>
    decreases ts.len(),
{
    if ts.len() == 0 {
        None
    } else if crate::text::all_digits(ts[0]) {
        Some(ts[0])
    } else {
        first_number_token(ts.drop_first())
    }
}

/// The part of a `label: value` line that holds the value: what comes after
/// the first `':'` up to the next one, or the whole line without a `':'`.
pub open spec fn value_part(line: Seq<char>) -> Seq<char> {
    let p = crate::text::pieces(line, ':');
    if p.len() > 1 { p[1] } else { line }
}

/// The number `ectool battery` prints for `label`: on the first line that
/// holds the label, the first all-digit word of its value part.
pub open spec fn ectool_number(text: Seq<char>, label: Seq<char>) -> Option<nat> {
    match first_line_with(crate::text::lines(text), label) {
        None => None,
        Some(l) => match first_number_token(crate::text::runs(value_part(l), Sep::Whitespace)) {
            None => None,
            Some(t) => crate::text::parse_unsigned(t, u64::MAX as nat),
        },
    }
}

fn find_line_with(ls: &Vec<String>, pat: &str) -> (r: Option<usize>)
    ensures
        match first_line_with(crate::text::views(ls@), pat@) {
            Some(l) => r matches Some(i) && i < ls@.len() && ls@[i as int]@ == l,
            None => r is None,
        },
{
    let ghost v = crate::text::views(ls@);
    let mut i: usize = 0;
    assert(v.skip(0) =~= v);
    while i < ls.len()
        invariant
            v == crate::text::views(ls@),
            i <= ls@.len(),
            first_line_with(v, pat@) == first_line_with(v.skip(i as int), pat@),
        decreases ls@.len() - i,
    {
        assert(v.skip(i as int)[0] == ls@[i as int]@);
        assert(v.skip(i as int).drop_first() =~= v.skip(i + 1));
        if contains_str(ls[i].as_str(), pat) {
            return Some(i);
        }
        i = i + 1;
    }
    assert(v.skip(i as int) =~= seq![]);
    None
}

fn all_ascii_digits(s: &str) -> (r: bool)
    ensures
        r == crate::text::all_digits(s@),
{
    let n = s.unicode_len();
    let mut i: usize = 0;
    while i < n
        invariant
            n == s@.len(),
            i <= n,
            forall|j: int| 0 <= j < i ==> crate::text::is_digit(#[trigger] s@[j]),
        decreases n - i,
    {
        let c = s.get_char(i);
        if !('0' <= c && c <= '9') {
            return false;
        }
        i = i + 1;
    }
    true
}

/// The number that `ectool battery` prints for `label`.
pub fn parse_ectool_number(text: &str, label: &str) -> (r: Option<u64>)
    ensures
        match ectool_number(text@, label@) {
            Some(v) => r == Some(v as u64),
            None => r is None,
        },
{
    let ls = split_lines(text);
    match find_line_with(&ls, label) {
        None => None,
        Some(i) => {
            let line = ls[i].as_str();
            let parts = split_pieces(line, ':');
            assert(crate::text::views(parts@).len() == parts@.len());
            let field: &str = if parts.len() > 1 {
                assert(crate::text::views(parts@)[1] == parts@[1]@);
                parts[1].as_str()
            } else {
                line
            };
            assert(field@ == value_part(line@));
            let toks = split_runs(field, Sep::Whitespace);
            let ghost t = crate::text::views(toks@);
            let mut k: usize = 0;
            assert(t.skip(0) =~= t);
            while k < toks.len()
                invariant
                    t == crate::text::views(toks@),
                    t == crate::text::runs(value_part(line@), Sep::Whitespace),
                    line@ == ls@[i as int]@,
                    first_line_with(crate::text::lines(text@), label@) == Some(line@),
                    k <= toks@.len(),
                    first_number_token(t) == first_number_token(t.skip(k as int)),
                decreases toks@.len() - k,
            {
                assert(t.skip(k as int)[0] == toks@[k as int]@);
                assert(t.skip(k as int).drop_first() =~= t.skip(k + 1));
                if all_ascii_digits(toks[k].as_str()) {
                    return parse_u64(toks[k].as_str());
                }
                k = k + 1;
            }
            assert(t.skip(k as int) =~= seq![]);
            None
        },
    }
}

/// Health and cycle count from `ectool battery` output, used when sysfs
/// gives no health: health from "Last full charge" over "Design capacity",
/// cycle count from sysfs when known, else "Cycle count" when above 0.
pub open spec fn ectool_health_spec(text: Seq<char>, sysfs_cycle: Option<u32>) -> BatteryHealthInfo {
    let design = ectool_number(text, "Design capacity"@);
    let full = ectool_number(text, "Last full charge"@);
    BatteryHealthInfo {
        health: match (full, design) {
            (Some(l), Some(d)) => health_percent_spec(l as u64, d as u64),
            _ => None,
        },
        cycle_count: match sysfs_cycle {
            Some(c) => Some(c),
            None => match ectool_number(text, "Cycle count"@) {
                Some(c) => if c > 0 && c <= u32::MAX { Some(c as u32) } else { None },
                None => None,
            },
        },
    }
}

pub fn health_from_ectool(text: &str, sysfs_cycle: Option<u32>) -> (r: BatteryHealthInfo)
    ensures
        r == ectool_health_spec(text@, sysfs_cycle),
{
    let design = parse_ectool_number(text, "Design capacity");
    let full = parse_ectool_number(text, "Last full charge");
    let health = match (full, design) {
        (Some(l), Some(d)) => health_percent(l, d),
        _ => None,
    };
    let cycle_count = match sysfs_cycle {
        Some(c) => Some(c),
        None => match parse_ectool_number(text, "Cycle count") {
            Some(c) => if c > 0 && c <= u32::MAX as u64 { Some(c as u32) } else { None },
            None => None,
        },
    };
    BatteryHealthInfo { health, cycle_count }
}

/// The battery's health report: the sysfs figure when there is one, with
/// the sysfs cycle count; otherwise what `ectool battery` printed (`None`
/// when it could not be run), the sysfs cycle count still preferred.
pub open spec fn battery_health_spec(sysfs: Option<u8>, sysfs_cycle: Option<u32>, ectool: Option<Seq<char>>) -> BatteryHealthInfo {
    if sysfs is Some {
        BatteryHealthInfo { health: sysfs, cycle_count: sysfs_cycle }
    } else {
        match ectool {
            Some(t) => ectool_health_spec(t, sysfs_cycle),
            None => BatteryHealthInfo { health: None, cycle_count: sysfs_cycle },
        }
    }
}

/// Choose the battery's health report; see `battery_health_spec`.
pub fn battery_health(sysfs: Option<u8>, sysfs_cycle: Option<u32>, ectool_output: Option<&str>) -> (r: BatteryHealthInfo)
    ensures
        r == battery_health_spec(sysfs, sysfs_cycle, match ectool_output {
            Some(t) => Some(t@),
            None => None,
        }),
        sysfs_cycle is Some ==> r.cycle_count == sysfs_cycle,
        sysfs is Some ==> r.health == sysfs,
        sysfs is None && ectool_output is None ==> r.health is None,
{
    proof {
        lemma_battery_health_sources(sysfs, sysfs_cycle, match ectool_output {
            Some(t) => Some(t@),
            None => None,
        });
    }
    if sysfs.is_some() {
        return BatteryHealthInfo { health: sysfs, cycle_count: sysfs_cycle };
    }
    match ectool_output {
        Some(t) => health_from_ectool(t, sysfs_cycle),
        None => BatteryHealthInfo { health: None, cycle_count: sysfs_cycle },
    }
}

} // verus!

verus! {

/// The first line among `ls` in which `pat` occurs and that holds a word.
pub open spec fn first_line_with_word(ls: Seq<Seq<char>>, pat: Seq<char>) -> Option<Seq<char>>
    decreases ls.len(),
{
    if ls.len() == 0 {
        None
    } else if crate::text::has_sub(ls[0], pat) && crate::text::runs(ls[0], Sep::Whitespace).len() > 0 {
        Some(ls[0])
    } else {
        first_line_with_word(ls.drop_first(), pat)
    }
}

/// The governor `cpupower frequency-info -p` reports: the last word of the
/// first "current policy" line, or `unknown`.
pub open spec fn current_governor_spec(out: Seq<char>) -> Seq<char> {
    match first_line_with_word(crate::text::lines(out), "current policy"@) {
        Some(l) => crate::text::runs(l, Sep::Whitespace).last(),
        None => "unknown"@,
    }
}

pub fn parse_current_governor(out: &str) -> (r: String)
    ensures
        r@ == current_governor_spec(out@),
{
    let ls = split_lines(out);
    let ghost v = crate::text::views(ls@);
    let mut i: usize = 0;
    assert(v.skip(0) =~= v);
    while i < ls.len()
        invariant
            v == crate::text::views(ls@),
            v == crate::text::lines(out@),
            i <= ls@.len(),
            first_line_with_word(v, "current policy"@) == first_line_with_word(v.skip(i as int), "current policy"@),
        decreases ls@.len() - i,
    {
        assert(v.skip(i as int)[0] == ls@[i as int]@);
        assert(v.skip(i as int).drop_first() =~= v.skip(i + 1));
        if contains_str(ls[i].as_str(), "current policy") {
            let toks = split_runs(ls[i].as_str(), Sep::Whitespace);
            if toks.len() > 0 {
                let last = toks.len() - 1;
                assert(crate::text::views(toks@)[last as int] == toks@[last as int]@);
                return toks[last].clone();
            }
        }
        i = i + 1;
    }
    assert(v.skip(i as int) =~= seq![]);
    String::from_str("unknown")
}

/// The id of a `/sys/class/thermal` entry named `thermal_zone<N>`.
pub open spec fn zone_id_spec(name: Seq<char>) -> Option<u8> {
    if "thermal_zone"@.is_prefix_of(name) {
        match crate::text::parse_unsigned(name.skip("thermal_zone"@.len() as int), u8::MAX as nat) {
            Some(v) => Some(v as u8),
            None => None,
        }
    } else {
        None
    }
}

pub fn thermal_zone_id(name: &str) -> (r: Option<u8>)
    ensures
        r == zone_id_spec(name@),
{
    if starts_with_str(name, "thermal_zone") {
        let n = name.unicode_len();
        let p = "thermal_zone".unicode_len();
        let rest = name.substring_char(p, n);
        assert(rest@ =~= name@.skip("thermal_zone"@.len() as int));
        parse_u8(rest)
    } else {
        None
    }
}

/// Division by 1000 rounding toward zero (Rust's integer division).
pub open spec fn div_1000_toward_zero(v: int) -> int {
    if v >= 0 { v / 1000 } else { -((-v) / 1000) }
}

/// A zone's temperature in °C from its `temp` file (millidegrees); 0 when
/// the file is absent or not a number.
pub open spec fn zone_temperature_spec(content: Option<Seq<char>>) -> i32 {
    match content {
        Some(c) => match crate::text::parse_signed(crate::text::trim(c), i32::MAX as nat) {
            Some(v) => div_1000_toward_zero(v) as i32,
            None => 0,
        },
        None => 0,
    }
}

pub fn zone_temperature(content: Option<&str>) -> (r: i32)
    ensures
        r == zone_temperature_spec(match content { Some(c) => Some(c@), None => None }),
{
    match content {
        Some(c) => match parse_i32(trim_str(c)) {
            Some(v) => {
                let w = v as i64;
                if w >= 0 {
                    (w / 1000) as i32
                } else {
                    (0 - ((0 - w) / 1000)) as i32
                }
            },
            None => 0,
        },
        None => 0,
    }
}

/// The EC's thermal thresholds in the unit `ectool thermalset` takes (the
/// Celsius value plus 272): warn, high, shutdown, fan off, fan max.
pub open spec fn thermal_targets_spec(t: ThermalConfig) -> Seq<i32> {
    seq![
        (t.warn_temp + 272) as i32,
        (t.high_temp + 272) as i32,
        (t.shutdown_temp + 272) as i32,
        (t.fan_off_temp + 272) as i32,
        (t.fan_max_temp + 272) as i32,
    ]
}

pub fn thermal_targets(t: &ThermalConfig) -> (r: Vec<i32>)
    ensures
        r@ == thermal_targets_spec(*t),
{
    let v = vec![
        t.warn_temp as i32 + 272,
        t.high_temp as i32 + 272,
        t.shutdown_temp as i32 + 272,
        t.fan_off_temp as i32 + 272,
        t.fan_max_temp as i32 + 272,
    ];
    assert(v@ =~= thermal_targets_spec(*t));
    v
}

/// The numbers among the tokens that `str::parse::<i32>` accepts, in order.
pub open spec fn parsed_i32s(toks: Seq<Seq<char>>) -> Seq<i32>
    decreases toks.len(),
{
    if toks.len() == 0 {
        seq![]
    } else {
        parsed_i32s(toks.drop_last()) + match crate::text::parse_signed(toks.last(), i32::MAX as nat) {
            Some(v) => seq![v as i32],
            None => seq![],
        }
    }
}

/// The numbers in a tool's output: the runs of digits and `'-'` that read
/// as `i32`.
pub open spec fn numbers_in(text: Seq<char>) -> Seq<i32> {
    parsed_i32s(crate::text::runs(text, Sep::NonNumeric))
}

pub fn numbers_in_text(text: &str) -> (r: Vec<i32>)
    ensures
        r@ == numbers_in(text@),
{
    let toks = split_runs(text, Sep::NonNumeric);
    let ghost t = crate::text::views(toks@);
    let mut out: Vec<i32> = Vec::new();
    let mut i: usize = 0;
    assert(t.take(0) =~= seq![]);
    while i < toks.len()
        invariant
            i <= toks@.len(),
            t == crate::text::views(toks@),
            t == crate::text::runs(text@, Sep::NonNumeric),
            out@ == parsed_i32s(t.take(i as int)),
        decreases toks@.len() - i,
    {
        assert(t.take(i + 1).drop_last() =~= t.take(i as int));
        assert(t.take(i + 1).last() == toks@[i as int]@);
        match parse_i32(toks[i].as_str()) {
            Some(v) => {
                out.push(v);
            },
            None => {},
        }
        assert(out@ =~= parsed_i32s(t.take(i + 1)));
        i = i + 1;
    }
    assert(t.take(toks@.len() as int) =~= t);
    out
}

/// Whether a `thermalget` read-back shows every expected value.
pub fn readback_confirms(text: &str, expected: &[i32]) -> (r: bool)
    ensures
        r == (forall|k: int| 0 <= k < expected@.len() ==> numbers_in(text@).contains(#[trigger] expected@[k])),
{
    let nums = numbers_in_text(text);
    let mut k: usize = 0;
    while k < expected.len()
        invariant
            nums@ == numbers_in(text@),
            k <= expected@.len(),
            forall|j: int| 0 <= j < k ==> numbers_in(text@).contains(#[trigger] expected@[j]),
        decreases expected@.len() - k,
    {
        let want = expected[k];
        let mut found = false;
        let mut i: usize = 0;
        while i < nums.len()
            invariant
                i <= nums@.len(),
                found == (exists|j: int| 0 <= j < i && nums@[j] == want),
            decreases nums@.len() - i,
        {
            if nums[i] == want {
                found = true;
            }
            i = i + 1;
        }
        if !found {
            return false;
        }
        k = k + 1;
    }
    true
}

/// The arguments of `ectool chargecontrol <mode>`.
pub fn charge_control_args(mode: ChargeMode) -> (r: Vec<String>)
    ensures
        crate::text::views(r@) == seq!["chargecontrol"@, ectool_arg(mode)],
{
    let v = vec![String::from_str("chargecontrol"), String::from_str(mode.as_ectool_arg())];
    assert(crate::text::views(v@) =~= seq!["chargecontrol"@, ectool_arg(mode)]);
    v
}

/// The arguments of `cpupower frequency-set -g <governor>`.
pub fn governor_args(governor: &CpuGovernor) -> (r: Vec<String>)
    ensures
        crate::text::views(r@) == seq!["frequency-set"@, "-g"@, crate::config::governor_name(governor@)],
{
    let v = vec![String::from_str("frequency-set"), String::from_str("-g"), governor.to_string()];
    assert(crate::text::views(v@) =~= seq!["frequency-set"@, "-g"@, crate::config::governor_name(governor@)]);
    v
}

/// The arguments of `cpupower frequency-set` that set the limits: `-d <min>`
/// and `-u <max>` for each limit given; `None` when neither is.
pub open spec fn frequency_args_spec(min: Option<u32>, max: Option<u32>) -> Option<Seq<Seq<char>>> {
    if min is None && max is None {
        None
    } else {
        Some(seq!["frequency-set"@] + match min {
            Some(m) => seq!["-d"@, crate::text::decimal(m as nat)],
            None => seq![],
        } + match max {
            Some(m) => seq!["-u"@, crate::text::decimal(m as nat)],
            None => seq![],
        })
    }
}

pub fn frequency_args(min: Option<u32>, max: Option<u32>) -> (r: Option<Vec<String>>)
    ensures
        match frequency_args_spec(min, max) {
            Some(a) => r matches Some(v) && crate::text::views(v@) == a,
            None => r is None,
        },
{
    if min.is_none() && max.is_none() {
        return None;
    }
    let mut args: Vec<String> = vec![String::from_str("frequency-set")];
    let ghost a0 = crate::text::views(args@);
    assert(a0 =~= seq!["frequency-set"@]);
    match min {
        Some(m) => {
            args.push(String::from_str("-d"));
            args.push(decimal_string(m as u64));
        },
        None => {},
    }
    let ghost a1 = crate::text::views(args@);
    assert(a1 =~= seq!["frequency-set"@] + match min {
        Some(m) => seq!["-d"@, crate::text::decimal(m as nat)],
        None => seq![],
    });
    match max {
        Some(m) => {
            args.push(String::from_str("-u"));
            args.push(decimal_string(m as u64));
        },
        None => {},
    }
    assert(crate::text::views(args@) =~= a1 + match max {
        Some(m) => seq!["-u"@, crate::text::decimal(m as nat)],
        None => seq![],
    });
    Some(args)
}

/// The arguments of `ectool thermalset <zone> <warn> <high> <shutdown>
/// <fan off> <fan max>`, the thresholds in the EC's unit.
pub fn thermalset_args(zone: u8, t: &ThermalConfig) -> (r: Vec<String>)
    ensures
        crate::text::views(r@) == seq!["thermalset"@, crate::text::decimal(zone as nat)]
            + thermal_targets_spec(*t).map_values(|k: i32| crate::text::decimal(k as nat)),
{
    let targets = thermal_targets(t);
    let mut args: Vec<String> = vec![String::from_str("thermalset"), decimal_string(zone as u64)];
    let mut i: usize = 0;
    while i < targets.len()
        invariant
            targets@ == thermal_targets_spec(*t),
            i <= targets@.len(),
            crate::text::views(args@) =~= seq!["thermalset"@, crate::text::decimal(zone as nat)]
                + targets@.take(i as int).map_values(|k: i32| crate::text::decimal(k as nat)),
        decreases targets@.len() - i,
    {
        let k = targets[i];
        let ghost before = crate::text::views(args@);
        args.push(decimal_string(k as u64));
        assert(targets@.take(i + 1).map_values(|k: i32| crate::text::decimal(k as nat))
            =~= targets@.take(i as int).map_values(|k: i32| crate::text::decimal(k as nat)).push(crate::text::decimal(k as nat)));
        assert(crate::text::views(args@) =~= before.push(crate::text::decimal(k as nat)));
        i = i + 1;
    }
    assert(targets@.take(targets@.len() as int) =~= targets@);
    args
}

/// Retrying a failed hardware command: after failed attempt `attempt`
/// (1-based) wait 2 s, then 4 s; after the third, give up.
pub open spec fn retry_delay_spec(attempt: u32) -> Option<u64> {
    if attempt == 1 { Some(2) } else if attempt == 2 { Some(4) } else { None }
}

pub fn retry_delay_secs(attempt: u32) -> (r: Option<u64>)
    ensures
        r == retry_delay_spec(attempt),
{
    if attempt == 1 {
        Some(2)
    } else if attempt == 2 {
        Some(4)
    } else {
        None
    }
}

} // verus!

verus! {

/// The operations the service performs on the machine.
pub trait HardwareBackend {
    /// Set the battery charge-control mode.
    fn set_charge_control(&mut self, mode: ChargeMode) -> ServiceResult<()>;

    /// Set the CPU frequency governor.
    fn set_cpu_governor(&mut self, governor: &CpuGovernor) -> ServiceResult<()>;

    /// Configure the EC thermal thresholds.
    fn configure_thermal(&mut self, config: &ThermalConfig) -> ServiceResult<()>;

    /// Configure CPU frequency limits.
    fn configure_cpu_frequencies(&mut self, min: Option<u32>, max: Option<u32>) -> ServiceResult<()>;

    /// Whether the AC adapter is connected.
    fn get_ac_status(&self) -> ServiceResult<bool>;

    /// Battery charge in percent.
    fn get_battery_capacity(&self) -> ServiceResult<u8>;

    /// Battery state of health and cycle count.
    fn get_battery_health(&self) -> ServiceResult<BatteryHealthInfo>;

    /// The current CPU governor's name.
    fn get_cpu_governor(&self) -> ServiceResult<String>;

    /// The thermal zones' readings.
    fn get_thermal_zones(&self) -> ServiceResult<Vec<ThermalZone>>;
}

/// A stand-in for the hardware that answers with configurable values and
/// records every change asked of it.
#[derive(Debug)]
pub struct MockBackend {
    pub ac_connected: bool,
    pub battery_capacity: u8,
    pub cpu_governor: String,
    pub thermal_zones: Vec<ThermalZone>,
    pub charge_control_calls: Vec<ChargeMode>,
    pub governor_calls: Vec<String>,
    pub thermal_config_calls: Vec<ThermalConfig>,
    pub freq_calls: Vec<(Option<u32>, Option<u32>)>,
    pub battery_health: BatteryHealthInfo,
}

impl Default for MockBackend {
    /// AC connected, 75 % charged, `performance`, no thermal zones, no calls
    /// recorded, health 85 % after 42 cycles.
    fn default() -> (r: Self)
        ensures
            r.ac_connected,
            r.battery_capacity == 75,
            r.cpu_governor@ == "performance"@,
            r.thermal_zones@.len() == 0,
            r.charge_control_calls@.len() == 0,
            r.governor_calls@.len() == 0,
            r.thermal_config_calls@.len() == 0,
            r.freq_calls@.len() == 0,
            r.battery_health == (BatteryHealthInfo { health: Some(85), cycle_count: Some(42) }),
    {
        MockBackend {
            ac_connected: true,
            battery_capacity: 75,
            cpu_governor: String::from_str("performance"),
            thermal_zones: Vec::new(),
            charge_control_calls: Vec::new(),
            governor_calls: Vec::new(),
            thermal_config_calls: Vec::new(),
            freq_calls: Vec::new(),
            battery_health: BatteryHealthInfo { health: Some(85), cycle_count: Some(42) },
        }
    }
}

impl MockBackend {
    /// The default stand-in.
    pub fn new() -> (r: Self)
        ensures
            r.ac_connected,
            r.battery_capacity == 75,
            r.cpu_governor@ == "performance"@,
            r.thermal_zones@.len() == 0,
            r.charge_control_calls@.len() == 0,
            r.governor_calls@.len() == 0,
            r.thermal_config_calls@.len() == 0,
            r.freq_calls@.len() == 0,
            r.battery_health == (BatteryHealthInfo { health: Some(85), cycle_count: Some(42) }),
    {
        Self::default()
    }
}

impl HardwareBackend for MockBackend {
    fn set_charge_control(&mut self, mode: ChargeMode) -> (r: ServiceResult<()>)
        ensures
            r is Ok,
            final(self).charge_control_calls@ == old(self).charge_control_calls@.push(mode),
            final(self).governor_calls@ == old(self).governor_calls@,
            final(self).cpu_governor@ == old(self).cpu_governor@,
    {
        self.charge_control_calls.push(mode);
        Ok(())
    }

    fn set_cpu_governor(&mut self, governor: &CpuGovernor) -> (r: ServiceResult<()>)
        ensures
            r is Ok,
            crate::text::views(final(self).governor_calls@)
                == crate::text::views(old(self).governor_calls@).push(crate::config::governor_name(governor@)),
            final(self).cpu_governor@ == crate::config::governor_name(governor@),
            final(self).charge_control_calls@ == old(self).charge_control_calls@,
    {
        let name = governor.to_string();
        let ghost before = self.governor_calls@;
        self.governor_calls.push(name.clone());
        assert(crate::text::views(self.governor_calls@) =~= crate::text::views(before).push(name@));
        self.cpu_governor = name;
        Ok(())
    }

    fn configure_thermal(&mut self, config: &ThermalConfig) -> (r: ServiceResult<()>)
        ensures
            r is Ok,
            final(self).thermal_config_calls@ == old(self).thermal_config_calls@.push(*config),
    {
        self.thermal_config_calls.push(*config);
        Ok(())
    }

    fn configure_cpu_frequencies(&mut self, min: Option<u32>, max: Option<u32>) -> (r: ServiceResult<()>)
        ensures
            r is Ok,
            final(self).freq_calls@ == old(self).freq_calls@.push((min, max)),
    {
        self.freq_calls.push((min, max));
        Ok(())
    }

    fn get_ac_status(&self) -> (r: ServiceResult<bool>)
        ensures
            r == Ok::<bool, crate::error::ServiceError>(self.ac_connected),
    {
        Ok(self.ac_connected)
    }

    fn get_battery_capacity(&self) -> (r: ServiceResult<u8>)
        ensures
            r == Ok::<u8, crate::error::ServiceError>(self.battery_capacity),
    {
        Ok(self.battery_capacity)
    }

    fn get_battery_health(&self) -> (r: ServiceResult<BatteryHealthInfo>)
        ensures
            r == Ok::<BatteryHealthInfo, crate::error::ServiceError>(self.battery_health),
    {
        Ok(self.battery_health)
    }

    fn get_cpu_governor(&self) -> (r: ServiceResult<String>)
        ensures
            r matches Ok(g) && g@ == self.cpu_governor@,
    {
        Ok(self.cpu_governor.clone())
    }

    fn get_thermal_zones(&self) -> (r: ServiceResult<Vec<ThermalZone>>)
        ensures
            r matches Ok(z) && z@.len() == self.thermal_zones@.len() && forall|k: int| 0 <= k < z@.len() ==> {
                &&& (#[trigger] z@[k]).id == self.thermal_zones@[k].id
                &&& z@[k].temperature == self.thermal_zones@[k].temperature
                &&& z@[k].trip_points@ == self.thermal_zones@[k].trip_points@
            },
    {
        let mut out: Vec<ThermalZone> = Vec::new();
        let mut i: usize = 0;
        while i < self.thermal_zones.len()
            invariant
                i <= self.thermal_zones@.len(),
                out@.len() == i,
                forall|k: int| 0 <= k < i ==> {
                    &&& (#[trigger] out@[k]).id == self.thermal_zones@[k].id
                    &&& out@[k].temperature == self.thermal_zones@[k].temperature
                    &&& out@[k].trip_points@ == self.thermal_zones@[k].trip_points@
                },
            decreases self.thermal_zones@.len() - i,
        {
            out.push(self.thermal_zones[i].clone());
            i = i + 1;
        }
        Ok(out)
    }
}

} // verus!

verus! {

/// Where the health report comes from: a known sysfs cycle count is always
/// the one reported, whichever source gives the health; a sysfs health
/// figure is reported as it is; without one, the health is the ratio of
/// ectool's "Last full charge" to its "Design capacity" (none without
/// ectool's output), and the cycle count falls back to ectool's.
pub proof fn lemma_battery_health_sources(sysfs: Option<u8>, sysfs_cycle: Option<u32>, ectool: Option<Seq<char>>)
    ensures
        ({
            let r = battery_health_spec(sysfs, sysfs_cycle, ectool);
            &&& sysfs_cycle is Some ==> r.cycle_count == sysfs_cycle
            &&& sysfs is Some ==> r.health == sysfs
            &&& sysfs is None && ectool is None ==> r.health is None && r.cycle_count == sysfs_cycle
            &&& sysfs is None ==> match ectool {
                Some(t) => r.health == match (ectool_number(t, "Last full charge"@), ectool_number(t, "Design capacity"@)) {
                    (Some(l), Some(d)) => health_percent_spec(l as u64, d as u64),
                    _ => None,
                },
                None => true,
            }
            &&& sysfs is Some && sysfs_cycle is None ==> r.cycle_count is None
        }),
{
}

} // verus!
