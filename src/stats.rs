//! The telemetry snapshot and how raw device reads become one.
use crate::text::{cuda_string, cuda_text, decimal, decimal_text, gb_short_string, gb_short_text};
use vstd::prelude::*;
use vstd::string::*;

verus! {

/// Core, encoder and decoder utilization, in percent.
#[derive(Clone, Copy, Debug, PartialEq, Eq)]
pub struct GpuStats {
    pub gpu_util: u32,
    pub enc_util: u32,
    pub dec_util: u32,
}

/// Fan speed in percent and core temperature in degrees Celsius.
#[derive(Clone, Copy, Debug, PartialEq, Eq)]
pub struct FanTemp {
    pub fan_speed: u32,
    pub gpu_temp: u32,
}

/// Power draw and default power limit, in watts.
#[derive(Clone, Copy, Debug, PartialEq, Eq)]
pub struct Power {
    pub pwr_used: u32,
    pub pwr_cap: u32,
}

/// Framebuffer memory in use and installed, in bytes.
#[derive(Clone, Copy, Debug, PartialEq, Eq)]
pub struct Memory {
    pub mem_used: u64,
    pub mem_total: u64,
}

/// Driver version, CUDA version code (`1000 * major + 10 * minor`) and device name.
#[derive(Clone, Debug, PartialEq)]
pub struct DeviceInfo {
    pub drvr_ver: String,
    pub cuda_ver: i32,
    pub dev_name: String,
}

/// One capture of a device's telemetry.
#[derive(Clone, Debug, PartialEq)]
pub struct Stats {
    pub devinfo: DeviceInfo,
    pub memory: Memory,
    pub gpustats: GpuStats,
    pub fantemp: FanTemp,
    pub power: Power,
}

/// The raw result of each device query of one tick; `None` where the query failed.
#[derive(Clone, Debug, PartialEq)]
pub struct Readings {
    /// Speed of fan 0, in percent.
    pub fan_speed: Option<u32>,
    /// Core temperature, in degrees Celsius.
    pub gpu_temp: Option<u32>,
    /// Power draw, in milliwatts.
    pub power_usage_mw: Option<u32>,
    /// Default power management limit, in milliwatts.
    pub power_limit_mw: Option<u32>,
    pub gpu_util: Option<u32>,
    pub enc_util: Option<u32>,
    pub dec_util: Option<u32>,
    /// Memory in use and installed, in bytes, from one query.
    pub memory: Option<(u64, u64)>,
    pub dev_name: Option<String>,
    pub drvr_ver: Option<String>,
    /// CUDA driver version code.
    pub cuda_ver: Option<i32>,
}

/// The name that stands for a device whose name cannot be read.
pub open spec fn unknown_name() -> Seq<char> {
    seq!['u', 'n', 'k', 'n', 'o', 'w', 'n']
}

/// The version that stands for a driver version that cannot be read.
pub open spec fn unknown_version() -> Seq<char> {
    seq!['N', '/', 'A']
}

/// A numeric read, or 0 where it failed.
pub open spec fn or_zero<T>(o: Option<T>, zero: T) -> T {
    match o {
        Some(v) => v,
        None => zero,
    }
}

/// A milliwatt read in whole watts, or 0 where it failed.
pub open spec fn watts(o: Option<u32>) -> u32 {
    (or_zero(o, 0u32) / 1000) as u32
}

/// A text read, or `fallback` where it failed.
pub open spec fn text_or(o: Option<String>, fallback: Seq<char>) -> Seq<char> {
    match o {
        Some(s) => s@,
        None => fallback,
    }
}

impl Readings {
    /// `s` is the snapshot of these reads: each field is its own read after unit
    /// conversion, or that field's fallback where the read failed.
    pub open spec fn yields(&self, s: &Stats) -> bool {
        &&& s.fantemp.fan_speed == or_zero(self.fan_speed, 0u32)
        &&& s.fantemp.gpu_temp == or_zero(self.gpu_temp, 0u32)
        &&& s.power.pwr_used == watts(self.power_usage_mw)
        &&& s.power.pwr_cap == watts(self.power_limit_mw)
        &&& s.gpustats.gpu_util == or_zero(self.gpu_util, 0u32)
        &&& s.gpustats.enc_util == or_zero(self.enc_util, 0u32)
        &&& s.gpustats.dec_util == or_zero(self.dec_util, 0u32)
        &&& s.memory.mem_used == or_zero(self.memory, (0u64, 0u64)).0
        &&& s.memory.mem_total == or_zero(self.memory, (0u64, 0u64)).1
        &&& s.devinfo.dev_name@ == text_or(self.dev_name, unknown_name())
        &&& s.devinfo.drvr_ver@ == text_or(self.drvr_ver, unknown_version())
        &&& s.devinfo.cuda_ver == or_zero(self.cuda_ver, 0i32)
    }
}

fn u32_or_zero(o: Option<u32>) -> (r: u32)
    ensures
        r == or_zero(o, 0u32),
{
    match o {
        Some(v) => v,
        None => 0,
    }
}

fn text_or_else(o: Option<String>, fallback: &str) -> (r: String)
    ensures
        r@ == text_or(o, fallback@),
{
    match o {
        Some(s) => s,
        None => String::from_str(fallback),
    }
}

impl Stats {
    /// The snapshot of one tick's reads. Never fails: a failed read gives its
    /// field's fallback (0, `"unknown"` for the name, `"N/A"` for the driver
    /// version) and leaves every other field as its own read makes it.
    pub fn from_readings(r: Readings) -> (s: Stats)
        ensures
            r.yields(&s),
            r.fan_speed is Some ==> s.fantemp.fan_speed == r.fan_speed->Some_0,
            r.gpu_temp is Some ==> s.fantemp.gpu_temp == r.gpu_temp->Some_0,
            r.power_usage_mw is Some ==> s.power.pwr_used == r.power_usage_mw->Some_0 / 1000,
            r.power_limit_mw is Some ==> s.power.pwr_cap == r.power_limit_mw->Some_0 / 1000,
            r.gpu_util is Some ==> s.gpustats.gpu_util == r.gpu_util->Some_0,
            r.enc_util is Some ==> s.gpustats.enc_util == r.enc_util->Some_0,
            r.dec_util is Some ==> s.gpustats.dec_util == r.dec_util->Some_0,
            r.memory is Some ==> s.memory.mem_used == r.memory->Some_0.0
                && s.memory.mem_total == r.memory->Some_0.1,
            r.dev_name is Some ==> s.devinfo.dev_name@ == r.dev_name->Some_0@,
            r.drvr_ver is Some ==> s.devinfo.drvr_ver@ == r.drvr_ver->Some_0@,
            r.cuda_ver is Some ==> s.devinfo.cuda_ver == r.cuda_ver->Some_0,
            r.fan_speed is None ==> s.fantemp.fan_speed == 0,
            r.gpu_temp is None ==> s.fantemp.gpu_temp == 0,
            r.power_usage_mw is None ==> s.power.pwr_used == 0,
            r.power_limit_mw is None ==> s.power.pwr_cap == 0,
            r.gpu_util is None ==> s.gpustats.gpu_util == 0,
            r.enc_util is None ==> s.gpustats.enc_util == 0,
            r.dec_util is None ==> s.gpustats.dec_util == 0,
            r.memory is None ==> s.memory.mem_used == 0 && s.memory.mem_total == 0,
            r.dev_name is None ==> s.devinfo.dev_name@ == unknown_name(),
            r.drvr_ver is None ==> s.devinfo.drvr_ver@ == unknown_version(),
            r.cuda_ver is None ==> s.devinfo.cuda_ver == 0,
    {
        let fantemp = FanTemp {
            fan_speed: u32_or_zero(r.fan_speed),
            gpu_temp: u32_or_zero(r.gpu_temp),
        };
        let power = Power {
            pwr_used: u32_or_zero(r.power_usage_mw) / 1000,
            pwr_cap: u32_or_zero(r.power_limit_mw) / 1000,
        };
        let gpustats = GpuStats {
            gpu_util: u32_or_zero(r.gpu_util),
            enc_util: u32_or_zero(r.enc_util),
            dec_util: u32_or_zero(r.dec_util),
        };
        let memory = match r.memory {
            Some(m) => Memory { mem_used: m.0, mem_total: m.1 },
            None => Memory { mem_used: 0, mem_total: 0 },
        };
        proof {
            reveal_strlit("unknown");
            reveal_strlit("N/A");
        }
        let devinfo = DeviceInfo {
            drvr_ver: text_or_else(r.drvr_ver, "N/A"),
            cuda_ver: match r.cuda_ver {
                Some(v) => v,
                None => 0,
            },
            dev_name: text_or_else(r.dev_name, "unknown"),
        };
        assert("unknown"@ =~= unknown_name());
        assert("N/A"@ =~= unknown_version());
        Stats { devinfo, memory, gpustats, fantemp, power }
    }
}

/// A failed read changes only its own field: two sets of reads that agree on a
/// query give snapshots that agree on that query's field, and a failed query
/// gives its field's fallback whatever the other reads were.
pub proof fn lemma_read_failure_is_local(r1: Readings, s1: Stats, r2: Readings, s2: Stats)
    requires
        r1.yields(&s1),
        r2.yields(&s2),
    ensures
        r1.fan_speed == r2.fan_speed ==> s1.fantemp.fan_speed == s2.fantemp.fan_speed,
        r1.gpu_temp == r2.gpu_temp ==> s1.fantemp.gpu_temp == s2.fantemp.gpu_temp,
        r1.power_usage_mw == r2.power_usage_mw ==> s1.power.pwr_used == s2.power.pwr_used,
        r1.power_limit_mw == r2.power_limit_mw ==> s1.power.pwr_cap == s2.power.pwr_cap,
        r1.gpu_util == r2.gpu_util ==> s1.gpustats.gpu_util == s2.gpustats.gpu_util,
        r1.enc_util == r2.enc_util ==> s1.gpustats.enc_util == s2.gpustats.enc_util,
        r1.dec_util == r2.dec_util ==> s1.gpustats.dec_util == s2.gpustats.dec_util,
        r1.memory == r2.memory ==> s1.memory == s2.memory,
        r1.dev_name == r2.dev_name ==> s1.devinfo.dev_name@ == s2.devinfo.dev_name@,
        r1.drvr_ver == r2.drvr_ver ==> s1.devinfo.drvr_ver@ == s2.devinfo.drvr_ver@,
        r1.cuda_ver == r2.cuda_ver ==> s1.devinfo.cuda_ver == s2.devinfo.cuda_ver,
        r2.fan_speed is None ==> s2.fantemp.fan_speed == 0,
        r2.gpu_temp is None ==> s2.fantemp.gpu_temp == 0,
        r2.power_usage_mw is None ==> s2.power.pwr_used == 0,
        r2.power_limit_mw is None ==> s2.power.pwr_cap == 0,
        r2.gpu_util is None ==> s2.gpustats.gpu_util == 0,
        r2.enc_util is None ==> s2.gpustats.enc_util == 0,
        r2.dec_util is None ==> s2.gpustats.dec_util == 0,
        r2.memory is None ==> s2.memory.mem_used == 0 && s2.memory.mem_total == 0,
        r2.dev_name is None ==> s2.devinfo.dev_name@ == unknown_name(),
        r2.drvr_ver is None ==> s2.devinfo.drvr_ver@ == unknown_version(),
        r2.cuda_ver is None ==> s2.devinfo.cuda_ver == 0,
{
}

fn push_decimal(out: &mut String, n: u32)
    ensures
        final(out)@ == old(out)@ + decimal(n as nat),
{
    let t = decimal_text(n as u64);
    out.append(t.as_str());
}

fn push_gb(out: &mut String, bytes: u64)
    ensures
        final(out)@ == old(out)@ + gb_short_text(bytes as nat),
{
    let t = gb_short_string(bytes);
    out.append(t.as_str());
}

impl GpuStats {
    pub open spec fn text(self) -> Seq<char> {
        "gpu_util: "@ + decimal(self.gpu_util as nat) + ", enc_util: "@ + decimal(self.enc_util as nat)
            + ", dec_util: "@ + decimal(self.dec_util as nat)
    }

    /// `gpu_util: G, enc_util: E, dec_util: D`.
    pub fn to_string(&self) -> (r: String)
        ensures
            r@ == self.text(),
    {
        let mut out = String::from_str("gpu_util: ");
        push_decimal(&mut out, self.gpu_util);
        out.append(", enc_util: ");
        push_decimal(&mut out, self.enc_util);
        out.append(", dec_util: ");
        push_decimal(&mut out, self.dec_util);
        out
    }
}

impl FanTemp {
    pub open spec fn text(self) -> Seq<char> {
        "fan_speed: "@ + decimal(self.fan_speed as nat) + ", gpu_temp: "@ + decimal(self.gpu_temp as nat)
    }

    /// `fan_speed: F, gpu_temp: T`.
    pub fn to_string(&self) -> (r: String)
        ensures
            r@ == self.text(),
    {
        let mut out = String::from_str("fan_speed: ");
        push_decimal(&mut out, self.fan_speed);
        out.append(", gpu_temp: ");
        push_decimal(&mut out, self.gpu_temp);
        out
    }
}

impl Power {
    pub open spec fn text(self) -> Seq<char> {
        "pwr_used: "@ + decimal(self.pwr_used as nat) + ", pwr_cap: "@ + decimal(self.pwr_cap as nat)
    }

    /// `pwr_used: U, pwr_cap: C`, in watts.
    pub fn to_string(&self) -> (r: String)
        ensures
            r@ == self.text(),
    {
        let mut out = String::from_str("pwr_used: ");
        push_decimal(&mut out, self.pwr_used);
        out.append(", pwr_cap: ");
        push_decimal(&mut out, self.pwr_cap);
        out
    }
}

impl Memory {
    pub open spec fn text(self) -> Seq<char> {
        "mem_used: "@ + gb_short_text(self.mem_used as nat) + ", mem_total: "@
            + gb_short_text(self.mem_total as nat)
    }

    /// `mem_used: U, mem_total: T`, in gigabytes rounded to hundredths, shortest form.
    pub fn to_string(&self) -> (r: String)
        ensures
            r@ == self.text(),
    {
        let mut out = String::from_str("mem_used: ");
        push_gb(&mut out, self.mem_used);
        out.append(", mem_total: ");
        push_gb(&mut out, self.mem_total);
        out
    }
}

impl DeviceInfo {
    pub open spec fn text(self) -> Seq<char> {
        "drvr_ver: "@ + self.drvr_ver@ + ", cuda_ver: "@ + cuda_text(self.cuda_ver as int)
            + ", dev_name: "@ + self.dev_name@
    }

    /// `drvr_ver: D, cuda_ver: V, dev_name: N`, with the CUDA code divided by 1000.
    pub fn to_string(&self) -> (r: String)
        ensures
            r@ == self.text(),
    {
        let mut out = String::from_str("drvr_ver: ");
        out.append(self.drvr_ver.as_str());
        out.append(", cuda_ver: ");
        let c = cuda_string(self.cuda_ver);
        out.append(c.as_str());
        out.append(", dev_name: ");
        out.append(self.dev_name.as_str());
        out
    }
}

} // verus!
