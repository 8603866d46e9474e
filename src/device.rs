//! Reading one tick's telemetry from an NVML device.
use crate::stats::{Readings, Stats};
use nvml_wrapper::enum_wrappers::device::TemperatureSensor;
use nvml_wrapper::{Device, Nvml};
use vstd::prelude::*;

verus! {

#[verifier::external_type_specification]
#[verifier::external_body]
pub struct ExNvml(Nvml);

#[verifier::external_type_specification]
#[verifier::external_body]
pub struct ExDevice<'nvml>(Device<'nvml>);

/// Relies on nvml_wrapper's `Device::nvml`: the library handle the device was opened from.
#[verifier::external_body]
fn owning_nvml<'nvml>(device: &Device<'nvml>) -> (r: &'nvml Nvml) {
    device.nvml()
}

/// Relies on nvml_wrapper's `Device::fan_speed`: the speed of fan `fan` in percent,
/// `None` where the query fails.
#[verifier::external_body]
fn read_fan_speed(device: &Device, fan: u32) -> (r: Option<u32>) {
    device.fan_speed(fan).ok()
}

/// Relies on nvml_wrapper's `Device::temperature` on the core sensor, in degrees
/// Celsius, `None` where the query fails.
#[verifier::external_body]
fn read_gpu_temperature(device: &Device) -> (r: Option<u32>) {
    device.temperature(TemperatureSensor::Gpu).ok()
}

/// Relies on nvml_wrapper's `Device::power_usage`: the power draw in milliwatts,
/// `None` where the query fails.
#[verifier::external_body]
fn read_power_usage(device: &Device) -> (r: Option<u32>) {
    device.power_usage().ok()
}

/// Relies on nvml_wrapper's `Device::power_management_limit_default`: the default
/// power limit in milliwatts, `None` where the query fails.
#[verifier::external_body]
fn read_power_limit_default(device: &Device) -> (r: Option<u32>) {
    device.power_management_limit_default().ok()
}

/// Relies on nvml_wrapper's `Device::utilization_rates`: its `gpu` field, the core
/// busy percentage, `None` where the query fails.
#[verifier::external_body]
fn read_gpu_utilization(device: &Device) -> (r: Option<u32>) {
    device.utilization_rates().ok().map(|u| u.gpu)
}

/// Relies on nvml_wrapper's `Device::encoder_utilization`: its `utilization` field,
/// `None` where the query fails.
#[verifier::external_body]
fn read_encoder_utilization(device: &Device) -> (r: Option<u32>) {
    device.encoder_utilization().ok().map(|u| u.utilization)
}

/// Relies on nvml_wrapper's `Device::decoder_utilization`: its `utilization` field,
/// `None` where the query fails.
#[verifier::external_body]
fn read_decoder_utilization(device: &Device) -> (r: Option<u32>) {
    device.decoder_utilization().ok().map(|u| u.utilization)
}

/// Relies on nvml_wrapper's `Device::memory_info`: its `used` and `total` fields in
/// bytes, `None` where the query fails.
#[verifier::external_body]
fn read_memory_info(device: &Device) -> (r: Option<(u64, u64)>) {
    device.memory_info().ok().map(|m| (m.used, m.total))
}

/// Relies on nvml_wrapper's `Device::name`: the product name, `None` where the query fails.
#[verifier::external_body]
fn read_name(device: &Device) -> (r: Option<String>) {
    device.name().ok()
}

/// Relies on nvml_wrapper's `Nvml::sys_driver_version`: the driver version text,
/// `None` where the query fails.
#[verifier::external_body]
fn read_driver_version(nvml: &Nvml) -> (r: Option<String>) {
    nvml.sys_driver_version().ok()
}

/// Relies on nvml_wrapper's `Nvml::sys_cuda_driver_version`: the CUDA driver version
/// code, `None` where the query fails.
#[verifier::external_body]
fn read_cuda_driver_version(nvml: &Nvml) -> (r: Option<i32>) {
    nvml.sys_cuda_driver_version().ok()
}

/// Queries `device` once for each field of a snapshot; no query is retried.
pub fn read_device(device: &Device) -> (r: Readings) {
    let nvml = owning_nvml(device);
    Readings {
        fan_speed: read_fan_speed(device, 0),
        gpu_temp: read_gpu_temperature(device),
        power_usage_mw: read_power_usage(device),
        power_limit_mw: read_power_limit_default(device),
        gpu_util: read_gpu_utilization(device),
        enc_util: read_encoder_utilization(device),
        dec_util: read_decoder_utilization(device),
        memory: read_memory_info(device),
        dev_name: read_name(device),
        drvr_ver: read_driver_version(nvml),
        cuda_ver: read_cuda_driver_version(nvml),
    }
}

impl Stats {
    /// A snapshot of `device` now. Never fails: whatever the queries return, the
    /// snapshot is the one that `from_readings` makes of some set of reads.
    pub fn new(device: &Device) -> (s: Stats)
        ensures
            exists|r: Readings| #[trigger] r.yields(&s),
            s.power.pwr_used <= 4294967,
            s.power.pwr_cap <= 4294967,
    {
        let r = read_device(device);
        let ghost g = r;
        let s = Stats::from_readings(r);
        assert(g.yields(&s));
        s
    }
}

} // verus!
