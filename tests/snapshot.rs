use gpu_stats::stats::{DeviceInfo, FanTemp, GpuStats, Memory, Power, Readings, Stats};

fn all_reads() -> Readings {
    Readings {
        fan_speed: Some(17),
        gpu_temp: Some(65),
        power_usage_mw: Some(123_456),
        power_limit_mw: Some(350_999),
        gpu_util: Some(42),
        enc_util: Some(3),
        dec_util: Some(7),
        memory: Some((2_147_483_648, 25_769_803_776)),
        dev_name: Some("NVIDIA GeForce RTX 3090".to_string()),
        drvr_ver: Some("550.54.14".to_string()),
        cuda_ver: Some(12040),
    }
}

fn no_reads() -> Readings {
    Readings {
        fan_speed: None,
        gpu_temp: None,
        power_usage_mw: None,
        power_limit_mw: None,
        gpu_util: None,
        enc_util: None,
        dec_util: None,
        memory: None,
        dev_name: None,
        drvr_ver: None,
        cuda_ver: None,
    }
}

#[test]
fn all_reads_succeed_give_converted_values() {
    let s = Stats::from_readings(all_reads());
    assert_eq!(s.fantemp, FanTemp { fan_speed: 17, gpu_temp: 65 });
    assert_eq!(s.power, Power { pwr_used: 123, pwr_cap: 350 });
    assert_eq!(s.gpustats, GpuStats { gpu_util: 42, enc_util: 3, dec_util: 7 });
    assert_eq!(s.memory, Memory { mem_used: 2_147_483_648, mem_total: 25_769_803_776 });
    assert_eq!(s.devinfo.dev_name, "NVIDIA GeForce RTX 3090");
    assert_eq!(s.devinfo.drvr_ver, "550.54.14");
    assert_eq!(s.devinfo.cuda_ver, 12040);
}

#[test]
fn all_reads_fail_give_fallbacks() {
    let s = Stats::from_readings(no_reads());
    assert_eq!(s.fantemp, FanTemp { fan_speed: 0, gpu_temp: 0 });
    assert_eq!(s.power, Power { pwr_used: 0, pwr_cap: 0 });
    assert_eq!(s.gpustats, GpuStats { gpu_util: 0, enc_util: 0, dec_util: 0 });
    assert_eq!(s.memory, Memory { mem_used: 0, mem_total: 0 });
    assert_eq!(s.devinfo.dev_name, "unknown");
    assert_eq!(s.devinfo.drvr_ver, "N/A");
    assert_eq!(s.devinfo.cuda_ver, 0);
}

#[test]
fn failed_fan_read_changes_only_fan_speed() {
    let full = Stats::from_readings(all_reads());
    let mut r = all_reads();
    r.fan_speed = None;
    let s = Stats::from_readings(r);
    assert_eq!(s.fantemp.fan_speed, 0);
    let mut expected = full.clone();
    expected.fantemp.fan_speed = 0;
    assert_eq!(s, expected);
}

#[test]
fn failed_name_read_changes_only_name() {
    let full = Stats::from_readings(all_reads());
    let mut r = all_reads();
    r.dev_name = None;
    let s = Stats::from_readings(r);
    let mut expected = full.clone();
    expected.devinfo.dev_name = "unknown".to_string();
    assert_eq!(s, expected);
}

#[test]
fn failed_memory_read_changes_only_memory() {
    let full = Stats::from_readings(all_reads());
    let mut r = all_reads();
    r.memory = None;
    let s = Stats::from_readings(r);
    let mut expected = full.clone();
    expected.memory = Memory { mem_used: 0, mem_total: 0 };
    assert_eq!(s, expected);
}

#[test]
fn failed_power_limit_read_changes_only_cap() {
    let full = Stats::from_readings(all_reads());
    let mut r = all_reads();
    r.power_limit_mw = None;
    let s = Stats::from_readings(r);
    let mut expected = full.clone();
    expected.power.pwr_cap = 0;
    assert_eq!(s, expected);
}

#[test]
fn power_rounds_down_to_whole_watts() {
    let mut r = no_reads();
    r.power_usage_mw = Some(999);
    r.power_limit_mw = Some(u32::MAX);
    let s = Stats::from_readings(r);
    assert_eq!(s.power.pwr_used, 0);
    assert_eq!(s.power.pwr_cap, 4_294_967);
}

#[test]
fn group_texts() {
    let s = Stats::from_readings(all_reads());
    assert_eq!(s.gpustats.to_string(), "gpu_util: 42, enc_util: 3, dec_util: 7");
    assert_eq!(s.fantemp.to_string(), "fan_speed: 17, gpu_temp: 65");
    assert_eq!(s.power.to_string(), "pwr_used: 123, pwr_cap: 350");
    assert_eq!(s.memory.to_string(), "mem_used: 2, mem_total: 24");
    assert_eq!(
        s.devinfo.to_string(),
        "drvr_ver: 550.54.14, cuda_ver: 12.04, dev_name: NVIDIA GeForce RTX 3090"
    );
}

#[test]
fn memory_text_in_shortest_form() {
    let m = Memory { mem_used: 1_610_612_736, mem_total: 8_589_934_592 };
    assert_eq!(m.to_string(), "mem_used: 1.5, mem_total: 8");
    let z = Memory { mem_used: 0, mem_total: 0 };
    assert_eq!(z.to_string(), "mem_used: 0, mem_total: 0");
}

#[test]
fn device_info_text_of_fallbacks() {
    let d = DeviceInfo { drvr_ver: "N/A".to_string(), cuda_ver: 0, dev_name: "unknown".to_string() };
    assert_eq!(d.to_string(), "drvr_ver: N/A, cuda_ver: 0, dev_name: unknown");
}
