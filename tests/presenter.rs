use gpu_stats::render::{multiliner, oneliner, render, render_tick, table_cells, tabular, Mode};
use gpu_stats::stats::{DeviceInfo, FanTemp, GpuStats, Memory, Power, Stats};

fn sample() -> Stats {
    Stats {
        devinfo: DeviceInfo {
            drvr_ver: "550.54.14".to_string(),
            cuda_ver: 12040,
            dev_name: "NVIDIA GeForce RTX 3090".to_string(),
        },
        memory: Memory { mem_used: 2_147_483_648, mem_total: 25_769_803_776 },
        gpustats: GpuStats { gpu_util: 42, enc_util: 0, dec_util: 0 },
        fantemp: FanTemp { fan_speed: 30, gpu_temp: 65 },
        power: Power { pwr_used: 123, pwr_cap: 350 },
    }
}

const PLAIN_REPORT: &str = "GPU: NVIDIA GeForce RTX 3090\r\n\
Driver Ver: 550.54.14 CUDA Ver: 12.0\r\n\
Fan Speed:  30\r\n\
GPU Temp: 65c\r\n\
Power Usageg: Used:123, Max:350\r\n\
Memory Usage: Used:2.00, Max:24.00\r\n\
GPU Usage: 42% Encoder: 0% Decoder: 0%\r\n";

#[test]
fn plain_report() {
    assert_eq!(multiliner(&sample(), false, None), PLAIN_REPORT);
}

#[test]
fn report_with_timestamp_line() {
    let r = multiliner(&sample(), false, Some("2024-05-01 12:00:00".to_string()));
    assert_eq!(r, format!("2024-05-01 12:00:00\r\n{}", PLAIN_REPORT));
}

#[test]
fn colored_report_lines() {
    let r = multiliner(&sample(), true, Some("T".to_string()));
    let lines: Vec<&str> = r.lines().collect();
    assert_eq!(lines.len(), 8);
    assert_eq!(lines[0], "\x1b[33mT\x1b[39m");
    assert_eq!(lines[1], "\x1b[31mGPU:\x1b[39m \x1b[36mNVIDIA GeForce RTX 3090\x1b[39m");
    assert_eq!(lines[3], "\x1b[31mFan Speed: \x1b[39m \x1b[36m30\x1b[39m");
    assert_eq!(lines[4], "\x1b[31mGPU Temp:\x1b[39m \x1b[36m65\x1b[39m\x1b[33mc\x1b[39m");
    assert!(r.ends_with("\x1b[39m%\r\n"));
    assert_eq!(r.matches("\r\n").count(), 8);
}

#[test]
fn fallback_snapshot_renders() {
    let s = Stats {
        devinfo: DeviceInfo { drvr_ver: "N/A".to_string(), cuda_ver: 0, dev_name: "unknown".to_string() },
        memory: Memory { mem_used: 0, mem_total: 0 },
        gpustats: GpuStats { gpu_util: 0, enc_util: 0, dec_util: 0 },
        fantemp: FanTemp { fan_speed: 0, gpu_temp: 0 },
        power: Power { pwr_used: 0, pwr_cap: 0 },
    };
    let r = multiliner(&s, false, None);
    assert_eq!(
        r,
        "GPU: unknown\r\nDriver Ver: N/A CUDA Ver: 0.0\r\nFan Speed:  0\r\nGPU Temp: 0c\r\n\
Power Usageg: Used:0, Max:0\r\nMemory Usage: Used:0.00, Max:0.00\r\n\
GPU Usage: 0% Encoder: 0% Decoder: 0%\r\n"
    );
    assert!(!tabular(&s, true).is_empty());
    let rows = table_cells(&s, false);
    assert_eq!(rows[1], vec!["N/A", "0", "unknown"]);
    for i in [3, 5, 7, 9] {
        assert!(rows[i].iter().all(|c| c == "0"));
    }
}

#[test]
fn oneline_in_utilization_temperature_fan_order() {
    let r = oneliner(&sample(), false);
    assert_eq!(r, "GPU 42% | Temp 65c | Fan 30%\n");
    let u = r.find("42").unwrap();
    let t = r.find("65").unwrap();
    let f = r.find("30").unwrap();
    assert!(u < t && t < f);
    let c = oneliner(&sample(), true);
    let u = c.find("42").unwrap();
    let t = c.find("65").unwrap();
    let f = c.find("30").unwrap();
    assert!(u < t && t < f);
}

#[test]
fn table_cells_plain() {
    let rows = table_cells(&sample(), false);
    assert_eq!(rows.len(), 10);
    assert_eq!(rows[0], vec!["Driver Ver", "Cuda Ver", "Device Name"]);
    assert_eq!(rows[1], vec!["550.54.14", "12.04", "NVIDIA GeForce RTX 3090"]);
    assert_eq!(rows[2], vec!["Memory Used", "Memory Total"]);
    assert_eq!(rows[3], vec!["2", "24"]);
    assert_eq!(rows[4], vec!["GPU Util", "Enc Util", "Dec Util"]);
    assert_eq!(rows[5], vec!["42", "0", "0"]);
    assert_eq!(rows[6], vec!["Fan Speed", "GPU Temp"]);
    assert_eq!(rows[7], vec!["30", "65"]);
    assert_eq!(rows[8], vec!["PWR Used", "PWR Max"]);
    assert_eq!(rows[9], vec!["123", "350"]);
}

#[test]
fn table_cells_colored() {
    let rows = table_cells(&sample(), true);
    assert_eq!(rows[8][1], "\x1b[1m\x1b[92mPWR Max\x1b[39m\x1b[0m");
    assert_eq!(rows[9][0], "\x1b[96m123\x1b[39m");
}

#[test]
fn plain_table_drawing() {
    let t = tabular(&sample(), false);
    assert!(t.starts_with("╭"));
    assert!(t.contains("Device Name"));
    assert!(t.contains("NVIDIA GeForce RTX 3090"));
    assert!(t.contains("PWR Max"));
    assert!(t.contains("350"));
    let lines: Vec<&str> = t.lines().collect();
    let width = lines[0].chars().count();
    assert!(lines.iter().all(|l| l.chars().count() == width));
}

#[test]
fn colored_table_keeps_its_layout() {
    let t = tabular(&sample(), true);
    assert!(t.contains("\x1b[96m350\x1b[39m"));
    assert_eq!(t.lines().count(), tabular(&sample(), false).lines().count());
}

#[test]
fn render_dispatches_on_mode() {
    let s = sample();
    assert_eq!(render(&s, Mode::Multiline, false, None), PLAIN_REPORT);
    assert_eq!(render(&s, Mode::Oneline, false, None), oneliner(&s, false));
    assert_eq!(render(&s, Mode::Table, true, None), tabular(&s, true));
    assert_eq!(render(&s, Mode::Oneline, true, Some("x".to_string())), oneliner(&s, true));
}

#[test]
fn render_is_repeatable() {
    let s = sample();
    for mode in [Mode::Multiline, Mode::Oneline, Mode::Table] {
        for c in [false, true] {
            assert_eq!(render(&s, mode, c, None), render(&s.clone(), mode, c, None));
        }
    }
}

#[test]
fn tick_without_loop_has_no_timestamp() {
    let s = sample();
    assert_eq!(render_tick(&s, Mode::Multiline, false, false), PLAIN_REPORT);
    assert_eq!(render_tick(&s, Mode::Table, false, true), tabular(&s, false));
}

#[test]
fn looping_tick_adds_one_timestamp_line() {
    let s = sample();
    let r = render_tick(&s, Mode::Multiline, false, true);
    let (first, rest) = r.split_once("\r\n").unwrap();
    assert_eq!(first.len(), 19);
    assert_eq!(&first[4..5], "-");
    assert_eq!(&first[13..14], ":");
    assert_eq!(rest, PLAIN_REPORT);
}
