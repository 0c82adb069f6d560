use tempcheck::collector::{CollectorError, SensorSources, SysfsCollector, ZoneReading};
use tempcheck::gpu::{gpu_line, nvidia_readings, NVIDIA_SMI, NVIDIA_SMI_FORMAT, NVIDIA_SMI_QUERY};

fn names(v: &[&str]) -> Vec<String> {
    v.iter().map(|s| s.to_string()).collect()
}

#[test]
fn sysfs_collector_reads_zones() {
    let root = "/tmp/thermal";
    let collector = SysfsCollector::with_root(root);
    let zones = collector
        .sensor_sources(true, &names(&["thermal_zone1", "thermal_zone0"]), false, &Vec::new())
        .unwrap()
        .zones;
    let files = [("cpu", "42000"), ("gpu", "55000")];
    let readings: Vec<ZoneReading> = zones
        .iter()
        .zip(files.iter())
        .map(|(z, (t, c))| {
            SysfsCollector::zone_reading(z, t, c, &format!("{root}/{z}/temp")).unwrap()
        })
        .collect();

    assert_eq!(readings.len(), 2);
    assert_eq!(readings[0].sensor_name, "thermal_zone0:cpu");
    assert!((readings[0].milli_c as f64 / 1000.0 - 42.0).abs() < f64::EPSILON);
    assert_eq!(readings[1].sensor_name, "thermal_zone1:gpu");
    assert!((readings[1].milli_c as f64 / 1000.0 - 55.0).abs() < f64::EPSILON);
}

#[test]
fn sysfs_collector_errors_on_missing_root() {
    let collector = SysfsCollector::with_root("/nonexistent/thermal/path");
    let err = collector.sensor_sources(false, &Vec::new(), false, &Vec::new()).unwrap_err();
    assert_eq!(
        err,
        CollectorError::SysfsMissing("/nonexistent/thermal/path".to_string())
    );
}

#[test]
fn sysfs_collector_errors_on_invalid_temp() {
    let err = SysfsCollector::zone_reading(
        "thermal_zone0",
        "cpu",
        "not-a-number",
        "/tmp/thermal/thermal_zone0/temp",
    )
    .unwrap_err();
    assert!(matches!(err, CollectorError::InvalidReading { .. }));
    assert_eq!(
        err,
        CollectorError::InvalidReading {
            path: "/tmp/thermal/thermal_zone0/temp".to_string(),
            value: "not-a-number".to_string(),
        }
    );
}

#[test]
fn zone_names_keep_only_thermal_zones_in_order() {
    let collector = SysfsCollector::new();
    assert_eq!(collector.thermal_root(), "/sys/class/thermal");
    let zones = SysfsCollector::zone_names(&names(&[
                "cooling_device0",
                "thermal_zone10",
                "thermal_zone2",
                "thermal_zone1",
                "thermal_zone",
                "Thermal_zone3",
            ]));
    assert_eq!(
        zones,
        names(&["thermal_zone", "thermal_zone1", "thermal_zone10", "thermal_zone2"])
    );
}

#[test]
fn zone_names_of_empty_directory() {
    let collector = SysfsCollector::default();
    assert_eq!(collector.thermal_root(), "");
    assert_eq!(collector.hwmon_root(), None);
    assert!(!collector.reads_nvidia());
    assert!(SysfsCollector::zone_names(&Vec::new()).is_empty());
    let err = collector.sensor_sources(false, &Vec::new(), true, &names(&["hwmon0"])).unwrap_err();
    assert_eq!(err, CollectorError::SysfsMissing(String::new()));
}

#[test]
fn zone_reading_trims_and_accepts_signed_values() {
    let r = SysfsCollector::zone_reading("thermal_zone3", " x86_pkg_temp\n", "-1500\n", "p").unwrap();
    assert_eq!(r.sensor_name, "thermal_zone3:x86_pkg_temp");
    assert_eq!(r.milli_c, -1500);
    let r = SysfsCollector::zone_reading("z", "t", "+7", "p").unwrap();
    assert_eq!(r.milli_c, 7);
}

#[test]
fn zone_reading_refuses_empty_and_overflowing_values() {
    let err = SysfsCollector::zone_reading("z", "t", " \n", "p").unwrap_err();
    assert_eq!(
        err,
        CollectorError::InvalidReading { path: "p".to_string(), value: "".to_string() }
    );
    let err = SysfsCollector::zone_reading("z", "t", "9223372036854775808", "p").unwrap_err();
    assert!(matches!(err, CollectorError::InvalidReading { .. }));
    let r = SysfsCollector::zone_reading("z", "t", "-9223372036854775808", "p").unwrap();
    assert_eq!(r.milli_c, i64::MIN);
}

#[test]
fn collector_error_messages() {
    assert_eq!(
        CollectorError::SysfsMissing("/x".to_string()).message(),
        "thermal sysfs path not found: /x"
    );
    assert_eq!(
        CollectorError::Io("denied".to_string()).message(),
        "failed to read thermal data: denied"
    );
    assert_eq!(
        CollectorError::InvalidReading { path: "/t".to_string(), value: "v".to_string() }.message(),
        "invalid thermal reading in /t: v"
    );
}

#[test]
fn default_collector_reads_thermal_hwmon_and_gpus() {
    let collector = SysfsCollector::new();
    assert_eq!(collector.thermal_root(), "/sys/class/thermal");
    assert_eq!(collector.hwmon_root(), Some("/sys/class/hwmon"));
    assert!(collector.reads_nvidia());
    let custom = SysfsCollector::with_roots("/t", "/h", false);
    assert_eq!(custom.thermal_root(), "/t");
    assert_eq!(custom.hwmon_root(), Some("/h"));
    assert!(!custom.reads_nvidia());
}

#[test]
fn hwmon_only_host_is_not_missing() {
    let collector = SysfsCollector::new();
    let sources = collector
        .sensor_sources(false, &Vec::new(), true, &names(&["hwmon1", "hwmon0"]))
        .unwrap();
    assert_eq!(
        sources,
        SensorSources { zones: Vec::new(), hwmon_devices: names(&["hwmon0", "hwmon1"]) }
    );
}

#[test]
fn both_sources_are_listed() {
    let collector = SysfsCollector::with_roots("/t", "/h", true);
    let sources = collector
        .sensor_sources(
            true,
            &names(&["thermal_zone1", "cooling_device0", "thermal_zone0"]),
            true,
            &names(&["hwmon2"]),
        )
        .unwrap();
    assert_eq!(sources.zones, names(&["thermal_zone0", "thermal_zone1"]));
    assert_eq!(sources.hwmon_devices, names(&["hwmon2"]));
}

#[test]
fn neither_source_is_missing() {
    let collector = SysfsCollector::new();
    let err = collector.sensor_sources(false, &Vec::new(), false, &Vec::new()).unwrap_err();
    assert_eq!(err, CollectorError::SysfsMissing("/sys/class/thermal".to_string()));
    assert_eq!(err.message(), "thermal sysfs path not found: /sys/class/thermal");
}

#[test]
fn thermal_only_collector_ignores_hwmon_directory() {
    let collector = SysfsCollector::with_root("/t");
    let sources = collector
        .sensor_sources(true, &names(&["thermal_zone0"]), true, &names(&["hwmon0"]))
        .unwrap();
    assert_eq!(sources.zones, names(&["thermal_zone0"]));
    assert!(sources.hwmon_devices.is_empty());
}

#[test]
fn hwmon_inputs_are_temp_input_files_in_order() {
    let inputs = SysfsCollector::hwmon_input_names(&names(&[
        "name",
        "temp2_input",
        "temp1_label",
        "temp1_input",
        "fan1_input",
        "temp_input",
        "temp3_max",
    ]));
    assert_eq!(inputs, names(&["temp1_input", "temp2_input", "temp_input"]));
}

#[test]
fn hwmon_reading_names_device_and_label() {
    let r = SysfsCollector::hwmon_reading("hwmon0", "temp1_input", Some("48500\n")).unwrap();
    assert_eq!(r, ZoneReading { sensor_name: "hwmon0:temp1".to_string(), milli_c: 48500 });
    assert_eq!(SysfsCollector::hwmon_reading("hwmon0", "temp2_input", Some("N/A")), None);
    assert_eq!(SysfsCollector::hwmon_reading("hwmon0", "temp3_input", None), None);
    let r = SysfsCollector::hwmon_reading("hwmon1", "temp_odd", Some(" -250 ")).unwrap();
    assert_eq!(r, ZoneReading { sensor_name: "hwmon1:temp_odd".to_string(), milli_c: -250 });
}

#[test]
fn nvidia_smi_invocation() {
    assert_eq!(NVIDIA_SMI, "nvidia-smi");
    assert_eq!(NVIDIA_SMI_QUERY, "--query-gpu=index,name,temperature.gpu");
    assert_eq!(NVIDIA_SMI_FORMAT, "--format=csv,noheader,nounits");
}

#[test]
fn nvidia_readings_parse_each_gpu() {
    let out = "0, NVIDIA GeForce RTX 3080, 45\n1, A, B, 50\n\n";
    let readings = nvidia_readings(out);
    assert_eq!(
        readings,
        vec![
            ZoneReading { sensor_name: "gpu0:NVIDIA GeForce RTX 3080".to_string(), milli_c: 45000 },
            ZoneReading { sensor_name: "gpu1:A, B".to_string(), milli_c: 50000 },
        ]
    );
    assert!(nvidia_readings("").is_empty());
    assert!(nvidia_readings("  \n").is_empty());
}

#[test]
fn nvidia_readings_skip_a_gpu_without_temperature() {
    let readings = nvidia_readings("0, GPU, 40\n1, Other GPU, [N/A]\n2, Third, 38");
    assert_eq!(
        readings,
        vec![
            ZoneReading { sensor_name: "gpu0:GPU".to_string(), milli_c: 40000 },
            ZoneReading { sensor_name: "gpu2:Third".to_string(), milli_c: 38000 },
        ]
    );
    assert!(gpu_line("no commas").is_none());
    assert_eq!(
        gpu_line("2, X, -3"),
        Some(ZoneReading { sensor_name: "gpu2:X".to_string(), milli_c: -3000 })
    );
}
