use benchmarco::error::TelemetryError;
use benchmarco::gpu::ClockReading;
use benchmarco::gpu::GpuMetrics;
use benchmarco::host::Celsius;
use benchmarco::host::MemoryUsage;
use benchmarco::host::Percentage;
use benchmarco::snapshot::TelemetryAggregator;
use benchmarco::snapshot::TelemetrySnapshot;

fn sample_metrics() -> GpuMetrics {
    GpuMetrics {
        usage_pct: "63".to_string(),
        temperature_c: "55".to_string(),
        fan_pct: "87".to_string(),
        frames_per_second: "144".to_string(),
        mem_used_mb: 2048,
        mem_total_mb: 8192,
        clock_graphics: ClockReading { current: 500, max: 2100 },
        clock_sm: ClockReading { current: 1350, max: 1800 },
        clock_memory: ClockReading { current: 405, max: 7000 },
        clock_video: ClockReading { current: 555, max: 1950 },
    }
}

fn success_snapshot() -> TelemetrySnapshot {
    TelemetryAggregator::assemble(
        Ok(sample_metrics()),
        Ok(Percentage { value: 17 }),
        Ok(Celsius { degrees: 42 }),
        Ok(MemoryUsage { used_bytes: 3012 * 1048576, total_bytes: 15887 * 1048576 }),
    )
}

fn failure_snapshot() -> TelemetrySnapshot {
    TelemetryAggregator::assemble(
        Err(TelemetryError::CommandUnavailable("tool missing".to_string())),
        Err(TelemetryError::SensorUnavailable("no cpu counter".to_string())),
        Err(TelemetryError::SensorUnavailable("no temp sensor".to_string())),
        Err(TelemetryError::SensorUnavailable("no memory counter".to_string())),
    )
}

#[test]
fn formats_full_snapshot() {
    let report = TelemetryAggregator::format(&success_snapshot());
    let expected = "GPU\nusg  63%\ntmp  55°C\nfps  144\nfan  87%\nmem  4%  2048/8192\nclock\n  gpc   4%  500/2100\n  sm   17%  405/7000\n\t  mem   1%  1350/1800\n  vdo   3%  555/1950\n\nCPU\nusg  17%\ntmp  42°C\n\nRAM\nusg  3012/15887";
    assert_eq!(report, expected);
}

#[test]
fn formats_all_failure_snapshot() {
    let report = TelemetryAggregator::format(&failure_snapshot());
    let expected = "GPU\nError: tool missing\n\n\n\n\n\n\n\n\n\n\nCPU\nusg  Error: no cpu counter\ntmp  Error: no temp sensor\n\nRAM\nusg  Error: no memory counter";
    assert_eq!(report, expected);
}

#[test]
fn layout_is_stable_across_outcomes() {
    // Every snapshot renders to the same number of lines in the same
    // section order: an all-success and an all-failure report included,
    // since a failed GPU slot is padded to the section's fixed height.
    let a = TelemetryAggregator::format(&success_snapshot());
    let mut other = success_snapshot();
    other.cpu_usage = Err(TelemetryError::SensorUnavailable("gone".to_string()));
    other.memory = Err(TelemetryError::SensorUnavailable("gone too".to_string()));
    let b = TelemetryAggregator::format(&other);
    let c = TelemetryAggregator::format(&failure_snapshot());
    let mut partial = failure_snapshot();
    partial.cpu_usage = Ok(Percentage { value: 3 });
    let d = TelemetryAggregator::format(&partial);

    for report in [a, b, c, d] {
        assert_eq!(report.lines().count(), 18);
        let gpu = report.find("GPU").unwrap();
        let cpu = report.find("CPU").unwrap();
        let ram = report.find("RAM").unwrap();
        assert!(gpu < cpu && cpu < ram);
    }
}

#[test]
fn absent_tool_keeps_host_sections_alive() {
    let mut snapshot = success_snapshot();
    snapshot.gpu = Err(TelemetryError::CommandUnavailable(
        "No such file or directory (os error 2)".to_string(),
    ));
    let report = TelemetryAggregator::format(&snapshot);
    let expected = "GPU\nError: No such file or directory (os error 2)\n\n\n\n\n\n\n\n\n\n\nCPU\nusg  17%\ntmp  42°C\n\nRAM\nusg  3012/15887";
    assert_eq!(report, expected);
}

#[test]
fn zero_readings_render_without_fault() {
    // A zero current clock or zero used memory renders a zero ratio
    // instead of faulting on the division.
    let mut m = sample_metrics();
    m.mem_used_mb = 0;
    m.clock_graphics = ClockReading { current: 0, max: 2100 };
    let mut snapshot = success_snapshot();
    snapshot.gpu = Ok(m);
    let report = TelemetryAggregator::format(&snapshot);
    assert!(report.contains("mem  0%  0/8192"));
    assert!(report.contains("  gpc   0%  0/2100"));
}
