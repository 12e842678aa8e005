use benchmarco::error::TelemetryError;
use benchmarco::gpu::CommandOutcome;
use benchmarco::gpu::GpuReportParser;

/// A diagnostic report with plausible values at every coordinate of the
/// parser's table and filler text everywhere else.
fn sample_report_lines() -> Vec<String> {
    let mut lines: Vec<String> = (0..152).map(|i| format!("filler {}", i)).collect();
    lines[66] = "   Fan Speed                     : 87 %".to_string();
    lines[79] = "   Total                         : 8192 MiB".to_string();
    lines[82] = "   Free                          : 6144 MiB".to_string();
    lines[89] = "   Gpu                           : 63 %".to_string();
    lines[95] = "   FPS                          : 144".to_string();
    lines[121] = "   GPU Current Temp             : 55 C".to_string();
    lines[137] = "   Graphics                     : 500 MHz".to_string();
    lines[138] = "   SM                           : 1350 MHz".to_string();
    lines[139] = "   Memory                       : 405 MHz".to_string();
    lines[140] = "   Video                        : 555 MHz".to_string();
    lines[148] = "   Graphics                     : 2100 MHz".to_string();
    lines[149] = "   SM                           : 1800 MHz".to_string();
    lines[150] = "   Memory                       : 7000 MHz".to_string();
    lines[151] = "   Video                        : 1950 MHz".to_string();
    lines
}

fn sample_report() -> Vec<u8> {
    sample_report_lines().join("\n").into_bytes()
}

#[test]
fn parses_full_record() {
    let m = GpuReportParser::parse_report(&sample_report()).unwrap();
    assert_eq!(m.fan_pct, "87");
    assert_eq!(m.usage_pct, "63");
    assert_eq!(m.frames_per_second, "144");
    assert_eq!(m.temperature_c, "55");
    assert_eq!(m.mem_total_mb, 8192);
    assert_eq!(m.mem_used_mb, 2048);
    assert_eq!(m.clock_graphics.current, 500);
    assert_eq!(m.clock_graphics.max, 2100);
    assert_eq!(m.clock_sm.current, 1350);
    assert_eq!(m.clock_sm.max, 1800);
    assert_eq!(m.clock_memory.current, 405);
    assert_eq!(m.clock_memory.max, 7000);
    assert_eq!(m.clock_video.current, 555);
    assert_eq!(m.clock_video.max, 1950);
}

#[test]
fn derives_used_memory_from_total_and_free() {
    // Total on line 79 and free on line 82, each with the trailing unit
    // text skipped by the offset, give used = total - free exactly.
    let m = GpuReportParser::parse_report(&sample_report()).unwrap();
    assert_eq!(m.mem_total_mb, 8192);
    assert_eq!(m.mem_total_mb - m.mem_used_mb, 6144);
    assert_eq!(m.mem_used_mb, 2048);
}

#[test]
fn short_report_is_unexpected_format() {
    let short = sample_report_lines()[..10].join("\n").into_bytes();
    let r = GpuReportParser::parse_report(&short);
    assert!(matches!(r, Err(TelemetryError::UnexpectedFormat)));
}

#[test]
fn one_line_short_report_is_unexpected_format() {
    let almost = sample_report_lines()[..151].join("\n").into_bytes();
    let r = GpuReportParser::parse_report(&almost);
    assert!(matches!(r, Err(TelemetryError::UnexpectedFormat)));
}

#[test]
fn free_above_total_fails_the_derived_field() {
    let mut lines = sample_report_lines();
    lines[82] = "   Free                          : 9000 MiB".to_string();
    let r = GpuReportParser::parse_report(&lines.join("\n").into_bytes());
    match r {
        Err(TelemetryError::ParseFailure(field)) => assert_eq!(field, "mem_used"),
        other => panic!("expected a parse failure, got {:?}", other),
    }
}

#[test]
fn non_numeric_token_names_its_field() {
    let mut lines = sample_report_lines();
    lines[79] = "   Total                         : 81x2 MiB".to_string();
    let r = GpuReportParser::parse_report(&lines.join("\n").into_bytes());
    match r {
        Err(TelemetryError::ParseFailure(field)) => assert_eq!(field, "mem_total"),
        other => panic!("expected a parse failure, got {:?}", other),
    }
}

#[test]
fn line_without_delimiter_is_malformed() {
    let mut lines = sample_report_lines();
    lines[66] = "nodelimiter".to_string();
    let r = GpuReportParser::parse_report(&lines.join("\n").into_bytes());
    assert!(matches!(r, Err(TelemetryError::MalformedLine)));
}

#[test]
fn text_fields_decode_lossily() {
    // An invalid UTF-8 byte inside the usage token becomes the replacement
    // character instead of failing the parse.
    let mut lines = sample_report_lines();
    lines[89] = "   Gpu                           : ?63 %".to_string();
    let mut report = lines.join("\n").into_bytes();
    let pos = report.windows(4).position(|w| w == b"?63 ").unwrap();
    report[pos] = 0xFF;
    let m = GpuReportParser::parse_report(&report).unwrap();
    assert_eq!(m.usage_pct, "\u{FFFD}63");
}

#[test]
fn launch_failure_is_command_unavailable() {
    let outcome = CommandOutcome::Failed("No such file or directory (os error 2)".to_string());
    let r = GpuReportParser::parse(&outcome);
    match r {
        Err(TelemetryError::CommandUnavailable(cause)) => {
            assert_eq!(cause, "No such file or directory (os error 2)")
        },
        other => panic!("expected command unavailable, got {:?}", other),
    }
}

#[test]
fn failure_exit_status_is_command_unavailable() {
    let outcome = CommandOutcome::Completed { success: false, stdout: Vec::new() };
    let r = GpuReportParser::parse(&outcome);
    assert!(matches!(r, Err(TelemetryError::CommandUnavailable(_))));
}

#[test]
fn successful_outcome_parses_the_report() {
    let outcome = CommandOutcome::Completed { success: true, stdout: sample_report() };
    let m = GpuReportParser::parse(&outcome).unwrap();
    assert_eq!(m.mem_used_mb, 2048);
}
