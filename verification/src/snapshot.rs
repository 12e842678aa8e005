use vstd::prelude::*;
use vstd::string::StringExecFns;
use crate::error::TelemetryError;
use crate::error::TelemetryErrorModel;
use crate::error::spec_message;
use crate::gpu::ClockReading;
use crate::gpu::GpuMetrics;
use crate::gpu::GpuMetricsModel;
use crate::gpu::gpu_model_wf;
use crate::host::Celsius;
use crate::host::MemoryUsage;
use crate::host::Percentage;
use crate::numfmt::fmt_i32;
use crate::numfmt::fmt_u64;
use crate::numfmt::fmt_u64_pad2;
use crate::numfmt::lemma_dec_no_newline;
use crate::numfmt::lemma_dec_signed_no_newline;
use crate::numfmt::spec_dec;
use crate::numfmt::spec_dec_signed;
use crate::numfmt::spec_pad2;

verus! {

/// Bytes per mebibyte: the unit the RAM line displays.
pub const BYTES_PER_MIB: u64 = 1048576;

/// Lifts a per-field result to its mathematical image.
pub open spec fn res_view<T: View>(r: Result<T, TelemetryError>) -> Result<
    T::V,
    TelemetryErrorModel,
> {
    match r {
        Ok(v) => Ok(v@),
        Err(e) => Err(e@),
    }
}

/// One point-in-time bundle of telemetry. Every field is sampled
/// independently and fails independently; the snapshot is built fresh on
/// each sampling pass and discarded after rendering. Publication to a
/// reader hands over the whole value at once: a snapshot is immutable once
/// built, so no reader can see a torn mixture of two passes.
pub struct TelemetrySnapshot {
    pub gpu: Result<GpuMetrics, TelemetryError>,
    pub cpu_usage: Result<Percentage, TelemetryError>,
    pub cpu_temperature: Result<Celsius, TelemetryError>,
    pub memory: Result<MemoryUsage, TelemetryError>,
}

/// Mathematical image of a `TelemetrySnapshot`.
#[verifier::ext_equal]
pub struct TelemetrySnapshotModel {
    pub gpu: Result<GpuMetricsModel, TelemetryErrorModel>,
    pub cpu_usage: Result<Percentage, TelemetryErrorModel>,
    pub cpu_temperature: Result<Celsius, TelemetryErrorModel>,
    pub memory: Result<MemoryUsage, TelemetryErrorModel>,
}

impl View for TelemetrySnapshot {
    type V = TelemetrySnapshotModel;

    open spec fn view(&self) -> TelemetrySnapshotModel {
        TelemetrySnapshotModel {
            gpu: res_view(self.gpu),
            cpu_usage: res_view(self.cpu_usage),
            cpu_temperature: res_view(self.cpu_temperature),
            memory: res_view(self.memory),
        }
    }
}

/// The ratio column of the report: the whole quotient of `a` by `b`, zero
/// when `b` is zero so that rendering fails closed instead of dividing by
/// zero.
pub open spec fn spec_ratio(a: u32, b: u32) -> u32 {
    if b == 0 {
        0u32
    } else {
        ((a as int) / (b as int)) as u32
    }
}

/// One clock line: its label, the max/current ratio right-aligned to two
/// columns, then the current and maximum readings.
pub open spec fn spec_clock_line(label: Seq<char>, c: ClockReading) -> Seq<char> {
    label + spec_pad2(spec_dec(spec_ratio(c.max, c.current) as nat)) + "%  "@ + spec_dec(
        c.current as nat,
    ) + "/"@ + spec_dec(c.max as nat)
}

/// The GPU section of a report with a parsed record: usage, temperature,
/// frame rate, fan, memory with its total/used ratio, and the four clock
/// lines. Two displayed quirks are kept deliberately: every ratio divides
/// the maximum by the current reading (a headroom multiplier, not a
/// percentage), and the `sm` row carries the memory-domain clock while the
/// `mem` row carries the SM-domain clock.
pub open spec fn spec_gpu_section(g: GpuMetricsModel) -> Seq<char> {
    "usg  "@ + g.usage_pct + "%\ntmp  "@ + g.temperature_c + "°C\nfps  "@ + g.frames_per_second
        + "\nfan  "@ + g.fan_pct + "%\nmem  "@ + spec_dec(
        spec_ratio(g.mem_total_mb, g.mem_used_mb) as nat,
    ) + "%  "@ + spec_dec(g.mem_used_mb as nat) + "/"@ + spec_dec(g.mem_total_mb as nat)
        + "\nclock\n"@ + spec_clock_line("  gpc  "@, g.clock_graphics) + "\n"@ + spec_clock_line(
        "  sm   "@,
        g.clock_memory,
    ) + "\n"@ + spec_clock_line("\t  mem  "@, g.clock_sm) + "\n"@ + spec_clock_line(
        "  vdo  "@,
        g.clock_video,
    )
}

/// A failed field is substituted inline as an error line.
pub open spec fn spec_err_part(e: TelemetryErrorModel) -> Seq<char> {
    "Error: "@ + spec_message(e)
}

/// The GPU slot: the full ten-line section, or one inline error line
/// padded with blank lines to the same height. The padding keeps the
/// displayed layout shape constant across sampling outcomes, so the CPU
/// and RAM sections never move inside the fixed-size display text region.
pub open spec fn spec_gpu_part(r: Result<GpuMetricsModel, TelemetryErrorModel>) -> Seq<char> {
    match r {
        Ok(g) => spec_gpu_section(g),
        Err(e) => spec_err_part(e) + "\n\n\n\n\n\n\n\n\n"@,
    }
}

/// The CPU usage slot.
pub open spec fn spec_cpu_part(r: Result<Percentage, TelemetryErrorModel>) -> Seq<char> {
    match r {
        Ok(p) => spec_dec(p.value as nat) + "%"@,
        Err(e) => spec_err_part(e),
    }
}

/// The CPU temperature slot.
pub open spec fn spec_temp_part(r: Result<Celsius, TelemetryErrorModel>) -> Seq<char> {
    match r {
        Ok(c) => spec_dec_signed(c.degrees as int) + "°C"@,
        Err(e) => spec_err_part(e),
    }
}

/// The RAM slot: used and total, in whole mebibytes.
pub open spec fn spec_mem_part(r: Result<MemoryUsage, TelemetryErrorModel>) -> Seq<char> {
    match r {
        Ok(m) => spec_dec(((m.used_bytes as int) / (BYTES_PER_MIB as int)) as nat) + "/"@
            + spec_dec(((m.total_bytes as int) / (BYTES_PER_MIB as int)) as nat),
        Err(e) => spec_err_part(e),
    }
}

/// The whole rendered report: a GPU section, a blank line, a CPU section
/// with usage and temperature, a blank line, and a RAM section. A failed
/// field is substituted inline at its position, so the section order never
/// changes.
pub open spec fn spec_format(s: TelemetrySnapshotModel) -> Seq<char> {
    "GPU\n"@ + spec_gpu_part(s.gpu) + "\n\nCPU\nusg  "@ + spec_cpu_part(s.cpu_usage) + "\ntmp  "@
        + spec_temp_part(s.cpu_temperature) + "\n\nRAM\nusg  "@ + spec_mem_part(s.memory)
}

/// Merges the per-source results into one snapshot and renders it. The
/// sampling itself happens at the caller, one source at a time; nothing
/// here lets one source's failure block another.
pub struct TelemetryAggregator;

impl TelemetryAggregator {
    /// Packages the four independently sampled results into one snapshot,
    /// success or specific failure alike.
    pub fn assemble(
        gpu: Result<GpuMetrics, TelemetryError>,
        cpu_usage: Result<Percentage, TelemetryError>,
        cpu_temperature: Result<Celsius, TelemetryError>,
        memory: Result<MemoryUsage, TelemetryError>,
    ) -> (s: TelemetrySnapshot)
        ensures
            s.gpu == gpu,
            s.cpu_usage == cpu_usage,
            s.cpu_temperature == cpu_temperature,
            s.memory == memory,
    {
        TelemetrySnapshot { gpu, cpu_usage, cpu_temperature, memory }
    }

    /// One clock line of the GPU section.
    fn clock_line(label: &str, c: &ClockReading) -> (r: String)
        ensures
            r@ == spec_clock_line(label@, *c),
    {
        let ratio = if c.current == 0 {
            0
        } else {
            c.max / c.current
        };
        let mut s = String::from_str(label);
        let pad = fmt_u64_pad2(ratio as u64);
        s.append(pad.as_str());
        s.append("%  ");
        let cur = fmt_u64(c.current as u64);
        s.append(cur.as_str());
        s.append("/");
        let mx = fmt_u64(c.max as u64);
        s.append(mx.as_str());
        s
    }

    /// The GPU section for a parsed record.
    fn gpu_section(g: &GpuMetrics) -> (r: String)
        ensures
            r@ == spec_gpu_section(g@),
    {
        let mut s = String::from_str("usg  ");
        s.append(g.usage_pct.as_str());
        s.append("%\ntmp  ");
        s.append(g.temperature_c.as_str());
        s.append("°C\nfps  ");
        s.append(g.frames_per_second.as_str());
        s.append("\nfan  ");
        s.append(g.fan_pct.as_str());
        s.append("%\nmem  ");
        let mem_ratio = if g.mem_used_mb == 0 {
            0
        } else {
            g.mem_total_mb / g.mem_used_mb
        };
        let mr = fmt_u64(mem_ratio as u64);
        s.append(mr.as_str());
        s.append("%  ");
        let used = fmt_u64(g.mem_used_mb as u64);
        s.append(used.as_str());
        s.append("/");
        let total = fmt_u64(g.mem_total_mb as u64);
        s.append(total.as_str());
        s.append("\nclock\n");
        let gpc = Self::clock_line("  gpc  ", &g.clock_graphics);
        s.append(gpc.as_str());
        s.append("\n");
        let sm = Self::clock_line("  sm   ", &g.clock_memory);
        s.append(sm.as_str());
        s.append("\n");
        let mem = Self::clock_line("\t  mem  ", &g.clock_sm);
        s.append(mem.as_str());
        s.append("\n");
        let vdo = Self::clock_line("  vdo  ", &g.clock_video);
        s.append(vdo.as_str());
        s
    }

    /// The inline substitute for a failed field.
    fn error_part(e: &TelemetryError) -> (r: String)
        ensures
            r@ == spec_err_part(e@),
    {
        let mut s = String::from_str("Error: ");
        let msg = e.message();
        s.append(msg.as_str());
        s
    }

    /// Renders a snapshot as the fixed-layout multi-line report: GPU
    /// section, blank line, CPU section, blank line, RAM section, with any
    /// failed field substituted inline as an error line at its position.
    pub fn format(s: &TelemetrySnapshot) -> (r: String)
        ensures
            r@ == spec_format(s@),
    {
        let gpu_str = match &s.gpu {
            Ok(g) => Self::gpu_section(g),
            Err(e) => {
                let mut t = Self::error_part(e);
                t.append("\n\n\n\n\n\n\n\n\n");
                t
            },
        };
        let cpu_str = match &s.cpu_usage {
            Ok(p) => {
                let mut t = fmt_u64(p.value as u64);
                t.append("%");
                t
            },
            Err(e) => Self::error_part(e),
        };
        let temp_str = match &s.cpu_temperature {
            Ok(c) => {
                let mut t = fmt_i32(c.degrees);
                t.append("°C");
                t
            },
            Err(e) => Self::error_part(e),
        };
        let mem_str = match &s.memory {
            Ok(m) => {
                let mut t = fmt_u64(m.used_bytes / BYTES_PER_MIB);
                t.append("/");
                let total = fmt_u64(m.total_bytes / BYTES_PER_MIB);
                t.append(total.as_str());
                t
            },
            Err(e) => Self::error_part(e),
        };
        let mut out = String::from_str("GPU\n");
        out.append(gpu_str.as_str());
        out.append("\n\nCPU\nusg  ");
        out.append(cpu_str.as_str());
        out.append("\ntmp  ");
        out.append(temp_str.as_str());
        out.append("\n\nRAM\nusg  ");
        out.append(mem_str.as_str());
        out
    }
}

/// Number of line breaks in a rendered text: the report shows one more
/// line than breaks.
pub open spec fn spec_newlines(s: Seq<char>) -> int
    decreases s.len(),
{
    if s.len() == 0 {
        0
    } else {
        spec_newlines(s.drop_last()) + if s.last() == '\n' {
            1int
        } else {
            0int
        }
    }
}

/// Line breaks add up across concatenation.
pub proof fn lemma_newlines_concat(a: Seq<char>, b: Seq<char>)
    ensures
        spec_newlines(a + b) == spec_newlines(a) + spec_newlines(b),
    decreases b.len(),
{
    if b.len() == 0 {
        assert(a + b =~= a);
    } else {
        lemma_newlines_concat(a, b.drop_last());
        assert((a + b).drop_last() =~= a + b.drop_last());
        assert((a + b).last() == b.last());
    }
}

/// A text without a line break counts zero breaks.
pub proof fn lemma_newlines_free(s: Seq<char>)
    requires
        !s.contains('\n'),
    ensures
        spec_newlines(s) == 0,
    decreases s.len(),
{
    if s.len() > 0 {
        if s.last() == '\n' {
            assert(s[s.len() - 1] == '\n');
            assert(s.contains('\n'));
        }
        assert(!s.drop_last().contains('\n')) by {
            if s.drop_last().contains('\n') {
                let i = choose|i: int|
                    0 <= i < s.drop_last().len() && s.drop_last()[i] == '\n';
                assert(s[i] == '\n');
                assert(s.contains('\n'));
            }
        }
        lemma_newlines_free(s.drop_last());
    }
}

/// The break counts of every fixed piece of the report layout.
proof fn lemma_report_literal_newlines()
    ensures
        spec_newlines("GPU\n"@) == 1,
        spec_newlines("\n\nCPU\nusg  "@) == 3,
        spec_newlines("\ntmp  "@) == 1,
        spec_newlines("\n\nRAM\nusg  "@) == 3,
        spec_newlines("usg  "@) == 0,
        spec_newlines("%\ntmp  "@) == 1,
        spec_newlines("°C\nfps  "@) == 1,
        spec_newlines("\nfan  "@) == 1,
        spec_newlines("%\nmem  "@) == 1,
        spec_newlines("%  "@) == 0,
        spec_newlines("/"@) == 0,
        spec_newlines("\nclock\n"@) == 2,
        spec_newlines("\n"@) == 1,
        spec_newlines("  gpc  "@) == 0,
        spec_newlines("  sm   "@) == 0,
        spec_newlines("\t  mem  "@) == 0,
        spec_newlines("  vdo  "@) == 0,
        spec_newlines("Error: "@) == 0,
        spec_newlines("%"@) == 0,
        spec_newlines("°C"@) == 0,
        spec_newlines("\n\n\n\n\n\n\n\n\n"@) == 9,
{
    reveal_strlit("GPU\n");
    reveal_strlit("\n\nCPU\nusg  ");
    reveal_strlit("\ntmp  ");
    reveal_strlit("\n\nRAM\nusg  ");
    reveal_strlit("usg  ");
    reveal_strlit("%\ntmp  ");
    reveal_strlit("°C\nfps  ");
    reveal_strlit("\nfan  ");
    reveal_strlit("%\nmem  ");
    reveal_strlit("%  ");
    reveal_strlit("/");
    reveal_strlit("\nclock\n");
    reveal_strlit("\n");
    reveal_strlit("  gpc  ");
    reveal_strlit("  sm   ");
    reveal_strlit("\t  mem  ");
    reveal_strlit("  vdo  ");
    reveal_strlit("Error: ");
    reveal_strlit("%");
    reveal_strlit("°C");
    reveal_strlit("\n\n\n\n\n\n\n\n\n");
    reveal_with_fuel(spec_newlines, 13);
}

/// A padded decimal rendering has no line break.
proof fn lemma_pad2_newlines(n: nat)
    ensures
        spec_newlines(spec_pad2(spec_dec(n))) == 0,
{
    crate::numfmt::lemma_dec_len(n);
    lemma_dec_no_newline(n);
    lemma_newlines_free(spec_dec(n));
    let s = spec_dec(n);
    if s.len() == 1 {
        assert(seq![' '].drop_last() =~= Seq::<char>::empty());
        assert(spec_newlines(Seq::<char>::empty()) == 0);
        assert(seq![' '].last() == ' ');
        assert(spec_newlines(seq![' ']) == 0);
        lemma_newlines_concat(seq![' '], s);
    }
}

/// Every clock line renders on a single report line.
proof fn lemma_clock_line_newlines(label: Seq<char>, c: ClockReading)
    requires
        spec_newlines(label) == 0,
    ensures
        spec_newlines(spec_clock_line(label, c)) == 0,
{
    lemma_report_literal_newlines();
    let pad = spec_pad2(spec_dec(spec_ratio(c.max, c.current) as nat));
    let cur = spec_dec(c.current as nat);
    let mx = spec_dec(c.max as nat);
    lemma_pad2_newlines(spec_ratio(c.max, c.current) as nat);
    lemma_dec_no_newline(c.current as nat);
    lemma_newlines_free(cur);
    lemma_dec_no_newline(c.max as nat);
    lemma_newlines_free(mx);
    lemma_newlines_concat(label, pad);
    lemma_newlines_concat(label + pad, "%  "@);
    lemma_newlines_concat(label + pad + "%  "@, cur);
    lemma_newlines_concat(label + pad + "%  "@ + cur, "/"@);
    lemma_newlines_concat(label + pad + "%  "@ + cur + "/"@, mx);
}

/// A GPU section with a parsed record always spans ten report lines.
proof fn lemma_gpu_section_newlines(g: GpuMetricsModel)
    requires
        gpu_model_wf(g),
    ensures
        spec_newlines(spec_gpu_section(g)) == 9,
{
    lemma_report_literal_newlines();
    lemma_newlines_free(g.usage_pct);
    lemma_newlines_free(g.temperature_c);
    lemma_newlines_free(g.frames_per_second);
    lemma_newlines_free(g.fan_pct);
    let mr = spec_dec(spec_ratio(g.mem_total_mb, g.mem_used_mb) as nat);
    let used = spec_dec(g.mem_used_mb as nat);
    let total = spec_dec(g.mem_total_mb as nat);
    lemma_dec_no_newline(spec_ratio(g.mem_total_mb, g.mem_used_mb) as nat);
    lemma_newlines_free(mr);
    lemma_dec_no_newline(g.mem_used_mb as nat);
    lemma_newlines_free(used);
    lemma_dec_no_newline(g.mem_total_mb as nat);
    lemma_newlines_free(total);
    let gpc = spec_clock_line("  gpc  "@, g.clock_graphics);
    let sm = spec_clock_line("  sm   "@, g.clock_memory);
    let mem = spec_clock_line("\t  mem  "@, g.clock_sm);
    let vdo = spec_clock_line("  vdo  "@, g.clock_video);
    lemma_clock_line_newlines("  gpc  "@, g.clock_graphics);
    lemma_clock_line_newlines("  sm   "@, g.clock_memory);
    lemma_clock_line_newlines("\t  mem  "@, g.clock_sm);
    lemma_clock_line_newlines("  vdo  "@, g.clock_video);
    let a1 = "usg  "@ + g.usage_pct;
    lemma_newlines_concat("usg  "@, g.usage_pct);
    let a2 = a1 + "%\ntmp  "@;
    lemma_newlines_concat(a1, "%\ntmp  "@);
    let a3 = a2 + g.temperature_c;
    lemma_newlines_concat(a2, g.temperature_c);
    let a4 = a3 + "°C\nfps  "@;
    lemma_newlines_concat(a3, "°C\nfps  "@);
    let a5 = a4 + g.frames_per_second;
    lemma_newlines_concat(a4, g.frames_per_second);
    let a6 = a5 + "\nfan  "@;
    lemma_newlines_concat(a5, "\nfan  "@);
    let a7 = a6 + g.fan_pct;
    lemma_newlines_concat(a6, g.fan_pct);
    let a8 = a7 + "%\nmem  "@;
    lemma_newlines_concat(a7, "%\nmem  "@);
    let a9 = a8 + mr;
    lemma_newlines_concat(a8, mr);
    let a10 = a9 + "%  "@;
    lemma_newlines_concat(a9, "%  "@);
    let a11 = a10 + used;
    lemma_newlines_concat(a10, used);
    let a12 = a11 + "/"@;
    lemma_newlines_concat(a11, "/"@);
    let a13 = a12 + total;
    lemma_newlines_concat(a12, total);
    let a14 = a13 + "\nclock\n"@;
    lemma_newlines_concat(a13, "\nclock\n"@);
    let a15 = a14 + gpc;
    lemma_newlines_concat(a14, gpc);
    let a16 = a15 + "\n"@;
    lemma_newlines_concat(a15, "\n"@);
    let a17 = a16 + sm;
    lemma_newlines_concat(a16, sm);
    let a18 = a17 + "\n"@;
    lemma_newlines_concat(a17, "\n"@);
    let a19 = a18 + mem;
    lemma_newlines_concat(a18, mem);
    let a20 = a19 + "\n"@;
    lemma_newlines_concat(a19, "\n"@);
    lemma_newlines_concat(a20, vdo);
    assert(spec_gpu_section(g) == a20 + vdo);
}

/// An inline error substitute renders on a single report line.
proof fn lemma_err_part_newlines(e: TelemetryErrorModel)
    requires
        !spec_message(e).contains('\n'),
    ensures
        spec_newlines(spec_err_part(e)) == 0,
{
    lemma_report_literal_newlines();
    lemma_newlines_free(spec_message(e));
    lemma_newlines_concat("Error: "@, spec_message(e));
}

/// The well-formedness a snapshot gets from sampling: the text fields of a
/// parsed GPU record and the messages of failed fields are single-line.
pub open spec fn snapshot_wf(s: TelemetrySnapshotModel) -> bool {
    &&& (s.gpu matches Ok(g) ==> gpu_model_wf(g))
    &&& (s.gpu matches Err(e) ==> !spec_message(e).contains('\n'))
    &&& (s.cpu_usage matches Err(e) ==> !spec_message(e).contains('\n'))
    &&& (s.cpu_temperature matches Err(e) ==> !spec_message(e).contains('\n'))
    &&& (s.memory matches Err(e) ==> !spec_message(e).contains('\n'))
}

/// The rendered report of a well-formed snapshot always has the same
/// number of lines: the CPU and RAM slots take one line whether they carry
/// a value or an inline error, and the GPU slot takes ten lines in either
/// outcome, its error line being padded to the section's height.
pub proof fn lemma_format_line_count(s: TelemetrySnapshotModel)
    requires
        snapshot_wf(s),
    ensures
        spec_newlines(spec_format(s)) == 17,
{
    lemma_report_literal_newlines();
    match s.gpu {
        Ok(g) => lemma_gpu_section_newlines(g),
        Err(e) => {
            lemma_err_part_newlines(e);
            lemma_newlines_concat(spec_err_part(e), "\n\n\n\n\n\n\n\n\n"@);
        },
    }
    match s.cpu_usage {
        Ok(p) => {
            lemma_dec_no_newline(p.value as nat);
            lemma_newlines_free(spec_dec(p.value as nat));
            lemma_newlines_concat(spec_dec(p.value as nat), "%"@);
        },
        Err(e) => lemma_err_part_newlines(e),
    }
    match s.cpu_temperature {
        Ok(c) => {
            lemma_dec_signed_no_newline(c.degrees as int);
            lemma_newlines_free(spec_dec_signed(c.degrees as int));
            lemma_newlines_concat(spec_dec_signed(c.degrees as int), "°C"@);
        },
        Err(e) => lemma_err_part_newlines(e),
    }
    match s.memory {
        Ok(m) => {
            let du = spec_dec(((m.used_bytes as int) / (BYTES_PER_MIB as int)) as nat);
            let dt = spec_dec(((m.total_bytes as int) / (BYTES_PER_MIB as int)) as nat);
            lemma_dec_no_newline(((m.used_bytes as int) / (BYTES_PER_MIB as int)) as nat);
            lemma_newlines_free(du);
            lemma_dec_no_newline(((m.total_bytes as int) / (BYTES_PER_MIB as int)) as nat);
            lemma_newlines_free(dt);
            lemma_newlines_concat(du, "/"@);
            lemma_newlines_concat(du + "/"@, dt);
        },
        Err(e) => lemma_err_part_newlines(e),
    }
    let f1 = "GPU\n"@ + spec_gpu_part(s.gpu);
    lemma_newlines_concat("GPU\n"@, spec_gpu_part(s.gpu));
    let f2 = f1 + "\n\nCPU\nusg  "@;
    lemma_newlines_concat(f1, "\n\nCPU\nusg  "@);
    let f3 = f2 + spec_cpu_part(s.cpu_usage);
    lemma_newlines_concat(f2, spec_cpu_part(s.cpu_usage));
    let f4 = f3 + "\ntmp  "@;
    lemma_newlines_concat(f3, "\ntmp  "@);
    let f5 = f4 + spec_temp_part(s.cpu_temperature);
    lemma_newlines_concat(f4, spec_temp_part(s.cpu_temperature));
    let f6 = f5 + "\n\nRAM\nusg  "@;
    lemma_newlines_concat(f5, "\n\nRAM\nusg  "@);
    lemma_newlines_concat(f6, spec_mem_part(s.memory));
    assert(spec_format(s) == f6 + spec_mem_part(s.memory));
}

/// Layout stability: any two well-formed snapshots render to the same
/// number of lines in the same section order, whatever their field
/// contents and whichever of their fields failed — an all-success and an
/// all-failure report included.
pub proof fn lemma_format_layout_stable(a: TelemetrySnapshotModel, b: TelemetrySnapshotModel)
    requires
        snapshot_wf(a),
        snapshot_wf(b),
    ensures
        spec_newlines(spec_format(a)) == spec_newlines(spec_format(b)),
{
    lemma_format_line_count(a);
    lemma_format_line_count(b);
}

} // verus!
