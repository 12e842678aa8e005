use vstd::prelude::*;
use vstd::string::StringExecFns;
use crate::error::TelemetryError;
use crate::error::TelemetryErrorModel;
use crate::extract::get_value;
use crate::extract::spec_token;
use crate::lines::NEWLINE;
use crate::lines::lemma_split_lines_wf;
use crate::lines::spec_split_lines;
use crate::lines::split_lines;
use crate::numfmt::parse_u32;
use crate::numfmt::spec_parse_u32;
use crate::textio::lossy_of;
use crate::textio::lossy_string;

verus! {

// The fixed coordinate table of the diagnostic report: for each metric, the
// line index its value stands on and the trailing offset of the value's
// right edge. The table is data, not logic: it is the one place that couples
// the parser to the tool's output shape.
pub const LINE_FAN: usize = 66;

pub const LINE_MEM_TOTAL: usize = 79;

pub const LINE_MEM_FREE: usize = 82;

pub const LINE_USAGE: usize = 89;

pub const LINE_FPS: usize = 95;

pub const LINE_TEMP: usize = 121;

pub const LINE_CLOCK_GRAPHICS: usize = 137;

pub const LINE_CLOCK_SM: usize = 138;

pub const LINE_CLOCK_MEM: usize = 139;

pub const LINE_CLOCK_VIDEO: usize = 140;

pub const LINE_CLOCK_GRAPHICS_MAX: usize = 148;

pub const LINE_CLOCK_SM_MAX: usize = 149;

pub const LINE_CLOCK_MEM_MAX: usize = 150;

pub const LINE_CLOCK_VIDEO_MAX: usize = 151;

pub const OFF_FAN: usize = 2;

pub const OFF_MEM: usize = 4;

pub const OFF_USAGE: usize = 2;

pub const OFF_FPS: usize = 0;

pub const OFF_TEMP: usize = 2;

pub const OFF_CLOCK: usize = 4;

/// The report must reach past the highest indexed line.
pub const REQUIRED_LINES: usize = 152;

/// A paired current/maximum clock value in the same unit.
#[derive(Clone, Copy, PartialEq, Eq, Structural, Debug)]
pub struct ClockReading {
    pub current: u32,
    pub max: u32,
}

/// One structured GPU metrics record, extracted from a single report. Text
/// fields keep the token as the tool printed it; memory and clock fields are
/// decoded numbers.
#[derive(Clone, Debug)]
pub struct GpuMetrics {
    pub usage_pct: String,
    pub temperature_c: String,
    pub fan_pct: String,
    pub frames_per_second: String,
    pub mem_used_mb: u32,
    pub mem_total_mb: u32,
    pub clock_graphics: ClockReading,
    pub clock_sm: ClockReading,
    pub clock_memory: ClockReading,
    pub clock_video: ClockReading,
}

/// Mathematical image of a `GpuMetrics`.
#[verifier::ext_equal]
pub struct GpuMetricsModel {
    pub usage_pct: Seq<char>,
    pub temperature_c: Seq<char>,
    pub fan_pct: Seq<char>,
    pub frames_per_second: Seq<char>,
    pub mem_used_mb: u32,
    pub mem_total_mb: u32,
    pub clock_graphics: ClockReading,
    pub clock_sm: ClockReading,
    pub clock_memory: ClockReading,
    pub clock_video: ClockReading,
}

impl View for GpuMetrics {
    type V = GpuMetricsModel;

    open spec fn view(&self) -> GpuMetricsModel {
        GpuMetricsModel {
            usage_pct: self.usage_pct@,
            temperature_c: self.temperature_c@,
            fan_pct: self.fan_pct@,
            frames_per_second: self.frames_per_second@,
            mem_used_mb: self.mem_used_mb,
            mem_total_mb: self.mem_total_mb,
            clock_graphics: self.clock_graphics,
            clock_sm: self.clock_sm,
            clock_memory: self.clock_memory,
            clock_video: self.clock_video,
        }
    }
}

/// The text fields of a parsed record never contain a line break: they come
/// from tokens of single report lines. The fixed-layout report rendering
/// relies on this.
pub open spec fn gpu_model_wf(g: GpuMetricsModel) -> bool {
    &&& !g.usage_pct.contains('\n')
    &&& !g.temperature_c.contains('\n')
    &&& !g.fan_pct.contains('\n')
    &&& !g.frames_per_second.contains('\n')
}

/// A text metric: the token at the table coordinates, decoded lossily.
pub open spec fn spec_text_field(lines: Seq<Seq<u8>>, idx: int, off: nat) -> Option<Seq<char>> {
    match spec_token(lines[idx], off) {
        None => None,
        Some(t) => Some(lossy_of(t)),
    }
}

/// A numeric metric: the token at the table coordinates, decoded as an
/// unsigned 32-bit number. A missing field boundary is a malformed line; a
/// token that is not a number is a parse failure naming the field.
pub open spec fn spec_num_field(lines: Seq<Seq<u8>>, idx: int, off: nat, name: Seq<char>) -> Result<
    u32,
    TelemetryErrorModel,
> {
    match spec_token(lines[idx], off) {
        None => Err(TelemetryErrorModel::MalformedLine),
        Some(t) => match spec_parse_u32(t) {
            None => Err(TelemetryErrorModel::ParseFailure(name)),
            Some(v) => Ok(v),
        },
    }
}

/// What parsing a captured report yields: the full record when every field
/// of the table decodes, else the error of the first field that does not,
/// in table-evaluation order. A report with fewer lines than the table
/// requires is rejected whole: a partial record is no record.
pub open spec fn spec_parse_report(out: Seq<u8>) -> Result<GpuMetricsModel, TelemetryErrorModel> {
    let lines = spec_split_lines(out);
    if lines.len() < REQUIRED_LINES {
        Err(TelemetryErrorModel::UnexpectedFormat)
    } else {
        let fan = spec_text_field(lines, LINE_FAN as int, OFF_FAN as nat);
        let mem_total = spec_num_field(lines, LINE_MEM_TOTAL as int, OFF_MEM as nat, "mem_total"@);
        let mem_free = spec_num_field(lines, LINE_MEM_FREE as int, OFF_MEM as nat, "mem_free"@);
        let usage = spec_text_field(lines, LINE_USAGE as int, OFF_USAGE as nat);
        let fps = spec_text_field(lines, LINE_FPS as int, OFF_FPS as nat);
        let tmp = spec_text_field(lines, LINE_TEMP as int, OFF_TEMP as nat);
        let cg = spec_num_field(lines, LINE_CLOCK_GRAPHICS as int, OFF_CLOCK as nat, "clock_graphics"@);
        let cgm = spec_num_field(
            lines,
            LINE_CLOCK_GRAPHICS_MAX as int,
            OFF_CLOCK as nat,
            "clock_graphics_max"@,
        );
        let cs = spec_num_field(lines, LINE_CLOCK_SM as int, OFF_CLOCK as nat, "clock_sm"@);
        let csm = spec_num_field(lines, LINE_CLOCK_SM_MAX as int, OFF_CLOCK as nat, "clock_sm_max"@);
        let cm = spec_num_field(lines, LINE_CLOCK_MEM as int, OFF_CLOCK as nat, "clock_mem"@);
        let cmm = spec_num_field(lines, LINE_CLOCK_MEM_MAX as int, OFF_CLOCK as nat, "clock_mem_max"@);
        let cv = spec_num_field(lines, LINE_CLOCK_VIDEO as int, OFF_CLOCK as nat, "clock_video"@);
        let cvm = spec_num_field(
            lines,
            LINE_CLOCK_VIDEO_MAX as int,
            OFF_CLOCK as nat,
            "clock_video_max"@,
        );
        if fan is None {
            Err(TelemetryErrorModel::MalformedLine)
        } else if mem_total is Err {
            Err(mem_total->Err_0)
        } else if mem_free is Err {
            Err(mem_free->Err_0)
        } else if mem_free->Ok_0 > mem_total->Ok_0 {
            Err(TelemetryErrorModel::ParseFailure("mem_used"@))
        } else if usage is None {
            Err(TelemetryErrorModel::MalformedLine)
        } else if fps is None {
            Err(TelemetryErrorModel::MalformedLine)
        } else if tmp is None {
            Err(TelemetryErrorModel::MalformedLine)
        } else if cg is Err {
            Err(cg->Err_0)
        } else if cgm is Err {
            Err(cgm->Err_0)
        } else if cs is Err {
            Err(cs->Err_0)
        } else if csm is Err {
            Err(csm->Err_0)
        } else if cm is Err {
            Err(cm->Err_0)
        } else if cmm is Err {
            Err(cmm->Err_0)
        } else if cv is Err {
            Err(cv->Err_0)
        } else if cvm is Err {
            Err(cvm->Err_0)
        } else {
            Ok(
                GpuMetricsModel {
                    usage_pct: usage->Some_0,
                    temperature_c: tmp->Some_0,
                    fan_pct: fan->Some_0,
                    frames_per_second: fps->Some_0,
                    mem_used_mb: (mem_total->Ok_0 - mem_free->Ok_0) as u32,
                    mem_total_mb: mem_total->Ok_0,
                    clock_graphics: ClockReading { current: cg->Ok_0, max: cgm->Ok_0 },
                    clock_sm: ClockReading { current: cs->Ok_0, max: csm->Ok_0 },
                    clock_memory: ClockReading { current: cm->Ok_0, max: cmm->Ok_0 },
                    clock_video: ClockReading { current: cv->Ok_0, max: cvm->Ok_0 },
                },
            )
        }
    }
}

/// How invoking the external diagnostic command went: it could not be
/// launched at all, or it completed with an exit status and captured
/// standard output.
pub enum CommandOutcome {
    Failed(String),
    Completed { success: bool, stdout: Vec<u8> },
}

/// Mathematical image of a `CommandOutcome`.
pub enum CommandOutcomeModel {
    Failed(Seq<char>),
    Completed { success: bool, stdout: Seq<u8> },
}

impl View for CommandOutcome {
    type V = CommandOutcomeModel;

    open spec fn view(&self) -> CommandOutcomeModel {
        match self {
            CommandOutcome::Failed(c) => CommandOutcomeModel::Failed(c@),
            CommandOutcome::Completed { success, stdout } => CommandOutcomeModel::Completed {
                success: *success,
                stdout: stdout@,
            },
        }
    }
}

/// What parsing a command outcome yields: a launch failure or a failing
/// exit status is `CommandUnavailable`, a captured report is parsed.
pub open spec fn spec_parse_outcome(o: CommandOutcomeModel) -> Result<
    GpuMetricsModel,
    TelemetryErrorModel,
> {
    match o {
        CommandOutcomeModel::Failed(cause) => Err(TelemetryErrorModel::CommandUnavailable(cause)),
        CommandOutcomeModel::Completed { success, stdout } => {
            if !success {
                Err(
                    TelemetryErrorModel::CommandUnavailable(
                        "diagnostic command exited with failure status"@,
                    ),
                )
            } else {
                spec_parse_report(stdout)
            }
        },
    }
}

/// Parses the free-form text report of the external GPU diagnostic tool by
/// positional extraction at a fixed table of line/offset coordinates.
pub struct GpuReportParser;

impl GpuReportParser {
    /// One metric extracted as text.
    fn text_field(lines: &Vec<Vec<u8>>, idx: usize, off: usize) -> (r: Result<
        String,
        TelemetryError,
    >)
        requires
            idx < lines@.len(),
        ensures
            r matches Ok(t) ==> spec_text_field(lines.deep_view(), idx as int, off as nat)
                == Some(t@),
            r matches Err(e) ==> spec_text_field(lines.deep_view(), idx as int, off as nat) is None
                && e is MalformedLine,
            r matches Ok(t) ==> (!lines.deep_view()[idx as int].contains(NEWLINE)
                ==> !t@.contains('\n')),
    {
        let line: &Vec<u8> = &lines[idx];
        proof {
            assert(lines.deep_view()[idx as int] =~= line@);
        }
        if off > line.len() {
            return Err(TelemetryError::MalformedLine);
        }
        match get_value(line.as_slice(), off) {
            Ok(token) => {
                proof {
                    if !line@.contains(NEWLINE) && token@.contains(NEWLINE) {
                        let j = choose|j: int|
                            0 <= j < token@.len() && token@[j] == NEWLINE;
                        let edge = line@.len() - off;
                        crate::extract::lemma_rscan_bounds(line@, edge - 1);
                        let sp = crate::extract::spec_rscan(line@, edge - 1)->Some_0;
                        assert(token@ == line@.subrange(sp + 1, edge));
                        assert(line@[sp + 1 + j] == NEWLINE);
                        assert(line@.contains(NEWLINE));
                    }
                }
                Ok(lossy_string(token.as_slice()))
            },
            Err(e) => Err(e),
        }
    }

    /// One metric extracted and decoded as a number.
    fn num_field(lines: &Vec<Vec<u8>>, idx: usize, off: usize, name: &str) -> (r: Result<
        u32,
        TelemetryError,
    >)
        requires
            idx < lines@.len(),
        ensures
            r matches Ok(v) ==> spec_num_field(lines.deep_view(), idx as int, off as nat, name@)
                == Ok::<u32, TelemetryErrorModel>(v),
            r matches Err(e) ==> spec_num_field(lines.deep_view(), idx as int, off as nat, name@)
                == Err::<u32, TelemetryErrorModel>(e@),
    {
        let line: &Vec<u8> = &lines[idx];
        proof {
            assert(lines.deep_view()[idx as int] =~= line@);
        }
        if off > line.len() {
            return Err(TelemetryError::MalformedLine);
        }
        match get_value(line.as_slice(), off) {
            Ok(token) => match parse_u32(&token) {
                Some(v) => Ok(v),
                None => Err(TelemetryError::ParseFailure(String::from_str(name))),
            },
            Err(e) => Err(e),
        }
    }

    /// Parses a captured report. Returns the structured record exactly when
    /// the whole coordinate table decodes; the first failing field decides
    /// the error, and a too-short report is `UnexpectedFormat` without any
    /// line ever being indexed out of bounds.
    pub fn parse_report(out: &Vec<u8>) -> (r: Result<GpuMetrics, TelemetryError>)
        ensures
            r matches Ok(m) ==> spec_parse_report(out@) == Ok::<
                GpuMetricsModel,
                TelemetryErrorModel,
            >(m@) && gpu_model_wf(m@),
            r matches Err(e) ==> spec_parse_report(out@) == Err::<
                GpuMetricsModel,
                TelemetryErrorModel,
            >(e@),
    {
        proof {
            lemma_split_lines_wf(out@);
        }
        let lines = split_lines(out);
        if lines.len() < REQUIRED_LINES {
            return Err(TelemetryError::UnexpectedFormat);
        }
        let fan = match Self::text_field(&lines, LINE_FAN, OFF_FAN) {
            Ok(v) => v,
            Err(e) => return Err(e),
        };
        let mem_total = match Self::num_field(&lines, LINE_MEM_TOTAL, OFF_MEM, "mem_total") {
            Ok(v) => v,
            Err(e) => return Err(e),
        };
        let mem_free = match Self::num_field(&lines, LINE_MEM_FREE, OFF_MEM, "mem_free") {
            Ok(v) => v,
            Err(e) => return Err(e),
        };
        if mem_free > mem_total {
            return Err(TelemetryError::ParseFailure(String::from_str("mem_used")));
        }
        let usage = match Self::text_field(&lines, LINE_USAGE, OFF_USAGE) {
            Ok(v) => v,
            Err(e) => return Err(e),
        };
        let fps = match Self::text_field(&lines, LINE_FPS, OFF_FPS) {
            Ok(v) => v,
            Err(e) => return Err(e),
        };
        let tmp = match Self::text_field(&lines, LINE_TEMP, OFF_TEMP) {
            Ok(v) => v,
            Err(e) => return Err(e),
        };
        let cg = match Self::num_field(&lines, LINE_CLOCK_GRAPHICS, OFF_CLOCK, "clock_graphics") {
            Ok(v) => v,
            Err(e) => return Err(e),
        };
        let cgm = match Self::num_field(
            &lines,
            LINE_CLOCK_GRAPHICS_MAX,
            OFF_CLOCK,
            "clock_graphics_max",
        ) {
            Ok(v) => v,
            Err(e) => return Err(e),
        };
        let cs = match Self::num_field(&lines, LINE_CLOCK_SM, OFF_CLOCK, "clock_sm") {
            Ok(v) => v,
            Err(e) => return Err(e),
        };
        let csm = match Self::num_field(&lines, LINE_CLOCK_SM_MAX, OFF_CLOCK, "clock_sm_max") {
            Ok(v) => v,
            Err(e) => return Err(e),
        };
        let cm = match Self::num_field(&lines, LINE_CLOCK_MEM, OFF_CLOCK, "clock_mem") {
            Ok(v) => v,
            Err(e) => return Err(e),
        };
        let cmm = match Self::num_field(&lines, LINE_CLOCK_MEM_MAX, OFF_CLOCK, "clock_mem_max") {
            Ok(v) => v,
            Err(e) => return Err(e),
        };
        let cv = match Self::num_field(&lines, LINE_CLOCK_VIDEO, OFF_CLOCK, "clock_video") {
            Ok(v) => v,
            Err(e) => return Err(e),
        };
        let cvm = match Self::num_field(&lines, LINE_CLOCK_VIDEO_MAX, OFF_CLOCK, "clock_video_max")
            {
            Ok(v) => v,
            Err(e) => return Err(e),
        };
        let m = GpuMetrics {
            usage_pct: usage,
            temperature_c: tmp,
            fan_pct: fan,
            frames_per_second: fps,
            mem_used_mb: mem_total - mem_free,
            mem_total_mb: mem_total,
            clock_graphics: ClockReading { current: cg, max: cgm },
            clock_sm: ClockReading { current: cs, max: csm },
            clock_memory: ClockReading { current: cm, max: cmm },
            clock_video: ClockReading { current: cv, max: cvm },
        };
        proof {
            assert(spec_parse_report(out@) is Ok);
            assert(spec_parse_report(out@)->Ok_0 =~= m@);
        }
        Ok(m)
    }

    /// Parses the outcome of invoking the diagnostic command: a command
    /// that could not be launched, or that exited with a failure status, is
    /// reported as `CommandUnavailable`; a captured report is parsed by the
    /// coordinate table.
    pub fn parse(outcome: &CommandOutcome) -> (r: Result<GpuMetrics, TelemetryError>)
        ensures
            r matches Ok(m) ==> spec_parse_outcome(outcome@) == Ok::<
                GpuMetricsModel,
                TelemetryErrorModel,
            >(m@) && gpu_model_wf(m@),
            r matches Err(e) ==> spec_parse_outcome(outcome@) == Err::<
                GpuMetricsModel,
                TelemetryErrorModel,
            >(e@),
    {
        match outcome {
            CommandOutcome::Failed(cause) => Err(TelemetryError::CommandUnavailable(cause.clone())),
            CommandOutcome::Completed { success, stdout } => {
                if !*success {
                    Err(
                        TelemetryError::CommandUnavailable(
                            String::from_str("diagnostic command exited with failure status"),
                        ),
                    )
                } else {
                    Self::parse_report(stdout)
                }
            },
        }
    }
}

/// In every successfully parsed record, used memory is exactly the total
/// minus the free reading of the same report, and never exceeds the total.
pub proof fn lemma_parse_mem_consistent(out: Seq<u8>)
    ensures
        spec_parse_report(out) matches Ok(m) ==> {
            let lines = spec_split_lines(out);
            let total = spec_num_field(lines, LINE_MEM_TOTAL as int, OFF_MEM as nat, "mem_total"@);
            let free = spec_num_field(lines, LINE_MEM_FREE as int, OFF_MEM as nat, "mem_free"@);
            &&& total matches Ok(t)
            &&& free matches Ok(f)
            &&& m.mem_total_mb == total->Ok_0
            &&& m.mem_used_mb == total->Ok_0 - free->Ok_0
            &&& m.mem_used_mb <= m.mem_total_mb
        },
{
}

/// A report with fewer lines than the table's highest index is rejected as
/// `UnexpectedFormat`; no line is ever read from it.
pub proof fn lemma_short_report_rejected(out: Seq<u8>)
    requires
        spec_split_lines(out).len() < REQUIRED_LINES,
    ensures
        spec_parse_report(out) == Err::<GpuMetricsModel, TelemetryErrorModel>(
            TelemetryErrorModel::UnexpectedFormat,
        ),
{
}

} // verus!
