//! Text renderings of a snapshot: a labeled report, a condensed line and a table.
use crate::paint::{paint, painted, Hue};
use crate::stats::Stats;
use crate::text::{
    cuda_string, cuda_tenths_string, cuda_tenths_text, cuda_text, decimal, decimal_text,
    gb_short_string, gb_short_text, gb_string, gb_text,
};
use vstd::prelude::*;
use vstd::string::*;

verus! {

/// The text renderings.
#[derive(Clone, Copy, Debug, PartialEq, Eq, Structural)]
pub enum Mode {
    /// One labeled line per group of metrics.
    Multiline,
    /// Utilization, temperature and fan speed on one line.
    Oneline,
    /// Five stacked tables, each a header row over a value row.
    Table,
}

pub open spec fn num(n: u32) -> Seq<char> {
    decimal(n as nat)
}

pub open spec fn name_line(s: Stats, c: bool) -> Seq<char> {
    painted(c, Hue::Red, "GPU:"@) + " "@ + painted(c, Hue::Cyan, s.devinfo.dev_name@)
}

pub open spec fn driver_line(s: Stats, c: bool) -> Seq<char> {
    painted(c, Hue::Red, "Driver Ver:"@) + " "@ + painted(c, Hue::Cyan, s.devinfo.drvr_ver@)
        + " "@ + painted(c, Hue::Red, "CUDA Ver:"@) + " "@
        + painted(c, Hue::Cyan, cuda_tenths_text(s.devinfo.cuda_ver as int))
}

pub open spec fn fan_line(s: Stats, c: bool) -> Seq<char> {
    painted(c, Hue::Red, "Fan Speed: "@) + " "@ + painted(c, Hue::Cyan, num(s.fantemp.fan_speed))
}

pub open spec fn temp_line(s: Stats, c: bool) -> Seq<char> {
    painted(c, Hue::Red, "GPU Temp:"@) + " "@ + painted(c, Hue::Cyan, num(s.fantemp.gpu_temp))
        + painted(c, Hue::Yellow, "c"@)
}

pub open spec fn power_line(s: Stats, c: bool) -> Seq<char> {
    painted(c, Hue::Red, "Power Usageg:"@) + " "@ + painted(c, Hue::Cyan, "Used:"@)
        + painted(c, Hue::Yellow, num(s.power.pwr_used)) + ", "@ + painted(c, Hue::Cyan, "Max:"@)
        + painted(c, Hue::Yellow, num(s.power.pwr_cap))
}

pub open spec fn memory_line(s: Stats, c: bool) -> Seq<char> {
    painted(c, Hue::Red, "Memory Usage:"@) + " "@ + painted(c, Hue::Cyan, "Used:"@)
        + painted(c, Hue::Yellow, gb_text(s.memory.mem_used as nat)) + ", "@
        + painted(c, Hue::Cyan, "Max:"@) + painted(c, Hue::Yellow, gb_text(s.memory.mem_total as nat))
}

pub open spec fn usage_line(s: Stats, c: bool) -> Seq<char> {
    painted(c, Hue::Red, "GPU Usage:"@) + " "@ + painted(c, Hue::Cyan, num(s.gpustats.gpu_util))
        + "% "@ + painted(c, Hue::Red, "Encoder:"@) + " "@
        + painted(c, Hue::Cyan, num(s.gpustats.enc_util)) + "% "@ + painted(c, Hue::Red, "Decoder:"@)
        + " "@ + painted(c, Hue::Cyan, num(s.gpustats.dec_util)) + "%"@
}

/// The labeled report without its timestamp line: one line per group, each ended by
/// a carriage return and a newline, so that it shows alike on a terminal in raw mode.
pub open spec fn report_body(s: Stats, c: bool) -> Seq<char> {
    name_line(s, c) + "\r\n"@ + driver_line(s, c) + "\r\n"@ + fan_line(s, c) + "\r\n"@
        + temp_line(s, c) + "\r\n"@ + power_line(s, c) + "\r\n"@ + memory_line(s, c) + "\r\n"@
        + usage_line(s, c) + "\r\n"@
}

/// The text holds neither a newline nor a carriage return.
pub open spec fn no_line_break(t: Seq<char>) -> bool {
    forall|i: int| 0 <= i < t.len() ==> #[trigger] t[i] != '\n' && t[i] != '\r'
}

/// The timestamp line: the stamp in yellow, then a carriage return and a newline;
/// nothing without a stamp.
pub open spec fn stamp_line(c: bool, stamp: Option<String>) -> Seq<char> {
    match stamp {
        Some(t) => painted(c, Hue::Yellow, t@) + "\r\n"@,
        None => Seq::empty(),
    }
}

pub open spec fn report(s: Stats, c: bool, stamp: Option<String>) -> Seq<char> {
    stamp_line(c, stamp) + report_body(s, c)
}

pub open spec fn condensed(s: Stats, c: bool) -> Seq<char> {
    "GPU "@ + painted(c, Hue::Cyan, num(s.gpustats.gpu_util)) + "% | Temp "@
        + painted(c, Hue::Cyan, num(s.fantemp.gpu_temp)) + "c | Fan "@
        + painted(c, Hue::Cyan, num(s.fantemp.fan_speed)) + "%\n"@
}

fn push_painted(out: &mut String, c: bool, h: Hue, s: &str)
    ensures
        final(out)@ == old(out)@ + painted(c, h, s@),
{
    let p = paint(c, h, s);
    out.append(p.as_str());
}

fn name_text(s: &Stats, c: bool) -> (r: String)
    ensures
        r@ == name_line(*s, c),
{
    let mut out = paint(c, Hue::Red, "GPU:");
    out.append(" ");
    push_painted(&mut out, c, Hue::Cyan, s.devinfo.dev_name.as_str());
    out
}

fn driver_text(s: &Stats, c: bool) -> (r: String)
    ensures
        r@ == driver_line(*s, c),
{
    let mut out = paint(c, Hue::Red, "Driver Ver:");
    out.append(" ");
    push_painted(&mut out, c, Hue::Cyan, s.devinfo.drvr_ver.as_str());
    out.append(" ");
    push_painted(&mut out, c, Hue::Red, "CUDA Ver:");
    out.append(" ");
    let v = cuda_tenths_string(s.devinfo.cuda_ver);
    push_painted(&mut out, c, Hue::Cyan, v.as_str());
    out
}

fn fan_text(s: &Stats, c: bool) -> (r: String)
    ensures
        r@ == fan_line(*s, c),
{
    let mut out = paint(c, Hue::Red, "Fan Speed: ");
    out.append(" ");
    let v = decimal_text(s.fantemp.fan_speed as u64);
    push_painted(&mut out, c, Hue::Cyan, v.as_str());
    out
}

fn temp_text(s: &Stats, c: bool) -> (r: String)
    ensures
        r@ == temp_line(*s, c),
{
    let mut out = paint(c, Hue::Red, "GPU Temp:");
    out.append(" ");
    let v = decimal_text(s.fantemp.gpu_temp as u64);
    push_painted(&mut out, c, Hue::Cyan, v.as_str());
    push_painted(&mut out, c, Hue::Yellow, "c");
    out
}

fn power_text(s: &Stats, c: bool) -> (r: String)
    ensures
        r@ == power_line(*s, c),
{
    let mut out = paint(c, Hue::Red, "Power Usageg:");
    out.append(" ");
    push_painted(&mut out, c, Hue::Cyan, "Used:");
    let used = decimal_text(s.power.pwr_used as u64);
    push_painted(&mut out, c, Hue::Yellow, used.as_str());
    out.append(", ");
    push_painted(&mut out, c, Hue::Cyan, "Max:");
    let cap = decimal_text(s.power.pwr_cap as u64);
    push_painted(&mut out, c, Hue::Yellow, cap.as_str());
    out
}

fn memory_text(s: &Stats, c: bool) -> (r: String)
    ensures
        r@ == memory_line(*s, c),
{
    let mut out = paint(c, Hue::Red, "Memory Usage:");
    out.append(" ");
    push_painted(&mut out, c, Hue::Cyan, "Used:");
    let used = gb_string(s.memory.mem_used);
    push_painted(&mut out, c, Hue::Yellow, used.as_str());
    out.append(", ");
    push_painted(&mut out, c, Hue::Cyan, "Max:");
    let total = gb_string(s.memory.mem_total);
    push_painted(&mut out, c, Hue::Yellow, total.as_str());
    out
}

fn usage_text(s: &Stats, c: bool) -> (r: String)
    ensures
        r@ == usage_line(*s, c),
{
    let mut out = paint(c, Hue::Red, "GPU Usage:");
    out.append(" ");
    let g = decimal_text(s.gpustats.gpu_util as u64);
    push_painted(&mut out, c, Hue::Cyan, g.as_str());
    out.append("% ");
    push_painted(&mut out, c, Hue::Red, "Encoder:");
    out.append(" ");
    let e = decimal_text(s.gpustats.enc_util as u64);
    push_painted(&mut out, c, Hue::Cyan, e.as_str());
    out.append("% ");
    push_painted(&mut out, c, Hue::Red, "Decoder:");
    out.append(" ");
    let d = decimal_text(s.gpustats.dec_util as u64);
    push_painted(&mut out, c, Hue::Cyan, d.as_str());
    out.append("%");
    out
}

fn push_line(out: &mut String, line: String)
    ensures
        final(out)@ == old(out)@ + line@ + "\r\n"@,
{
    out.append(line.as_str());
    out.append("\r\n");
}

/// The labeled report, colored when `colorize` is set, under a timestamp line when
/// `stamp` holds one.
pub fn multiliner(s: &Stats, colorize: bool, stamp: Option<String>) -> (r: String)
    ensures
        r@ == report(*s, colorize, stamp),
{
    let ghost g = stamp;
    let mut out = match stamp {
        Some(t) => {
            let mut o = paint(colorize, Hue::Yellow, t.as_str());
            o.append("\r\n");
            o
        },
        None => String::new(),
    };
    let mut body = name_text(s, colorize);
    body.append("\r\n");
    push_line(&mut body, driver_text(s, colorize));
    push_line(&mut body, fan_text(s, colorize));
    push_line(&mut body, temp_text(s, colorize));
    push_line(&mut body, power_text(s, colorize));
    push_line(&mut body, memory_text(s, colorize));
    push_line(&mut body, usage_text(s, colorize));
    assert(body@ == report_body(*s, colorize));
    out.append(body.as_str());
    assert(out@ == report(*s, colorize, g));
    out
}

/// Utilization, temperature and fan speed on one line, in that order.
pub fn oneliner(s: &Stats, colorize: bool) -> (r: String)
    ensures
        r@ == condensed(*s, colorize),
{
    let mut out = String::from_str("GPU ");
    let g = decimal_text(s.gpustats.gpu_util as u64);
    push_painted(&mut out, colorize, Hue::Cyan, g.as_str());
    out.append("% | Temp ");
    let t = decimal_text(s.fantemp.gpu_temp as u64);
    push_painted(&mut out, colorize, Hue::Cyan, t.as_str());
    out.append("c | Fan ");
    let f = decimal_text(s.fantemp.fan_speed as u64);
    push_painted(&mut out, colorize, Hue::Cyan, f.as_str());
    out.append("%\n");
    out
}

pub open spec fn header(c: bool, s: Seq<char>) -> Seq<char> {
    painted(c, Hue::BrightGreenBold, s)
}

pub open spec fn value(c: bool, s: Seq<char>) -> Seq<char> {
    painted(c, Hue::BrightCyan, s)
}

/// The cells of the table rendering: identity, memory, utilization, fan and
/// temperature, then power; each group a header row over its value row.
pub open spec fn table_rows(s: Stats, c: bool) -> Seq<Seq<Seq<char>>> {
    seq![
        seq![header(c, "Driver Ver"@), header(c, "Cuda Ver"@), header(c, "Device Name"@)],
        seq![value(c, s.devinfo.drvr_ver@), value(c, cuda_text(s.devinfo.cuda_ver as int)), value(c, s.devinfo.dev_name@)],
        seq![header(c, "Memory Used"@), header(c, "Memory Total"@)],
        seq![value(c, gb_short_text(s.memory.mem_used as nat)), value(c, gb_short_text(s.memory.mem_total as nat))],
        seq![header(c, "GPU Util"@), header(c, "Enc Util"@), header(c, "Dec Util"@)],
        seq![value(c, num(s.gpustats.gpu_util)), value(c, num(s.gpustats.enc_util)), value(c, num(s.gpustats.dec_util))],
        seq![header(c, "Fan Speed"@), header(c, "GPU Temp"@)],
        seq![value(c, num(s.fantemp.fan_speed)), value(c, num(s.fantemp.gpu_temp))],
        seq![header(c, "PWR Used"@), header(c, "PWR Max"@)],
        seq![value(c, num(s.power.pwr_used)), value(c, num(s.power.pwr_cap))],
    ]
}

/// What tabled draws for rows of cells in the rounded modern style.
pub uninterp spec fn drawn_table(rows: Seq<Seq<Seq<char>>>) -> Seq<char>;

/// Relies on tabled's `Builder::from` over rows of cells, `Style::modern_rounded`
/// and the table's `Display`: the drawing depends on the cells alone.
#[verifier::external_body]
fn draw_table(rows: Vec<Vec<String>>) -> (r: String)
    ensures
        r@ == drawn_table(rows.deep_view()),
{
    let mut table = tabled::builder::Builder::from(rows).build();
    table.with(tabled::settings::Style::modern_rounded());
    table.to_string()
}

fn header_cell(c: bool, s: &str) -> (r: String)
    ensures
        r@ == header(c, s@),
{
    paint(c, Hue::BrightGreenBold, s)
}

fn value_cell(c: bool, s: String) -> (r: String)
    ensures
        r@ == value(c, s@),
{
    paint(c, Hue::BrightCyan, s.as_str())
}

fn row2(a: String, b: String) -> (r: Vec<String>)
    ensures
        r.deep_view() == seq![a@, b@],
{
    let r = vec![a, b];
    assert(r.deep_view() =~= seq![a@, b@]);
    r
}

fn row3(a: String, b: String, d: String) -> (r: Vec<String>)
    ensures
        r.deep_view() == seq![a@, b@, d@],
{
    let r = vec![a, b, d];
    assert(r.deep_view() =~= seq![a@, b@, d@]);
    r
}

fn number(n: u32) -> (r: String)
    ensures
        r@ == num(n),
{
    decimal_text(n as u64)
}

/// The cells of the table rendering, colored when `colorize` is set.
pub fn table_cells(s: &Stats, colorize: bool) -> (r: Vec<Vec<String>>)
    ensures
        r.deep_view() == table_rows(*s, colorize),
{
    let c = colorize;
    let mut rows: Vec<Vec<String>> = Vec::new();
    rows.push(row3(header_cell(c, "Driver Ver"), header_cell(c, "Cuda Ver"), header_cell(c, "Device Name")));
    rows.push(row3(value_cell(c, s.devinfo.drvr_ver.clone()), value_cell(c, cuda_string(s.devinfo.cuda_ver)), value_cell(c, s.devinfo.dev_name.clone())));
    rows.push(row2(header_cell(c, "Memory Used"), header_cell(c, "Memory Total")));
    rows.push(row2(value_cell(c, gb_short_string(s.memory.mem_used)), value_cell(c, gb_short_string(s.memory.mem_total))));
    rows.push(row3(header_cell(c, "GPU Util"), header_cell(c, "Enc Util"), header_cell(c, "Dec Util")));
    rows.push(row3(value_cell(c, number(s.gpustats.gpu_util)), value_cell(c, number(s.gpustats.enc_util)), value_cell(c, number(s.gpustats.dec_util))));
    rows.push(row2(header_cell(c, "Fan Speed"), header_cell(c, "GPU Temp")));
    rows.push(row2(value_cell(c, number(s.fantemp.fan_speed)), value_cell(c, number(s.fantemp.gpu_temp))));
    rows.push(row2(header_cell(c, "PWR Used"), header_cell(c, "PWR Max")));
    rows.push(row2(value_cell(c, number(s.power.pwr_used)), value_cell(c, number(s.power.pwr_cap))));
    assert(rows.deep_view() =~= table_rows(*s, colorize));
    rows
}

/// The five stacked tables, headers bold bright green and values bright cyan when
/// `colorize` is set.
pub fn tabular(s: &Stats, colorize: bool) -> (r: String)
    ensures
        r@ == drawn_table(table_rows(*s, colorize)),
{
    draw_table(table_cells(s, colorize))
}

/// A snapshot rendered in `mode`; `stamp` is shown above the labeled report only.
pub open spec fn rendered(s: Stats, mode: Mode, c: bool, stamp: Option<String>) -> Seq<char> {
    match mode {
        Mode::Multiline => report(s, c, stamp),
        Mode::Oneline => condensed(s, c),
        Mode::Table => drawn_table(table_rows(s, c)),
    }
}

/// A snapshot rendered in `mode`, colored when `colorize` is set; the labeled report
/// starts with `stamp` where one is given.
pub fn render(s: &Stats, mode: Mode, colorize: bool, stamp: Option<String>) -> (r: String)
    ensures
        r@ == rendered(*s, mode, colorize, stamp),
{
    match mode {
        Mode::Multiline => multiliner(s, colorize, stamp),
        Mode::Oneline => oneliner(s, colorize),
        Mode::Table => tabular(s, colorize),
    }
}

/// Relies on chrono's `Local::now` and `format`: the local time now, written with
/// the strftime `pattern`. Nothing is known of the time itself; this pattern writes
/// only digits, signs, dashes, spaces and colons, so no line break.
#[verifier::external_body]
fn local_time(pattern: &str) -> (r: String)
    requires
        pattern@ == "%Y-%m-%d %H:%M:%S"@,
    ensures
        no_line_break(r@),
{
    chrono::Local::now().format(pattern).to_string()
}

/// One tick's text: when `looping`, the labeled report carries the local time as
/// its timestamp line; every other output is exactly `render` without a stamp.
pub fn render_tick(s: &Stats, mode: Mode, colorize: bool, looping: bool) -> (r: String)
    ensures
        looping && mode == Mode::Multiline ==> exists|t: String|
            no_line_break(t@) && r@ == #[trigger] rendered(*s, mode, colorize, Some(t)),
        !(looping && mode == Mode::Multiline) ==> r@ == rendered(*s, mode, colorize, None),
{
    if looping && mode == Mode::Multiline {
        let t = local_time("%Y-%m-%d %H:%M:%S");
        let ghost g = t;
        let r = render(s, mode, colorize, Some(t));
        assert(no_line_break(g@) && r@ == rendered(*s, mode, colorize, Some(g)));
        r
    } else {
        render(s, mode, colorize, None)
    }
}

/// Rendering is a function of the snapshot, the mode and the color switch: the
/// timestamp changes only the labeled report, and there only by the line it adds
/// on top; equal snapshots render equally.
pub proof fn lemma_render_is_pure(s1: Stats, s2: Stats, mode: Mode, c: bool, stamp: Option<String>)
    requires
        s1 == s2,
    ensures
        rendered(s1, mode, c, stamp) == rendered(s2, mode, c, stamp),
        mode != Mode::Multiline ==> rendered(s1, mode, c, stamp) == rendered(s1, mode, c, None),
        mode == Mode::Multiline ==> rendered(s1, mode, c, stamp) == stamp_line(c, stamp) + rendered(s1, mode, c, None),
{
    assert(report(s1, c, None) =~= report_body(s1, c));
}

/// A stamp without line breaks stays one line: the timestamped report is that line,
/// then a line end, then the report without a stamp. Two looping reports of equal
/// snapshots therefore differ in their first line at most.
pub proof fn lemma_stamp_is_first_line(s: Stats, c: bool, t: String)
    requires
        no_line_break(t@),
    ensures
        no_line_break(painted(c, Hue::Yellow, t@)),
        rendered(s, Mode::Multiline, c, Some(t))
            == painted(c, Hue::Yellow, t@) + "\r\n"@ + rendered(s, Mode::Multiline, c, None),
{
    let p = painted(c, Hue::Yellow, t@);
    if c {
        let a = seq!['\x1b', '['] + seq!['3', '3'] + seq!['m'];
        let b = seq!['\x1b', '['] + seq!['3', '9'] + seq!['m'];
        assert(p =~= a + t@ + b);
        assert forall|i: int| 0 <= i < p.len() implies #[trigger] p[i] != '\n' && p[i] != '\r' by {
            if i < a.len() {
                assert(p[i] == a[i]);
            } else if i < a.len() + t@.len() {
                assert(p[i] == t@[i - a.len()]);
            } else {
                assert(p[i] == b[i - a.len() - t@.len()]);
            }
        }
    }
    assert(report(s, c, None) =~= report_body(s, c));
}

} // verus!
