//! The channel list laid out as a text table, with a summary below it.
//! Column widths go by the displayed width of the text, which the
//! `unicode-width` crate measures.
use crate::data::format::TestStatus;
use crate::data::list::ChannelInfo;
use crate::input::list::PrettyPrint;
use crate::manager::group::{group_push, grouped, groups_view};
use crate::text::{
    decimal_digits, decimal_string, owned, push_char, push_repeat, repeat, saturating_sub,
};
use unicode_width::{UnicodeWidthChar, UnicodeWidthStr};
use vstd::prelude::*;

verus! {

/// What `UnicodeWidthStr::width` gives for a text: its displayed width in
/// terminal columns.
pub uninterp spec fn str_width_spec(text: Seq<char>) -> usize;

/// What `UnicodeWidthChar::width` gives for a character: its displayed
/// width in columns, `None` for a control character.
pub uninterp spec fn char_width_spec(c: char) -> Option<usize>;

/// The displayed width of a text (`unicode_width::UnicodeWidthStr::width`).
/// The contract claims only that the width is a function of the text.
#[verifier::external_body]
fn text_width(text: &str) -> (r: usize)
    ensures
        r == str_width_spec(text@),
{
    UnicodeWidthStr::width(text)
}

/// The displayed width of a character (`unicode_width::UnicodeWidthChar::width`).
/// The contract claims only that the width is a function of the character.
#[verifier::external_body]
fn char_width(c: char) -> (r: Option<usize>)
    ensures
        r == char_width_spec(c),
{
    UnicodeWidthChar::width(c)
}

/// One row of the table: a channel, with its capacities as they are to
/// be shown (`12.3mAh`, or `N/A` when there is none).
#[derive(Debug)]
pub struct ChannelRow {
    pub info: ChannelInfo,
    pub initial_capacity: String,
    pub current_capacity: String,
}

/// The channel list to lay out, with the sum of the current capacities
/// as it is to be shown.
#[derive(Debug)]
pub struct ChannelTable {
    pub rows: Vec<ChannelRow>,
    pub total_capacity: String,
}

/// The width of column `i`; the border has twelve columns, the rows eleven.
pub open spec fn col_width(i: int) -> nat {
    if i == 0 {
        4
    } else if i == 1 {
        12
    } else if i == 2 {
        8
    } else if i == 3 {
        14
    } else if i == 4 {
        12
    } else if i == 5 {
        10
    } else {
        12
    }
}

fn column_width(i: usize) -> (r: usize)
    requires
        i < 12,
    ensures
        r == col_width(i as int),
{
    if i == 0 {
        4
    } else if i == 1 {
        12
    } else if i == 2 {
        8
    } else if i == 3 {
        14
    } else if i == 4 {
        12
    } else if i == 5 {
        10
    } else {
        12
    }
}

/// The heading of column `i`.
pub open spec fn heading(i: int) -> Seq<char> {
    if i == 0 {
        "ID"@
    } else if i == 1 {
        "设备"@
    } else if i == 2 {
        "通道"@
    } else if i == 3 {
        "项目编号"@
    } else if i == 4 {
        "样品负责人"@
    } else if i == 5 {
        "样品型号"@
    } else if i == 6 {
        "测试状态"@
    } else if i == 7 {
        "测试温度"@
    } else if i == 8 {
        "初始容量"@
    } else if i == 9 {
        "当前容量"@
    } else {
        "已循环次数"@
    }
}

fn heading_of(i: usize) -> (r: &'static str)
    requires
        i < 11,
    ensures
        r@ == heading(i as int),
{
    if i == 0 {
        "ID"
    } else if i == 1 {
        "设备"
    } else if i == 2 {
        "通道"
    } else if i == 3 {
        "项目编号"
    } else if i == 4 {
        "样品负责人"
    } else if i == 5 {
        "样品型号"
    } else if i == 6 {
        "测试状态"
    } else if i == 7 {
        "测试温度"
    } else if i == 8 {
        "初始容量"
    } else if i == 9 {
        "当前容量"
    } else {
        "已循环次数"
    }
}

/// The first `k` segments of a border line, joined by `mid`.
pub open spec fn border_segments(k: nat, mid: char) -> Seq<char>
    decreases k,
{
    if k == 0 {
        Seq::empty()
    } else {
        border_segments((k - 1) as nat, mid) + repeat('─', col_width(k - 1)) + if k - 1 < 11 {
            seq![mid]
        } else {
            Seq::empty()
        }
    }
}

/// A border line over the twelve columns.
pub open spec fn border_line(left: char, mid: char, right: char) -> Seq<char> {
    seq![left] + border_segments(12, mid) + seq![right] + "\n"@
}

/// `text` centred in `width` columns; the odd column goes to the right.
pub open spec fn centred(text: Seq<char>, width: nat) -> Seq<char> {
    let padding = saturating_sub(width, str_width_spec(text) as nat);
    repeat(' ', padding / 2) + text + repeat(' ', (padding - padding / 2) as nat)
}

/// The first `k` cells of the heading line.
pub open spec fn heading_cells(k: nat) -> Seq<char>
    decreases k,
{
    if k == 0 {
        Seq::empty()
    } else {
        heading_cells((k - 1) as nat) + centred(heading(k - 1), col_width(k - 1)) + "│"@
    }
}

/// The heading line.
pub open spec fn heading_line() -> Seq<char> {
    "│"@ + heading_cells(11) + "\n"@
}

/// The characters of `text` that fit in `width` columns together with a
/// trailing `...`, followed by `...`; `used` columns are taken already.
pub open spec fn truncated(text: Seq<char>, width: nat, used: nat) -> Seq<char>
    decreases text.len(),
{
    if text.len() == 0 {
        Seq::empty()
    } else {
        let w = match char_width_spec(text[0]) {
            Some(w) => w as nat,
            None => 0,
        };
        if used + w + 3 > width {
            "..."@
        } else {
            seq![text[0]] + truncated(text.drop_first(), width, used + w)
        }
    }
}

/// What a cell shows of `text` in `width` columns: all of it when it
/// fits, else a truncation.
pub open spec fn shown(text: Seq<char>, width: nat) -> Seq<char> {
    if str_width_spec(text) > width {
        truncated(text, width, 0)
    } else {
        text
    }
}

/// Column `i` is aligned right: the position and the numbers.
pub open spec fn right_aligned(i: int) -> bool {
    i == 0 || i == 8 || i == 9 || i == 10 || i == 11
}

/// A cell of column `i` holding `text`.
pub open spec fn cell(text: Seq<char>, i: int) -> Seq<char> {
    let s = shown(text, col_width(i));
    let padding = saturating_sub(col_width(i), str_width_spec(s) as nat);
    if right_aligned(i) {
        repeat(' ', padding) + s
    } else {
        s + repeat(' ', padding)
    }
}

/// The previous cycle count as shown.
pub open spec fn cycles_text(cycles: Option<usize>) -> Seq<char> {
    match cycles {
        Some(v) => decimal_digits(v as nat) + "次"@,
        None => "N/A"@,
    }
}

/// The text of column `i` for row `row` at position `k`.
pub open spec fn column_text(row: ChannelRow, k: int, i: int) -> Seq<char> {
    if i == 0 {
        decimal_digits((k + 1) as nat)
    } else if i == 1 {
        row.info.device@
    } else if i == 2 {
        row.info.channel@
    } else if i == 3 {
        row.info.project_code@
    } else if i == 4 {
        row.info.sample_person@
    } else if i == 5 {
        row.info.sample_model.label()
    } else if i == 6 {
        row.info.test_status.label()
    } else if i == 7 {
        row.info.test_temperature.label()
    } else if i == 8 {
        row.initial_capacity@
    } else if i == 9 {
        row.current_capacity@
    } else {
        cycles_text(row.info.previous_cycles)
    }
}

/// The first `n` cells of a row.
pub open spec fn row_cells(row: ChannelRow, k: int, n: nat) -> Seq<char>
    decreases n,
{
    if n == 0 {
        Seq::empty()
    } else {
        row_cells(row, k, (n - 1) as nat) + cell(column_text(row, k, n - 1), n - 1) + "│"@
    }
}

/// The line of the row at position `k`.
pub open spec fn row_line(row: ChannelRow, k: int) -> Seq<char> {
    "│"@ + row_cells(row, k, 11) + "\n"@
}

/// The lines of the first `n` rows.
pub open spec fn row_lines(rows: Seq<ChannelRow>, n: nat) -> Seq<char>
    decreases n,
{
    if n == 0 {
        Seq::empty()
    } else {
        row_lines(rows, (n - 1) as nat) + row_line(rows[n - 1], n - 1)
    }
}

/// The number of the first `n` rows with the given status.
pub open spec fn count_status(rows: Seq<ChannelRow>, status: TestStatus, n: nat) -> nat
    decreases n,
{
    if n == 0 {
        0
    } else {
        count_status(rows, status, (n - 1) as nat) + if rows[n - 1].info.test_status == status {
            1nat
        } else {
            0nat
        }
    }
}

/// The temperature labels of the first `n` rows, each keyed by itself.
pub open spec fn temperature_items(rows: Seq<ChannelRow>, n: nat) -> Seq<(Seq<char>, Seq<char>)>
    decreases n,
{
    if n == 0 {
        Seq::empty()
    } else {
        let l = rows[n - 1].info.test_temperature.label();
        temperature_items(rows, (n - 1) as nat).push((l, l))
    }
}

/// The model labels of the first `n` rows, each keyed by itself.
pub open spec fn model_items(rows: Seq<ChannelRow>, n: nat) -> Seq<(Seq<char>, Seq<char>)>
    decreases n,
{
    if n == 0 {
        Seq::empty()
    } else {
        let l = rows[n - 1].info.sample_model.label();
        model_items(rows, (n - 1) as nat).push((l, l))
    }
}

/// The first `n` entries of a distribution, `label×count`, joined by ` | `.
pub open spec fn distribution(groups: Seq<(Seq<char>, Seq<Seq<char>>)>, n: nat) -> Seq<char>
    decreases n,
{
    if n == 0 {
        Seq::empty()
    } else {
        let entry = groups[n - 1].0 + "×"@ + decimal_digits(groups[n - 1].1.len());
        if n == 1 {
            entry
        } else {
            distribution(groups, (n - 1) as nat) + " | "@ + entry
        }
    }
}

/// The summary below the table: counts, total capacity, and how the
/// channels spread over temperatures and models, in order of first
/// appearance.
pub open spec fn summary(t: ChannelTable) -> Seq<char> {
    let rows = t.rows@;
    let n = rows.len();
    let temps = grouped(temperature_items(rows, n));
    let models = grouped(model_items(rows, n));
    "\n📊 统计信息: 共 "@ + decimal_digits(n) + " 个通道 | 长期测试: "@ + decimal_digits(
        count_status(rows, TestStatus::Long, n),
    ) + " 个 | 离线: "@ + decimal_digits(count_status(rows, TestStatus::Offline, n))
        + " 个 | 总容量: "@ + t.total_capacity@ + " mAh\n"@ + "🌡️ 温度分布: "@ + distribution(
        temps,
        temps.len(),
    ) + "\n"@ + "📦 样品型号分布: "@ + distribution(models, models.len()) + "\n"@
}

/// The whole text of the table.
pub open spec fn table_text(t: ChannelTable) -> Seq<char> {
    if t.rows.len() == 0 {
        "无通道数据"@
    } else {
        border_line('┌', '┬', '┐') + heading_line() + border_line('├', '┼', '┤') + row_lines(
            t.rows@,
            t.rows.len() as nat,
        ) + border_line('└', '┴', '┘') + summary(t)
    }
}

/// Appends a border line.
fn push_border(out: &mut String, left: char, mid: char, right: char)
    ensures
        final(out)@ == old(out)@ + border_line(left, mid, right),
{
    let ghost start = out@;
    push_char(out, left);
    let mut i: usize = 0;
    while i < 12
        invariant
            i <= 12,
            out@ == start + seq![left] + border_segments(i as nat, mid),
        decreases 12 - i,
    {
        push_repeat(out, '─', column_width(i));
        if i < 11 {
            push_char(out, mid);
        }
        assert(out@ =~= start + seq![left] + border_segments((i + 1) as nat, mid));
        i = i + 1;
    }
    push_char(out, right);
    out.append("\n");
    assert(out@ =~= start + border_line(left, mid, right));
}

/// Appends the heading line.
fn push_heading(out: &mut String)
    ensures
        final(out)@ == old(out)@ + heading_line(),
{
    let ghost start = out@;
    out.append("│");
    let mut i: usize = 0;
    while i < 11
        invariant
            i <= 11,
            out@ == start + "│"@ + heading_cells(i as nat),
        decreases 11 - i,
    {
        let h = heading_of(i);
        let width = column_width(i);
        let hw = text_width(h);
        let padding = if width >= hw {
            width - hw
        } else {
            0
        };
        let left = padding / 2;
        push_repeat(out, ' ', left);
        out.append(h);
        push_repeat(out, ' ', padding - left);
        out.append("│");
        assert(out@ =~= start + "│"@ + heading_cells((i + 1) as nat));
        i = i + 1;
    }
    out.append("\n");
    assert(out@ =~= start + heading_line());
}

/// What a cell shows of `text` in `width` columns.
fn shown_text(text: &str, width: usize) -> (r: String)
    ensures
        r@ == shown(text@, width as nat),
{
    if text_width(text) <= width {
        return owned(text);
    }
    let chars = crate::text::chars_of(text);
    let mut out = String::new();
    let mut used: usize = 0;
    let mut i: usize = 0;
    assert(text@.subrange(0, text@.len() as int) =~= text@);
    assert(out@ + truncated(text@, width as nat, 0) =~= truncated(text@, width as nat, 0));
    while i < chars.len()
        invariant
            chars@ == text@,
            str_width_spec(text@) > width,
            i <= chars.len(),
            used <= width,
            out@ + truncated(text@.subrange(i as int, text@.len() as int), width as nat, used as nat)
                == truncated(text@, width as nat, 0),
        decreases chars.len() - i,
    {
        let ghost rest = text@.subrange(i as int, text@.len() as int);
        assert(rest[0] == chars@[i as int]);
        assert(rest.drop_first() =~= text@.subrange(i + 1, text@.len() as int));
        let c = chars[i];
        let cw = match char_width(c) {
            Some(w) => w,
            None => 0,
        };
        if cw > width || used > width - cw || width - cw - used < 3 {
            assert(truncated(rest, width as nat, used as nat) == "..."@);
            out.append("...");
            return out;
        }
        let ghost before = out@;
        assert(truncated(rest, width as nat, used as nat) == seq![c] + truncated(
            rest.drop_first(),
            width as nat,
            (used + cw) as nat,
        ));
        push_char(&mut out, c);
        assert(out@ + truncated(rest.drop_first(), width as nat, (used + cw) as nat) =~= before
            + truncated(rest, width as nat, used as nat));
        used = used + cw;
        i = i + 1;
    }
    assert(text@.subrange(i as int, text@.len() as int) =~= Seq::<char>::empty());
    assert(out@ =~= out@ + truncated(Seq::<char>::empty(), width as nat, used as nat));
    out
}

/// Appends a cell of column `i` holding `text`, and the bar after it.
fn push_cell(out: &mut String, text: &str, i: usize)
    requires
        i < 11,
    ensures
        final(out)@ == old(out)@ + cell(text@, i as int) + "│"@,
{
    let ghost start = out@;
    let width = column_width(i);
    let s = shown_text(text, width);
    let sw = text_width(s.as_str());
    let padding = if width >= sw {
        width - sw
    } else {
        0
    };
    if i == 0 || i == 8 || i == 9 || i == 10 || i == 11 {
        push_repeat(out, ' ', padding);
        out.append(s.as_str());
    } else {
        out.append(s.as_str());
        push_repeat(out, ' ', padding);
    }
    out.append("│");
    assert(out@ =~= start + cell(text@, i as int) + "│"@);
}

/// The text of column `i` for the row at position `k`.
fn column_string(row: &ChannelRow, k: usize, i: usize) -> (r: String)
    requires
        i < 11,
        k < usize::MAX,
    ensures
        r@ == column_text(*row, k as int, i as int),
{
    if i == 0 {
        decimal_string((k + 1) as u64)
    } else if i == 1 {
        row.info.device.clone()
    } else if i == 2 {
        row.info.channel.clone()
    } else if i == 3 {
        row.info.project_code.clone()
    } else if i == 4 {
        row.info.sample_person.clone()
    } else if i == 5 {
        row.info.sample_model.to_string()
    } else if i == 6 {
        row.info.test_status.to_string()
    } else if i == 7 {
        row.info.test_temperature.to_string()
    } else if i == 8 {
        row.initial_capacity.clone()
    } else if i == 9 {
        row.current_capacity.clone()
    } else {
        match row.info.previous_cycles {
            Some(v) => {
                let mut s = decimal_string(v as u64);
                s.append("次");
                s
            },
            None => owned("N/A"),
        }
    }
}

/// Appends the line of the row at position `k`.
fn push_row(out: &mut String, row: &ChannelRow, k: usize)
    requires
        k < usize::MAX,
    ensures
        final(out)@ == old(out)@ + row_line(*row, k as int),
{
    let ghost start = out@;
    out.append("│");
    let mut i: usize = 0;
    while i < 11
        invariant
            i <= 11,
            k < usize::MAX,
            out@ == start + "│"@ + row_cells(*row, k as int, i as nat),
        decreases 11 - i,
    {
        let text = column_string(row, k, i);
        push_cell(out, text.as_str(), i);
        assert(out@ =~= start + "│"@ + row_cells(*row, k as int, (i + 1) as nat));
        i = i + 1;
    }
    out.append("\n");
    assert(out@ =~= start + row_line(*row, k as int));
}

/// Appends a distribution, `label×count` joined by ` | `.
fn push_distribution(out: &mut String, groups: &Vec<(String, Vec<String>)>)
    ensures
        final(out)@ == old(out)@ + distribution(groups_view(groups@), groups.len() as nat),
{
    let ghost start = out@;
    let ghost gv = groups_view(groups@);
    let mut i: usize = 0;
    while i < groups.len()
        invariant
            gv == groups_view(groups@),
            i <= groups.len(),
            out@ == start + distribution(gv, i as nat),
        decreases groups.len() - i,
    {
        if i > 0 {
            out.append(" | ");
        }
        out.append(groups[i].0.as_str());
        out.append("×");
        let count = decimal_string(groups[i].1.len() as u64);
        out.append(count.as_str());
        assert(gv[i as int].1.len() == groups@[i as int].1.len());
        assert(out@ =~= start + distribution(gv, (i + 1) as nat));
        i = i + 1;
    }
}

/// Appends the lines of all rows.
fn push_rows(out: &mut String, rows: &Vec<ChannelRow>)
    ensures
        final(out)@ == old(out)@ + row_lines(rows@, rows.len() as nat),
{
    let ghost start = out@;
    let mut k: usize = 0;
    assert(out@ =~= start + row_lines(rows@, 0));
    while k < rows.len()
        invariant
            k <= rows.len(),
            out@ == start + row_lines(rows@, k as nat),
        decreases rows.len() - k,
    {
        push_row(out, &rows[k], k);
        assert(out@ =~= start + row_lines(rows@, (k + 1) as nat));
        k = k + 1;
    }
}

/// The counts of long-running and offline channels, and the channels
/// grouped by temperature and by model.
fn tally(rows: &Vec<ChannelRow>) -> (r: (usize, usize, Vec<(String, Vec<String>)>, Vec<(String, Vec<String>)>))
    ensures
        r.0 == count_status(rows@, TestStatus::Long, rows.len() as nat),
        r.1 == count_status(rows@, TestStatus::Offline, rows.len() as nat),
        groups_view(r.2@) == grouped(temperature_items(rows@, rows.len() as nat)),
        groups_view(r.3@) == grouped(model_items(rows@, rows.len() as nat)),
{
    let mut long_count: usize = 0;
    let mut offline_count: usize = 0;
    let mut temperatures: Vec<(String, Vec<String>)> = Vec::new();
    let mut models: Vec<(String, Vec<String>)> = Vec::new();
    assert(groups_view(temperatures@) =~= Seq::<(Seq<char>, Seq<Seq<char>>)>::empty());
    assert(groups_view(models@) =~= Seq::<(Seq<char>, Seq<Seq<char>>)>::empty());
    let mut k: usize = 0;
    while k < rows.len()
        invariant
            k <= rows.len(),
            long_count == count_status(rows@, TestStatus::Long, k as nat),
            offline_count == count_status(rows@, TestStatus::Offline, k as nat),
            long_count <= k,
            offline_count <= k,
            groups_view(temperatures@) == grouped(temperature_items(rows@, k as nat)),
            groups_view(models@) == grouped(model_items(rows@, k as nat)),
        decreases rows.len() - k,
    {
        let row = &rows[k];
        match row.info.test_status {
            TestStatus::Long => {
                long_count = long_count + 1;
            },
            TestStatus::Offline => {
                offline_count = offline_count + 1;
            },
        }
        let t = row.info.test_temperature.to_string();
        let ghost titems = temperature_items(rows@, (k + 1) as nat);
        assert(titems.drop_last() =~= temperature_items(rows@, k as nat));
        group_push(&mut temperatures, t.clone(), t);
        let m = row.info.sample_model.to_string();
        let ghost mitems = model_items(rows@, (k + 1) as nat);
        assert(mitems.drop_last() =~= model_items(rows@, k as nat));
        group_push(&mut models, m.clone(), m);
        k = k + 1;
    }
    (long_count, offline_count, temperatures, models)
}

/// Appends the summary below the table.
fn push_summary(out: &mut String, table: &ChannelTable)
    ensures
        final(out)@ == old(out)@ + summary(*table),
{
    let ghost start = out@;
    let (long_count, offline_count, temperatures, models) = tally(&table.rows);
    out.append("\n📊 统计信息: 共 ");
    let n = decimal_string(table.rows.len() as u64);
    out.append(n.as_str());
    out.append(" 个通道 | 长期测试: ");
    let l = decimal_string(long_count as u64);
    out.append(l.as_str());
    out.append(" 个 | 离线: ");
    let o = decimal_string(offline_count as u64);
    out.append(o.as_str());
    out.append(" 个 | 总容量: ");
    out.append(table.total_capacity.as_str());
    out.append(" mAh\n");
    out.append("🌡️ 温度分布: ");
    push_distribution(out, &temperatures);
    out.append("\n");
    out.append("📦 样品型号分布: ");
    push_distribution(out, &models);
    out.append("\n");
    assert(out@ =~= start + summary(*table));
}

impl PrettyPrint for ChannelTable {
    /// The channel list as a text table with a summary below it.
    fn pretty_print(&self) -> (r: String)
        ensures
            r@ == table_text(*self),
    {
        if self.rows.len() == 0 {
            return owned("无通道数据");
        }
        let mut out = String::new();
        push_border(&mut out, '┌', '┬', '┐');
        push_heading(&mut out);
        push_border(&mut out, '├', '┼', '┤');
        push_rows(&mut out, &self.rows);
        push_border(&mut out, '└', '┴', '┘');
        push_summary(&mut out, self);
        assert(out@ =~= table_text(*self));
        out
    }
}

} // verus!
