//! Reading the managed table from the rows of the tracking sheet.  The
//! sheet is handed over as the text of its cells, row by row; capacities,
//! which are floating-point values, are read by the caller and handed
//! over per row.
use crate::data::list::Capacity;
use crate::manager::channel::{as_position, ChannelInfo};
use crate::manager::format::{SampleModel, TestStatus, TestTemperature};
use crate::text::{
    parse_unsigned_spec, parse_usize, same_text, trim, trim_end_seq, trim_seq, trim_start_seq,
};
use vstd::prelude::*;

verus! {

/// The number of columns the table knows.
pub const FIELD_COUNT: usize = 13;

/// A column of the tracking sheet.
#[derive(Debug, Clone, Copy, PartialEq, Eq, Structural)]
pub enum Column {
    Device,
    Channel,
    ProjectCode,
    SamplePerson,
    SampleModel,
    SampleId,
    TestStatus,
    TestTemperature,
    InitialCapacity,
    CurrentCapacity,
    PreviousCycles,
    CurrentCycles,
    ChannelPrv,
}

/// The column of field `f`; fields are numbered in the order above.
pub open spec fn column_of(f: int) -> Column {
    if f == 0 {
        Column::Device
    } else if f == 1 {
        Column::Channel
    } else if f == 2 {
        Column::ProjectCode
    } else if f == 3 {
        Column::SamplePerson
    } else if f == 4 {
        Column::SampleModel
    } else if f == 5 {
        Column::SampleId
    } else if f == 6 {
        Column::TestStatus
    } else if f == 7 {
        Column::TestTemperature
    } else if f == 8 {
        Column::InitialCapacity
    } else if f == 9 {
        Column::CurrentCapacity
    } else if f == 10 {
        Column::PreviousCycles
    } else if f == 11 {
        Column::CurrentCycles
    } else {
        Column::ChannelPrv
    }
}

/// The header of field `f`.
pub open spec fn header_key(f: int) -> Seq<char> {
    if f == 0 {
        "上位机"@
    } else if f == 1 {
        "测试通道"@
    } else if f == 2 {
        "申请单号"@
    } else if f == 3 {
        "送样人"@
    } else if f == 4 {
        "电芯型号"@
    } else if f == 5 {
        "电芯编号"@
    } else if f == 6 {
        "测试状态"@
    } else if f == 7 {
        "测试温度"@
    } else if f == 8 {
        "初始容量"@
    } else if f == 9 {
        "当前容量"@
    } else if f == 10 {
        "接续前圈数"@
    } else if f == 11 {
        "当前圈数"@
    } else {
        "先前测试通道"@
    }
}

/// The other header that field `f` is also found under: the test
/// temperature may be headed "测试方法".
pub open spec fn header_alt(f: int) -> Seq<char> {
    if f == 7 {
        "测试方法"@
    } else {
        header_key(f)
    }
}

/// Whether a header cell, trimmed, names field `f`.
pub open spec fn header_matches(cell: Seq<char>, f: int) -> bool {
    trim_seq(cell) == header_key(f) || trim_seq(cell) == header_alt(f)
}

/// The last position in the header row that names field `f`.
pub open spec fn last_header(row: Seq<Seq<char>>, f: int) -> Option<int>
    decreases row.len(),
{
    if row.len() == 0 {
        None
    } else if header_matches(row.last(), f) {
        Some(row.len() - 1)
    } else {
        last_header(row.drop_last(), f)
    }
}

/// Every column but the sample person and the previous channel must be there.
pub open spec fn is_required(f: int) -> bool {
    f != 3 && f != 12
}

/// The first required field, from `f` on, that the header row lacks.
pub open spec fn first_missing_from(row: Seq<Seq<char>>, f: nat) -> Option<int>
    decreases 13 - f,
{
    if f >= 13 {
        None
    } else if is_required(f as int) && last_header(row, f as int) is None {
        Some(f as int)
    } else {
        first_missing_from(row, f + 1)
    }
}

/// Where the columns of the table are.
#[derive(Debug, Clone, Copy, PartialEq, Eq, Structural)]
pub struct ColumnIndices {
    pub device: usize,
    pub channel: usize,
    pub project_code: usize,
    pub sample_person: Option<usize>,
    pub sample_model: usize,
    pub sample_id: usize,
    pub test_status: usize,
    pub test_temperature: usize,
    pub initial_capacity: usize,
    pub current_capacity: usize,
    pub previous_cycles: usize,
    pub current_cycles: usize,
    pub channel_prv: Option<usize>,
}

/// A header row lacks a required column.
#[derive(Debug, Clone, Copy, PartialEq, Eq, Structural)]
pub enum SheetError {
    MissingColumn(Column),
}

/// The position of field `f` as `indices` records it.
pub open spec fn index_of(indices: ColumnIndices, f: int) -> Option<int> {
    if f == 0 {
        Some(indices.device as int)
    } else if f == 1 {
        Some(indices.channel as int)
    } else if f == 2 {
        Some(indices.project_code as int)
    } else if f == 3 {
        match indices.sample_person {
            Some(i) => Some(i as int),
            None => None,
        }
    } else if f == 4 {
        Some(indices.sample_model as int)
    } else if f == 5 {
        Some(indices.sample_id as int)
    } else if f == 6 {
        Some(indices.test_status as int)
    } else if f == 7 {
        Some(indices.test_temperature as int)
    } else if f == 8 {
        Some(indices.initial_capacity as int)
    } else if f == 9 {
        Some(indices.current_capacity as int)
    } else if f == 10 {
        Some(indices.previous_cycles as int)
    } else if f == 11 {
        Some(indices.current_cycles as int)
    } else {
        match indices.channel_prv {
            Some(i) => Some(i as int),
            None => None,
        }
    }
}

impl Column {
    /// The column's header, as an error message names it.
    pub open spec fn label_spec(self) -> Seq<char> {
        match self {
            Column::Device => "上位机"@,
            Column::Channel => "测试通道"@,
            Column::ProjectCode => "申请单号"@,
            Column::SamplePerson => "送样人"@,
            Column::SampleModel => "电芯型号"@,
            Column::SampleId => "电芯编号"@,
            Column::TestStatus => "测试状态"@,
            Column::TestTemperature => "测试温度/测试方法"@,
            Column::InitialCapacity => "初始容量"@,
            Column::CurrentCapacity => "当前容量"@,
            Column::PreviousCycles => "接续前圈数"@,
            Column::CurrentCycles => "当前圈数"@,
            Column::ChannelPrv => "先前测试通道"@,
        }
    }

    /// The column's header, as an error message names it.
    pub fn label(&self) -> (r: &'static str)
        ensures
            r@ == self.label_spec(),
    {
        match self {
            Column::Device => "上位机",
            Column::Channel => "测试通道",
            Column::ProjectCode => "申请单号",
            Column::SamplePerson => "送样人",
            Column::SampleModel => "电芯型号",
            Column::SampleId => "电芯编号",
            Column::TestStatus => "测试状态",
            Column::TestTemperature => "测试温度/测试方法",
            Column::InitialCapacity => "初始容量",
            Column::CurrentCapacity => "当前容量",
            Column::PreviousCycles => "接续前圈数",
            Column::CurrentCycles => "当前圈数",
            Column::ChannelPrv => "先前测试通道",
        }
    }
}

/// The headers of field `f`.
fn header_keys(f: usize) -> (r: (&'static str, &'static str))
    requires
        f < 13,
    ensures
        r.0@ == header_key(f as int),
        r.1@ == header_alt(f as int),
{
    if f == 0 {
        ("上位机", "上位机")
    } else if f == 1 {
        ("测试通道", "测试通道")
    } else if f == 2 {
        ("申请单号", "申请单号")
    } else if f == 3 {
        ("送样人", "送样人")
    } else if f == 4 {
        ("电芯型号", "电芯型号")
    } else if f == 5 {
        ("电芯编号", "电芯编号")
    } else if f == 6 {
        ("测试状态", "测试状态")
    } else if f == 7 {
        ("测试温度", "测试方法")
    } else if f == 8 {
        ("初始容量", "初始容量")
    } else if f == 9 {
        ("当前容量", "当前容量")
    } else if f == 10 {
        ("接续前圈数", "接续前圈数")
    } else if f == 11 {
        ("当前圈数", "当前圈数")
    } else {
        ("先前测试通道", "先前测试通道")
    }
}

fn column_at(f: usize) -> (r: Column)
    requires
        f < 13,
    ensures
        r == column_of(f as int),
{
    if f == 0 {
        Column::Device
    } else if f == 1 {
        Column::Channel
    } else if f == 2 {
        Column::ProjectCode
    } else if f == 3 {
        Column::SamplePerson
    } else if f == 4 {
        Column::SampleModel
    } else if f == 5 {
        Column::SampleId
    } else if f == 6 {
        Column::TestStatus
    } else if f == 7 {
        Column::TestTemperature
    } else if f == 8 {
        Column::InitialCapacity
    } else if f == 9 {
        Column::CurrentCapacity
    } else if f == 10 {
        Column::PreviousCycles
    } else if f == 11 {
        Column::CurrentCycles
    } else {
        Column::ChannelPrv
    }
}

/// The position a slot holds, the required ones unwrapped.
fn slot(slots: &Vec<Option<usize>>, f: usize) -> (r: usize)
    requires
        f < slots.len(),
        slots@[f as int] is Some,
    ensures
        r == slots@[f as int]->0,
{
    match slots[f] {
        Some(i) => i,
        None => 0,
    }
}

impl ColumnIndices {
    /// Finds the columns in the header row: a column is where its header
    /// (trimmed) stands, the last such cell when there are several; the
    /// test temperature may be headed "测试方法" instead.  The first
    /// required column that is missing is reported.
    pub fn from_header_row(row: &Vec<String>) -> (r: Result<ColumnIndices, SheetError>)
        ensures
            match first_missing_from(row.deep_view(), 0) {
                Some(f) => r == Err::<ColumnIndices, SheetError>(
                    SheetError::MissingColumn(column_of(f)),
                ),
                None => r matches Ok(indices) && forall|f: int|
                    0 <= f < 13 ==> #[trigger] index_of(indices, f) == last_header(
                        row.deep_view(),
                        f,
                    ),
            },
    {
        let ghost rv = row.deep_view();
        let mut slots: Vec<Option<usize>> = vec![None; FIELD_COUNT];
        assert(rv.take(0) =~= Seq::<Seq<char>>::empty());
        let mut i: usize = 0;
        while i < row.len()
            invariant
                rv == row.deep_view(),
                i <= row.len(),
                slots.len() == 13,
                forall|g: int| 0 <= g < 13 ==> as_position(#[trigger] slots@[g]) == last_header(rv.take(i as int), g),
            decreases row.len() - i,
        {
            let cell = trim(row[i].as_str());
            let ghost upto = rv.take(i + 1);
            assert(upto.drop_last() =~= rv.take(i as int));
            assert(upto.last() == rv[i as int]);
            let mut f: usize = 0;
            while f < FIELD_COUNT
                invariant
                    rv == row.deep_view(),
                    i < row.len(),
                    upto == rv.take(i + 1),
                    upto.drop_last() == rv.take(i as int),
                    upto.last() == rv[i as int],
                    cell@ == trim_seq(rv[i as int]),
                    f <= 13,
                    slots.len() == 13,
                    forall|g: int| 0 <= g < f ==> as_position(#[trigger] slots@[g]) == last_header(upto, g),
                    forall|g: int| f <= g < 13 ==> as_position(#[trigger] slots@[g]) == last_header(rv.take(i as int), g),
                decreases 13 - f,
            {
                let (key, alt) = header_keys(f);
                if same_text(cell.as_str(), key) || same_text(cell.as_str(), alt) {
                    slots.set(f, Some(i));
                }
                f = f + 1;
            }
            i = i + 1;
        }
        assert(rv.take(row.len() as int) =~= rv);
        let mut f: usize = 0;
        while f < FIELD_COUNT
            invariant
                rv == row.deep_view(),
                f <= 13,
                slots.len() == 13,
                forall|g: int| 0 <= g < 13 ==> as_position(#[trigger] slots@[g]) == last_header(rv, g),
                first_missing_from(rv, 0) == first_missing_from(rv, f as nat),
            decreases 13 - f,
        {
            if f != 3 && f != 12 && slots[f].is_none() {
                return Err(SheetError::MissingColumn(column_at(f)));
            }
            f = f + 1;
        }
        assert forall|g: int| 0 <= g < 13 && is_required(g) implies #[trigger] slots@[g] is Some by {
            lemma_first_missing_none(rv, 0, g);
        }
        let indices = ColumnIndices {
            device: slot(&slots, 0),
            channel: slot(&slots, 1),
            project_code: slot(&slots, 2),
            sample_person: slots[3],
            sample_model: slot(&slots, 4),
            sample_id: slot(&slots, 5),
            test_status: slot(&slots, 6),
            test_temperature: slot(&slots, 7),
            initial_capacity: slot(&slots, 8),
            current_capacity: slot(&slots, 9),
            previous_cycles: slot(&slots, 10),
            current_cycles: slot(&slots, 11),
            channel_prv: slots[12],
        };
        assert forall|g: int| 0 <= g < 13 implies #[trigger] index_of(indices, g) == last_header(rv, g) by {
            assert(as_position(slots@[g]) == last_header(rv, g));
        }
        Ok(indices)
    }
}

proof fn lemma_first_missing_none(row: Seq<Seq<char>>, f: nat, g: int)
    requires
        first_missing_from(row, f) is None,
        f <= g < 13,
        is_required(g),
    ensures
        last_header(row, g) is Some,
    decreases 13 - f,
{
    if f < g {
        lemma_first_missing_none(row, f + 1, g);
    }
}

/// The text of cell `index` of a row; empty when the row is shorter.
pub open spec fn cell_text(row: Seq<Seq<char>>, index: int) -> Seq<char> {
    if 0 <= index < row.len() {
        row[index]
    } else {
        Seq::<char>::empty()
    }
}

/// The count in cell `index` of a row, when there is one.
pub open spec fn cell_count(row: Seq<Seq<char>>, index: int) -> Option<usize> {
    if 0 <= index < row.len() {
        match parse_unsigned_spec(row[index], usize::MAX as nat) {
            Ok(v) => Some(v as usize),
            Err(_) => None,
        }
    } else {
        None
    }
}

/// The text of an optional column.
pub open spec fn optional_cell(row: Seq<Seq<char>>, index: Option<usize>) -> Option<Seq<char>> {
    match index {
        Some(i) => Some(cell_text(row, i as int)),
        None => None,
    }
}

/// `info` is what the sheet row `row` says, read through `indices`, with
/// the capacities `capacities` read from the same row.
pub open spec fn row_describes(
    info: ChannelInfo,
    row: Seq<Seq<char>>,
    indices: ColumnIndices,
    capacities: (Option<Capacity>, Option<Capacity>),
) -> bool {
    &&& info.device@ == cell_text(row, indices.device as int)
    &&& info.channel@ == cell_text(row, indices.channel as int)
    &&& info.channel_prv.deep_view() == optional_cell(row, indices.channel_prv)
    &&& info.project_code@ == cell_text(row, indices.project_code as int)
    &&& info.sample_person.deep_view() == optional_cell(row, indices.sample_person)
    &&& info.sample_model == SampleModel::from_spec(cell_text(row, indices.sample_model as int))
    &&& info.sample_id@ == cell_text(row, indices.sample_id as int)
    &&& info.test_status == TestStatus::from_spec(cell_text(row, indices.test_status as int))
    &&& info.test_temperature == TestTemperature::from_spec(
        cell_text(row, indices.test_temperature as int),
    )
    &&& info.initial_capacity == capacities.0
    &&& info.current_capacity == capacities.1
    &&& info.previous_cycles == cell_count(row, indices.previous_cycles as int)
    &&& info.current_cycles == cell_count(row, indices.current_cycles as int)
    &&& info.form_path is None
}

/// The text of cell `index`, empty when the row is shorter.
pub fn cell_to_string(row: &Vec<String>, index: usize) -> (r: String)
    ensures
        r@ == cell_text(row.deep_view(), index as int),
{
    if index < row.len() {
        row[index].clone()
    } else {
        String::new()
    }
}

/// The count in cell `index`, when the cell exists and holds one.
pub fn parse_cell_usize(row: &Vec<String>, index: usize) -> (r: Option<usize>)
    ensures
        r == cell_count(row.deep_view(), index as int),
{
    if index < row.len() {
        match parse_usize(row[index].as_str()) {
            Ok(v) => Some(v),
            Err(_) => None,
        }
    } else {
        None
    }
}

fn optional_cell_to_string(row: &Vec<String>, index: Option<usize>) -> (r: Option<String>)
    ensures
        r.deep_view() == optional_cell(row.deep_view(), index),
{
    match index {
        Some(i) => Some(cell_to_string(row, i)),
        None => None,
    }
}

/// The channel a data row of the sheet describes; a row without a device
/// cell describes none.
pub fn channel_from_row(
    row: &Vec<String>,
    indices: &ColumnIndices,
    capacities: (Option<Capacity>, Option<Capacity>),
) -> (r: Option<ChannelInfo>)
    ensures
        match r {
            Some(info) => indices.device < row.len() && row_describes(
                info,
                row.deep_view(),
                *indices,
                capacities,
            ),
            None => indices.device >= row.len(),
        },
{
    if indices.device >= row.len() {
        return None;
    }
    let sample_model = cell_to_string(row, indices.sample_model);
    let test_status = cell_to_string(row, indices.test_status);
    let test_temperature = cell_to_string(row, indices.test_temperature);
    Some(
        ChannelInfo {
            device: cell_to_string(row, indices.device),
            channel: cell_to_string(row, indices.channel),
            channel_prv: optional_cell_to_string(row, indices.channel_prv),
            project_code: cell_to_string(row, indices.project_code),
            sample_person: optional_cell_to_string(row, indices.sample_person),
            sample_model: SampleModel::from(sample_model.as_str()),
            sample_id: cell_to_string(row, indices.sample_id),
            test_status: TestStatus::from(test_status.as_str()),
            test_temperature: TestTemperature::from(test_temperature.as_str()),
            initial_capacity: capacities.0,
            current_capacity: capacities.1,
            previous_cycles: parse_cell_usize(row, indices.previous_cycles),
            current_cycles: parse_cell_usize(row, indices.current_cycles),
            form_path: None,
        },
    )
}

/// The data rows among the first `n` rows of the sheet that describe a
/// channel: row 0 is the header, and a row needs a device cell.
pub open spec fn kept_rows(rows: Seq<Seq<Seq<char>>>, device: int, n: nat) -> Seq<int>
    decreases n,
{
    if n <= 1 {
        Seq::<int>::empty()
    } else if device < rows[n - 1].len() {
        kept_rows(rows, device, (n - 1) as nat).push(n - 1)
    } else {
        kept_rows(rows, device, (n - 1) as nat)
    }
}

/// The channels the data rows of the sheet describe, in row order; row 0
/// is the header, rows without a device cell are skipped.  `capacities`
/// holds the capacities read from each row.
pub fn channels_from_rows(
    rows: &Vec<Vec<String>>,
    indices: &ColumnIndices,
    capacities: &Vec<(Option<Capacity>, Option<Capacity>)>,
) -> (r: Vec<ChannelInfo>)
    requires
        capacities.len() == rows.len(),
    ensures
        ({
            let kept = kept_rows(rows.deep_view(), indices.device as int, rows.len() as nat);
            &&& r.len() == kept.len()
            &&& forall|k: int|
                0 <= k < r.len() ==> row_describes(
                    #[trigger] r@[k],
                    rows.deep_view()[kept[k]],
                    *indices,
                    capacities@[kept[k]],
                )
        }),
{
    let ghost rv = rows.deep_view();
    let mut out: Vec<ChannelInfo> = Vec::new();
    if rows.len() == 0 {
        return out;
    }
    let mut i: usize = 1;
    while i < rows.len()
        invariant
            rv == rows.deep_view(),
            capacities.len() == rows.len(),
            1 <= i <= rows.len(),
            out.len() == kept_rows(rv, indices.device as int, i as nat).len(),
            forall|k: int|
                0 <= k < out.len() ==> row_describes(
                    #[trigger] out@[k],
                    rv[kept_rows(rv, indices.device as int, i as nat)[k]],
                    *indices,
                    capacities@[kept_rows(rv, indices.device as int, i as nat)[k]],
                ),
        decreases rows.len() - i,
    {
        let ghost before = kept_rows(rv, indices.device as int, i as nat);
        assert(rows@[i as int].deep_view() == rv[i as int]);
        match channel_from_row(&rows[i], indices, capacities[i]) {
            Some(info) => {
                out.push(info);
                assert(kept_rows(rv, indices.device as int, (i + 1) as nat) == before.push(
                    i as int,
                ));
            },
            None => {
                assert(kept_rows(rv, indices.device as int, (i + 1) as nat) == before);
            },
        }
        i = i + 1;
    }
    out
}

/// The header row of the table the tool writes: every column under its
/// own header, in the order of the fields.
pub open spec fn written_headers() -> Seq<Seq<char>> {
    Seq::new(13, |f: int| header_key(f))
}

/// The headers of the table the tool writes, in column order.
pub fn table_headers() -> (r: Vec<&'static str>)
    ensures
        r.len() == written_headers().len(),
        forall|i: int| 0 <= i < r.len() ==> #[trigger] r[i]@ == written_headers()[i],
{
    let mut r: Vec<&'static str> = Vec::new();
    let mut f: usize = 0;
    while f < FIELD_COUNT
        invariant
            f <= 13,
            r.len() == f,
            forall|i: int| 0 <= i < f ==> #[trigger] r[i]@ == header_key(i),
        decreases 13 - f,
    {
        let (key, _) = header_keys(f);
        r.push(key);
        f = f + 1;
    }
    r
}

proof fn lemma_headers_plain(f: int, g: int)
    requires
        0 <= f < 13,
        0 <= g < 13,
    ensures
        trim_seq(header_key(g)) == header_key(g),
        g != f ==> header_key(g) != header_key(f) && header_key(g) != header_alt(f),
{
    reveal_strlit("上位机");
    reveal_strlit("测试通道");
    reveal_strlit("申请单号");
    reveal_strlit("送样人");
    reveal_strlit("电芯型号");
    reveal_strlit("电芯编号");
    reveal_strlit("测试状态");
    reveal_strlit("测试温度");
    reveal_strlit("初始容量");
    reveal_strlit("当前容量");
    reveal_strlit("接续前圈数");
    reveal_strlit("当前圈数");
    reveal_strlit("先前测试通道");
    reveal_strlit("测试方法");
    let k = header_key(g);
    assert(trim_start_seq(k) == k);
    assert(trim_end_seq(k) == k);
    if g != f {
        assert(header_key(g) != header_key(f)) by {
            if header_key(g) == header_key(f) {
                assert(header_key(g).len() == header_key(f).len());
                assert(header_key(g)[0] == header_key(f)[0]);
                assert(header_key(g)[1] == header_key(f)[1]);
                assert(header_key(g)[2] == header_key(f)[2]);
            }
        }
        assert(header_key(g) != header_alt(f)) by {
            if header_key(g) == header_alt(f) {
                assert(header_key(g).len() == header_alt(f).len());
                assert(header_key(g)[0] == header_alt(f)[0]);
                assert(header_key(g)[1] == header_alt(f)[1]);
                assert(header_key(g)[2] == header_alt(f)[2]);
                assert(header_key(g)[3] == header_alt(f)[3]);
            }
        }
    }
}

proof fn lemma_last_header_of_written(f: int, n: nat)
    requires
        0 <= f < 13,
        n <= 13,
    ensures
        last_header(written_headers().take(n as int), f) == if f < n {
            Some(f)
        } else {
            None::<int>
        },
    decreases n,
{
    if n > 0 {
        let s = written_headers().take(n as int);
        assert(s.drop_last() =~= written_headers().take(n - 1));
        assert(s.last() == header_key(n - 1));
        lemma_headers_plain(f, n - 1);
        lemma_last_header_of_written(f, (n - 1) as nat);
    }
}

/// The table the tool writes reads back column for column: in its header
/// row every field is found at its own position.
pub proof fn law_written_headers_read_back(f: int)
    requires
        0 <= f < 13,
    ensures
        last_header(written_headers(), f) == Some(f),
        first_missing_from(written_headers(), 0) is None,
{
    lemma_last_header_of_written(f, 13);
    assert(written_headers().take(13) =~= written_headers());
    assert forall|g: int| 0 <= g < 13 implies #[trigger] last_header(written_headers(), g) is Some by {
        lemma_last_header_of_written(g, 13);
    }
    lemma_no_missing(0);
}

proof fn lemma_no_missing(f: nat)
    requires
        f <= 13,
        forall|g: int| 0 <= g < 13 ==> #[trigger] last_header(written_headers(), g) is Some,
    ensures
        first_missing_from(written_headers(), f) is None,
    decreases 13 - f,
{
    if f < 13 {
        assert(last_header(written_headers(), f as int) is Some);
        lemma_no_missing(f + 1);
    }
}

} // verus!
