//! Reading the tracking sheet into the library's channel list.  The
//! sheet is handed over as the text of its cells, row by row, together
//! with the capacities the caller read from each row.
use crate::data::format::{SampleModel, TestStatus, TestTemperature};
use crate::data::list::{Capacity, ChannelInfo};
use crate::manager::channel::as_position;
use crate::manager::sheet::{cell_count, cell_text, header_alt, header_key, parse_cell_usize, cell_to_string};
use crate::text::same_text;
use vstd::prelude::*;

verus! {

/// The number of header slots the list reads.
pub const SLOT_COUNT: usize = 13;

/// The last position in the header row whose text is the header of
/// field `f` (fields numbered as the sheet's columns, 0 to 11).
pub open spec fn exact_header(row: Seq<Seq<char>>, f: int) -> Option<int>
    decreases row.len(),
{
    if row.len() == 0 {
        None
    } else if row.last() == header_key(f) || row.last() == header_alt(f) {
        Some(row.len() - 1)
    } else {
        exact_header(row.drop_last(), f)
    }
}

/// The header slots: field `f < 12` is at `exact_header(row, f)`; the
/// thirteenth slot is never filled.
pub open spec fn slots_spec(row: Seq<Seq<char>>, f: int) -> Option<int> {
    if f < 12 {
        exact_header(row, f)
    } else {
        None
    }
}

/// The headers of field `f`.
fn slot_keys(f: usize) -> (r: (&'static str, &'static str))
    requires
        f < 12,
    ensures
        r.0@ == header_key(f as int),
        r.1@ == header_alt(f as int),
{
    if f == 0 {
        ("上位机", "上位机")
    } else if f == 1 {
        ("测试通道", "测试通道")
    } else if f == 2 {
        ("申请单号", "申请单号")
    } else if f == 3 {
        ("送样人", "送样人")
    } else if f == 4 {
        ("电芯型号", "电芯型号")
    } else if f == 5 {
        ("电芯编号", "电芯编号")
    } else if f == 6 {
        ("测试状态", "测试状态")
    } else if f == 7 {
        ("测试温度", "测试方法")
    } else if f == 8 {
        ("初始容量", "初始容量")
    } else if f == 9 {
        ("当前容量", "当前容量")
    } else if f == 10 {
        ("接续前圈数", "接续前圈数")
    } else {
        ("当前圈数", "当前圈数")
    }
}

/// Finds the columns in the header row: the last cell whose text is a
/// column's header (the test temperature may be headed "测试方法").
pub fn header_slots(row: &Vec<String>) -> (r: Vec<Option<usize>>)
    ensures
        r.len() == 13,
        forall|f: int| 0 <= f < 13 ==> as_position(#[trigger] r@[f]) == slots_spec(row.deep_view(), f),
{
    let ghost rv = row.deep_view();
    let mut slots: Vec<Option<usize>> = vec![None; SLOT_COUNT];
    assert(rv.take(0) =~= Seq::<Seq<char>>::empty());
    let mut i: usize = 0;
    while i < row.len()
        invariant
            rv == row.deep_view(),
            i <= row.len(),
            slots.len() == 13,
            forall|g: int| 0 <= g < 13 ==> as_position(#[trigger] slots@[g]) == slots_spec(rv.take(i as int), g),
        decreases row.len() - i,
    {
        let ghost upto = rv.take(i + 1);
        assert(upto.drop_last() =~= rv.take(i as int));
        assert(upto.last() == rv[i as int]);
        let mut f: usize = 0;
        while f < 12
            invariant
                rv == row.deep_view(),
                i < row.len(),
                upto == rv.take(i + 1),
                upto.drop_last() == rv.take(i as int),
                upto.last() == rv[i as int],
                f <= 12,
                slots.len() == 13,
                slots@[12] is None,
                forall|g: int| 0 <= g < f ==> as_position(#[trigger] slots@[g]) == slots_spec(upto, g),
                forall|g: int| f <= g < 13 ==> as_position(#[trigger] slots@[g]) == slots_spec(rv.take(i as int), g),
            decreases 12 - f,
        {
            let (key, alt) = slot_keys(f);
            if same_text(row[i].as_str(), key) || same_text(row[i].as_str(), alt) {
                slots.set(f, Some(i));
            }
            f = f + 1;
        }
        i = i + 1;
    }
    assert(rv.take(row.len() as int) =~= rv);
    slots
}

/// Whether reading the rows goes through: a sheet with data rows needs
/// the device column, and when the first data row has a device cell,
/// every other column as well.
pub open spec fn rows_readable(rows: Seq<Seq<Seq<char>>>) -> bool {
    rows.len() <= 1 || ({
        let header = rows[0];
        &&& slots_spec(header, 0) is Some
        &&& slots_spec(header, 0)->0 < rows[1].len() ==> forall|f: int|
            0 <= f < 12 ==> #[trigger] slots_spec(header, f) is Some
    })
}

/// The number of data rows read: the rows after the header up to the
/// first one without a device cell.
pub open spec fn rows_read(rows: Seq<Seq<Seq<char>>>, device: int, n: nat) -> nat
    decreases n,
{
    if n <= 1 {
        0
    } else if rows_read(rows, device, (n - 1) as nat) == n - 2 && device < rows[n - 1].len() {
        (n - 1) as nat
    } else {
        rows_read(rows, device, (n - 1) as nat)
    }
}

/// `info` is what data row `row` says through the header `header`, with
/// the capacities read from it.
pub open spec fn list_row_describes(
    info: ChannelInfo,
    row: Seq<Seq<char>>,
    header: Seq<Seq<char>>,
    capacities: (Option<Capacity>, Option<Capacity>),
) -> bool {
    let at = |f: int| slots_spec(header, f)->0;
    &&& info.device@ == cell_text(row, at(0))
    &&& info.channel@ == cell_text(row, at(1))
    &&& info.project_code@ == cell_text(row, at(2))
    &&& info.sample_person@ == cell_text(row, at(3))
    &&& info.sample_model == SampleModel::from_spec(cell_text(row, at(4)))
    &&& info.sample_id@ == cell_text(row, at(5))
    &&& info.test_status == TestStatus::from_spec(cell_text(row, at(6)))
    &&& info.test_temperature == TestTemperature::from_spec(cell_text(row, at(7)))
    &&& info.initial_capacity == capacities.0
    &&& info.current_capacity == capacities.1
    &&& info.previous_cycles == cell_count(row, at(10))
    &&& info.current_cycles == cell_count(row, at(11))
}

fn slot_at(slots: &Vec<Option<usize>>, f: usize) -> (r: usize)
    requires
        f < slots.len(),
        slots@[f as int] is Some,
    ensures
        r == slots@[f as int]->0,
{
    match slots[f] {
        Some(i) => i,
        None => 0,
    }
}

/// Reads the channel list from the sheet's rows: the first row is the
/// header, and the data rows are read up to the first one without a
/// device cell.  `capacities` holds the capacities read from each row.
pub fn read_channel_rows(
    rows: &Vec<Vec<String>>,
    capacities: &Vec<(Option<Capacity>, Option<Capacity>)>,
) -> (r: Vec<ChannelInfo>)
    requires
        capacities.len() == rows.len(),
        rows_readable(rows.deep_view()),
    ensures
        rows.len() == 0 ==> r.len() == 0,
        rows.len() > 0 ==> ({
            let header = rows.deep_view()[0];
            let device = slots_spec(header, 0)->0;
            &&& r.len() == rows_read(rows.deep_view(), device, rows.len() as nat)
            &&& forall|k: int|
                0 <= k < r.len() ==> list_row_describes(
                    #[trigger] r@[k],
                    rows.deep_view()[k + 1],
                    header,
                    capacities@[k + 1],
                )
        }),
{
    let mut out: Vec<ChannelInfo> = Vec::new();
    if rows.len() == 0 {
        return out;
    }
    let ghost rv = rows.deep_view();
    let ghost header = rv[0];
    let slots = header_slots(&rows[0]);
    if rows.len() == 1 {
        return out;
    }
    let device_at = slot_at(&slots, 0);
    let ghost device = device_at as int;
    let mut i: usize = 1;
    while i < rows.len()
        invariant
            rv == rows.deep_view(),
            header == rv[0],
            rows.len() >= 2,
            capacities.len() == rows.len(),
            rows_readable(rv),
            slots.len() == 13,
            forall|f: int| 0 <= f < 13 ==> as_position(#[trigger] slots@[f]) == slots_spec(header, f),
            device_at as int == slots_spec(header, 0)->0,
            device == device_at as int,
            i > 1 ==> forall|f: int| 0 <= f < 12 ==> #[trigger] slots_spec(header, f) is Some,
            1 <= i <= rows.len(),
            out.len() == i - 1,
            rows_read(rv, device, i as nat) == i - 1,
            forall|k: int|
                0 <= k < out.len() ==> list_row_describes(
                    #[trigger] out@[k],
                    rv[k + 1],
                    header,
                    capacities@[k + 1],
                ),
        decreases rows.len() - i,
    {
        let row = &rows[i];
        assert(row.deep_view() == rv[i as int]);
        assert(rv[i as int].len() == row.len());
        if device_at >= row.len() {
            proof {
                lemma_rows_read_stops(rv, device, i as nat, rows.len() as nat);
            }
            return out;
        }
        assert(forall|f: int| 0 <= f < 12 ==> #[trigger] slots_spec(header, f) is Some) by {
            if i == 1 {
                assert(rows_readable(rv));
                assert(slots_spec(header, 0)->0 < rv[1].len());
            }
        }
        let sample_model = cell_to_string(row, slot_at(&slots, 4));
        let test_status = cell_to_string(row, slot_at(&slots, 6));
        let test_temperature = cell_to_string(row, slot_at(&slots, 7));
        let info = ChannelInfo {
            device: cell_to_string(row, device_at),
            channel: cell_to_string(row, slot_at(&slots, 1)),
            project_code: cell_to_string(row, slot_at(&slots, 2)),
            sample_person: cell_to_string(row, slot_at(&slots, 3)),
            sample_model: SampleModel::from(sample_model.as_str()),
            sample_id: cell_to_string(row, slot_at(&slots, 5)),
            test_status: TestStatus::from(test_status.as_str()),
            test_temperature: TestTemperature::from(test_temperature.as_str()),
            initial_capacity: capacities[i].0,
            current_capacity: capacities[i].1,
            previous_cycles: parse_cell_usize(row, slot_at(&slots, 10)),
            current_cycles: parse_cell_usize(row, slot_at(&slots, 11)),
        };
        out.push(info);
        i = i + 1;
    }
    out
}

/// Once a row without a device cell stops the reading, later rows are not read.
proof fn lemma_rows_read_stops(rows: Seq<Seq<Seq<char>>>, device: int, i: nat, n: nat)
    requires
        1 <= i < n <= rows.len(),
        rows_read(rows, device, i) == i - 1,
        device >= rows[i as int].len(),
    ensures
        rows_read(rows, device, n) == i - 1,
    decreases n - i,
{
    if n > i + 1 {
        lemma_rows_read_stops(rows, device, i, (n - 1) as nat);
        assert(rows_read(rows, device, (n - 1) as nat) == i - 1);
    }
}

/// The column whose absence stops reading the rows: the device column
/// when there are data rows, then, when the first data row has a device
/// cell, the first other column that is missing.  `None` when the rows
/// can be read.
pub fn missing_slot(rows: &Vec<Vec<String>>) -> (r: Option<usize>)
    ensures
        r is None <==> rows_readable(rows.deep_view()),
        r matches Some(f) ==> f < 12 && slots_spec(rows.deep_view()[0], f as int) is None && forall|
            g: int,
        | 0 <= g < f ==> #[trigger] slots_spec(rows.deep_view()[0], g) is Some,
{
    let ghost rv = rows.deep_view();
    if rows.len() <= 1 {
        return None;
    }
    let slots = header_slots(&rows[0]);
    assert(rows@[1].deep_view() == rv[1]);
    match slots[0] {
        None => {
            return Some(0);
        },
        Some(device) => {
            if device >= rows[1].len() {
                return None;
            }
        },
    }
    let mut f: usize = 1;
    while f < 12
        invariant
            rv == rows.deep_view(),
            rows.len() >= 2,
            slots.len() == 13,
            forall|g: int| 0 <= g < 13 ==> as_position(#[trigger] slots@[g]) == slots_spec(rv[0], g),
            slots_spec(rv[0], 0) is Some,
            slots_spec(rv[0], 0)->0 < rv[1].len(),
            1 <= f <= 12,
            forall|g: int| 0 <= g < f ==> #[trigger] slots_spec(rv[0], g) is Some,
        decreases 12 - f,
    {
        if slots[f].is_none() {
            return Some(f);
        }
        f = f + 1;
    }
    None
}

/// Lays a list out as text.
pub trait PrettyPrint {
    fn pretty_print(&self) -> String;
}

} // verus!
