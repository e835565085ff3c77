//! Where the cyclers' data files keep what the tool reads: the sheets,
//! rows and cells of the cycle records and of the channel information,
//! and how the text of those cells is read.
use crate::pattern::{group_of, group_text, regex_captures, regex_captures_spec};
use crate::plugin::parser::Sources;
use crate::text::{chars_of, parse_u32, parse_unsigned_spec, same_text, string_from_range, IntErrorKind};
use vstd::prelude::*;

verus! {

/// The sheet of cycle records in a Shenghong file.
pub const SHENGHONG_DATA: &'static str = "循环数据表";

/// The sheet of cycle records in a Nebula file.
pub const NEBULA_DATA: &'static str = "循环层";

/// The sheet of cycle records in a Weichuang file.
pub const WEICHUANG_DATA: &'static str = "循环数据表";

/// The sheet that holds the run time of a Shenghong test.
pub const WEICHUANG_INFO: &'static str = "数据表";

/// The information sheet that marks a Shenghong file.
pub const SHENGHONG_KEY: &'static str = "数据表";

/// The information sheet that marks a Nebula file.
pub const NEBULA_KEY: &'static str = "测试信息";

/// The information sheet that marks a Weichuang file.
pub const WEICHUANG_KEY: &'static str = "通道信息表";

/// The pattern of the unit and channel at the end of a Weichuang channel cell.
pub const WEICHUANG_PATTERN: &'static str = "_(\\d+)_(\\d+)$";

/// Why a cycle record cannot be read.
#[derive(Debug, Clone, Copy, PartialEq, Eq, Structural)]
pub enum CycleError {
    /// Too few rows: the data would not be representative.
    TooFewCycles,
    /// The cycle cell holds no count.
    BadCount(IntErrorKind),
}

/// Where a cycle record is: the sheet, the row, the columns of the cycle
/// count and of the capacity, and whether the capacity is reported
/// negative (Nebula reports discharge as negative).
#[derive(Debug, Clone, Copy, PartialEq, Eq, Structural)]
pub struct CycleCells {
    pub row: usize,
    pub count_column: usize,
    pub capacity_column: usize,
    pub negated_capacity: bool,
}

pub open spec fn data_sheet_spec(source: Sources) -> Seq<char> {
    match source {
        Sources::Shenghong => SHENGHONG_DATA@,
        Sources::Nebula => NEBULA_DATA@,
        Sources::Weichuang => WEICHUANG_DATA@,
    }
}

pub open spec fn capacity_column_spec(source: Sources) -> usize {
    match source {
        Sources::Nebula => 5,
        _ => 2,
    }
}

/// The sheet that holds the cycle records.
pub fn data_sheet_name(source: Sources) -> (r: &'static str)
    ensures
        r@ == data_sheet_spec(source),
{
    match source {
        Sources::Shenghong => SHENGHONG_DATA,
        Sources::Nebula => NEBULA_DATA,
        Sources::Weichuang => WEICHUANG_DATA,
    }
}

/// The cells of the first cycle record: row 4 (index 3), which needs at
/// least 4 rows.
pub fn cycle_first_cells(source: Sources, row_count: usize) -> (r: Result<CycleCells, CycleError>)
    ensures
        row_count < 4 ==> r == Err::<CycleCells, CycleError>(CycleError::TooFewCycles),
        r matches Ok(cells) ==> cells.capacity_column == (if source == Sources::Nebula {
            5usize
        } else {
            2usize
        }) && cells.count_column == 0 && cells.negated_capacity == (source == Sources::Nebula),
        row_count >= 4 ==> r == Ok::<CycleCells, CycleError>(
            CycleCells {
                row: 3,
                count_column: 0,
                capacity_column: capacity_column_spec(source),
                negated_capacity: source == Sources::Nebula,
            },
        ),
{
    if row_count < 4 {
        return Err(CycleError::TooFewCycles);
    }
    let capacity_column = match source {
        Sources::Nebula => 5,
        _ => 2,
    };
    Ok(
        CycleCells {
            row: 3,
            count_column: 0,
            capacity_column,
            negated_capacity: matches!(source, Sources::Nebula),
        },
    )
}

/// The cells of the last cycle record: the last row but one, which needs
/// more than 4 rows.
pub fn cycle_last_cells(source: Sources, row_count: usize) -> (r: Result<CycleCells, CycleError>)
    ensures
        row_count <= 4 ==> r == Err::<CycleCells, CycleError>(CycleError::TooFewCycles),
        r matches Ok(cells) ==> cells.capacity_column == (if source == Sources::Nebula {
            5usize
        } else {
            2usize
        }) && cells.count_column == 0 && cells.negated_capacity == (source == Sources::Nebula),
        row_count > 4 ==> r == Ok::<CycleCells, CycleError>(
            CycleCells {
                row: (row_count - 2) as usize,
                count_column: 0,
                capacity_column: capacity_column_spec(source),
                negated_capacity: source == Sources::Nebula,
            },
        ),
{
    if row_count <= 4 {
        return Err(CycleError::TooFewCycles);
    }
    let capacity_column = match source {
        Sources::Nebula => 5,
        _ => 2,
    };
    Ok(
        CycleCells {
            row: row_count - 2,
            count_column: 0,
            capacity_column,
            negated_capacity: matches!(source, Sources::Nebula),
        },
    )
}

/// Reads the cycle count out of its cell.
pub fn parse_cycle_count(text: &str) -> (r: Result<u32, CycleError>)
    ensures
        match parse_unsigned_spec(text@, u32::MAX as nat) {
            Ok(v) => r == Ok::<u32, CycleError>(v as u32),
            Err(e) => r == Err::<u32, CycleError>(CycleError::BadCount(e)),
        },
{
    match parse_u32(text) {
        Ok(v) => Ok(v),
        Err(e) => Err(CycleError::BadCount(e)),
    }
}

/// The cycler that an information sheet of this name marks.
pub open spec fn key_source(name: Seq<char>) -> Option<Sources> {
    if name == SHENGHONG_KEY@ {
        Some(Sources::Shenghong)
    } else if name == NEBULA_KEY@ {
        Some(Sources::Nebula)
    } else if name == WEICHUANG_KEY@ {
        Some(Sources::Weichuang)
    } else {
        None
    }
}

/// The cycler of a file with these sheets: the first sheet that is an
/// information sheet decides.
pub open spec fn info_source_spec(names: Seq<Seq<char>>) -> Option<Sources>
    decreases names.len(),
{
    if names.len() == 0 {
        None
    } else {
        match info_source_spec(names.drop_last()) {
            Some(s) => Some(s),
            None => key_source(names.last()),
        }
    }
}

/// The cycler of a file, from the names of its sheets in workbook order.
pub fn info_source(sheet_names: &Vec<String>) -> (r: Option<Sources>)
    ensures
        r == info_source_spec(sheet_names.deep_view()),
{
    let ghost names = sheet_names.deep_view();
    let mut i: usize = 0;
    while i < sheet_names.len()
        invariant
            names == sheet_names.deep_view(),
            i <= sheet_names.len(),
            info_source_spec(names.take(i as int)) is None,
        decreases sheet_names.len() - i,
    {
        let ghost upto = names.take(i + 1);
        assert(upto.drop_last() =~= names.take(i as int));
        assert(upto.last() == names[i as int]);
        let name = sheet_names[i].as_str();
        let found = if same_text(name, SHENGHONG_KEY) {
            Some(Sources::Shenghong)
        } else if same_text(name, NEBULA_KEY) {
            Some(Sources::Nebula)
        } else if same_text(name, WEICHUANG_KEY) {
            Some(Sources::Weichuang)
        } else {
            None
        };
        if found.is_some() {
            proof {
                lemma_info_source_extends(names, (i + 1) as nat);
            }
            return found;
        }
        i = i + 1;
    }
    assert(names.take(sheet_names.len() as int) =~= names);
    None
}

proof fn lemma_info_source_extends(names: Seq<Seq<char>>, k: nat)
    requires
        k <= names.len(),
        info_source_spec(names.take(k as int)) is Some,
    ensures
        info_source_spec(names) == info_source_spec(names.take(k as int)),
    decreases names.len() - k,
{
    if k < names.len() {
        let nxt = names.take((k + 1) as int);
        assert(nxt.drop_last() =~= names.take(k as int));
        lemma_info_source_extends(names, k + 1);
    } else {
        assert(names.take(k as int) =~= names);
    }
}

/// The cells of the information sheet to read, as (row, column): unit
/// first, then channel; a Weichuang file keeps both in one cell.
pub fn info_cells(source: Sources) -> (r: Vec<(usize, usize)>)
    ensures
        r@ == match source {
            Sources::Shenghong => seq![(2usize, 1usize), (3usize, 1usize)],
            Sources::Nebula => seq![(7usize, 0usize), (7usize, 2usize)],
            Sources::Weichuang => seq![(1usize, 1usize)],
        },
{
    let mut r = Vec::new();
    match source {
        Sources::Shenghong => {
            r.push((2, 1));
            r.push((3, 1));
        },
        Sources::Nebula => {
            r.push((7, 0));
            r.push((7, 2));
        },
        Sources::Weichuang => {
            r.push((1, 1));
        },
    }
    assert(r@ =~= match source {
        Sources::Shenghong => seq![(2usize, 1usize), (3usize, 1usize)],
        Sources::Nebula => seq![(7usize, 0usize), (7usize, 2usize)],
        Sources::Weichuang => seq![(1usize, 1usize)],
    });
    r
}

/// The position of the last `.` in `s`.
pub open spec fn last_dot(s: Seq<char>) -> Option<int>
    decreases s.len(),
{
    if s.len() == 0 {
        None
    } else if s.last() == '.' {
        Some(s.len() - 1)
    } else {
        last_dot(s.drop_last())
    }
}

/// What follows the last `.` of `s` (all of `s` when it has none): the
/// last part of an address such as `192.168.1.12`.
pub open spec fn last_segment(s: Seq<char>) -> Seq<char> {
    match last_dot(s) {
        Some(i) => s.subrange(i + 1, s.len() as int),
        None => s,
    }
}

proof fn lemma_last_dot_bounds(s: Seq<char>)
    ensures
        last_dot(s) matches Some(i) ==> 0 <= i < s.len(),
    decreases s.len(),
{
    if s.len() > 0 {
        lemma_last_dot_bounds(s.drop_last());
    }
}

/// What follows the last `.` of `s`.
pub fn last_segment_of(s: &str) -> (r: String)
    ensures
        r@ == last_segment(s@),
{
    let v = chars_of(s);
    let mut i: usize = v.len();
    assert(s@.take(i as int) =~= s@);
    while i > 0 && v[i - 1] != '.'
        invariant
            v@ == s@,
            i <= v.len(),
            last_dot(s@) == last_dot(s@.take(i as int)),
        decreases i,
    {
        let ghost upto = s@.take(i as int);
        assert(upto.drop_last() =~= s@.take(i - 1));
        i = i - 1;
    }
    proof {
        lemma_last_dot_bounds(s@);
    }
    if i == 0 {
        assert(s@.take(0) =~= Seq::<char>::empty());
        assert(s@.subrange(0, s@.len() as int) =~= s@);
        string_from_range(&v, 0, v.len())
    } else {
        assert(s@.take(i as int).last() == '.');
        string_from_range(&v, i, v.len())
    }
}

/// Why the unit and channel of a file cannot be read.
#[derive(Debug, Clone, Copy, PartialEq, Eq, Structural)]
pub enum InfoError {
    /// The channel cell holds no channel number.
    BadChannel(IntErrorKind),
    /// The Weichuang channel cell does not end in `_unit_channel`.
    NoChannelMatch,
}

/// The unit and channel number that the information cells say, read
/// from the cells that `info_cells` names, in that order.
pub open spec fn unit_channel_spec(source: Sources, cells: Seq<Seq<char>>) -> Result<
    (Seq<char>, nat),
    InfoError,
> {
    match source {
        Sources::Shenghong => match parse_unsigned_spec(cells[1], u32::MAX as nat) {
            Ok(c) => Ok((cells[0], c)),
            Err(e) => Err(InfoError::BadChannel(e)),
        },
        Sources::Nebula => match parse_unsigned_spec(cells[1], u32::MAX as nat) {
            Ok(c) => Ok((last_segment(cells[0]), c)),
            Err(e) => Err(InfoError::BadChannel(e)),
        },
        Sources::Weichuang => unit_channel_of_captures(
            regex_captures_spec(WEICHUANG_PATTERN@, cells[0]),
        ),
    }
}

/// Unit and channel number from what the Weichuang pattern captured:
/// groups 1 and 2, the channel read as a number.
pub open spec fn unit_channel_of_captures(caps: Option<Seq<Option<Seq<char>>>>) -> Result<
    (Seq<char>, nat),
    InfoError,
> {
    match (group_text(caps, 1), group_text(caps, 2)) {
        (Some(u), Some(c)) => match parse_unsigned_spec(c, u32::MAX as nat) {
            Ok(n) => Ok((u, n)),
            Err(e) => Err(InfoError::BadChannel(e)),
        },
        _ => Err(InfoError::NoChannelMatch),
    }
}

/// Reads unit and channel number out of what the Weichuang pattern
/// captured in the channel cell.
pub fn unit_channel_from_captures(caps: &Option<Vec<Option<String>>>) -> (r: Result<(String, u32), InfoError>)
    ensures
        match unit_channel_of_captures(caps.deep_view()) {
            Ok((u, c)) => r matches Ok((ru, rc)) && ru@ == u && rc == c,
            Err(e) => r == Err::<(String, u32), InfoError>(e),
        },
{
    let unit = group_of(caps, 1);
    let channel = group_of(caps, 2);
    match (unit, channel) {
        (Some(u), Some(c)) => match parse_u32(c.as_str()) {
            Ok(n) => Ok((u, n)),
            Err(e) => Err(InfoError::BadChannel(e)),
        },
        _ => Err(InfoError::NoChannelMatch),
    }
}

/// Reads unit and channel number out of the information cells.
pub fn unit_channel_from_cells(source: Sources, cells: &Vec<String>) -> (r: Result<(String, u32), InfoError>)
    requires
        cells.len() == match source {
            Sources::Weichuang => 1int,
            _ => 2int,
        },
    ensures
        match unit_channel_spec(source, cells.deep_view()) {
            Ok((u, c)) => r matches Ok((ru, rc)) && ru@ == u && rc == c,
            Err(e) => r == Err::<(String, u32), InfoError>(e),
        },
{
    let ghost cv = cells.deep_view();
    assert(cells@[0]@ == cv[0]);
    match source {
        Sources::Shenghong => {
            assert(cells@[1]@ == cv[1]);
            match parse_u32(cells[1].as_str()) {
                Ok(c) => Ok((cells[0].clone(), c)),
                Err(e) => Err(InfoError::BadChannel(e)),
            }
        },
        Sources::Nebula => {
            assert(cells@[1]@ == cv[1]);
            match parse_u32(cells[1].as_str()) {
                Ok(c) => Ok((last_segment_of(cells[0].as_str()), c)),
                Err(e) => Err(InfoError::BadChannel(e)),
            }
        },
        Sources::Weichuang => {
            let caps = regex_captures(WEICHUANG_PATTERN, cells[0].as_str());
            unit_channel_from_captures(&caps)
        },
    }
}

/// Where the capacity of a cycle record stands: column index 5 in a
/// Nebula file, column index 2 in a Shenghong or a Weichuang file.
pub proof fn law_cycle_record_columns(source: Sources)
    ensures
        capacity_column_spec(source) == 5 <==> source == Sources::Nebula,
        source != Sources::Nebula ==> capacity_column_spec(source) == 2,
{
}

} // verus!
