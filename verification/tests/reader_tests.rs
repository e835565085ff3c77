use cycle_helper::plugin::parser::Sources;
use cycle_helper::plugin::reader::{
    cycle_first_cells, cycle_last_cells, data_sheet_name, info_cells, info_source, last_segment_of,
    parse_cycle_count, unit_channel_from_captures, unit_channel_from_cells, CycleCells, CycleError, InfoError,
};
use cycle_helper::text::IntErrorKind;

fn s(v: &[&str]) -> Vec<String> {
    v.iter().map(|x| x.to_string()).collect()
}

#[test]
fn cycle_cells() {
    assert_eq!(cycle_first_cells(Sources::Shenghong, 3), Err(CycleError::TooFewCycles));
    assert_eq!(
        cycle_first_cells(Sources::Nebula, 4),
        Ok(CycleCells { row: 3, count_column: 0, capacity_column: 5, negated_capacity: true })
    );
    assert_eq!(cycle_last_cells(Sources::Weichuang, 4), Err(CycleError::TooFewCycles));
    assert_eq!(
        cycle_last_cells(Sources::Weichuang, 10),
        Ok(CycleCells { row: 8, count_column: 0, capacity_column: 2, negated_capacity: false })
    );
    assert_eq!(data_sheet_name(Sources::Nebula), "循环层");
    assert_eq!(data_sheet_name(Sources::Shenghong), "循环数据表");
    assert_eq!(parse_cycle_count("57"), Ok(57));
    assert_eq!(parse_cycle_count("57.0"), Err(CycleError::BadCount(IntErrorKind::InvalidDigit)));
}

#[test]
fn info_sheets() {
    assert_eq!(info_source(&s(&["Sheet1", "测试信息", "数据表"])), Some(Sources::Nebula));
    assert_eq!(info_source(&s(&["数据表"])), Some(Sources::Shenghong));
    assert_eq!(info_source(&s(&["通道信息表"])), Some(Sources::Weichuang));
    assert_eq!(info_source(&s(&["a", "b"])), None);
    assert_eq!(info_cells(Sources::Nebula), vec![(7, 0), (7, 2)]);
    assert_eq!(info_cells(Sources::Weichuang), vec![(1, 1)]);
}

#[test]
fn unit_and_channel_from_cells() {
    assert_eq!(
        unit_channel_from_cells(Sources::Shenghong, &s(&["12", "3"])),
        Ok(("12".to_string(), 3))
    );
    assert_eq!(
        unit_channel_from_cells(Sources::Nebula, &s(&["192.168.0.31", "5"])),
        Ok(("31".to_string(), 5))
    );
    assert_eq!(
        unit_channel_from_cells(Sources::Nebula, &s(&["u", "x"])),
        Err(InfoError::BadChannel(IntErrorKind::InvalidDigit))
    );
    assert_eq!(
        unit_channel_from_cells(Sources::Weichuang, &s(&["BTS_7_12"])),
        Ok(("7".to_string(), 12))
    );
    assert_eq!(
        unit_channel_from_cells(Sources::Weichuang, &s(&["BTS-7-12"])),
        Err(InfoError::NoChannelMatch)
    );
}

#[test]
fn last_segments() {
    assert_eq!(last_segment_of("192.168.1.12"), "12");
    assert_eq!(last_segment_of("plain"), "plain");
    assert_eq!(last_segment_of("a."), "");
    assert_eq!(last_segment_of(""), "");
}

#[test]
fn weichuang_captures_give_unit_and_channel() {
    let caps = Some(vec![Some("_12_7".to_string()), Some("12".to_string()), Some("7".to_string())]);
    assert_eq!(unit_channel_from_captures(&caps), Ok(("12".to_string(), 7)));
    assert_eq!(unit_channel_from_captures(&None), Err(InfoError::NoChannelMatch));
    let short = Some(vec![Some("_12".to_string()), Some("12".to_string())]);
    assert_eq!(unit_channel_from_captures(&short), Err(InfoError::NoChannelMatch));
    let big = Some(vec![None, Some("1".to_string()), Some("99999999999".to_string())]);
    assert_eq!(unit_channel_from_captures(&big), Err(InfoError::BadChannel(IntErrorKind::PosOverflow)));
}
