use cycle_helper::data::list::Capacity;
use cycle_helper::input::form::DataForm;
use cycle_helper::manager::channel::{
    find_channel_info_index, ChannelActive, ChannelInfo, CycleUpdate, DialogResult,
};
use cycle_helper::manager::dialog::{advance, start, DialogEvent, DialogNotice, DialogState};
use cycle_helper::manager::format::{SampleModel, TestStatus, TestTemperature};
use cycle_helper::manager::matching::{
    apply_match_result, build_channel_index, create_matching_tasks, group_active_channels,
    match_channels_by_scan, resolve_cycle_conflict_at, try_match_channel, try_match_channel_prv,
    ApplyOutcome, MatchResult,
};
use cycle_helper::manager::plans::{
    collection_folder_name, export_list_file_name, export_list_text, export_lists, menu_command,
    organize_folder_name, organize_plan, table_file_name, MenuCommand,
};
use cycle_helper::manager::sheet::{
    cell_to_string, channel_from_row, channels_from_rows, parse_cell_usize, table_headers, Column,
    ColumnIndices, SheetError,
};
use cycle_helper::plugin::parser::Sources;
use cycle_helper::text::IntErrorKind;

fn s(v: &[&str]) -> Vec<String> {
    v.iter().map(|x| x.to_string()).collect()
}

fn info(device: &str, channel: &str, prv: Option<&str>, project: &str, status: TestStatus) -> ChannelInfo {
    ChannelInfo {
        device: device.to_string(),
        channel: channel.to_string(),
        channel_prv: prv.map(|p| p.to_string()),
        project_code: project.to_string(),
        sample_person: Some("张三".to_string()),
        sample_model: SampleModel::H100,
        sample_id: "S1".to_string(),
        test_status: status,
        test_temperature: TestTemperature::T45,
        initial_capacity: None,
        current_capacity: None,
        previous_cycles: None,
        current_cycles: None,
        form_path: None,
    }
}

fn header() -> Vec<String> {
    s(&[
        "上位机", "测试通道", "申请单号", "送样人", "电芯型号", "电芯编号", "测试状态", "测试方法",
        "初始容量", "当前容量", "接续前圈数", "当前圈数", "先前测试通道",
    ])
}

#[test]
fn header_row_finds_columns() {
    let ci = ColumnIndices::from_header_row(&header()).unwrap();
    assert_eq!(ci.device, 0);
    assert_eq!(ci.test_temperature, 7);
    assert_eq!(ci.sample_person, Some(3));
    assert_eq!(ci.channel_prv, Some(12));
    assert_eq!(ci.current_cycles, 11);
}

#[test]
fn header_row_trims_and_takes_the_last() {
    let mut h = header();
    h[0] = " 上位机 ".to_string();
    h.push("上位机".to_string());
    h.remove(3);
    let ci = ColumnIndices::from_header_row(&h).unwrap();
    assert_eq!(ci.device, 12);
    assert_eq!(ci.sample_person, None);
}

#[test]
fn header_row_reports_first_missing_column() {
    let mut h = header();
    h[4] = "型号".to_string();
    h[9] = "容量".to_string();
    assert_eq!(ColumnIndices::from_header_row(&h), Err(SheetError::MissingColumn(Column::SampleModel)));
    assert_eq!(ColumnIndices::from_header_row(&vec![]), Err(SheetError::MissingColumn(Column::Device)));
    assert_eq!(Column::TestTemperature.label(), "测试温度/测试方法");
}

#[test]
fn written_headers_read_back() {
    let written: Vec<String> = table_headers().iter().map(|h| h.to_string()).collect();
    assert_eq!(written.len(), 13);
    assert_eq!(written[0], "上位机");
    assert_eq!(written[7], "测试温度");
    assert_eq!(written[12], "先前测试通道");
    let ci = ColumnIndices::from_header_row(&written).unwrap();
    assert_eq!(ci.device, 0);
    assert_eq!(ci.channel, 1);
    assert_eq!(ci.project_code, 2);
    assert_eq!(ci.sample_person, Some(3));
    assert_eq!(ci.sample_model, 4);
    assert_eq!(ci.sample_id, 5);
    assert_eq!(ci.test_status, 6);
    assert_eq!(ci.test_temperature, 7);
    assert_eq!(ci.initial_capacity, 8);
    assert_eq!(ci.current_capacity, 9);
    assert_eq!(ci.previous_cycles, 10);
    assert_eq!(ci.current_cycles, 11);
    assert_eq!(ci.channel_prv, Some(12));
}

#[test]
fn cells() {
    let row = s(&["a", "12", "x"]);
    assert_eq!(cell_to_string(&row, 0), "a");
    assert_eq!(cell_to_string(&row, 5), "");
    assert_eq!(parse_cell_usize(&row, 1), Some(12));
    assert_eq!(parse_cell_usize(&row, 2), None);
    assert_eq!(parse_cell_usize(&row, 9), None);
}

#[test]
fn rows_become_channels() {
    let ci = ColumnIndices::from_header_row(&header()).unwrap();
    let row = s(&["D1", "1-3", "P9", "李四", "180", "ID7", "长期", "25℃", "1.5", "1.4", "200", "350", "1-1"]);
    let cap = (Some(Capacity { bits: 1 }), None);
    let c = channel_from_row(&row, &ci, cap).unwrap();
    assert_eq!(c.device, "D1");
    assert_eq!(c.channel_prv, Some("1-1".to_string()));
    assert_eq!(c.sample_model, SampleModel::H180);
    assert_eq!(c.test_status, TestStatus::Long);
    assert_eq!(c.test_temperature, TestTemperature::T25);
    assert_eq!(c.previous_cycles, Some(200));
    assert_eq!(c.current_cycles, Some(350));
    assert_eq!(c.initial_capacity, Some(Capacity { bits: 1 }));
    assert!(c.form_path.is_none());
    let rows = vec![header(), row.clone(), vec![], row];
    let caps = vec![(None, None); 4];
    let list = channels_from_rows(&rows, &ci, &caps);
    assert_eq!(list.len(), 2);
}

#[test]
fn active_channels() {
    let a = info("D1", "1-1", None, "P1", TestStatus::Long).get_active().unwrap();
    assert_eq!(a.channel, "1-1");
    assert!(a.first_run);
    assert_eq!(a.get_channel_prv(), "N/A");
    assert!(info("D1", "1-1", None, "", TestStatus::Long).get_active().is_none());
    assert!(info("D1", "1-1", None, "P1", TestStatus::Offline).get_active().is_none());
    let mut i = info("D1", "1-1", Some("2-2"), "P1", TestStatus::Long);
    i.initial_capacity = Some(Capacity { bits: 5 });
    let a = i.get_active().unwrap();
    assert!(!a.first_run);
    assert_eq!(a.get_channel_prv(), "2-2");
    assert_eq!(i.get_device(), "D1");
}

#[test]
fn update_cycles_cases() {
    let mut i = info("D", "c", None, "P", TestStatus::Long);
    i.previous_cycles = Some(100);
    i.current_cycles = Some(150);
    assert_eq!(i.update_cycles(160), CycleUpdate::Applied);
    assert_eq!((i.previous_cycles, i.current_cycles), (Some(100), Some(160)));
    assert_eq!(i.update_cycles(70), CycleUpdate::Applied);
    assert_eq!((i.previous_cycles, i.current_cycles), (Some(100), Some(170)));
    assert_eq!(
        i.update_cycles(20),
        CycleUpdate::NeedsConfirmation { current: 170, calculated: 120 }
    );
    assert_eq!((i.previous_cycles, i.current_cycles), (Some(100), Some(170)));
    i.resolve_cycle_conflict(DialogResult::Cancel, 120);
    assert_eq!(i.current_cycles, Some(170));
    i.resolve_cycle_conflict(DialogResult::Ignore, 120);
    assert_eq!(i.current_cycles, Some(120));
    i.resolve_cycle_conflict(DialogResult::Confirm(333), 120);
    assert_eq!(i.current_cycles, Some(333));
    let mut j = info("D", "c", None, "P", TestStatus::Long);
    assert_eq!(j.update_cycles(0), CycleUpdate::Applied);
    assert_eq!((j.previous_cycles, j.current_cycles), (None, Some(0)));
    assert!(j.can_record_cycles(usize::MAX));
    j.previous_cycles = Some(usize::MAX);
    j.current_cycles = Some(usize::MAX);
    assert!(!j.can_record_cycles(1));
}

#[test]
fn applied_update_never_lowers_the_count() {
    let mut i = info("D", "c", None, "P", TestStatus::Long);
    i.previous_cycles = Some(10);
    i.current_cycles = Some(40);
    for new in [0usize, 30, 31, 45, 100] {
        let mut j = info("D", "c", None, "P", TestStatus::Long);
        j.previous_cycles = i.previous_cycles;
        j.current_cycles = i.current_cycles;
        if j.update_cycles(new) == CycleUpdate::Applied {
            assert!(j.current_cycles.unwrap() >= 40);
            assert!(j.previous_cycles.unwrap_or(0) <= j.current_cycles.unwrap());
        }
    }
}

#[test]
fn capacity_updates() {
    let mut i = info("D", "c", None, "P", TestStatus::Long);
    i.update_initial_capacity(Capacity { bits: 1 });
    i.update_initial_capacity(Capacity { bits: 2 });
    assert_eq!(i.initial_capacity, Some(Capacity { bits: 1 }));
    i.update_capacity(Capacity { bits: 3 });
    i.update_capacity(Capacity { bits: 4 });
    assert_eq!(i.current_capacity, Some(Capacity { bits: 4 }));
    i.update_form_path("a.xlsx".to_string());
    assert_eq!(i.form_path, Some("a.xlsx".to_string()));
}

#[test]
fn find_index_by_channel_or_previous_channel() {
    let infos = vec![
        info("D1", "1-1", None, "P", TestStatus::Long),
        info("D2", "1-1", Some("9-9"), "P", TestStatus::Long),
        info("D2", "9-9", None, "P", TestStatus::Long),
    ];
    assert_eq!(find_channel_info_index(&infos, "D1", "1-1"), Some(0));
    assert_eq!(find_channel_info_index(&infos, "D2", "1-1"), Some(1));
    assert_eq!(find_channel_info_index(&infos, "D2", "9-9"), Some(1));
    assert_eq!(find_channel_info_index(&infos, "D3", "1-1"), None);
}

#[test]
fn dialog_flow() {
    let s0 = start();
    assert_eq!(s0, DialogState::Menu);
    let st = advance(s0, DialogEvent::Selected(0));
    assert_eq!(st.state, DialogState::ConfirmCancel);
    let st2 = advance(st.state, DialogEvent::Answered(false));
    assert_eq!(st2.state, DialogState::Menu);
    let st3 = advance(DialogState::ConfirmCancel, DialogEvent::Answered(true));
    assert_eq!(st3.state, DialogState::Done(DialogResult::Cancel));
    let st4 = advance(DialogState::ConfirmIgnore, DialogEvent::Answered(true));
    assert_eq!(st4.state, DialogState::Done(DialogResult::Ignore));
    let st5 = advance(DialogState::Menu, DialogEvent::Selected(2));
    assert_eq!(st5.state, DialogState::EnterCycles);
    let st6 = advance(DialogState::EnterCycles, DialogEvent::Entered(" 250 ".to_string()));
    assert_eq!(st6.state, DialogState::Done(DialogResult::Confirm(250)));
    let st7 = advance(DialogState::EnterCycles, DialogEvent::Entered("0".to_string()));
    assert_eq!(st7.state, DialogState::ConfirmZero);
    assert_eq!(st7.notice, Some(DialogNotice::ZeroCycles));
    let st8 = advance(DialogState::ConfirmZero, DialogEvent::Answered(false));
    assert_eq!(st8.state, DialogState::EnterCycles);
    let st9 = advance(DialogState::ConfirmZero, DialogEvent::Answered(true));
    assert_eq!(st9.state, DialogState::Done(DialogResult::Confirm(0)));
    let st10 = advance(DialogState::EnterCycles, DialogEvent::Entered("abc".to_string()));
    assert_eq!(st10.state, DialogState::EnterCycles);
    assert_eq!(st10.notice, Some(DialogNotice::InvalidNumber(IntErrorKind::InvalidDigit)));
    let st11 = advance(DialogState::EnterCycles, DialogEvent::InputFailed);
    assert_eq!(st11.state, DialogState::Menu);
    assert_eq!(st11.notice, Some(DialogNotice::InputFailed));
    let st12 = advance(DialogState::Menu, DialogEvent::Selected(5));
    assert_eq!(st12.notice, Some(DialogNotice::InvalidChoice));
    let st13 = advance(DialogState::Menu, DialogEvent::Answered(true));
    assert_eq!(st13.state, DialogState::Menu);
}

fn form(channel: &str, path: &str) -> DataForm {
    DataForm::from_info(path.to_string(), Sources::Shenghong, "1".to_string(), channel.parse().unwrap())
}

fn active(channel: &str, prv: Option<&str>) -> ChannelActive {
    ChannelActive {
        device: "D1".to_string(),
        channel: channel.to_string(),
        channel_prv: prv.map(|p| p.to_string()),
        first_run: true,
    }
}

#[test]
fn channel_index_keeps_the_last_file() {
    let forms = vec![form("3", "a"), form("4", "b"), form("3", "c")];
    let index = build_channel_index(&forms);
    assert_eq!(index.get("3"), Some(2));
    assert_eq!(index.get("4"), Some(1));
    assert_eq!(index.get("5"), None);
    let t = try_match_channel("D1", &active("4", None), &index).unwrap();
    assert_eq!((t.channel.as_str(), t.form, t.first_run), ("4", 1, true));
    assert!(try_match_channel("D1", &active("7", Some("3")), &index).is_none());
    let t = try_match_channel_prv("D1", &active("7", Some("3")), &index).unwrap();
    assert_eq!((t.channel.as_str(), t.form), ("3", 2));
}

#[test]
fn matching_by_index_and_by_scan() {
    let forms = vec![form("3", "a"), form("4", "b"), form("3", "c")];
    let actives = vec![active("3", None), active("9", Some("4")), active("8", None)];
    let tasks = create_matching_tasks("D1", &actives, &forms);
    assert_eq!(tasks.len(), 2);
    assert_eq!((tasks[0].channel.as_str(), tasks[0].form), ("3", 2));
    assert_eq!((tasks[1].channel.as_str(), tasks[1].form), ("4", 1));
    let tasks = match_channels_by_scan("D1", &actives, &forms);
    assert_eq!(tasks.len(), 2);
    assert_eq!((tasks[0].channel.as_str(), tasks[0].form), ("3", 0));
    assert_eq!(tasks[0].device, "D1");
}

#[test]
fn grouping_active_channels_by_device() {
    let infos = vec![
        info("D2", "1", None, "P", TestStatus::Long),
        info("D1", "2", None, "P", TestStatus::Long),
        info("D2", "3", None, "", TestStatus::Long),
        info("D2", "4", None, "P", TestStatus::Long),
        info("D3", "5", None, "P", TestStatus::Offline),
    ];
    let groups = group_active_channels(&infos);
    assert_eq!(groups.len(), 2);
    assert_eq!(groups[0].0, "D2");
    assert_eq!(groups[0].1.iter().map(|a| a.channel.clone()).collect::<Vec<_>>(), s(&["1", "4"]));
    assert_eq!(groups[1].0, "D1");
}

#[test]
fn applying_results() {
    let mut infos = vec![info("D1", "1-1", None, "P", TestStatus::Long), info("D1", "1-2", Some("2-2"), "P", TestStatus::Long)];
    infos[1].previous_cycles = Some(100);
    infos[1].current_cycles = Some(180);
    let r = MatchResult {
        device: "D1".to_string(),
        channel: "2-2".to_string(),
        cycle_count: 90,
        capacity: Capacity { bits: 7 },
        form_path: "f.xlsx".to_string(),
        first_capacity: Some(Capacity { bits: 8 }),
    };
    assert_eq!(apply_match_result(&mut infos, r), ApplyOutcome::Applied(1));
    assert_eq!(infos[1].current_cycles, Some(190));
    assert_eq!(infos[1].current_capacity, Some(Capacity { bits: 7 }));
    assert_eq!(infos[1].initial_capacity, Some(Capacity { bits: 8 }));
    assert_eq!(infos[1].form_path, Some("f.xlsx".to_string()));
    let r = MatchResult {
        device: "D1".to_string(),
        channel: "1-2".to_string(),
        cycle_count: 10,
        capacity: Capacity { bits: 9 },
        form_path: "g.xlsx".to_string(),
        first_capacity: None,
    };
    assert_eq!(
        apply_match_result(&mut infos, r),
        ApplyOutcome::NeedsConfirmation { index: 1, current: 190, calculated: 110 }
    );
    assert_eq!(infos[1].current_cycles, Some(190));
    assert_eq!(infos[1].current_capacity, Some(Capacity { bits: 9 }));
    resolve_cycle_conflict_at(&mut infos, 1, DialogResult::Ignore, 110);
    assert_eq!(infos[1].current_cycles, Some(110));
    let r = MatchResult {
        device: "D9".to_string(),
        channel: "1-2".to_string(),
        cycle_count: 10,
        capacity: Capacity { bits: 9 },
        form_path: "g.xlsx".to_string(),
        first_capacity: None,
    };
    assert_eq!(apply_match_result(&mut infos, r), ApplyOutcome::NotFound);
}

#[test]
fn organize_plan_paths() {
    let mut a = info("D1", "1-1", None, "P7", TestStatus::Long);
    a.form_path = Some("x/UN1_CN1.xlsx".to_string());
    let mut b = info("D1", "1-2", None, "P8", TestStatus::Long);
    b.sample_person = None;
    b.test_temperature = TestTemperature::Unknown;
    b.form_path = Some("y.xlsx".to_string());
    let c = info("D1", "1-3", None, "P9", TestStatus::Long);
    let plan = organize_plan(&vec![a, b, c]);
    assert_eq!(plan.len(), 2);
    assert_eq!(plan[0].0, "x/UN1_CN1.xlsx");
    assert_eq!(plan[0].1, "铝壳100//P7 张三//45℃//S1 D1-1-1.xlsx");
    assert_eq!(plan[1].1, "铝壳100//P8 //未设置//S1 D1-1-2.xlsx");
}

#[test]
fn export_lists_and_texts() {
    let infos = vec![
        info("D1", "1-1", Some("0-9"), "P1", TestStatus::Long),
        info("D2", "2-1", None, "P2", TestStatus::Long),
        info("D1", "1-2", None, "P3", TestStatus::Long),
        info("D1", "1-3", None, "", TestStatus::Long),
    ];
    let lists = export_lists(&infos);
    assert_eq!(lists.len(), 2);
    assert_eq!(lists[0].0, "D1");
    assert_eq!(
        lists[0].1,
        s(&["通道号：1-1 项目编号：P1 曾用通道号：0-9", "通道号：1-2 项目编号：P3 曾用通道号：N/A"])
    );
    assert_eq!(
        export_list_text(&lists[0].1),
        "导出通道：\n通道号：1-1 项目编号：P1 曾用通道号：0-9\n通道号：1-2 项目编号：P3 曾用通道号：N/A"
    );
    assert_eq!(export_list_text(&vec![]), "导出通道：\n");
    assert_eq!(export_list_file_name("D1"), "D1导出清单.txt");
    assert_eq!(organize_folder_name("20260202"), "20260202循环数据整理");
    assert_eq!(collection_folder_name("20260202"), "循环数据采集20260202");
    assert_eq!(table_file_name("20260202"), "20260202循环数据表");
}

#[test]
fn menu_commands() {
    assert_eq!(menu_command(0), MenuCommand::ImportTable);
    assert_eq!(menu_command(6), MenuCommand::Exit);
    assert_eq!(menu_command(7), MenuCommand::UpdateCyclesV2);
    assert_eq!(menu_command(9), MenuCommand::Invalid);
}

#[test]
fn matchings_agree_when_files_are_distinct() {
    let forms = vec![form("3", "a"), form("4", "b"), form("5", "c")];
    let actives = vec![active("3", None), active("9", Some("4")), active("8", None), active("5", Some("3"))];
    let by_index = create_matching_tasks("D1", &actives, &forms);
    let by_scan = match_channels_by_scan("D1", &actives, &forms);
    let view = |t: &Vec<cycle_helper::manager::matching::MatchTask>| {
        t.iter().map(|x| (x.device.clone(), x.channel.clone(), x.first_run, x.form)).collect::<Vec<_>>()
    };
    assert_eq!(view(&by_index), view(&by_scan));
    assert_eq!(by_index.len(), 3);
}
