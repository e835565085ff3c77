use cycle_helper::data::format::{SampleModel, TestStatus, TestTemperature};
use cycle_helper::data::list::{Capacity, ChannelInfo};
use cycle_helper::input::list::{header_slots, missing_slot, read_channel_rows, PrettyPrint};
use cycle_helper::input::table::{ChannelRow, ChannelTable};

fn s(v: &[&str]) -> Vec<String> {
    v.iter().map(|x| x.to_string()).collect()
}

fn channel(prev: Option<usize>, cur: Option<usize>) -> ChannelInfo {
    ChannelInfo {
        device: "D1".to_string(),
        channel: "1-1".to_string(),
        project_code: "P1".to_string(),
        sample_person: "王五".to_string(),
        sample_model: SampleModel::S50,
        sample_id: "ID1".to_string(),
        test_status: TestStatus::Long,
        test_temperature: TestTemperature::T25,
        initial_capacity: None,
        current_capacity: None,
        previous_cycles: prev,
        current_cycles: cur,
    }
}

#[test]
fn lib_update_cycles_cases() {
    let mut c = channel(Some(100), Some(150));
    c.update_cycles(160);
    assert_eq!((c.previous_cycles, c.current_cycles), (Some(100), Some(160)));
    c.update_cycles(70);
    assert_eq!((c.previous_cycles, c.current_cycles), (Some(100), Some(170)));
    c.update_cycles(20);
    assert_eq!((c.previous_cycles, c.current_cycles), (Some(300), Some(320)));
    let mut d = channel(None, None);
    d.update_cycles(0);
    assert_eq!((d.previous_cycles, d.current_cycles), (Some(200), Some(200)));
    let mut e = channel(None, None);
    e.update_cycles(5);
    assert_eq!((e.previous_cycles, e.current_cycles), (Some(0), Some(5)));
    e.update_capacity(Capacity { bits: 3 });
    assert_eq!(e.current_capacity, Some(Capacity { bits: 3 }));
}

#[test]
fn lib_cycle_counts_stay_ordered() {
    for (p, c, n) in [(0usize, 0usize, 0usize), (10, 50, 45), (10, 50, 40), (10, 50, 3), (0, 7, 9)] {
        let mut x = channel(Some(p), Some(c));
        x.update_cycles(n);
        assert!(x.previous_cycles.unwrap() <= x.current_cycles.unwrap());
        assert!(x.current_cycles.unwrap() >= n);
    }
}

fn sheet() -> Vec<Vec<String>> {
    vec![
        s(&[
            "上位机", "测试通道", "申请单号", "送样人", "电芯型号", "电芯编号", "测试状态", "测试温度",
            "初始容量", "当前容量", "接续前圈数", "当前圈数",
        ]),
        s(&["D1", "1-1", "P1", "王五", "软包50", "ID1", "长期", "45℃", "1.1", "1.0", "0", "120"]),
        s(&["D1", "1-2", "P2", "王五", "65", "ID2", "离线", "x", "", "", "", ""]),
        vec![],
        s(&["D2", "1-2", "P2", "王五", "65", "ID2", "离线", "x", "", "", "", ""]),
    ]
}

#[test]
fn test_list() {
    let rows = sheet();
    assert_eq!(missing_slot(&rows), None);
    let caps = vec![(None, None); rows.len()];
    let list = read_channel_rows(&rows, &caps);
    assert_eq!(list.len(), 2);
    assert_eq!(list[0].sample_model, SampleModel::S50);
    assert_eq!(list[0].test_temperature, TestTemperature::T45);
    assert_eq!(list[0].current_cycles, Some(120));
    assert_eq!(list[1].test_status, TestStatus::Offline);
    assert_eq!(list[1].previous_cycles, None);
}

#[test]
fn header_slots_take_exact_headers() {
    let mut h = sheet()[0].clone();
    h[0] = " 上位机".to_string();
    let slots = header_slots(&h);
    assert_eq!(slots.len(), 13);
    assert_eq!(slots[0], None);
    assert_eq!(slots[7], Some(7));
    assert_eq!(slots[12], None);
    let mut rows = sheet();
    rows[0] = h;
    assert_eq!(missing_slot(&rows), Some(0));
    let mut rows = sheet();
    rows[0][5] = "编号".to_string();
    assert_eq!(missing_slot(&rows), Some(5));
    let rows = vec![sheet()[0].clone()];
    assert_eq!(read_channel_rows(&rows, &vec![(None, None)]).len(), 0);
}

fn table(rows: Vec<ChannelRow>) -> ChannelTable {
    ChannelTable { rows, total_capacity: "2.00".to_string() }
}

#[test]
fn pretty_print_empty() {
    assert_eq!(table(vec![]).pretty_print(), "无通道数据");
}

#[test]
fn pretty_print_lays_out_rows_and_summary() {
    let row = ChannelRow {
        info: channel(Some(200), Some(300)),
        initial_capacity: "1.1mAh".to_string(),
        current_capacity: "N/A".to_string(),
    };
    let mut long_project = channel(None, None);
    long_project.project_code = "ABCDEFGHIJKLMNOPQRSTU".to_string();
    long_project.test_status = TestStatus::Offline;
    let row2 = ChannelRow {
        info: long_project,
        initial_capacity: "N/A".to_string(),
        current_capacity: "N/A".to_string(),
    };
    let out = table(vec![row, row2]).pretty_print();
    let lines: Vec<&str> = out.lines().collect();
    assert!(lines[0].starts_with("┌────┬────────────┬"));
    assert!(lines[0].ends_with("┐"));
    assert_eq!(lines[1], "│ ID │    设备    │  通道  │   项目编号   │ 样品负责人 │ 样品型号 │  测试状态  │  测试温度  │  初始容量  │  当前容量  │ 已循环次数 │");
    assert_eq!(lines[3], "│   1│D1          │1-1     │P1            │王五        │软包50    │长期        │25℃         │      1.1mAh│         N/A│       200次│");
    assert!(lines[4].contains("│ABCDEFGHIJK...│"));
    assert!(out.contains("📊 统计信息: 共 2 个通道 | 长期测试: 1 个 | 离线: 1 个 | 总容量: 2.00 mAh\n"));
    assert!(out.contains("🌡️ 温度分布: 25℃×2\n"));
    assert!(out.contains("📦 样品型号分布: 软包50×2\n"));
}

#[test]
fn channel_card() {
    let c = channel(Some(2), None);
    let card = c.to_card("1.00 mAh", "N/A");
    let lines: Vec<&str> = card.split('\n').collect();
    assert_eq!(lines[0], "");
    assert_eq!(lines[1].chars().count(), 55);
    assert_eq!(lines[2], format!("│ {:^47} │", "通道信息"));
    assert_eq!(lines[4], format!("│ 设备: {:40} │", "D1"));
    assert_eq!(lines[8], "│ 样品型号: 软包50 │");
    assert_eq!(lines[12], format!("│ 初始容量: {:37} │", "1.00 mAh"));
    assert_eq!(lines[14], format!("│ 先前循环: {:35} │", "2 次"));
    assert_eq!(lines[15], format!("│ 当前循环: {:37} │", "N/A"));
}
