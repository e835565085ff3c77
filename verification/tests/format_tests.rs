use cycle_helper::data::format::{SampleModel, TestStatus, TestTemperature};
use cycle_helper::manager::format as table_format;

#[test]
fn test_status_from_text() {
    assert_eq!(TestStatus::from("长期"), TestStatus::Long);
    assert_eq!(TestStatus::from("离线"), TestStatus::Offline);
    assert_eq!(TestStatus::from(""), TestStatus::Offline);
    assert_eq!(TestStatus::from("长期 "), TestStatus::Offline);
}

#[test]
fn test_status_label_round_trip() {
    for s in [TestStatus::Long, TestStatus::Offline] {
        assert_eq!(TestStatus::from(&s.to_string()), s);
    }
}

#[test]
fn temperature_is_found_anywhere_in_the_cell() {
    assert_eq!(TestTemperature::from("45℃"), TestTemperature::T45);
    assert_eq!(TestTemperature::from("高温45℃循环"), TestTemperature::T45);
    assert_eq!(TestTemperature::from("25℃/35℃"), TestTemperature::T25);
    assert_eq!(TestTemperature::from("30℃"), TestTemperature::Unknown);
    assert_eq!(TestTemperature::from(""), TestTemperature::Unknown);
    assert_eq!(TestTemperature::from("55℃ 1C"), TestTemperature::T55);
    assert_eq!(TestTemperature::from("35 ℃"), TestTemperature::Unknown);
}

#[test]
fn temperature_from_match() {
    assert_eq!(TestTemperature::from_match(Some("35℃")), TestTemperature::T35);
    assert_eq!(TestTemperature::from_match(Some("36℃")), TestTemperature::Unknown);
    assert_eq!(TestTemperature::from_match(None), TestTemperature::Unknown);
}

#[test]
fn sample_model_from_text() {
    assert_eq!(SampleModel::from("铝壳50"), SampleModel::H50);
    assert_eq!(SampleModel::from("65"), SampleModel::H65);
    assert_eq!(SampleModel::from("100"), SampleModel::H100);
    assert_eq!(SampleModel::from("150"), SampleModel::H150);
    assert_eq!(SampleModel::from("180"), SampleModel::H180);
    assert_eq!(SampleModel::from("280"), SampleModel::H280);
    assert_eq!(SampleModel::from("软包50"), SampleModel::S50);
    assert_eq!(SampleModel::from("钠电165"), SampleModel::Na165);
    assert_eq!(SampleModel::from("钠电170"), SampleModel::Na170);
    assert_eq!(SampleModel::from("铝壳65"), SampleModel::Unknown);
}

#[test]
fn labels() {
    assert_eq!(SampleModel::H65.to_string(), "铝壳65");
    assert_eq!(SampleModel::Unknown.to_string(), "N/A");
    assert_eq!(TestTemperature::T25.to_string(), "25℃");
    assert_eq!(TestTemperature::Unknown.to_string(), "N/A");
    assert_eq!(TestStatus::Long.to_string(), "长期");
    assert_eq!(TestStatus::Offline.to_string(), "离线");
}

#[test]
fn table_categories_show_unset_values() {
    assert_eq!(table_format::SampleModel::Unknown.to_string(), "未设置");
    assert_eq!(table_format::TestTemperature::Unknown.to_string(), "未设置");
    assert_eq!(table_format::TestTemperature::from("恒温45℃"), table_format::TestTemperature::T45);
    assert!(table_format::TestStatus::from("长期").is_long());
    assert!(!table_format::TestStatus::from("短期").is_long());
    assert_eq!(table_format::SampleModel::from("280"), table_format::SampleModel::H280);
}

#[test]
fn sample_model_label_round_trip() {
    for m in [SampleModel::H50, SampleModel::S50, SampleModel::Na165, SampleModel::Na170, SampleModel::Unknown] {
        assert_eq!(SampleModel::from(&m.to_string()), m);
    }
    assert_eq!(SampleModel::from(&SampleModel::H65.to_string()), SampleModel::Unknown);
    for m in [
        table_format::SampleModel::H50,
        table_format::SampleModel::S50,
        table_format::SampleModel::Na165,
        table_format::SampleModel::Na170,
        table_format::SampleModel::Unknown,
    ] {
        assert_eq!(table_format::SampleModel::from(&m.to_string()), m);
    }
    assert_eq!(
        table_format::SampleModel::from(&table_format::SampleModel::H180.to_string()),
        table_format::SampleModel::Unknown
    );
}

#[test]
fn temperature_label_round_trip() {
    for t in [
        TestTemperature::T25,
        TestTemperature::T35,
        TestTemperature::T45,
        TestTemperature::T55,
        TestTemperature::Unknown,
    ] {
        assert_eq!(TestTemperature::from_match(Some(&t.to_string())), t);
    }
    for t in [table_format::TestTemperature::T45, table_format::TestTemperature::Unknown] {
        assert_eq!(table_format::TestTemperature::from_match(Some(&t.to_string())), t);
    }
}
