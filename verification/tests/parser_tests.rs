use cycle_helper::input::form::DataForm;
use cycle_helper::plugin::parser::{form_name, ids_from_captures, ParseError, Sources};

fn ids(s: &str) -> (Sources, String, String) {
    form_name(s).unwrap()
}

#[test]
fn shenghong_names_in_both_orders() {
    assert_eq!(ids("UN12_CN3_20260202"), (Sources::Shenghong, "12".to_string(), "3".to_string()));
    assert_eq!(ids("CN3_UN12_20260202"), (Sources::Shenghong, "12".to_string(), "3".to_string()));
}

#[test]
fn weichuang_names_in_both_orders() {
    assert_eq!(ids("SN5_Ch7_x"), (Sources::Weichuang, "5".to_string(), "7".to_string()));
    assert_eq!(ids("Ch7_SN5_x"), (Sources::Weichuang, "5".to_string(), "7".to_string()));
}

#[test]
fn nebula_names() {
    assert_eq!(ids("D2-25_8_cycle"), (Sources::Nebula, "D2-25".to_string(), "8".to_string()));
    assert_eq!(ids("192.168.1.5_16_x"), (Sources::Nebula, "192.168.1.5".to_string(), "16".to_string()));
}

#[test]
fn unrecognised_names() {
    match form_name("UN12_CN3") {
        Err(ParseError::UnrecognizedFileName(n)) => assert_eq!(n, "UN12_CN3"),
        other => panic!("unexpected {:?}", other),
    }
    let e = form_name("report").unwrap_err();
    assert_eq!(e.message(), "Unable to parse filename: report");
}

#[test]
fn ids_from_given_captures() {
    let caps = Some(vec![Some("UN1_CN2_".to_string()), Some("1".to_string()), Some("2".to_string())]);
    assert_eq!(ids_from_captures(&caps, 1, 2), Some(("1".to_string(), "2".to_string())));
    assert_eq!(ids_from_captures(&caps, 2, 1), Some(("2".to_string(), "1".to_string())));
    assert_eq!(ids_from_captures(&caps, 1, 3), None);
    let partial = Some(vec![Some("x".to_string()), None, Some("2".to_string())]);
    assert_eq!(ids_from_captures(&partial, 1, 2), None);
    assert_eq!(ids_from_captures(&None, 1, 2), None);
}

#[test]
fn data_form_from_name_and_from_info() {
    let f = DataForm::init("d/UN1_CN4_a.xlsx".to_string(), "UN1_CN4_a").unwrap();
    assert_eq!(f.get_source(), Sources::Shenghong);
    assert_eq!(f.get_unit(), "1");
    assert_eq!(f.get_channel(), "4");
    assert_eq!(f.get_form_path(), "d/UN1_CN4_a.xlsx");
    assert!(f.channel_eq("4"));
    assert!(!f.channel_eq("04"));
    assert!(DataForm::init("p".to_string(), "plain").is_err());
    let g = DataForm::from_info("p.xlsx".to_string(), Sources::Nebula, "12".to_string(), 307);
    assert_eq!(g.get_channel(), "307");
    let h = g.clone();
    assert_eq!(h.get_unit(), "12");
}

#[test]
fn field_order_does_not_matter() {
    for rest in ["", "x", "a_b_9", "UN1_CN2_"] {
        let sh = (Sources::Shenghong, "007".to_string(), "15".to_string());
        assert_eq!(ids(&format!("UN007_CN15_{rest}")), sh);
        assert_eq!(ids(&format!("CN15_UN007_{rest}")), sh);
        let wc = (Sources::Weichuang, "42".to_string(), "8".to_string());
        assert_eq!(ids(&format!("SN42_Ch8_{rest}")), wc);
        assert_eq!(ids(&format!("Ch8_SN42_{rest}")), wc);
    }
}
