use cycle_helper::utils::{check_channel_name, ConfigBuilder, ConfigError, DeviceConfig, NameFault};

fn names(v: &[&str]) -> Vec<String> {
    v.iter().map(|s| s.to_string()).collect()
}

#[test]
fn new_counts_channels() {
    let c = DeviceConfig::new("DX-02".to_string(), names(&["001-01", "001-02"]));
    assert_eq!(c.computer_name, "DX-02");
    assert_eq!(c.channel_count, 2);
    assert_eq!(c.channel_names, names(&["001-01", "001-02"]));
}

#[test]
fn builders_keep_the_count_in_step() {
    let c = DeviceConfig::new("DX-02".to_string(), vec![])
        .with_channel_names(names(&["1-1", "1-2", "1-3"]))
        .with_computer_name("DX-09".to_string());
    assert_eq!(c.channel_count, 3);
    assert_eq!(c.computer_name, "DX-09");
    let mut d = c.clone();
    d.add_channel_name("2-1".to_string());
    assert_eq!(d.channel_count, 4);
    assert_eq!(d.channel_names[3], "2-1");
}

#[test]
fn get_channel_name_within_count() {
    let mut c = DeviceConfig::new("DX-01".to_string(), names(&["1-1", "1-2"]));
    assert_eq!(c.get_channel_name(0), Some("1-1"));
    assert_eq!(c.get_channel_name(1), Some("1-2"));
    assert_eq!(c.get_channel_name(2), None);
    c.channel_count = 1;
    assert_eq!(c.get_channel_name(1), None);
    c.channel_count = 5;
    assert_eq!(c.get_channel_name(3), None);
}

#[test]
fn validate_accepts_good_names() {
    let c = DeviceConfig::new("DX-01".to_string(), names(&["001-001", "12-7"]));
    assert!(c.validate().is_ok());
    let empty = DeviceConfig::new("DX-01".to_string(), vec![]);
    assert!(empty.validate().is_ok());
}

#[test]
fn validate_reports_count_mismatch_first() {
    let mut c = DeviceConfig::new("DX-01".to_string(), names(&["bad", "1-1"]));
    c.channel_count = 3;
    match c.validate() {
        Err(ConfigError::ChannelCountMismatch { count, names }) => {
            assert_eq!(count, 3);
            assert_eq!(names, 2);
        }
        other => panic!("unexpected {:?}", other),
    }
}

#[test]
fn validate_reports_the_first_bad_name() {
    let c = DeviceConfig::new("DX-01".to_string(), names(&["1-1", "1a-1", "1-"]));
    match c.validate() {
        Err(ConfigError::InvalidCharacters(n)) => assert_eq!(n, "1a-1"),
        other => panic!("unexpected {:?}", other),
    }
    let c = DeviceConfig::new("DX-01".to_string(), names(&["1-1", "1-", "x"]));
    match c.validate() {
        Err(ConfigError::InvalidFormat(n)) => assert_eq!(n, "1-"),
        other => panic!("unexpected {:?}", other),
    }
}

#[test]
fn channel_name_checks() {
    assert_eq!(check_channel_name("12-34"), None);
    assert_eq!(check_channel_name("1-2-3"), Some(NameFault::BadShape));
    assert_eq!(check_channel_name("-12"), Some(NameFault::BadShape));
    assert_eq!(check_channel_name("12-"), Some(NameFault::BadShape));
    assert_eq!(check_channel_name("1234"), Some(NameFault::BadShape));
    assert_eq!(check_channel_name(""), Some(NameFault::BadShape));
    assert_eq!(check_channel_name("12_34"), Some(NameFault::BadCharacters));
    assert_eq!(check_channel_name("１2-3"), Some(NameFault::BadCharacters));
}

#[test]
fn config_builder_builds_and_validates() {
    let c = ConfigBuilder::new().add_channel("1-1").add_channel("1-2").build().unwrap();
    assert_eq!(c.computer_name, "DX-01");
    assert_eq!(c.channel_count, 2);
    assert_eq!(c.channel_names, names(&["1-1", "1-2"]));
    let c = ConfigBuilder::new().computer_name("DX-07").build().unwrap();
    assert_eq!(c.computer_name, "DX-07");
    assert_eq!(c.channel_count, 0);
    match ConfigBuilder::new().add_channel("1-1").add_channel("A-1").build() {
        Err(ConfigError::InvalidCharacters(n)) => assert_eq!(n, "A-1"),
        other => panic!("unexpected {:?}", other),
    }
}

#[test]
fn error_messages() {
    let e = ConfigError::InvalidFormat("1-".to_string());
    assert_eq!(e.message(), "通道名格式错误，必须是 XXX-XXX 格式: 1-");
    let e = ConfigError::InvalidCharacters("a".to_string());
    assert_eq!(e.message(), "通道名格式错误，只能包含数字和破折号: a");
}

#[test]
fn count_mismatch_message() {
    let e = ConfigError::ChannelCountMismatch { count: 3, names: 2 };
    assert_eq!(e.message(), "通道数不匹配: 配置的通道数为 3，但提供的通道名数量为 2");
}
