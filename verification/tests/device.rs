use menu::device::{Device, Model};
use menu::error::ParseError;

#[test]
fn device_new_keeps_model_and_serial() {
    let device = Device::new(Model::LibraV0, "Lib0");
    assert_eq!(device.model, Model::LibraV0);
    assert_eq!(device.serial_number, "Lib0");
}

#[test]
fn device_to_string_is_model_dash_serial() {
    assert_eq!(Device::new(Model::LibraV0, "Lib0").to_string(), "LibraV0-Lib0");
    assert_eq!(Device::new(Model::IchibuV1, "7").to_string(), "IchibuV1-7");
    assert_eq!(Device::new(Model::IchibuV2, "a b").to_string(), "IchibuV2-a b");
}

#[test]
fn device_from_str_reads_model_and_serial() {
    assert_eq!(Device::from_str("LibraV0-15"), Ok(Device::new(Model::LibraV0, "15")));
    assert_eq!(Device::from_str("IchibuV1-x"), Ok(Device::new(Model::IchibuV1, "x")));
    assert_eq!(Device::from_str("IchibuV2-Lib0"), Ok(Device::new(Model::IchibuV2, "Lib0")));
}

#[test]
fn device_from_str_splits_at_the_first_separator_only() {
    assert_eq!(Device::from_str("LibraV0-a-b"), Ok(Device::new(Model::LibraV0, "a-b")));
    assert_eq!(Device::from_str("LibraV0--"), Ok(Device::new(Model::LibraV0, "-")));
}

#[test]
fn device_from_str_without_separator_is_invalid_format() {
    assert_eq!(Device::from_str("LibraV0"), Err(ParseError::InvalidFormat));
    assert_eq!(Device::from_str(""), Err(ParseError::InvalidFormat));
    assert_eq!(Device::from_str("nothing here"), Err(ParseError::InvalidFormat));
}

#[test]
fn device_from_str_without_serial_is_invalid_format() {
    assert_eq!(Device::from_str("LibraV0-"), Err(ParseError::InvalidFormat));
    assert_eq!(Device::from_str("-"), Err(ParseError::InvalidFormat));
    assert_eq!(Device::from_str("Unknown-"), Err(ParseError::InvalidFormat));
}

#[test]
fn device_from_str_with_unknown_model_is_unknown_model() {
    assert_eq!(Device::from_str("LibraV1-15"), Err(ParseError::UnknownModel));
    assert_eq!(Device::from_str("-15"), Err(ParseError::UnknownModel));
    assert_eq!(Device::from_str("librav0-15"), Err(ParseError::UnknownModel));
    assert_eq!(Device::from_str(" LibraV0-15"), Err(ParseError::UnknownModel));
}

#[test]
fn device_round_trips_through_its_text() {
    let devices = vec![
        Device::new(Model::LibraV0, "Lib0"),
        Device::new(Model::IchibuV1, "1"),
        Device::new(Model::IchibuV2, "serial-with-dashes"),
        Device::new(Model::LibraV0, "\u{e9}t\u{e9}"),
    ];
    for device in devices {
        assert_eq!(Device::from_str(&device.to_string()), Ok(device.clone()));
    }
}

#[test]
fn device_parses_through_the_std_trait() {
    let parsed: Result<Device, ParseError> = "LibraV0-Lib0".parse();
    assert_eq!(parsed, Ok(Device::new(Model::LibraV0, "Lib0")));
    let model: Result<Model, ParseError> = "IchibuV2".parse();
    assert_eq!(model, Ok(Model::IchibuV2));
}

#[test]
fn device_same_compares_model_and_serial() {
    let device = Device::new(Model::LibraV0, "Lib0");
    assert!(device.same(&Device::new(Model::LibraV0, "Lib0")));
    assert!(!device.same(&Device::new(Model::LibraV0, "Lib1")));
    assert!(!device.same(&Device::new(Model::IchibuV1, "Lib0")));
    assert!(device.same(&device.clone()));
}

#[test]
fn model_name_and_from_str_agree() {
    for model in [Model::IchibuV1, Model::IchibuV2, Model::LibraV0] {
        assert_eq!(model.name(), format!("{:?}", model));
        assert_eq!(Model::from_str(model.name()), Ok(model));
    }
    assert_eq!(Model::LibraV0.name(), "LibraV0");
}

#[test]
fn model_from_str_refuses_other_text() {
    assert_eq!(Model::from_str("LibraV"), Err(ParseError::UnknownModel));
    assert_eq!(Model::from_str("LibraV00"), Err(ParseError::UnknownModel));
    assert_eq!(Model::from_str(""), Err(ParseError::UnknownModel));
    assert_eq!(Model::from_str("ichibuv1"), Err(ParseError::UnknownModel));
}

#[test]
fn device_is_well_formed_with_a_serial() {
    assert!(Device::new(Model::LibraV0, "Lib0").is_well_formed());
    let mut device = Device::new(Model::LibraV0, "Lib0");
    device.serial_number.clear();
    assert!(!device.is_well_formed());
}

#[test]
fn device_with_a_wide_serial_round_trips() {
    let device = Device::new(Model::IchibuV1, "\u{1f600}-\u{e9}");
    assert_eq!(device.to_string(), "IchibuV1-\u{1f600}-\u{e9}");
    assert_eq!(Device::from_str("IchibuV1-\u{1f600}-\u{e9}"), Ok(device));
}
