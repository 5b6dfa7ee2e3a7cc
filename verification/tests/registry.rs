use menu::device::{Device, Model};
use menu::error::Error;
use menu::libra::{Config, Libra};
use menu::registry::ConfigFile;

fn make_default_config() -> ConfigFile {
    let mut file = ConfigFile::missing();
    Libra::new_config_file(vec![Libra::default()], &mut file).unwrap();
    file
}

fn libra_with_serial(serial: &str) -> Libra {
    let mut libra = Libra::default();
    libra.device = Device::new(Model::LibraV0, serial);
    libra
}

#[test]
fn generate_config() {
    let file = make_default_config();

    let model_libra = vec![Libra::default()];
    assert_eq!(model_libra, Libra::read_as_vec(&file).unwrap());
}

#[test]
fn edit_config() {
    let mut file = make_default_config();

    let mut edited_libra = Libra::default();
    edited_libra.config.location = "New Location".into();
    let edited_clone = vec![edited_libra.clone()];
    edited_libra.edit_config_file(&mut file).unwrap();

    let libra_from_new_file = Libra::read_as_vec(&file).unwrap();
    assert_eq!(edited_clone, libra_from_new_file);
    assert_eq!(libra_from_new_file[0].config.location, "New Location");
    let mut restored = libra_from_new_file[0].config.clone();
    restored.location = Config::default().location;
    assert_eq!(restored, Config::default());
}

#[test]
fn add_to_config() {
    let mut file = make_default_config();

    let mut edited_libra = Libra::default();
    edited_libra.config.location = "New Location".into();
    edited_libra.device.serial_number = "15".into();
    let edited_clone = edited_libra.clone();
    edited_libra.add_to_config_file(&mut file).unwrap();

    let mut libra_from_new_file = Libra::read_as_vec(&file).unwrap();
    assert_eq!(libra_from_new_file.len(), 2);
    libra_from_new_file.retain(|x| x.device == edited_clone.device);
    assert_eq!(vec![edited_clone.clone()], libra_from_new_file);

    let again = edited_clone.add_to_config_file(&mut file);
    assert_eq!(again, Err(Error::LibraAlreadyExists));
    assert_eq!(Libra::read_as_vec(&file).unwrap().len(), 2);
}

#[test]
fn remove_from_config() {
    let mut file = make_default_config();

    Libra::remove_from_config_file(Libra::default().device, &mut file).unwrap();

    let libra_from_new_file = Libra::read_as_vec(&file).unwrap();
    assert_eq!(Vec::<Libra>::new(), libra_from_new_file);
    assert!(file.is_present());
}

#[test]
fn remove_after_add_leaves_the_added_entry() {
    let mut file = make_default_config();
    let added = libra_with_serial("15");
    added.clone().add_to_config_file(&mut file).unwrap();

    Libra::remove_from_config_file(Libra::default().device, &mut file).unwrap();

    assert_eq!(Libra::read_as_vec(&file).unwrap(), vec![added]);
}

#[test]
fn test_new_config_file_success() {
    let mut file = ConfigFile::missing();

    let libra1 = Libra::default();
    let libra2 = libra_with_serial("L1");
    let libras = vec![libra1.clone(), libra2.clone()];

    let result = Libra::new_config_file(libras, &mut file);
    assert!(result.is_ok());
    assert!(file.is_present());

    let content = Libra::read_as_vec(&file).unwrap();
    assert_eq!(content, vec![libra1, libra2]);
}

#[test]
fn test_new_config_file_already_exists() {
    let mut file = ConfigFile::present(vec![]).unwrap();

    let result = Libra::new_config_file(vec![], &mut file);
    assert!(result.is_err());
    assert_eq!(result.unwrap_err(), Error::FileExists);
    assert_eq!(Libra::read_as_vec(&file).unwrap(), vec![]);
}

#[test]
fn new_config_file_does_not_merge_into_an_existing_file() {
    let mut file = make_default_config();

    let result = Libra::new_config_file(vec![libra_with_serial("L1")], &mut file);
    assert_eq!(result, Err(Error::FileExists));
    assert_eq!(Libra::read_as_vec(&file).unwrap(), vec![Libra::default()]);
}

#[test]
fn new_config_file_refuses_duplicate_identities() {
    let mut file = ConfigFile::missing();
    let mut second = Libra::default();
    second.config.ingredient = "Other".to_string();

    let result = Libra::new_config_file(
        vec![Libra::default(), libra_with_serial("L1"), second],
        &mut file,
    );
    assert_eq!(result, Err(Error::LibraAlreadyExists));
    assert!(!file.is_present());
    assert_eq!(Libra::read_as_vec(&file), Err(Error::FileNotFound));
}

#[test]
fn new_config_file_with_no_entries_creates_an_empty_registry() {
    let mut file = ConfigFile::missing();
    assert_eq!(Libra::new_config_file(vec![], &mut file), Ok(()));
    assert!(file.is_present());
    assert_eq!(Libra::read_as_vec(&file), Ok(vec![]));
}

#[test]
fn read_as_vec_of_a_missing_file_is_not_found() {
    let file = ConfigFile::missing();
    assert!(!file.is_present());
    assert_eq!(Libra::read_as_vec(&file), Err(Error::FileNotFound));
}

#[test]
fn present_keeps_the_entries_in_order() {
    let entries = vec![libra_with_serial("b"), libra_with_serial("a"), libra_with_serial("c")];
    let file = ConfigFile::present(entries.clone()).unwrap();
    assert!(file.is_present());
    assert_eq!(Libra::read_as_vec(&file), Ok(entries));
}

#[test]
fn present_refuses_duplicate_identities() {
    let entries = vec![libra_with_serial("a"), libra_with_serial("b"), libra_with_serial("a")];
    assert!(matches!(ConfigFile::present(entries), Err(Error::LibraAlreadyExists)));
    let differing_model = vec![
        Libra { config: Config::default(), device: Device::new(Model::IchibuV1, "a") },
        libra_with_serial("a"),
    ];
    assert!(ConfigFile::present(differing_model).is_ok());
}

#[test]
fn test_edit_config_file_success() {
    let mut file = ConfigFile::missing();

    let libra1 = libra_with_serial("L1");
    let libra2 = libra_with_serial("L2");
    Libra::new_config_file(vec![libra1.clone(), libra2.clone()], &mut file).unwrap();

    let mut edited_libra1 = libra1.clone();
    edited_libra1.config.ingredient = "New Ingredient".to_string();

    let result = edited_libra1.clone().edit_config_file(&mut file);
    assert!(result.is_ok());

    let libras_from_file = Libra::read_as_vec(&file).unwrap();
    assert_eq!(libras_from_file.len(), 2);
    assert!(libras_from_file.contains(&edited_libra1));
    assert!(libras_from_file.contains(&libra2));
    assert!(!libras_from_file.contains(&libra1));
    assert_eq!(libras_from_file, vec![edited_libra1, libra2]);
}

#[test]
fn test_edit_config_file_not_found() {
    let mut file = ConfigFile::missing();
    let libra = Libra::default();
    let result = libra.edit_config_file(&mut file);
    assert!(result.is_err());
    assert!(matches!(result.unwrap_err(), Error::FileNotFound));
    assert!(!file.is_present());
}

#[test]
fn test_edit_config_file_libra_not_in_file() {
    let mut file = ConfigFile::missing();

    let libra1 = Libra::default();
    Libra::new_config_file(vec![libra1], &mut file).unwrap();

    let mut libra_to_edit = libra_with_serial("L1");
    libra_to_edit.config.ingredient = "New Ingredient".to_string();

    let result = libra_to_edit.edit_config_file(&mut file);
    assert!(result.is_err());
    assert!(matches!(result.unwrap_err(), Error::LibraNotFound));
    assert_eq!(Libra::read_as_vec(&file).unwrap(), vec![Libra::default()]);
}

#[test]
fn edit_changes_the_middle_entry_only() {
    let entries = vec![libra_with_serial("1"), libra_with_serial("2"), libra_with_serial("3")];
    let mut file = ConfigFile::present(entries.clone()).unwrap();
    let mut edited = libra_with_serial("2");
    edited.config.phidget_id = 77;

    edited.clone().edit_config_file(&mut file).unwrap();

    let after = Libra::read_as_vec(&file).unwrap();
    assert_eq!(after, vec![entries[0].clone(), edited, entries[2].clone()]);
}

#[test]
fn test_add_to_config_file_success() {
    let mut file = ConfigFile::missing();

    let libra1 = Libra::default();
    Libra::new_config_file(vec![libra1.clone()], &mut file).unwrap();

    let libra2 = libra_with_serial("L1");

    let result = libra2.clone().add_to_config_file(&mut file);
    assert!(result.is_ok());

    let libras_from_file = Libra::read_as_vec(&file).unwrap();
    assert_eq!(libras_from_file.len(), 2);
    assert!(libras_from_file.contains(&libra1));
    assert!(libras_from_file.contains(&libra2));
    assert_eq!(libras_from_file, vec![libra1, libra2]);
}

#[test]
fn test_add_to_config_file_not_found() {
    let mut file = ConfigFile::missing();
    let libra = Libra::default();
    let result = libra.add_to_config_file(&mut file);
    assert!(result.is_err());
    assert!(matches!(result.unwrap_err(), Error::FileNotFound));
    assert!(!file.is_present());
}

#[test]
fn test_add_to_config_file_already_exists() {
    let mut file = ConfigFile::missing();

    let libra1 = Libra::default();
    Libra::new_config_file(vec![libra1.clone()], &mut file).unwrap();

    let result = libra1.add_to_config_file(&mut file);
    assert!(result.is_err());
    assert!(matches!(result.unwrap_err(), Error::LibraAlreadyExists));
    assert_eq!(Libra::read_as_vec(&file).unwrap(), vec![Libra::default()]);
}

#[test]
fn add_refuses_the_same_identity_with_another_record() {
    let mut file = make_default_config();
    let mut other = Libra::default();
    other.config.location = "Elsewhere".to_string();

    assert_eq!(other.add_to_config_file(&mut file), Err(Error::LibraAlreadyExists));
    assert_eq!(Libra::read_as_vec(&file).unwrap(), vec![Libra::default()]);
}

#[test]
fn test_remove_from_config_file_success() {
    let mut file = ConfigFile::missing();

    let libra1 = Libra::default();
    let libra2 = libra_with_serial("L1");
    Libra::new_config_file(vec![libra1.clone(), libra2.clone()], &mut file).unwrap();

    let result = Libra::remove_from_config_file(libra1.device.clone(), &mut file);
    assert!(result.is_ok());

    let libras_from_file = Libra::read_as_vec(&file).unwrap();
    assert_eq!(libras_from_file.len(), 1);
    assert!(!libras_from_file.contains(&libra1));
    assert!(libras_from_file.contains(&libra2));
}

#[test]
fn test_remove_from_config_file_not_found() {
    let mut file = ConfigFile::missing();
    let device = Device::new(Model::LibraV0, "L1");
    let result = Libra::remove_from_config_file(device, &mut file);
    assert!(result.is_err());
    assert!(matches!(result.unwrap_err(), Error::FileNotFound));
    assert!(!file.is_present());
}

#[test]
fn test_remove_from_config_file_libra_not_in_file() {
    let mut file = ConfigFile::missing();

    let libra1 = Libra::default();
    Libra::new_config_file(vec![libra1], &mut file).unwrap();

    let device_to_remove = Device::new(Model::LibraV0, "L99");

    let result = Libra::remove_from_config_file(device_to_remove, &mut file);
    assert!(result.is_err());
    assert!(matches!(result.unwrap_err(), Error::LibraNotFound));
    assert_eq!(Libra::read_as_vec(&file).unwrap(), vec![Libra::default()]);
}

#[test]
fn remove_keeps_the_order_of_the_others() {
    let entries = vec![libra_with_serial("1"), libra_with_serial("2"), libra_with_serial("3")];
    let mut file = ConfigFile::present(entries.clone()).unwrap();

    Libra::remove_from_config_file(Device::new(Model::LibraV0, "2"), &mut file).unwrap();
    assert_eq!(Libra::read_as_vec(&file).unwrap(), vec![entries[0].clone(), entries[2].clone()]);

    let other_model = Device::new(Model::IchibuV1, "1");
    assert_eq!(Libra::remove_from_config_file(other_model, &mut file), Err(Error::LibraNotFound));
    assert_eq!(Libra::read_as_vec(&file).unwrap().len(), 2);
}

#[test]
fn table_pairs_every_entry_with_its_key() {
    let entries = vec![libra_with_serial("Lib0"), libra_with_serial("15")];
    let file = ConfigFile::present(entries.clone()).unwrap();
    let table = file.table().unwrap();
    assert_eq!(
        table,
        vec![
            ("LibraV0-Lib0".to_string(), entries[0].clone()),
            ("LibraV0-15".to_string(), entries[1].clone()),
        ]
    );
    assert!(ConfigFile::missing().table().is_none());
}
