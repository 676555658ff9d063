use firmware_config::location::{
    config_file, log_file, project_dir_from, APPLICATION, CONFIG_FILE_NAME, ORGANIZATION,
    QUALIFIER,
};
use firmware_config::{get_project_dir, ConfigError, LogKind, ProjectDirs, Timestamp};
use std::path::{Path, PathBuf};

fn known_moment() -> Timestamp {
    Timestamp::new(2024, 3, 5, 6, 7, 8).unwrap()
}

#[test]
fn the_application_is_filed_under_one_identity() {
    assert_eq!(QUALIFIER, "cn");
    assert_eq!(ORGANIZATION, "hamflx");
    assert_eq!(APPLICATION, "huawei_pc_manager_bootstrap");
    assert_eq!(CONFIG_FILE_NAME, "config.json");
}

#[test]
fn config_file_is_config_json_in_its_directory() {
    let file = config_file(PathBuf::from("/home/u/.config/app"));
    assert_eq!(file.dir, Path::new("/home/u/.config/app"));
    assert_eq!(file.name, "config.json");
}

#[test]
fn log_file_is_named_after_the_moment() {
    let file = log_file(PathBuf::from("/home/u/.cache/app"), LogKind::App, &known_moment());
    assert_eq!(file.dir, Path::new("/home/u/.cache/app"));
    assert_eq!(file.name, "app-20240305060708.log");
}

#[test]
fn panics_log_file_is_named_after_the_moment() {
    let file = log_file(PathBuf::from("/home/u/.cache/app"), LogKind::Panics, &known_moment());
    assert_eq!(file.dir, Path::new("/home/u/.cache/app"));
    assert_eq!(file.name, "app-panics-20240305060708.log");
}

#[test]
fn log_files_of_one_second_share_a_name_and_others_do_not() {
    let dir = PathBuf::from("cache");
    let first = log_file(dir.clone(), LogKind::App, &known_moment());
    let again = log_file(dir.clone(), LogKind::App, &known_moment());
    let later = log_file(dir.clone(), LogKind::App, &Timestamp::new(2024, 3, 5, 6, 7, 9).unwrap());
    let panics = log_file(dir, LogKind::Panics, &known_moment());
    assert_eq!(first.name, again.name);
    assert_ne!(first.name, later.name);
    assert_ne!(first.name, panics.name);
}

#[test]
fn each_kind_of_log_has_its_prefix() {
    assert_eq!(LogKind::App.prefix(), "app-");
    assert_eq!(LogKind::Panics.prefix(), "app-panics-");
}

#[test]
fn project_dir_from_keeps_what_was_found() {
    let found = ProjectDirs { cache_dir: PathBuf::from("c"), config_dir: PathBuf::from("g") };
    let project = project_dir_from(Some(found)).unwrap();
    assert_eq!(project.cache_dir, Path::new("c"));
    assert_eq!(project.config_dir, Path::new("g"));
}

#[test]
fn project_dir_from_nothing_is_a_failed_resolution() {
    assert_eq!(project_dir_from(None).err(), Some(ConfigError::DirectoryResolution));
}

#[test]
fn get_project_dir_gives_what_the_platform_names() {
    let theirs = directories::ProjectDirs::from("cn", "hamflx", "huawei_pc_manager_bootstrap");
    match (get_project_dir(), theirs) {
        (Ok(ours), Some(theirs)) => {
            assert_eq!(ours.cache_dir, theirs.cache_dir());
            assert_eq!(ours.config_dir, theirs.config_dir());
            assert!(!ours.cache_dir.as_os_str().is_empty());
            assert!(!ours.config_dir.as_os_str().is_empty());
        }
        (Err(error), None) => assert_eq!(error, ConfigError::DirectoryResolution),
        (ours, theirs) => panic!("{:?} where the platform names {:?}", ours, theirs),
    }
}
