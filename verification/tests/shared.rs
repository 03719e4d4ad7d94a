use tano::shared::{get_config_dir, get_config_file, get_data_dir, get_parent_dir, DirError};

fn s(x: &str) -> Option<String> {
    Some(x.to_string())
}

#[test]
fn config_dir_precedence() {
    assert_eq!(get_config_dir(s("/t"), s("/x"), s("/h")), Ok("/t".to_string()));
    assert_eq!(get_config_dir(None, s("/x"), s("/h")), Ok("/x/tano".to_string()));
    assert_eq!(get_config_dir(None, s("/x/"), s("/h")), Ok("/x/tano".to_string()));
    assert_eq!(get_config_dir(None, None, s("/home/u")), Ok("/home/u/.config/tano".to_string()));
    assert_eq!(get_config_dir(None, None, None), Err(DirError::ConfigDir));
}

#[test]
fn data_dir_precedence() {
    assert_eq!(get_data_dir(s("/d"), s("/x"), s("/h")), Ok("/d".to_string()));
    assert_eq!(get_data_dir(None, s("/x"), s("/h")), Ok("/x/tano".to_string()));
    assert_eq!(get_data_dir(None, None, s("/home/u")), Ok("/home/u/.local/share/tano".to_string()));
    assert_eq!(get_data_dir(None, None, None), Err(DirError::DataDir));
}

#[test]
fn config_file_in_dir() {
    assert_eq!(get_config_file("/etc/tano"), "/etc/tano/config.toml");
    assert_eq!(get_config_file("/etc/tano/"), "/etc/tano/config.toml");
    assert_eq!(get_config_file(""), "config.toml");
    assert_eq!(get_config_file("rel"), "rel/config.toml");
}

#[test]
fn parent_dirs() {
    assert_eq!(get_parent_dir("/a/b"), Ok("/a".to_string()));
    assert_eq!(get_parent_dir("/a/b/"), Ok("/a".to_string()));
    assert_eq!(get_parent_dir("a"), Ok("".to_string()));
    assert_eq!(get_parent_dir("/a"), Ok("/".to_string()));
    assert_eq!(get_parent_dir("a/b"), Ok("a".to_string()));
    assert_eq!(get_parent_dir("/home/u/.config/tano/config.toml"), Ok("/home/u/.config/tano".to_string()));
    assert_eq!(get_parent_dir("/"), Err(DirError::Parent("/".to_string())));
    assert_eq!(get_parent_dir(""), Err(DirError::Parent("".to_string())));
}
