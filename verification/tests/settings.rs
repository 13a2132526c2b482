use achievement_hunter::error::{Error, Failure};
use achievement_hunter::settings::{
    get_config_filepath, get_windows_config_filepath, join, Settings, Steam, CONFIG_DIR_NAME,
    CONFIG_FILENAME,
};

#[test]
fn config_filepath_lies_below_the_home_directory() {
    assert_eq!(
        get_config_filepath(Ok("/home/user".to_string())),
        Ok("/home/user/.config/achievement_hunter/config.toml".to_string())
    );
}

#[test]
fn config_filepath_adds_no_second_separator() {
    assert_eq!(
        get_config_filepath(Ok("/home/user/".to_string())),
        Ok("/home/user/.config/achievement_hunter/config.toml".to_string())
    );
    assert_eq!(
        get_config_filepath(Ok("/".to_string())),
        Ok("/.config/achievement_hunter/config.toml".to_string())
    );
}

#[test]
fn config_filepath_of_empty_home_is_relative() {
    assert_eq!(
        get_config_filepath(Ok(String::new())),
        Ok(".config/achievement_hunter/config.toml".to_string())
    );
}

#[test]
fn config_filepath_fails_without_home() {
    assert_eq!(
        get_config_filepath(Err("environment variable not found".to_string())),
        Err(Error {
            failure: Failure::Config { detail: "environment variable not found".to_string() },
            context: vec![],
        })
    );
}

#[test]
fn config_filepath_on_windows() {
    assert_eq!(
        get_windows_config_filepath(),
        "C:\\ProgramData\\achievement_hunter\\.config\\achievement_hunter\\config.toml"
    );
}

#[test]
fn config_names() {
    assert_eq!(CONFIG_DIR_NAME, "achievement_hunter");
    assert_eq!(CONFIG_FILENAME, "config.toml");
}

#[test]
fn join_puts_one_separator_between() {
    assert_eq!(join("a".to_string(), "b"), "a/b");
    assert_eq!(join("a/".to_string(), "b"), "a/b");
    assert_eq!(join(String::new(), "b"), "b");
    assert_eq!(join("a".to_string(), ""), "a/");
    assert_eq!(join("héllo".to_string(), "wörld"), "héllo/wörld");
}

#[test]
fn join_with_a_rooted_name_is_that_name() {
    assert_eq!(join("a".to_string(), "/b"), "/b");
    assert_eq!(join(String::new(), "/"), "/");
}

#[test]
fn settings_compare_by_their_fields() {
    let steam = |api_key: &str| Steam {
        api_key: api_key.to_string(),
        user_id: "test_user_id".to_string(),
    };
    let settings = Settings { steam: steam("test_api_key") };
    assert_eq!(settings, Settings { steam: steam("test_api_key") });
    assert_ne!(settings, Settings { steam: steam("other") });
}
