use xilo::command::XiloCommand;
use xilo::config::XiloConfig;
use xilo::error::XiloError;
use xilo::initializer::{expand_tilde, reset_trashbin_prompt, resolve_trashbin_path, Initializer};
use xilo::remover::FileTypeToRemove;
use xilo::terminal::MessageType;

#[test]
fn tilde_alone_is_the_home_directory() {
    assert_eq!(expand_tilde("~", Some("/home/u")), Some(String::from("/home/u")));
}

#[test]
fn tilde_prefix_is_joined_to_the_home_directory() {
    assert_eq!(
        expand_tilde("~/foo", Some("/home/u")),
        Some(String::from("/home/u/foo"))
    );
    assert_eq!(
        expand_tilde("~/a/b.txt", Some("/home/u")),
        Some(String::from("/home/u/a/b.txt"))
    );
}

#[test]
fn a_root_home_does_not_double_the_separator() {
    assert_eq!(expand_tilde("~/foo", Some("/")), Some(String::from("/foo")));
}

#[test]
fn paths_without_a_tilde_prefix_pass_through() {
    assert_eq!(
        expand_tilde("relative/path", Some("/home/u")),
        Some(String::from("relative/path"))
    );
    assert_eq!(
        expand_tilde("/abs/path", Some("/home/u")),
        Some(String::from("/abs/path"))
    );
    assert_eq!(expand_tilde("", Some("/home/u")), Some(String::from("")));
    assert_eq!(
        expand_tilde("~glued", Some("/home/u")),
        Some(String::from("~glued"))
    );
}

#[test]
fn expansion_without_a_home_directory_fails_only_when_needed() {
    assert_eq!(expand_tilde("~", None), None);
    assert_eq!(expand_tilde("~/foo", None), None);
    assert_eq!(expand_tilde("/abs/path", None), Some(String::from("/abs/path")));
    assert_eq!(expand_tilde("~glued", None), Some(String::from("~glued")));
}

#[test]
fn default_under_the_trash_convention_is_home_trash() {
    let r = resolve_trashbin_path(None, Some("/home/u"), Some("/home/u/.cache"), true, true);
    assert_eq!(r.unwrap(), "/home/u/.Trash");
}

#[test]
fn default_otherwise_is_the_cache_subdirectory() {
    let r = resolve_trashbin_path(None, Some("/home/u"), Some("/home/u/.cache"), false, true);
    assert_eq!(r.unwrap(), "/home/u/.cache/xilo");
}

#[test]
fn a_missing_home_is_fatal_under_the_trash_convention() {
    let r = resolve_trashbin_path(None, None, Some("/c"), true, true);
    assert!(matches!(r, Err(XiloError::CannotFindTrashbinPath)));
}

#[test]
fn a_missing_cache_directory_is_fatal_otherwise() {
    let r = resolve_trashbin_path(None, Some("/home/u"), None, false, true);
    assert!(matches!(r, Err(XiloError::CannotFindCacheDirPath)));
}

#[test]
fn the_default_is_resolved_before_the_override_applies() {
    let r = resolve_trashbin_path(Some("/elsewhere"), None, Some("/c"), true, true);
    assert!(matches!(r, Err(XiloError::CannotFindTrashbinPath)));
}

#[test]
fn an_override_takes_precedence() {
    let r = resolve_trashbin_path(Some("/elsewhere"), Some("/home/u"), Some("/c"), false, true);
    assert_eq!(r.unwrap(), "/elsewhere");
}

#[test]
fn an_override_is_tilde_expanded_where_the_platform_does_that() {
    let r = resolve_trashbin_path(Some("~/bin"), Some("/home/u"), Some("/c"), false, true);
    assert_eq!(r.unwrap(), "/home/u/bin");
    let r = resolve_trashbin_path(Some("~/bin"), Some("/home/u"), Some("/c"), false, false);
    assert_eq!(r.unwrap(), "~/bin");
}

#[test]
fn a_tilde_override_without_a_home_is_fatal() {
    let r = resolve_trashbin_path(Some("~/bin"), None, Some("/c"), false, true);
    assert!(matches!(r, Err(XiloError::CannotFindTrashbinPath)));
}

#[test]
fn locating_honors_a_plain_override_whatever_the_environment() {
    let config = XiloConfig {
        trashbin_path: Some(String::from("/opt/somewhere/else")),
    };
    match Initializer::locate_trashbin(Some(&config), false, false) {
        Ok(path) => assert_eq!(path, "/opt/somewhere/else"),
        Err(err) => assert!(matches!(err, XiloError::CannotFindCacheDirPath)),
    }
    match Initializer::locate_trashbin(Some(&config), false, true) {
        Ok(path) => assert_eq!(path, "/opt/somewhere/else"),
        Err(err) => assert!(matches!(err, XiloError::CannotFindCacheDirPath)),
    }
}

#[test]
fn locating_the_default_has_the_platform_shape() {
    match Initializer::locate_trashbin(None, true, true) {
        Ok(path) => assert!(path.ends_with("/.Trash")),
        Err(err) => assert!(matches!(err, XiloError::CannotFindTrashbinPath)),
    }
    match Initializer::locate_trashbin(None, false, true) {
        Ok(path) => assert!(path.ends_with("/xilo")),
        Err(err) => assert!(matches!(err, XiloError::CannotFindCacheDirPath)),
    }
}

#[test]
fn the_initializer_starts_with_every_flag_off() {
    let init = Initializer::new(String::from("/trash"));
    assert_eq!(init.trashbin_path, "/trash");
    assert!(!init.recursive && !init.force && !init.permanent && !init.show_space);
}

#[test]
fn the_builders_set_one_flag_each() {
    let init = Initializer::new(String::from("/trash"))
        .recursive(true)
        .force(true)
        .permanent(true)
        .show_space(true);
    assert!(init.recursive && init.force && init.permanent && init.show_space);
    assert_eq!(init.trashbin_path, "/trash");
    let init = init.recursive(false);
    assert!(!init.recursive && init.force && init.permanent && init.show_space);
}

#[test]
fn the_remover_inherits_the_policy() {
    let init = Initializer::new(String::from("/trash")).recursive(true).force(true);
    let r = init.make_remover(FileTypeToRemove::Directory, String::from("/tmp/d"));
    assert_eq!(r.name, "/tmp/d");
    assert_eq!(r.trashbin_path, "/trash");
    assert!(matches!(r.handle_type, FileTypeToRemove::Directory));
    assert!(r.recursive && r.force && !r.permanent);
}

#[test]
fn the_space_shower_inherits_the_path() {
    let init = Initializer::new(String::from("/trash"));
    let shower = init.make_space_shower();
    assert_eq!(shower.trashbin_path, "/trash");
}

#[test]
fn the_reset_prompt_is_fixed() {
    assert_eq!(reset_trashbin_prompt(), "Are you sure to empty trashbin? (y/N): ");
}

#[test]
fn message_titles_are_fixed() {
    assert_eq!(MessageType::Warning.get_title(), "Warning");
    assert_eq!(MessageType::Error.get_title(), "Error");
    assert_eq!(MessageType::Note.get_title(), "Note");
}

#[test]
fn error_messages_are_exact() {
    assert_eq!(
        XiloError::IOErr(String::from("whatever broke")).message(),
        "whatever broke"
    );
    assert_eq!(
        XiloError::XiloInitFailed(String::from("denied")).message(),
        "initializing xilo failed. Detail: denied"
    );
    assert_eq!(
        XiloError::CannotFindCacheDirPath.message(),
        "cannot find the cache directory path"
    );
    assert_eq!(
        XiloError::CannotFindConfigDirPath.message(),
        "cannot find the config directory path"
    );
    assert_eq!(
        XiloError::CannotFindTrashbinPath.message(),
        "cannot find the trashbin path"
    );
    assert_eq!(
        XiloError::RippingTrashbinFailed(String::from("busy")).message(),
        "removing the trashbin directory failed. Detail: busy"
    );
    assert_eq!(
        XiloError::RemoveDirWithoutRecursiveFlag.message(),
        "directory cannot removed without `-r` flag"
    );
}

#[test]
fn the_command_surface_carries_the_flags() {
    let cmd = XiloCommand {
        filenames: vec![String::from("a"), String::from("b")],
        recursive: true,
        force: false,
        permanent: true,
        show_space: false,
        raw: true,
    };
    assert_eq!(cmd.filenames.len(), 2);
    assert!(cmd.recursive && cmd.permanent && cmd.raw);
    assert!(!cmd.force && !cmd.show_space);
}

#[test]
fn the_config_carries_an_optional_override() {
    let none = XiloConfig { trashbin_path: None };
    assert!(none.trashbin_path.is_none());
    let some = XiloConfig {
        trashbin_path: Some(String::from("~/custom")),
    };
    assert_eq!(some.trashbin_path.as_deref(), Some("~/custom"));
}
