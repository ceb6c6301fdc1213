use xilo::error::XiloError;
use xilo::remover::{
    basename, trashed_destination, FileTypeToRemove, RemovalOutcome, RemovalPlan, Remover,
};

fn remover(
    handle_type: FileTypeToRemove,
    name: &str,
    recursive: bool,
    force: bool,
    permanent: bool,
) -> Remover {
    Remover::new(
        handle_type,
        String::from(name),
        String::from("/trash"),
        recursive,
        force,
        permanent,
    )
}

fn is_url_safe_base64(segment: &str) -> bool {
    segment
        .chars()
        .all(|c| c.is_ascii_alphanumeric() || c == '-' || c == '_' || c == '=')
}

#[test]
fn directory_without_recursive_flag_is_refused() {
    let r = remover(FileTypeToRemove::Directory, "/tmp/some_dir", false, false, false);
    assert!(matches!(
        r.plan_with_salt("salt"),
        Err(XiloError::RemoveDirWithoutRecursiveFlag)
    ));
    assert!(matches!(
        r.plan(),
        Err(XiloError::RemoveDirWithoutRecursiveFlag)
    ));
}

#[test]
fn directory_guard_precedes_the_permanent_branch() {
    let r = remover(FileTypeToRemove::Directory, "/tmp/some_dir", false, true, true);
    assert!(matches!(
        r.plan_with_salt("salt"),
        Err(XiloError::RemoveDirWithoutRecursiveFlag)
    ));
}

#[test]
fn permanent_policy_asks_first() {
    let r = remover(FileTypeToRemove::File, "/tmp/a.txt", false, false, true);
    assert!(matches!(r.plan_with_salt("salt"), Ok(RemovalPlan::PermanentPrompt)));
    let d = remover(FileTypeToRemove::Directory, "/tmp/d", true, false, true);
    assert!(matches!(d.plan_with_salt("salt"), Ok(RemovalPlan::PermanentPrompt)));
}

#[test]
fn forced_move_has_the_trashed_shape() {
    let r = remover(FileTypeToRemove::File, "/tmp/a.txt", false, true, false);
    let plan = r.plan_with_salt("some-instant").unwrap();
    let destination = match plan {
        RemovalPlan::Move { destination } => destination,
        other => panic!("expected an immediate move, got {:?}", other),
    };
    let rest = destination
        .strip_prefix("/trash/")
        .expect("destination must live directly under the trashbin");
    let (hash, base) = rest.split_once('!').expect("separator missing");
    assert_eq!(hash.len(), 44);
    assert!(is_url_safe_base64(hash));
    assert_eq!(base, "a.txt");
}

#[test]
fn unforced_move_asks_first() {
    let r = remover(FileTypeToRemove::File, "/tmp/a.txt", false, false, false);
    assert!(matches!(
        r.plan_with_salt("salt"),
        Ok(RemovalPlan::MovePrompt { .. })
    ));
}

#[test]
fn clock_salted_plan_has_the_trashed_shape() {
    let r = remover(FileTypeToRemove::File, "/tmp/b.log", false, true, false);
    let plan = r.plan().unwrap();
    let destination = match plan {
        RemovalPlan::Move { destination } => destination,
        other => panic!("expected an immediate move, got {:?}", other),
    };
    let rest = destination.strip_prefix("/trash/").unwrap();
    let (hash, base) = rest.split_once('!').unwrap();
    assert_eq!(hash.len(), 44);
    assert!(is_url_safe_base64(hash));
    assert_eq!(base, "b.log");
}

#[test]
fn same_basename_different_paths_never_collide() {
    let a = trashed_destination("/trash", "/home/u/one/data.txt", "instant-1");
    let b = trashed_destination("/trash", "/home/u/two/data.txt", "instant-1");
    assert_ne!(a, b);
    assert!(a.ends_with("!data.txt"));
    assert!(b.ends_with("!data.txt"));
}

#[test]
fn same_path_different_instants_never_collide() {
    let a = trashed_destination("/trash", "/home/u/data.txt", "instant-1");
    let b = trashed_destination("/trash", "/home/u/data.txt", "instant-2");
    assert_ne!(a, b);
}

#[test]
fn trashed_destination_is_deterministic_in_path_and_salt() {
    let a = trashed_destination("/trash", "/home/u/data.txt", "instant-1");
    let b = trashed_destination("/trash", "/home/u/data.txt", "instant-1");
    assert_eq!(a, b);
}

#[test]
fn the_digest_segment_is_no_echo_of_the_input() {
    let a = trashed_destination("/t", "/x", "s");
    let rest = a.strip_prefix("/t/").unwrap();
    let (hash, base) = rest.split_once('!').unwrap();
    assert_eq!(hash.len(), 44);
    assert!(is_url_safe_base64(hash));
    assert!(!hash.contains("/x"));
    assert_eq!(base, "x");
}

#[test]
fn the_digest_segment_matches_the_known_answer() {
    // SHA-256 of the empty string, in padded URL-safe Base64.
    let d = trashed_destination("", "", "");
    assert_eq!(d, "/47DEQpj8HBSa-_TImW-5JCeuQeRkm5NMpJWZG3hSuFU=!");
}

#[test]
fn basename_takes_the_final_component() {
    assert_eq!(basename("/a/b/c.txt"), "c.txt");
    assert_eq!(basename("plain"), "plain");
    assert_eq!(basename("rel/path/leaf"), "leaf");
    assert_eq!(basename("/trailing/"), "");
    assert_eq!(basename(""), "");
}

#[test]
fn affirmative_answer_carries_a_permanent_plan_out() {
    let r = remover(FileTypeToRemove::File, "/tmp/a.txt", false, false, true);
    let plan = RemovalPlan::PermanentPrompt;
    assert!(matches!(
        r.outcome(&plan, "y\n"),
        RemovalOutcome::DeletePermanently
    ));
    assert!(matches!(r.outcome(&plan, "no"), RemovalOutcome::Skip));
    assert!(matches!(r.outcome(&plan, ""), RemovalOutcome::Skip));
}

#[test]
fn affirmative_answer_carries_a_prompted_move_out() {
    let r = remover(FileTypeToRemove::File, "/tmp/a.txt", false, false, false);
    let plan = RemovalPlan::MovePrompt {
        destination: String::from("/trash/abc!a.txt"),
    };
    match r.outcome(&plan, "Yes\n") {
        RemovalOutcome::MoveToTrash { destination } => {
            assert_eq!(destination, "/trash/abc!a.txt")
        }
        other => panic!("expected a move, got {:?}", other),
    }
    assert!(matches!(r.outcome(&plan, "nah"), RemovalOutcome::Skip));
}

#[test]
fn forced_move_ignores_the_answer() {
    let r = remover(FileTypeToRemove::File, "/tmp/a.txt", false, true, false);
    let plan = RemovalPlan::Move {
        destination: String::from("/trash/abc!a.txt"),
    };
    match r.outcome(&plan, "no") {
        RemovalOutcome::MoveToTrash { destination } => {
            assert_eq!(destination, "/trash/abc!a.txt")
        }
        other => panic!("expected a move, got {:?}", other),
    }
}

#[test]
fn prompts_name_the_exact_target() {
    let r = remover(FileTypeToRemove::File, "/tmp/a.txt", false, false, false);
    assert_eq!(
        r.permanent_prompt(),
        "Are you sure to remove /tmp/a.txt permanently? (y/N): "
    );
    assert_eq!(r.move_prompt(), "Are you sure to remove /tmp/a.txt? (y/N): ");
}

#[test]
fn removal_errors_keep_the_distinction_and_the_cause() {
    let f = remover(FileTypeToRemove::File, "/tmp/a.txt", false, false, false);
    let e = f.removal_error(String::from("boom"));
    assert_eq!(e.message(), "cannot remove the file /tmp/a.txt. Detail: boom");
    let d = remover(FileTypeToRemove::Directory, "/tmp/d", true, false, false);
    let e = d.removal_error(String::from("boom"));
    assert_eq!(e.message(), "cannot remove the directory /tmp/d. Detail: boom");
    let e = f.permanent_removal_error(String::from("gone"));
    assert_eq!(
        e.message(),
        "cannot remove the file /tmp/a.txt permanently. Detail: gone"
    );
    let e = d.permanent_removal_error(String::from("gone"));
    assert_eq!(
        e.message(),
        "cannot remove the directory /tmp/d permanently. Detail: gone"
    );
}
