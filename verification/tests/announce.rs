use gi_t::{announcement, join_args, GiError};

#[test]
fn join_empty() {
    assert_eq!(join_args(&vec![]), "");
}

#[test]
fn join_single() {
    assert_eq!(join_args(&vec!["status".to_string()]), "status");
}

#[test]
fn join_keeps_multiword_tokens_whole() {
    let args = vec![
        "config".to_string(),
        "--global".to_string(),
        "name".to_string(),
        "Firstname Lastname".to_string(),
    ];
    assert_eq!(join_args(&args), "config --global name Firstname Lastname");
}

#[test]
fn announcement_with_subcommand() {
    let original = vec!["tstatus".to_string()];
    let delegated = vec!["status".to_string()];
    assert_eq!(
        announcement(&original, &delegated),
        "Correcting `gi tstatus` to `git status`..."
    );
}

#[test]
fn announcement_without_subcommand() {
    let original = vec!["t".to_string()];
    let delegated: Vec<String> = vec![];
    assert_eq!(
        announcement(&original, &delegated),
        "Correcting `gi t` to `git`..."
    );
}

#[test]
fn error_messages() {
    assert_eq!(
        GiError::BadPrefix.message(),
        "Argument does not start with a `t`!"
    );
    assert_eq!(GiError::GitFail.message(), "Failed to run git!");
    assert_eq!(GiError::NoArgs.message(), "No arguments provided!");
    assert_eq!(
        GiError::StdoutReset.message(),
        "Unable to reset stdout color!"
    );
    assert_eq!(GiError::StdoutSet.message(), "Unable to set stdout color!,");
}
