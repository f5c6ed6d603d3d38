use watchers::remote::{
    credential_chain, push_target, rejection_notice, ssh_key_path, ssh_username,
    CredentialMethod, CredentialTypes, PushTarget, Upstream,
};

fn target(remote: &str, branch: &str, refspec: &str) -> PushTarget {
    PushTarget {
        remote: remote.to_string(),
        branch: branch.to_string(),
        refspec: refspec.to_string(),
    }
}

#[test]
fn push_follows_configured_upstream() {
    let upstream = Upstream::Named("origin/feature".to_string());
    assert_eq!(
        push_target(Some("feature"), &upstream),
        target("origin", "feature", "refs/heads/feature:refs/heads/feature")
    );
}

#[test]
fn push_without_upstream_goes_to_origin() {
    assert_eq!(
        push_target(Some("main"), &Upstream::Missing),
        target("origin", "main", "refs/heads/main:refs/heads/main")
    );
}

#[test]
fn push_uses_remote_branch_name_of_upstream() {
    let upstream = Upstream::Named("backup/team/topic".to_string());
    assert_eq!(
        push_target(Some("local"), &upstream),
        target("backup", "team/topic", "refs/heads/team/topic:refs/heads/team/topic")
    );
}

#[test]
fn push_without_head_name_uses_main() {
    assert_eq!(
        push_target(None, &Upstream::Missing),
        target("origin", "main", "refs/heads/main:refs/heads/main")
    );
}

#[test]
fn upstream_without_slash_names_only_the_remote() {
    let upstream = Upstream::Named("mirror".to_string());
    assert_eq!(
        push_target(Some("dev"), &upstream),
        target("mirror", "dev", "refs/heads/dev:refs/heads/dev")
    );
}

#[test]
fn upstream_without_text_name_is_origin_main() {
    assert_eq!(
        push_target(Some("dev"), &Upstream::Unnamed),
        target("origin", "main", "refs/heads/main:refs/heads/main")
    );
}

#[test]
fn upstream_with_empty_parts() {
    assert_eq!(
        push_target(Some("dev"), &Upstream::Named("/x".to_string())),
        target("", "x", "refs/heads/x:refs/heads/x")
    );
    assert_eq!(
        push_target(Some("dev"), &Upstream::Named("r/".to_string())),
        target("r", "", "refs/heads/:refs/heads/")
    );
    assert_eq!(
        push_target(Some("dev"), &Upstream::Named("".to_string())),
        target("", "dev", "refs/heads/dev:refs/heads/dev")
    );
}

#[test]
fn upstream_with_wide_characters() {
    assert_eq!(
        push_target(Some("dev"), &Upstream::Named("größe/ästhetik".to_string())),
        target("größe", "ästhetik", "refs/heads/ästhetik:refs/heads/ästhetik")
    );
}

#[test]
fn credentials_are_tried_in_fixed_order() {
    assert_eq!(
        credential_chain(CredentialTypes { ssh_key: true, user_pass_plaintext: true }),
        vec![CredentialMethod::SshKey, CredentialMethod::CredentialHelper, CredentialMethod::Default]
    );
    assert_eq!(
        credential_chain(CredentialTypes { ssh_key: true, user_pass_plaintext: false }),
        vec![CredentialMethod::SshKey, CredentialMethod::Default]
    );
    assert_eq!(
        credential_chain(CredentialTypes { ssh_key: false, user_pass_plaintext: true }),
        vec![CredentialMethod::CredentialHelper, CredentialMethod::Default]
    );
    assert_eq!(
        credential_chain(CredentialTypes { ssh_key: false, user_pass_plaintext: false }),
        vec![CredentialMethod::Default]
    );
}

#[test]
fn ssh_defaults() {
    assert_eq!(ssh_username(Some("deploy")), "deploy");
    assert_eq!(ssh_username(None), "git");
    assert_eq!(ssh_key_path(Some("/home/ada")), "/home/ada/.ssh/id_ed25519");
    assert_eq!(ssh_key_path(None), "/root/.ssh/id_ed25519");
}

#[test]
fn rejected_ref_is_reported() {
    assert_eq!(
        rejection_notice("refs/heads/main", Some("non-fast-forward")),
        Some("Failed to push ref: refs/heads/main. Status: non-fast-forward".to_string())
    );
    assert_eq!(rejection_notice("refs/heads/main", None), None);
}
