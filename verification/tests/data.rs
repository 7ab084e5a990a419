use launcher_core::account::{
    BackendAccount, BackendAccountEntry, BackendAccountInfo, MinecraftProfileResponse,
};
use launcher_core::instance::{
    ContentUpdateContext, ContentUpdateStatus, InstanceContentID, InstanceID, InstanceStatus,
};

#[test]
fn dangling_ids_use_the_maximum_index_and_generation() {
    let id = InstanceID::dangling();
    assert_eq!(id.index, usize::MAX);
    assert_eq!(id.generation, usize::MAX);
    let cid = InstanceContentID::dangling();
    assert_eq!(cid.index, usize::MAX);
    assert_eq!(cid.generation, usize::MAX);
    assert_ne!(InstanceStatus::NotRunning, InstanceStatus::Running);
}

#[test]
fn only_a_known_platform_update_can_be_applied() {
    assert!(ContentUpdateStatus::Modrinth.can_update());
    for status in [
        ContentUpdateStatus::Unknown,
        ContentUpdateStatus::ManualInstall,
        ContentUpdateStatus::ErrorNotFound,
        ContentUpdateStatus::ErrorInvalidHash,
        ContentUpdateStatus::AlreadyUpToDate,
    ] {
        assert!(!status.can_update());
    }
}

#[test]
fn cached_update_status_only_answers_for_its_own_loader_and_version() {
    let ctx = ContentUpdateContext::new(
        ContentUpdateStatus::Modrinth,
        "fabric".to_string(),
        "1.21.4".to_string(),
    );
    let fabric = "fabric".to_string();
    let forge = "forge".to_string();
    let v_matching = "1.21.4".to_string();
    let v_other = "1.21.5".to_string();

    assert_eq!(
        ctx.status_if_matches(&fabric, &v_matching),
        ContentUpdateStatus::Modrinth
    );
    assert_eq!(
        ctx.status_if_matches(&forge, &v_matching),
        ContentUpdateStatus::Unknown
    );
    assert_eq!(
        ctx.status_if_matches(&fabric, &v_other),
        ContentUpdateStatus::Unknown
    );
    assert!(ctx.can_update(&fabric, &v_matching));
    assert!(!ctx.can_update(&forge, &v_matching));
    assert!(!ctx.can_update(&fabric, &v_other));

    let stale = ContentUpdateContext::new(
        ContentUpdateStatus::AlreadyUpToDate,
        "fabric".to_string(),
        "1.21.4".to_string(),
    );
    assert!(!stale.can_update(&fabric, &v_matching));
}

#[test]
fn a_new_account_from_a_profile_is_online_and_has_no_avatar() {
    let profile = MinecraftProfileResponse {
        name: "Steve".to_string(),
    };
    let account = BackendAccount::new_from_profile(&profile);
    assert_eq!(account.username, "Steve");
    assert!(!account.offline);
    assert_eq!(account.head, None);
}

fn table() -> BackendAccountInfo {
    let mk = |id: u128, name: &str| BackendAccountEntry {
        uuid: id,
        account: BackendAccount {
            username: name.to_string(),
            offline: false,
            head: None,
        },
    };
    BackendAccountInfo {
        accounts: vec![mk(1, "alpha"), mk(2, "beta"), mk(3, "gamma")],
        selected_account: Some(2),
    }
}

#[test]
fn invalid_accounts_are_removed_in_order_and_selection_cleared() {
    let mut info = table();
    info.remove_invalid_accounts(&vec![2, 9]);
    let names: Vec<&str> = info
        .accounts
        .iter()
        .map(|e| e.account.username.as_str())
        .collect();
    assert_eq!(names, vec!["alpha", "gamma"]);
    assert_eq!(info.selected_account, None);
}

#[test]
fn valid_selection_survives_removal_of_others() {
    let mut info = table();
    info.remove_invalid_accounts(&vec![1]);
    let ids: Vec<u128> = info.accounts.iter().map(|e| e.uuid).collect();
    assert_eq!(ids, vec![2, 3]);
    assert_eq!(info.selected_account, Some(2));
}

#[test]
fn removing_nothing_changes_nothing() {
    let mut info = table();
    info.remove_invalid_accounts(&vec![]);
    assert_eq!(info.accounts.len(), 3);
    assert_eq!(info.selected_account, Some(2));
}
