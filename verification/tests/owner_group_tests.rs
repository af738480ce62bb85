use fame::entity_handlers::create::pick_owner_group;

#[test]
fn agent_mem_group_wins() {
    let groups = vec![
        "pdt-api-agents".to_string(),
        "mem-e69605b1@idp.tanbal.ir".to_string(),
    ];
    assert_eq!(
        pick_owner_group(&groups).as_deref(),
        Some("mem-e69605b1@idp.tanbal.ir")
    );
}

#[test]
fn human_ws_admins_group_when_no_mem_group() {
    let groups = vec![
        "pdt-api-users@idp.tanbal.ir".to_string(),
        "ws-9f2e7d01-4c5b-6a7d-8e9f-001122334455-admins".to_string(),
    ];
    assert_eq!(
        pick_owner_group(&groups).as_deref(),
        Some("ws-9f2e7d01-4c5b-6a7d-8e9f-001122334455-admins")
    );
}

#[test]
fn spn_form_ws_admins_still_matches() {
    let groups = vec!["ws-abc123-admins@idp.tanbal.ir".to_string()];
    assert_eq!(
        pick_owner_group(&groups).as_deref(),
        Some("ws-abc123-admins@idp.tanbal.ir")
    );
}

#[test]
fn plain_roles_never_own_memories() {
    let groups = vec![
        "pdt-api-users@idp.tanbal.ir".to_string(),
        "pdt-api-agents".to_string(),
    ];
    assert_eq!(pick_owner_group(&groups), None);
}

#[test]
fn mem_group_preferred_over_ws_admins() {
    let groups = vec!["ws-abc-admins".to_string(), "mem-ff766ee2".to_string()];
    assert_eq!(pick_owner_group(&groups).as_deref(), Some("mem-ff766ee2"));
}
