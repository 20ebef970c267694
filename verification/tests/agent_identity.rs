use codex_context::agent_identity::{
    account_info_from_response, account_info_url, AccountInfoResponse, AgentIdentityAccountInfo,
    AgentIdentityAuth, AgentIdentityAuthRecord, AgentIdentityRuntimeState,
    DEFAULT_CHATGPT_BACKEND_BASE_URL,
};

fn record() -> AgentIdentityAuthRecord {
    AgentIdentityAuthRecord {
        agent_runtime_id: "runtime-1".to_string(),
        agent_private_key: "a2V5".to_string(),
    }
}

fn state(task: &str) -> AgentIdentityRuntimeState {
    AgentIdentityRuntimeState {
        process_task_id: task.to_string(),
        account_info: AgentIdentityAccountInfo {
            account_id: Some("acct".to_string()),
            chatgpt_user_id: None,
            email: Some("a@example.com".to_string()),
            is_fedramp_account: false,
        },
    }
}

fn empty_response() -> AccountInfoResponse {
    AccountInfoResponse {
        account_id: None,
        chatgpt_account_id: None,
        user_id: None,
        chatgpt_user_id: None,
        email: None,
        chatgpt_account_is_fedramp: None,
    }
}

#[test]
fn account_info_prefers_primary_ids() {
    let response = AccountInfoResponse {
        account_id: Some("acct".to_string()),
        chatgpt_account_id: Some("chatgpt-acct".to_string()),
        user_id: Some("user".to_string()),
        chatgpt_user_id: Some("chatgpt-user".to_string()),
        email: Some("a@example.com".to_string()),
        chatgpt_account_is_fedramp: Some(true),
    };
    assert_eq!(
        account_info_from_response(response),
        AgentIdentityAccountInfo {
            account_id: Some("acct".to_string()),
            chatgpt_user_id: Some("chatgpt-user".to_string()),
            email: Some("a@example.com".to_string()),
            is_fedramp_account: true,
        }
    );
}

#[test]
fn account_info_falls_back_to_other_ids() {
    let mut response = empty_response();
    response.chatgpt_account_id = Some("chatgpt-acct".to_string());
    response.user_id = Some("user".to_string());
    let info = account_info_from_response(response);
    assert_eq!(info.account_id, Some("chatgpt-acct".to_string()));
    assert_eq!(info.chatgpt_user_id, Some("user".to_string()));
    assert!(!info.is_fedramp_account);
}

#[test]
fn account_info_of_empty_response_is_default() {
    assert_eq!(account_info_from_response(empty_response()), AgentIdentityAccountInfo::default());
}

#[test]
fn account_info_url_trims_trailing_slashes() {
    assert_eq!(account_info_url("https://chatgpt.com/backend-api"), "https://chatgpt.com/backend-api/me");
    assert_eq!(account_info_url("https://chatgpt.com/backend-api/"), "https://chatgpt.com/backend-api/me");
    assert_eq!(account_info_url("https://x.test///"), "https://x.test/me");
    assert_eq!(account_info_url(""), "/me");
    assert_eq!(account_info_url("///"), "/me");
}

#[test]
fn new_identity_has_no_runtime() {
    let auth = AgentIdentityAuth::new(record());
    assert_eq!(auth.record(), &record());
    assert!(auth.runtime().is_none());
    assert!(auth.account_info().is_none());
    assert!(auth.authorization_target().is_none());
}

#[test]
fn runtime_base_url_defaults_until_initialized() {
    let mut auth = AgentIdentityAuth::new(record());
    assert_eq!(auth.runtime_base_url(None), Some(DEFAULT_CHATGPT_BACKEND_BASE_URL.to_string()));
    assert_eq!(auth.runtime_base_url(Some("https://x.test".to_string())), Some("https://x.test".to_string()));
    auth.install_runtime(state("task-1"));
    assert_eq!(auth.runtime_base_url(None), None);
}

#[test]
fn runtime_is_installed_once() {
    let mut auth = AgentIdentityAuth::new(record());
    auth.install_runtime(state("task-1"));
    auth.install_runtime(state("task-2"));
    assert_eq!(auth.runtime().as_ref().map(|s| s.process_task_id.as_str()), Some("task-1"));
    assert_eq!(auth.account_info().and_then(|i| i.email.clone()), Some("a@example.com".to_string()));
}

#[test]
fn authorization_target_after_initialization() {
    let mut auth = AgentIdentityAuth::new(record());
    auth.install_runtime(state("task-9"));
    let target = auth.authorization_target().expect("initialized");
    assert_eq!(target.agent_runtime_id, "runtime-1");
    assert_eq!(target.task_id, "task-9");
    let key = auth.key();
    assert_eq!(key.agent_runtime_id, "runtime-1");
    assert_eq!(key.private_key_pkcs8_base64, "a2V5");
}

#[test]
fn clone_keeps_runtime_state() {
    let mut auth = AgentIdentityAuth::new(record());
    let before = auth.clone();
    assert!(before.runtime().is_none());
    auth.install_runtime(state("task-3"));
    let copy = auth.clone();
    assert_eq!(copy.runtime(), &Some(state("task-3")));
    assert_eq!(copy.record(), &record());
}
