use vstd::prelude::*;

use crate::text::{clone_option_string, option_text};

verus! {

/// The backend that an agent identity talks to when none is configured.
pub const DEFAULT_CHATGPT_BACKEND_BASE_URL: &'static str = "https://chatgpt.com/backend-api";

/// The stored credentials of an agent identity.
#[derive(Debug, PartialEq, Eq)]
pub struct AgentIdentityAuthRecord {
    pub agent_runtime_id: String,
    pub agent_private_key: String,
}

/// What the backend reports of the account behind an agent identity.
#[derive(Debug, PartialEq, Eq)]
pub struct AgentIdentityAccountInfo {
    pub account_id: Option<String>,
    pub chatgpt_user_id: Option<String>,
    pub email: Option<String>,
    pub is_fedramp_account: bool,
}

/// The state an agent identity holds once it has registered its process
/// task with the backend.
#[derive(Debug, PartialEq, Eq)]
pub struct AgentIdentityRuntimeState {
    pub process_task_id: String,
    pub account_info: AgentIdentityAccountInfo,
}

/// The answer of the backend's account endpoint; every field may be missing.
#[derive(Debug, PartialEq, Eq)]
pub struct AccountInfoResponse {
    pub account_id: Option<String>,
    pub chatgpt_account_id: Option<String>,
    pub user_id: Option<String>,
    pub chatgpt_user_id: Option<String>,
    pub email: Option<String>,
    pub chatgpt_account_is_fedramp: Option<bool>,
}

/// An agent identity: its stored credentials and, once it has been
/// initialized, its runtime state. The runtime state is set at most once.
#[derive(Debug)]
pub struct AgentIdentityAuth {
    record: AgentIdentityAuthRecord,
    runtime: Option<AgentIdentityRuntimeState>,
}

/// The key with which an agent identity signs its requests.
pub struct AgentIdentityKey<'a> {
    pub agent_runtime_id: &'a str,
    pub private_key_pkcs8_base64: &'a str,
}

/// The task on whose behalf an authorization header is made.
pub struct AgentTaskAuthorizationTarget<'a> {
    pub agent_runtime_id: &'a str,
    pub task_id: &'a str,
}

pub struct AgentIdentityAuthRecordView {
    pub agent_runtime_id: Seq<char>,
    pub agent_private_key: Seq<char>,
}

pub struct AgentIdentityAccountInfoView {
    pub account_id: Option<Seq<char>>,
    pub chatgpt_user_id: Option<Seq<char>>,
    pub email: Option<Seq<char>>,
    pub is_fedramp_account: bool,
}

pub struct AgentIdentityRuntimeStateView {
    pub process_task_id: Seq<char>,
    pub account_info: AgentIdentityAccountInfoView,
}

pub struct AgentIdentityAuthView {
    pub record: AgentIdentityAuthRecordView,
    pub runtime: Option<AgentIdentityRuntimeStateView>,
}

impl View for AgentIdentityAuthRecord {
    type V = AgentIdentityAuthRecordView;

    open spec fn view(&self) -> AgentIdentityAuthRecordView {
        AgentIdentityAuthRecordView {
            agent_runtime_id: self.agent_runtime_id@,
            agent_private_key: self.agent_private_key@,
        }
    }
}

impl View for AgentIdentityAccountInfo {
    type V = AgentIdentityAccountInfoView;

    open spec fn view(&self) -> AgentIdentityAccountInfoView {
        AgentIdentityAccountInfoView {
            account_id: option_text(self.account_id),
            chatgpt_user_id: option_text(self.chatgpt_user_id),
            email: option_text(self.email),
            is_fedramp_account: self.is_fedramp_account,
        }
    }
}

impl View for AgentIdentityRuntimeState {
    type V = AgentIdentityRuntimeStateView;

    open spec fn view(&self) -> AgentIdentityRuntimeStateView {
        AgentIdentityRuntimeStateView {
            process_task_id: self.process_task_id@,
            account_info: self.account_info@,
        }
    }
}

pub open spec fn option_runtime_view(o: Option<AgentIdentityRuntimeState>) -> Option<
    AgentIdentityRuntimeStateView,
> {
    match o {
        Some(s) => Some(s@),
        None => None,
    }
}

impl View for AgentIdentityAuth {
    type V = AgentIdentityAuthView;

    closed spec fn view(&self) -> AgentIdentityAuthView {
        AgentIdentityAuthView { record: self.record@, runtime: option_runtime_view(self.runtime) }
    }
}

/// An identity after a runtime state has been offered to it: the first state
/// it is given stays.
pub open spec fn with_runtime_installed(
    auth: AgentIdentityAuthView,
    state: AgentIdentityRuntimeStateView,
) -> AgentIdentityAuthView {
    match auth.runtime {
        Some(_) => auth,
        None => AgentIdentityAuthView { record: auth.record, runtime: Some(state) },
    }
}

/// The account info that a response of the account endpoint gives: the
/// account id, or else the ChatGPT account id; the ChatGPT user id, or else
/// the user id; the email; and the FedRAMP flag, false where it is missing.
pub open spec fn account_info_of(response: AccountInfoResponse) -> AgentIdentityAccountInfoView {
    AgentIdentityAccountInfoView {
        account_id: match response.account_id {
            Some(id) => Some(id@),
            None => option_text(response.chatgpt_account_id),
        },
        chatgpt_user_id: match response.chatgpt_user_id {
            Some(id) => Some(id@),
            None => option_text(response.user_id),
        },
        email: option_text(response.email),
        is_fedramp_account: match response.chatgpt_account_is_fedramp {
            Some(b) => b,
            None => false,
        },
    }
}

/// A text without the `'/'` characters at its end.
pub open spec fn trim_trailing_slashes(s: Seq<char>) -> Seq<char>
    decreases s.len(),
{
    if s.len() > 0 && s.last() == '/' {
        trim_trailing_slashes(s.drop_last())
    } else {
        s
    }
}

/// The account endpoint under a backend base URL.
pub open spec fn account_info_url_of(base_url: Seq<char>) -> Seq<char> {
    trim_trailing_slashes(base_url) + "/me"@
}

/// The base URL to use: the configured one, or else the default backend.
pub open spec fn base_url_or_default(chatgpt_base_url: Option<Seq<char>>) -> Seq<char> {
    match chatgpt_base_url {
        Some(url) => url,
        None => DEFAULT_CHATGPT_BACKEND_BASE_URL@,
    }
}

impl Default for AgentIdentityAccountInfo {
    fn default() -> (info: AgentIdentityAccountInfo)
        ensures
            info@ == (AgentIdentityAccountInfoView {
                account_id: None,
                chatgpt_user_id: None,
                email: None,
                is_fedramp_account: false,
            }),
    {
        AgentIdentityAccountInfo {
            account_id: None,
            chatgpt_user_id: None,
            email: None,
            is_fedramp_account: false,
        }
    }
}

impl Clone for AgentIdentityAuthRecord {
    fn clone(&self) -> (r: Self)
        ensures
            r@ == self@,
    {
        AgentIdentityAuthRecord {
            agent_runtime_id: self.agent_runtime_id.clone(),
            agent_private_key: self.agent_private_key.clone(),
        }
    }
}

impl Clone for AgentIdentityAccountInfo {
    fn clone(&self) -> (r: Self)
        ensures
            r@ == self@,
    {
        AgentIdentityAccountInfo {
            account_id: clone_option_string(&self.account_id),
            chatgpt_user_id: clone_option_string(&self.chatgpt_user_id),
            email: clone_option_string(&self.email),
            is_fedramp_account: self.is_fedramp_account,
        }
    }
}

impl Clone for AgentIdentityRuntimeState {
    fn clone(&self) -> (r: Self)
        ensures
            r@ == self@,
    {
        AgentIdentityRuntimeState {
            process_task_id: self.process_task_id.clone(),
            account_info: self.account_info.clone(),
        }
    }
}

impl Clone for AgentIdentityAuth {
    /// A copy of the identity, with the runtime state where it has one.
    fn clone(&self) -> (r: Self)
        ensures
            r@ == self@,
    {
        let runtime = match &self.runtime {
            Some(state) => Some(state.clone()),
            None => None,
        };
        AgentIdentityAuth { record: self.record.clone(), runtime }
    }
}

impl AgentIdentityAuth {
    /// An identity with the given credentials and no runtime state yet.
    pub fn new(record: AgentIdentityAuthRecord) -> (auth: Self)
        ensures
            auth@ == (AgentIdentityAuthView { record: record@, runtime: None }),
    {
        AgentIdentityAuth { record, runtime: None }
    }

    pub fn record(&self) -> (record: &AgentIdentityAuthRecord)
        ensures
            record@ == self@.record,
    {
        &self.record
    }

    pub fn runtime(&self) -> (runtime: &Option<AgentIdentityRuntimeState>)
        ensures
            option_runtime_view(*runtime) == self@.runtime,
    {
        &self.runtime
    }

    /// The account info, once the runtime state is there.
    pub fn account_info(&self) -> (info: Option<&AgentIdentityAccountInfo>)
        ensures
            match self@.runtime {
                Some(state) => info is Some && info.unwrap()@ == state.account_info,
                None => info is None,
            },
    {
        match &self.runtime {
            Some(state) => Some(&state.account_info),
            None => None,
        }
    }

    /// The signing key: the runtime id and the private key of the record.
    pub fn key(&self) -> (key: AgentIdentityKey<'_>)
        ensures
            key.agent_runtime_id@ == self@.record.agent_runtime_id,
            key.private_key_pkcs8_base64@ == self@.record.agent_private_key,
    {
        AgentIdentityKey {
            agent_runtime_id: self.record.agent_runtime_id.as_str(),
            private_key_pkcs8_base64: self.record.agent_private_key.as_str(),
        }
    }

    /// The base URL against which the runtime state is to be set up, or
    /// `None` where it is set up already and there is nothing to do.
    pub fn runtime_base_url(&self, chatgpt_base_url: Option<String>) -> (url: Option<String>)
        ensures
            match self@.runtime {
                Some(_) => url is None,
                None => url is Some && url.unwrap()@ == base_url_or_default(
                    option_text(chatgpt_base_url),
                ),
            },
    {
        if self.runtime.is_some() {
            return None;
        }
        match chatgpt_base_url {
            Some(url) => Some(url),
            None => Some(String::from_str(DEFAULT_CHATGPT_BACKEND_BASE_URL)),
        }
    }

    /// Offers a runtime state to the identity; the first one stays.
    pub fn install_runtime(&mut self, state: AgentIdentityRuntimeState)
        ensures
            final(self)@ == with_runtime_installed(old(self)@, state@),
    {
        if self.runtime.is_none() {
            self.runtime = Some(state);
        }
    }

    /// The target of the authorization header of the identity's process
    /// task, or `None` while the runtime state is not initialized.
    pub fn authorization_target(&self) -> (target: Option<AgentTaskAuthorizationTarget<'_>>)
        ensures
            match self@.runtime {
                Some(state) => target is Some && target.unwrap().agent_runtime_id@
                    == self@.record.agent_runtime_id && target.unwrap().task_id@
                    == state.process_task_id,
                None => target is None,
            },
    {
        match &self.runtime {
            Some(state) => Some(
                AgentTaskAuthorizationTarget {
                    agent_runtime_id: self.record.agent_runtime_id.as_str(),
                    task_id: state.process_task_id.as_str(),
                },
            ),
            None => None,
        }
    }
}

/// The account info that a response of the account endpoint gives.
pub fn account_info_from_response(response: AccountInfoResponse) -> (info: AgentIdentityAccountInfo)
    ensures
        info@ == account_info_of(response),
{
    let account_id = match response.account_id {
        Some(id) => Some(id),
        None => response.chatgpt_account_id,
    };
    let chatgpt_user_id = match response.chatgpt_user_id {
        Some(id) => Some(id),
        None => response.user_id,
    };
    let is_fedramp_account = match response.chatgpt_account_is_fedramp {
        Some(b) => b,
        None => false,
    };
    AgentIdentityAccountInfo { account_id, chatgpt_user_id, email: response.email, is_fedramp_account }
}

/// The account endpoint under a backend base URL: the URL without its
/// trailing slashes, then `/me`.
pub fn account_info_url(chatgpt_base_url: &str) -> (url: String)
    ensures
        url@ == account_info_url_of(chatgpt_base_url@),
{
    let n = chatgpt_base_url.unicode_len();
    let mut end = n;
    assert(chatgpt_base_url@.subrange(0, n as int) =~= chatgpt_base_url@);
    while end > 0 && chatgpt_base_url.get_char(end - 1) == '/'
        invariant
            end <= n == chatgpt_base_url@.len(),
            trim_trailing_slashes(chatgpt_base_url@.subrange(0, end as int)) == trim_trailing_slashes(
                chatgpt_base_url@,
            ),
        decreases end,
    {
        assert(chatgpt_base_url@.subrange(0, end as int).drop_last() =~= chatgpt_base_url@.subrange(
            0,
            end - 1,
        ));
        end = end - 1;
    }
    let trimmed = chatgpt_base_url.substring_char(0, end);
    assert(end > 0 ==> trimmed@.last() == chatgpt_base_url@[end - 1]);
    let mut url = String::from_str(trimmed);
    url.append("/me");
    url
}

} // verus!
