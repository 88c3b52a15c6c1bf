//! The access token, kept in the system keychain.
//!
//! The keychain is reached by the caller: [`SecureStore`] says which request
//! to make of it and what each answer means for the user.
use vstd::prelude::*;

use crate::models::{failed, succeeded, ServiceResult, ServiceResultView};
use crate::text::{has_prefix, is_blank, is_blank_text, joined};

verus! {

/// A request to the system keychain, addressed to the entry of `service`
/// and `account`.
pub enum KeychainRequest {
    /// Store `password` in the entry, creating the entry if needed.
    Store { service: String, account: String, password: String },
    /// Read the password of the entry.
    Read { service: String, account: String },
    /// Remove the entry.
    Delete { service: String, account: String },
}

/// Mathematical model of a [`KeychainRequest`].
pub enum KeychainRequestView {
    Store { service: Seq<char>, account: Seq<char>, password: Seq<char> },
    Read { service: Seq<char>, account: Seq<char> },
    Delete { service: Seq<char>, account: Seq<char> },
}

impl View for KeychainRequest {
    type V = KeychainRequestView;

    open spec fn view(&self) -> KeychainRequestView {
        match self {
            KeychainRequest::Store { service, account, password } => KeychainRequestView::Store {
                service: service@,
                account: account@,
                password: password@,
            },
            KeychainRequest::Read { service, account } => KeychainRequestView::Read {
                service: service@,
                account: account@,
            },
            KeychainRequest::Delete { service, account } => KeychainRequestView::Delete {
                service: service@,
                account: account@,
            },
        }
    }
}

/// How the keychain answered a request.
pub enum KeychainOutcome<T> {
    /// The entry could not be opened; the keychain's message.
    EntryUnavailable(String),
    /// The entry was opened but the operation failed; the keychain's message.
    Failed(String),
    /// The operation completed with this value.
    Done(T),
}

/// Mathematical model of a [`KeychainOutcome`].
pub enum KeychainOutcomeView<V> {
    EntryUnavailable(Seq<char>),
    Failed(Seq<char>),
    Done(V),
}

impl<T: View> View for KeychainOutcome<T> {
    type V = KeychainOutcomeView<T::V>;

    open spec fn view(&self) -> KeychainOutcomeView<T::V> {
        match self {
            KeychainOutcome::EntryUnavailable(m) => KeychainOutcomeView::EntryUnavailable(m@),
            KeychainOutcome::Failed(m) => KeychainOutcomeView::Failed(m@),
            KeychainOutcome::Done(v) => KeychainOutcomeView::Done(v@),
        }
    }
}

/// The keychain as a map from (service, account) to the password stored there.
pub type Keychain = Map<(Seq<char>, Seq<char>), Seq<char>>;

/// The keychain after `request` completed.
pub open spec fn after_request(k: Keychain, request: KeychainRequestView) -> Keychain {
    match request {
        KeychainRequestView::Store { service, account, password } => k.insert(
            (service, account),
            password,
        ),
        KeychainRequestView::Read { .. } => k,
        KeychainRequestView::Delete { service, account } => k.remove((service, account)),
    }
}

/// What the entry of `service` and `account` holds, or `None` where there is none.
pub open spec fn entry_value(k: Keychain, service: Seq<char>, account: Seq<char>) -> Option<
    Seq<char>,
> {
    if k.contains_key((service, account)) {
        Some(k[(service, account)])
    } else {
        None
    }
}

/// The prefix of a message that the keychain entry could not be opened.
pub open spec fn open_failure_prefix() -> Seq<char> {
    "初始化密钥链失败: "@
}

/// The result that a write to the keychain (a store or a removal) reports:
/// `done` on success, else the keychain's message after the prefix of the
/// step that failed.
pub open spec fn written_result(
    outcome: KeychainOutcomeView<()>,
    done: Seq<char>,
    failure_prefix: Seq<char>,
) -> ServiceResultView<bool> {
    match outcome {
        KeychainOutcomeView::EntryUnavailable(e) => failed(open_failure_prefix() + e),
        KeychainOutcomeView::Failed(e) => failed(failure_prefix + e),
        KeychainOutcomeView::Done(_) => succeeded(done, true),
    }
}

/// The result of storing the token, for each answer of the keychain.
pub open spec fn saved_result(outcome: KeychainOutcomeView<()>) -> ServiceResultView<bool> {
    written_result(outcome, "Token 已保存到系统密钥链。"@, "保存 Token 失败: "@)
}

/// The result of removing the token, for each answer of the keychain.
pub open spec fn deleted_result(outcome: KeychainOutcomeView<()>) -> ServiceResultView<bool> {
    written_result(outcome, "Token 已从系统密钥链删除。"@, "删除 Token 失败: "@)
}

/// The token read, or the message why it could not be read, for each answer
/// of the keychain.
pub open spec fn loaded_result(outcome: KeychainOutcomeView<Seq<char>>) -> Result<
    Seq<char>,
    Seq<char>,
> {
    match outcome {
        KeychainOutcomeView::EntryUnavailable(e) => Err(open_failure_prefix() + e),
        KeychainOutcomeView::Failed(e) => Err("读取 Token 失败: "@ + e),
        KeychainOutcomeView::Done(token) => Ok(token),
    }
}

/// What reporting on a stored token gives for each outcome of reading it.
pub open spec fn presence_of(loaded: Result<Seq<char>, Seq<char>>) -> ServiceResultView<bool> {
    match loaded {
        Ok(token) => succeeded("Token 状态已读取。"@, !is_blank(token)),
        Err(m) => failed(m),
    }
}

/// The model of a loaded token.
pub open spec fn loaded_view(loaded: Result<String, String>) -> Result<Seq<char>, Seq<char>> {
    match loaded {
        Ok(t) => Ok(t@),
        Err(m) => Err(m@),
    }
}

/// Whether a token is stored, given the outcome of reading it: a token made
/// only of white space counts as none.
pub fn token_presence(loaded: Result<String, String>) -> (r: ServiceResult<bool>)
    ensures
        r@ == presence_of(loaded_view(loaded)),
{
    match loaded {
        Ok(token) => ServiceResult::ok("Token 状态已读取。", !is_blank_text(token.as_str())),
        Err(message) => ServiceResult::fail(message.as_str()),
    }
}

/// The keychain entry that holds the access token.
pub struct SecureStore {
    service_name: &'static str,
    account_name: &'static str,
}

/// The request that stores `token` in the entry of `store`.
pub open spec fn store_request_of(store: SecureStore, token: Seq<char>) -> KeychainRequestView {
    KeychainRequestView::Store { service: store.service(), account: store.account(), password: token }
}

/// The request that reads the entry of `store`.
pub open spec fn read_request_of(store: SecureStore) -> KeychainRequestView {
    KeychainRequestView::Read { service: store.service(), account: store.account() }
}

/// The request that removes the entry of `store`.
pub open spec fn delete_request_of(store: SecureStore) -> KeychainRequestView {
    KeychainRequestView::Delete { service: store.service(), account: store.account() }
}

impl SecureStore {
    /// The entry of service `air-controller`, account `home-assistant-token`.
    pub fn new() -> (s: SecureStore)
        ensures
            s.service() == "air-controller"@,
            s.account() == "home-assistant-token"@,
    {
        SecureStore { service_name: "air-controller", account_name: "home-assistant-token" }
    }

    /// The keychain service name.
    pub closed spec fn service(&self) -> Seq<char> {
        self.service_name@
    }

    /// The keychain account name.
    pub closed spec fn account(&self) -> Seq<char> {
        self.account_name@
    }

    /// The request that stores `token`, exactly as given, in the entry.
    pub fn store_request(&self, token: &str) -> (r: KeychainRequest)
        ensures
            r@ == store_request_of(*self, token@),
    {
        KeychainRequest::Store {
            service: String::from_str(self.service_name),
            account: String::from_str(self.account_name),
            password: String::from_str(token),
        }
    }

    /// The request that reads the entry.
    pub fn read_request(&self) -> (r: KeychainRequest)
        ensures
            r@ == read_request_of(*self),
    {
        KeychainRequest::Read {
            service: String::from_str(self.service_name),
            account: String::from_str(self.account_name),
        }
    }

    /// The request that removes the entry.
    pub fn delete_request(&self) -> (r: KeychainRequest)
        ensures
            r@ == delete_request_of(*self),
    {
        KeychainRequest::Delete {
            service: String::from_str(self.service_name),
            account: String::from_str(self.account_name),
        }
    }

    /// Whether a non-blank token is stored, given the keychain's answer to
    /// [`SecureStore::read_request`].
    pub fn has_token(&self, outcome: KeychainOutcome<String>) -> (r: ServiceResult<bool>)
        ensures
            r@ == presence_of(loaded_result(outcome@)),
    {
        let loaded = self.load_token_value(outcome);
        token_presence(loaded)
    }

    /// The result of storing the token, given the keychain's answer to
    /// [`SecureStore::store_request`].
    pub fn save_token(&self, outcome: KeychainOutcome<()>) -> (r: ServiceResult<bool>)
        ensures
            r@ == saved_result(outcome@),
    {
        written(outcome, "Token 已保存到系统密钥链。", "保存 Token 失败: ")
    }

    /// The stored token, or the message why it could not be read, given the
    /// keychain's answer to [`SecureStore::read_request`].
    pub fn load_token_value(&self, outcome: KeychainOutcome<String>) -> (r: Result<String, String>)
        ensures
            loaded_view(r) == loaded_result(outcome@),
    {
        match outcome {
            KeychainOutcome::EntryUnavailable(e) => Err(prefixed("初始化密钥链失败: ", e.as_str())),
            KeychainOutcome::Failed(e) => Err(prefixed("读取 Token 失败: ", e.as_str())),
            KeychainOutcome::Done(token) => Ok(token),
        }
    }

    /// The result of removing the token, given the keychain's answer to
    /// [`SecureStore::delete_request`].
    pub fn delete_token(&self, outcome: KeychainOutcome<()>) -> (r: ServiceResult<bool>)
        ensures
            r@ == deleted_result(outcome@),
    {
        written(outcome, "Token 已从系统密钥链删除。", "删除 Token 失败: ")
    }
}

fn written(outcome: KeychainOutcome<()>, done: &str, failure_prefix: &str) -> (r: ServiceResult<
    bool,
>)
    ensures
        r@ == written_result(outcome@, done@, failure_prefix@),
{
    match outcome {
        KeychainOutcome::EntryUnavailable(e) => {
            let message = prefixed("初始化密钥链失败: ", e.as_str());
            ServiceResult::fail(message.as_str())
        },
        KeychainOutcome::Failed(e) => {
            let message = prefixed(failure_prefix, e.as_str());
            ServiceResult::fail(message.as_str())
        },
        KeychainOutcome::Done(()) => ServiceResult::ok(done, true),
    }
}

/// `prefix` followed by `detail`.
pub fn prefixed(prefix: &str, detail: &str) -> (r: String)
    ensures
        r@ == prefix@ + detail@,
        has_prefix(r@, prefix@),
{
    let r = joined(prefix, detail);
    assert(r@.subrange(0, prefix@.len() as int) =~= prefix@);
    r
}

/// A read after a completed store gives the stored token back: the store
/// request puts the token, exactly as given, into the entry that the read
/// request addresses; a read changes nothing; and a read answered with what
/// the entry holds loads that token.
pub proof fn lemma_stored_token_reads_back(store: SecureStore, k: Keychain, token: Seq<char>)
    ensures
        ({
            let written = after_request(k, store_request_of(store, token));
            &&& entry_value(written, store.service(), store.account()) == Some(token)
            &&& after_request(written, read_request_of(store)) == written
            &&& loaded_result(KeychainOutcomeView::Done(token)) == Ok::<Seq<char>, Seq<char>>(
                token,
            )
        }),
{
}

/// A completed removal leaves no token in the entry and every other entry as
/// it was.
pub proof fn lemma_delete_removes_only_the_token(store: SecureStore, k: Keychain)
    ensures
        ({
            let removed = after_request(k, delete_request_of(store));
            &&& entry_value(removed, store.service(), store.account()) is None
            &&& forall|key: (Seq<char>, Seq<char>)|
                key != (store.service(), store.account()) ==> removed.contains_key(key)
                    == k.contains_key(key) && (k.contains_key(key) ==> #[trigger] removed[key]
                    == k[key])
        }),
{
}

/// Every entry but the token's is left alone by a store.
pub proof fn lemma_store_touches_only_the_token(store: SecureStore, k: Keychain, token: Seq<char>)
    ensures
        ({
            let written = after_request(k, store_request_of(store, token));
            forall|key: (Seq<char>, Seq<char>)|
                key != (store.service(), store.account()) ==> written.contains_key(key)
                    == k.contains_key(key) && (k.contains_key(key) ==> #[trigger] written[key]
                    == k[key])
        }),
{
}

/// A keychain failure is reported, never mistaken for success: every answer
/// but a completed one fails with the keychain's message after the prefix of
/// the step that failed.
pub proof fn lemma_keychain_failures_are_reported(outcome: KeychainOutcomeView<()>)
    ensures
        saved_result(outcome).success <==> outcome is Done,
        deleted_result(outcome).success <==> outcome is Done,
        !(outcome is Done) ==> saved_result(outcome).data is None && (has_prefix(
            saved_result(outcome).message,
            open_failure_prefix(),
        ) || has_prefix(saved_result(outcome).message, "保存 Token 失败: "@)),
{
    match outcome {
        KeychainOutcomeView::EntryUnavailable(e) => {
            assert((open_failure_prefix() + e).subrange(0, open_failure_prefix().len() as int)
                =~= open_failure_prefix());
        },
        KeychainOutcomeView::Failed(e) => {
            let p = "保存 Token 失败: "@;
            assert((p + e).subrange(0, p.len() as int) =~= p);
        },
        KeychainOutcomeView::Done(_) => {},
    }
}

} // verus!
