//! What is kept in the credential store and how: the token record of a user,
//! the pointer to the last authenticated user, and the rules of logout and of
//! the question who is logged in.

use vstd::prelude::*;
use crate::error::AuthError;
use crate::text::{text_of, pairs_text};
use crate::token::{
    DecisionModel, StoredModel, StoredToken, TokenModel, TokenResponse, expires_at, stored_model,
    validity_decision,
};
use crate::exchange::{TokenReply, accept_token_reply, judged};
use crate::identity::{extract_user_from_id_token_or_os, resolved_user};

verus! {

/// The account under which the pointer to the last user of a service is kept.
pub open spec fn last_user_key_of(service: Seq<char>) -> Seq<char> {
    service + "::last_user"@
}

/// Builds the account name of the last-user pointer.
pub fn last_user_key(service: &str) -> (key: String)
    ensures
        key@ == last_user_key_of(service@),
{
    String::from_str(service).concat("::last_user")
}

/// One write to the credential store.
#[derive(Debug)]
pub struct StoreWrite {
    pub service: String,
    pub account: String,
    pub value: String,
}

/// Mathematical value of a [`StoreWrite`].
pub struct WriteModel {
    pub service: Seq<char>,
    pub account: Seq<char>,
    pub value: Seq<char>,
}

impl View for StoreWrite {
    type V = WriteModel;

    open spec fn view(&self) -> WriteModel {
        WriteModel { service: self.service@, account: self.account@, value: self.value@ }
    }
}

/// The values of a list of writes.
pub open spec fn writes_model(writes: Seq<StoreWrite>) -> Seq<WriteModel> {
    writes.map_values(|w: StoreWrite| w@)
}

/// The writes that persist a token: the record under the user's account, then
/// the last-user pointer.
pub open spec fn persist_writes(service: Seq<char>, user: Seq<char>, record: Seq<char>) -> Seq<
    WriteModel,
> {
    seq![
        WriteModel { service: service, account: user, value: record },
        WriteModel { service: service, account: last_user_key_of(service), value: user },
    ]
}

/// The writes, in order, that persist the serialized record of `user` and make
/// that user the last authenticated one.
pub fn save_token_to_keyring(service: &str, user: &str, record: String) -> (writes: Vec<StoreWrite>)
    ensures
        writes_model(writes@) == persist_writes(service@, user@, record@),
{
    let mut writes: Vec<StoreWrite> = Vec::new();
    writes.push(
        StoreWrite {
            service: String::from_str(service),
            account: String::from_str(user),
            value: record,
        },
    );
    writes.push(
        StoreWrite {
            service: String::from_str(service),
            account: last_user_key(service),
            value: String::from_str(user),
        },
    );
    assert(writes_model(writes@) =~= persist_writes(service@, user@, record@));
    writes
}

/// What a lookup of a user's record in the credential store gave.
#[derive(Debug)]
pub enum StoreLookup {
    /// The store could not be read.
    Failed,
    /// The store holds nothing under the account.
    Missing,
    /// The store holds something that is no token record.
    Malformed,
    /// The store holds this record.
    Found(StoredToken),
}

/// The value of the outcome of a load.
pub open spec fn load_model(r: Result<Option<StoredToken>, AuthError>) -> Result<
    Option<StoredModel>,
    AuthError,
> {
    match r {
        Ok(s) => Ok(stored_model(s)),
        Err(e) => Err(e),
    }
}

/// How a lookup is read: a store that fails or holds nothing has no token; an
/// unreadable record is an error.
pub open spec fn loaded(lookup: StoreLookup) -> Result<Option<StoredModel>, AuthError> {
    match lookup {
        StoreLookup::Failed => Ok(None),
        StoreLookup::Missing => Ok(None),
        StoreLookup::Malformed => Err(AuthError::StoreError),
        StoreLookup::Found(s) => Ok(Some(s@)),
    }
}

/// Reads the outcome of a lookup as the stored token of a user, if any.
pub fn load_token_from_keyring(lookup: StoreLookup) -> (r: Result<Option<StoredToken>, AuthError>)
    ensures
        load_model(r) == loaded(lookup),
{
    match lookup {
        StoreLookup::Failed => Ok(None),
        StoreLookup::Missing => Ok(None),
        StoreLookup::Malformed => Err(AuthError::StoreError),
        StoreLookup::Found(s) => Ok(Some(s)),
    }
}

/// A session as a login or a refresh establishes it.
#[derive(Debug)]
pub struct Session {
    /// The token as received.
    pub token: TokenResponse,
    /// The user whose record it is.
    pub user: String,
    /// The record to persist for that user.
    pub stored: StoredToken,
}

/// Mathematical value of a [`Session`].
pub struct SessionModel {
    pub token: TokenModel,
    pub user: Seq<char>,
    pub stored: StoredModel,
}

impl View for Session {
    type V = SessionModel;

    open spec fn view(&self) -> SessionModel {
        SessionModel { token: self.token@, user: self.user@, stored: self.stored@ }
    }
}

/// The session of `user` for a token received at `now`.
pub open spec fn session_of(token: TokenModel, user: Seq<char>, now: int) -> SessionModel {
    SessionModel {
        token: token,
        user: user,
        stored: StoredModel { token: token, issued_at: now },
    }
}

/// The value of the outcome of completing an exchange or a refresh.
pub open spec fn session_result_model(r: Result<Session, AuthError>) -> Result<
    SessionModel,
    AuthError,
> {
    match r {
        Ok(s) => Ok(s@),
        Err(e) => Err(e),
    }
}

/// What a login's exchange comes to: the failure of the reply, or the session
/// of the user that the new token is resolved to.
pub open spec fn exchange_outcome(
    reply: TokenReply,
    now: int,
    os_username: Option<Seq<char>>,
    os_user: Option<Seq<char>>,
) -> Result<SessionModel, AuthError> {
    match judged(reply) {
        Ok(token) => Ok(
            session_of(token, resolved_user(token.id_token, os_username, os_user), now),
        ),
        Err(e) => Err(e),
    }
}

/// What a refresh comes to: the failure of the reply, or the session of the
/// user whose token was due, whatever the new token says of its owner.
pub open spec fn refresh_outcome(reply: TokenReply, now: int, user: Seq<char>) -> Result<
    SessionModel,
    AuthError,
> {
    match judged(reply) {
        Ok(token) => Ok(session_of(token, user, now)),
        Err(e) => Err(e),
    }
}

/// Establishes the session of a token received at `now`: resolves its user and
/// stamps the record with the instant of receipt.
pub fn open_session(
    token: TokenResponse,
    now: i64,
    os_username: Option<String>,
    os_user: Option<String>,
) -> (session: Session)
    ensures
        session@ == session_of(
            token@,
            resolved_user(token@.id_token, text_of(os_username), text_of(os_user)),
            now as int,
        ),
{
    let user = extract_user_from_id_token_or_os(&token, os_username, os_user);
    let stored = StoredToken::received(token.clone(), now);
    Session { token, user, stored }
}

/// Completes the exchange of a login: judges the reply of the token endpoint
/// and, for a token, establishes the session of the user it is resolved to.
/// Every failure of the reply is handed on unchanged.
pub fn complete_exchange(
    reply: TokenReply,
    now: i64,
    os_username: Option<String>,
    os_user: Option<String>,
) -> (r: Result<Session, AuthError>)
    ensures
        session_result_model(r) == exchange_outcome(
            reply,
            now as int,
            text_of(os_username),
            text_of(os_user),
        ),
{
    match accept_token_reply(reply) {
        Ok(token) => Ok(open_session(token, now, os_username, os_user)),
        Err(e) => Err(e),
    }
}

/// Completes the refresh of the token of `user`: judges the reply of the token
/// endpoint and, for a token, establishes the session that replaces the record
/// of that same user. Every failure of the reply is handed on unchanged.
pub fn complete_refresh(reply: TokenReply, now: i64, user: &str) -> (r: Result<Session, AuthError>)
    ensures
        session_result_model(r) == refresh_outcome(reply, now as int, user@),
{
    match accept_token_reply(reply) {
        Ok(token) => {
            let stored = StoredToken::received(token.clone(), now);
            Ok(Session { token, user: String::from_str(user), stored })
        },
        Err(e) => Err(e),
    }
}

/// The writes, in order, that persist a session under its own user, given the
/// serialized form of its record.
pub fn session_writes(service: &str, session: &Session, record: String) -> (writes: Vec<StoreWrite>)
    ensures
        writes_model(writes@) == persist_writes(service@, session@.user, record@),
{
    save_token_to_keyring(service, session.user.as_str(), record)
}

/// How far a persist has come.
#[derive(Clone, Copy, Debug, PartialEq, Eq, Structural)]
pub enum PersistProgress {
    /// Perform the write with this index of the plan next.
    Write(usize),
    /// Every write was accepted.
    Done,
    /// A write was rejected: the writes after it are not attempted.
    Failed(AuthError),
}

/// Where a persist of `total` writes begins.
pub open spec fn progress_at_start(total: nat) -> PersistProgress {
    if total == 0 {
        PersistProgress::Done
    } else {
        PersistProgress::Write(0)
    }
}

/// Where a persist of `total` writes stands once the store has accepted or
/// rejected the write with index `index`.
pub open spec fn progress_after(total: nat, index: nat, accepted: bool) -> PersistProgress {
    if !accepted {
        PersistProgress::Failed(AuthError::StoreError)
    } else if index + 1 < total {
        PersistProgress::Write((index + 1) as usize)
    } else {
        PersistProgress::Done
    }
}

/// Begins to carry out a plan of writes.
pub fn persist_start(writes: &Vec<StoreWrite>) -> (progress: PersistProgress)
    ensures
        progress == progress_at_start(writes@.len()),
{
    if writes.len() == 0 {
        PersistProgress::Done
    } else {
        PersistProgress::Write(0)
    }
}

/// Takes the outcome of the write with index `index`: a rejected write ends
/// the persist with a store error and nothing after it is written; an
/// accepted one leads to the next write, or to the end.
pub fn persist_step(writes: &Vec<StoreWrite>, index: usize, accepted: bool) -> (progress: PersistProgress)
    ensures
        progress == progress_after(writes@.len(), index as nat, accepted),
{
    if !accepted {
        PersistProgress::Failed(AuthError::StoreError)
    } else if index < writes.len() && index + 1 < writes.len() {
        PersistProgress::Write(index + 1)
    } else {
        PersistProgress::Done
    }
}

/// What a logout does.
#[derive(Debug)]
pub struct LogoutPlan {
    /// The entries to delete from the credential store, as (service, account), in order.
    pub deletions: Vec<(String, String)>,
    /// Send the cancellation signal to the refresh scheduler.
    pub cancel_refresher: bool,
}

/// The entries that a logout deletes: the user's record, and the last-user
/// pointer if it names the user.
pub open spec fn logout_deletions(
    service: Seq<char>,
    user: Seq<char>,
    last_user: Option<Seq<char>>,
) -> Seq<(Seq<char>, Seq<char>)> {
    if last_user == Some(user) {
        seq![(service, user), (service, last_user_key_of(service))]
    } else {
        seq![(service, user)]
    }
}

/// Plans a logout. `last_user` is the last-user pointer as the store holds
/// it; the scheduler is cancelled exactly if one is active.
pub fn logout(service: &str, user: &str, last_user: &Option<String>, refresher_active: bool) -> (plan:
    LogoutPlan)
    ensures
        pairs_text(plan.deletions@) == logout_deletions(service@, user@, text_of(*last_user)),
        plan.cancel_refresher == refresher_active,
{
    let name = String::from_str(user);
    let names_user = match last_user {
        Some(last) => *last == name,
        None => false,
    };
    let mut deletions: Vec<(String, String)> = Vec::new();
    deletions.push((String::from_str(service), name));
    if names_user {
        deletions.push((String::from_str(service), last_user_key(service)));
    }
    assert(pairs_text(deletions@) =~= logout_deletions(service@, user@, text_of(*last_user)));
    LogoutPlan { deletions, cancel_refresher: refresher_active }
}

/// The answer to the question who is logged in.
#[derive(Debug)]
pub struct WhoAmI {
    pub user: String,
    pub authenticated: bool,
}

/// Whether the last user counts as authenticated: a token could be ensured
/// with margin zero, or failing that the stored token has not expired yet.
pub open spec fn counts_as_authenticated(
    last_user: Option<Seq<char>>,
    token_ensured: bool,
    stored: Option<StoredModel>,
    now: int,
) -> bool {
    last_user is Some && (token_ensured || (stored is Some && now < expires_at(stored->Some_0)))
}

/// Answers who is logged in. `last_user` is the last-user pointer;
/// `token_ensured` says whether a valid token could be ensured for that user
/// with margin zero; `stored` is that user's record, read after a failure.
pub fn whoami(last_user: Option<String>, token_ensured: bool, stored: &Option<StoredToken>, now: i64) -> (r:
    WhoAmI)
    ensures
        r.user@ == match last_user {
            Some(u) => u@,
            None => Seq::<char>::empty(),
        },
        r.authenticated == counts_as_authenticated(
            text_of(last_user),
            token_ensured,
            stored_model(*stored),
            now as int,
        ),
{
    match last_user {
        None => WhoAmI { user: String::new(), authenticated: false },
        Some(user) => {
            let authenticated = token_ensured || match stored {
                Some(s) => (now as i128) < s.expires_at(),
                None => false,
            };
            WhoAmI { user, authenticated }
        },
    }
}

/// The credential store as a map from (service, account) to value.
pub type StoreModel = Map<(Seq<char>, Seq<char>), Seq<char>>;

/// The store after one write.
pub open spec fn after_write(store: StoreModel, w: WriteModel) -> StoreModel {
    store.insert((w.service, w.account), w.value)
}

/// The record that a load finds for a user, where `read` is the reading of a
/// record's text: nothing under the account, or a text that does not read as
/// a record, gives none.
pub open spec fn stored_for(
    store: StoreModel,
    service: Seq<char>,
    user: Seq<char>,
    read: spec_fn(Seq<char>) -> Option<StoredModel>,
) -> Option<StoredModel> {
    if store.dom().contains((service, user)) {
        read(store[(service, user)])
    } else {
        None
    }
}

/// The last-user pointer of a service, if the store holds one.
pub open spec fn last_user_in(store: StoreModel, service: Seq<char>) -> Option<Seq<char>> {
    if store.dom().contains((service, last_user_key_of(service))) {
        Some(store[(service, last_user_key_of(service))])
    } else {
        None
    }
}

/// The store after a series of deletions.
pub open spec fn after_deletions(store: StoreModel, keys: Seq<(Seq<char>, Seq<char>)>) -> StoreModel
    decreases keys.len(),
{
    if keys.len() == 0 {
        store
    } else {
        after_deletions(store, keys.drop_last()).remove(keys.last())
    }
}

/// The store after a logout of `user`: what the planned deletions leave.
pub open spec fn after_logout(store: StoreModel, service: Seq<char>, user: Seq<char>) -> StoreModel {
    after_deletions(store, logout_deletions(service, user, last_user_in(store, service)))
}

/// How many steps a persist can still take.
pub open spec fn steps_left(progress: PersistProgress, total: nat) -> nat {
    match progress {
        PersistProgress::Write(i) => if i < total && i < usize::MAX {
            (total - i) as nat
        } else {
            0
        },
        _ => 0,
    }
}

/// The store and the result that a persist ends with when it is carried out
/// step by step from `progress`: `accepted[i]` says whether the store accepts
/// the write with index `i`.
pub open spec fn persist_run(
    store: StoreModel,
    writes: Seq<WriteModel>,
    accepted: Seq<bool>,
    progress: PersistProgress,
) -> (StoreModel, Result<(), AuthError>)
    decreases steps_left(progress, writes.len()),
{
    match progress {
        PersistProgress::Done => (store, Ok(())),
        PersistProgress::Failed(e) => (store, Err(e)),
        PersistProgress::Write(i) => if i < writes.len() && i < accepted.len() && i < usize::MAX {
            persist_run(
                if accepted[i as int] {
                    after_write(store, writes[i as int])
                } else {
                    store
                },
                writes,
                accepted,
                progress_after(writes.len(), i as nat, accepted[i as int]),
            )
        } else {
            (store, Ok(()))
        },
    }
}

/// The store and the result of persisting `record` for `user`.
pub open spec fn persisted(
    store: StoreModel,
    service: Seq<char>,
    user: Seq<char>,
    record: Seq<char>,
    accepted: Seq<bool>,
) -> (StoreModel, Result<(), AuthError>) {
    persist_run(store, persist_writes(service, user, record), accepted, progress_at_start(2))
}

/// Where the store rejects the write of the record, the persist fails with a
/// store error and the store is as it was: the pointer does not come to name
/// a user whose record could not be written.
pub proof fn rejected_record_changes_nothing(
    store: StoreModel,
    service: Seq<char>,
    user: Seq<char>,
    record: Seq<char>,
    accepted: Seq<bool>,
)
    requires
        accepted.len() == 2,
        !accepted[0],
    ensures
        persisted(store, service, user, record, accepted) == (
            store,
            Err::<(), AuthError>(AuthError::StoreError),
        ),
{
    reveal_with_fuel(persist_run, 3);
}

/// Where the store accepts the record and rejects the pointer, the persist
/// fails with a store error; the record is replaced and the pointer is as it was.
pub proof fn rejected_pointer_keeps_pointer(
    store: StoreModel,
    service: Seq<char>,
    user: Seq<char>,
    record: Seq<char>,
    accepted: Seq<bool>,
)
    requires
        accepted.len() == 2,
        accepted[0],
        !accepted[1],
    ensures
        persisted(store, service, user, record, accepted) == (
            store.insert((service, user), record),
            Err::<(), AuthError>(AuthError::StoreError),
        ),
{
    reveal_with_fuel(persist_run, 3);
}

/// Where the store accepts both writes, the persist succeeds, the pointer
/// names the user, and the store holds the record under the user's account
/// (unless that account is the pointer's own).
pub proof fn accepted_persist_replaces_record(
    store: StoreModel,
    service: Seq<char>,
    user: Seq<char>,
    record: Seq<char>,
    accepted: Seq<bool>,
)
    requires
        accepted.len() == 2,
        accepted[0],
        accepted[1],
    ensures
        persisted(store, service, user, record, accepted).1 == Ok::<(), AuthError>(()),
        persisted(store, service, user, record, accepted).0 == store.insert(
            (service, user),
            record,
        ).insert((service, last_user_key_of(service)), user),
        last_user_in(persisted(store, service, user, record, accepted).0, service) == Some(user),
        user != last_user_key_of(service) ==> {
            &&& persisted(store, service, user, record, accepted).0.dom().contains((service, user))
            &&& persisted(store, service, user, record, accepted).0[(service, user)] == record
        },
{
    reveal_with_fuel(persist_run, 3);
}

/// A refresh for `user` that the token endpoint answers with a token and the
/// store accepts replaces the record of that very user and makes the pointer
/// name that user. Where the text written reads back as the record, a check
/// at the instant of receipt finds the new token and, if it lasts longer than
/// the margin, serves it from the cache without another refresh.
pub proof fn refresh_replaces_record_of_user(
    store: StoreModel,
    service: Seq<char>,
    user: Seq<char>,
    reply: TokenReply,
    record: Seq<char>,
    read: spec_fn(Seq<char>) -> Option<StoredModel>,
    accepted: Seq<bool>,
    client_id: Seq<char>,
    tenant_id: Seq<char>,
    now: int,
    margin: int,
)
    requires
        judged(reply) is Ok,
        read(record) == Some(StoredModel { token: judged(reply)->Ok_0, issued_at: now }),
        accepted.len() == 2,
        accepted[0],
        accepted[1],
        user != last_user_key_of(service),
    ensures
        refresh_outcome(reply, now, user) == Ok::<SessionModel, AuthError>(
            session_of(judged(reply)->Ok_0, user, now),
        ),
        ({
            let token = judged(reply)->Ok_0;
            let after = persisted(store, service, user, record, accepted).0;
            &&& stored_for(after, service, user, read) == Some(
                StoredModel { token: token, issued_at: now },
            )
            &&& last_user_in(after, service) == Some(user)
            &&& token.expires_in > margin ==> validity_decision(
                stored_for(after, service, user, read),
                client_id,
                tenant_id,
                now,
                margin,
            ) == Ok::<DecisionModel, AuthError>(DecisionModel::UseCached(token))
        }),
{
    accepted_persist_replaces_record(store, service, user, record, accepted);
}

/// After a logout of `user` the store holds no record for that user and the
/// last-user pointer does not name that user. So the question who is logged
/// in is not answered with that user; a load finds no record, however records
/// are read; no token can be ensured; and nothing counts as authenticated.
pub proof fn logout_forgets_user(
    store: StoreModel,
    service: Seq<char>,
    user: Seq<char>,
    read: spec_fn(Seq<char>) -> Option<StoredModel>,
    client_id: Seq<char>,
    tenant_id: Seq<char>,
    now: int,
    margin: int,
)
    ensures
        !after_logout(store, service, user).dom().contains((service, user)),
        last_user_in(after_logout(store, service, user), service) != Some(user),
        stored_for(after_logout(store, service, user), service, user, read) is None,
        validity_decision(
            stored_for(after_logout(store, service, user), service, user, read),
            client_id,
            tenant_id,
            now,
            margin,
        ) == Err::<DecisionModel, AuthError>(AuthError::NoStoredToken),
        !counts_as_authenticated(
            Some(user),
            false,
            stored_for(after_logout(store, service, user), service, user, read),
            now,
        ),
{
    let keys = logout_deletions(service, user, last_user_in(store, service));
    let record = (service, user);
    let pointer = (service, last_user_key_of(service));
    assert(after_deletions(store, Seq::empty()) == store);
    if last_user_in(store, service) == Some(user) {
        assert(keys.drop_last() =~= seq![record]);
        assert(keys.drop_last().drop_last() =~= Seq::empty());
        assert(keys.last() == pointer);
        assert(after_deletions(store, keys.drop_last()) == store.remove(record));
        assert(after_deletions(store, keys) == store.remove(record).remove(pointer));
    } else {
        assert(keys.drop_last() =~= Seq::empty());
        assert(keys.last() == record);
        assert(after_deletions(store, keys) == store.remove(record));
    }
}

} // verus!
