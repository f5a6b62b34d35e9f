//! How secrets are filed in the keyring: the attributes they are stored and
//! searched under, and what an error of the keyring means.
use vstd::prelude::*;
use vstd::string::*;

use sha2::{Digest, Sha256};

use crate::keyed::StringMap;
use crate::text::{is_digit_spec, opt_text};

verus! {

/// The application's name in the keyring.
pub const APP_ID: &'static str = "net.openvpn.openvpn3-gui-rs";

/// The human-readable label of every secret; it tells nothing of its use.
pub const SECRET_LABEL: &'static str = "OpenVPN3 GUI credential";

/// The SHA-256 digest of the text's UTF-8 bytes, in lower-case hexadecimal.
pub uninterp spec fn sha256_hex(text: Seq<char>) -> Seq<char>;

pub open spec fn is_lower_hex(c: char) -> bool {
    is_digit_spec(c) || 'a' <= c && c <= 'f'
}

/// `Sha256::digest` of the `sha2` crate on the text's bytes, rendered with the
/// digest's `LowerHex`. The digest depends on the text alone and has 32 bytes,
/// so it is rendered as 64 lower-case hexadecimal digits. That different texts
/// have different digests is not claimed.
#[verifier::external_body]
fn sha256_hex_of(text: &str) -> (r: String)
    ensures
        r@ == sha256_hex(text@),
        r@.len() == 64,
        forall|i: int| 0 <= i < 64 ==> is_lower_hex(#[trigger] r@[i]),
{
    format!("{:x}", Sha256::digest(text.as_bytes()))
}

/// The attribute under which the secrets of a configuration are filed.
pub open spec fn config_key(config_path: Seq<char>) -> Seq<char> {
    "v1:"@ + sha256_hex(config_path)
}

/// The attribute under which the secrets of a configuration are filed: a
/// digest of its path, since attributes are not encrypted.
pub fn config_id_key(config_path: &str) -> (r: String)
    ensures
        r@ == config_key(config_path@),
        r@.len() == 67,
        forall|i: int| 3 <= i < 67 ==> is_lower_hex(#[trigger] r@[i]),
{
    proof {
        reveal_strlit("v1:");
    }
    let digest = sha256_hex_of(config_path);
    let mut key = "v1:".to_owned();
    key.append(digest.as_str());
    assert forall|i: int| 3 <= i < 67 implies is_lower_hex(#[trigger] key@[i]) by {
        assert(key@[i] == digest@[i - 3]);
    }
    key
}

/// The attributes of a search.
pub type Attributes = StringMap<String>;

/// The texts of a set of attributes.
pub open spec fn attrs_view(m: Map<Seq<char>, String>) -> Map<Seq<char>, Seq<char>> {
    m.map_values(|s: String| s@)
}

/// Application and configuration.
pub open spec fn config_query(config_attr: Seq<char>) -> Map<Seq<char>, Seq<char>> {
    Map::empty().insert("application"@, APP_ID@).insert("config-id"@, config_attr)
}

/// Application, configuration and label.
pub open spec fn secret_query(config_attr: Seq<char>, key: Seq<char>) -> Map<
    Seq<char>,
    Seq<char>,
> {
    config_query(config_attr).insert("key"@, key)
}

fn config_attributes(config_attr: String) -> (r: Attributes)
    ensures
        attrs_view(r@) == config_query(config_attr@),
{
    let mut attributes: Attributes = StringMap::new();
    attributes.insert("application".to_owned(), APP_ID.to_owned());
    attributes.insert("config-id".to_owned(), config_attr);
    assert(attrs_view(attributes@) =~= config_query(config_attr@));
    attributes
}

/// Finds every secret of a configuration, whatever its label.
pub fn search_attrs_for_config(config_id: &str) -> (r: Attributes)
    ensures
        attrs_view(r@) == config_query(config_key(config_id@)),
{
    config_attributes(config_id_key(config_id))
}

/// Finds every secret of a configuration that was filed under its plain path.
pub fn raw_search_attrs_for_config(config_id: &str) -> (r: Attributes)
    ensures
        attrs_view(r@) == config_query(config_id@),
{
    config_attributes(config_id.to_owned())
}

/// Finds one secret, given the configuration's attribute as it was filed: the
/// digest of the path, or the plain path or name in older stores.
pub fn legacy_search_attrs(config_attr: &str, key: &str) -> (r: Attributes)
    ensures
        attrs_view(r@) == secret_query(config_attr@, key@),
{
    let mut attributes = config_attributes(config_attr.to_owned());
    let ghost before = attrs_view(attributes@);
    attributes.insert("key".to_owned(), key.to_owned());
    assert(attrs_view(attributes@) =~= before.insert("key"@, key@));
    attributes
}

/// The attributes that a secret is stored with.
pub fn store_attrs(config_id: &str, key: &str) -> (r: Attributes)
    ensures
        attrs_view(r@) == secret_query(config_key(config_id@), key@),
{
    let attr = config_id_key(config_id);
    legacy_search_attrs(attr.as_str(), key)
}

/// Finds every secret of the application.
pub open spec fn application_query() -> Map<Seq<char>, Seq<char>> {
    Map::empty().insert("application"@, APP_ID@)
}

/// Finds every secret of the application.
pub fn search_attrs_for_all() -> (r: Attributes)
    ensures
        attrs_view(r@) == application_query(),
{
    let mut attributes: Attributes = StringMap::new();
    attributes.insert("application".to_owned(), APP_ID.to_owned());
    assert(attrs_view(attributes@) =~= application_query());
    attributes
}

/// The searches whose finds are deleted, to forget a secret or all secrets of
/// a configuration.
pub open spec fn forget_searches(config_id: Seq<char>, key: Option<Seq<char>>) -> (
    Map<Seq<char>, Seq<char>>,
    Map<Seq<char>, Seq<char>>,
) {
    match key {
        Some(k) => (secret_query(config_key(config_id), k), secret_query(config_id, k)),
        None => (config_query(config_key(config_id)), config_query(config_id)),
    }
}

/// How to forget a secret, or all secrets of a configuration: the searches
/// whose finds are deleted. Both ways of filing are covered.
pub fn forget_queries(config_id: &str, key: &Option<String>) -> (r: (Attributes, Attributes))
    ensures
        match *key {
            Some(k) => attrs_view((r.0)@) == secret_query(config_key(config_id@), k@)
                && attrs_view((r.1)@) == secret_query(config_id@, k@),
            None => attrs_view((r.0)@) == config_query(config_key(config_id@)) && attrs_view((r.1)@)
                == config_query(config_id@),
        },
        (attrs_view((r.0)@), attrs_view((r.1)@)) == forget_searches(config_id@, opt_text(*key)),
{
    match key {
        Some(k) => (
            store_attrs(config_id, k.as_str()),
            legacy_search_attrs(config_id, k.as_str()),
        ),
        None => (search_attrs_for_config(config_id), raw_search_attrs_for_config(config_id)),
    }
}

/// What follows the deletion of one secret out of several.
#[derive(Clone, Copy, Debug, PartialEq, Eq, Structural)]
pub enum DeleteStep {
    /// Delete the next one; whether some deletion has failed so far.
    Next(bool),
    /// All have been handled; whether some deletion has failed.
    Done(bool),
}

pub open spec fn delete_step(left: nat, failed: bool, ok: bool) -> DeleteStep {
    if left > 0 {
        DeleteStep::Next(failed || !ok)
    } else {
        DeleteStep::Done(failed || !ok)
    }
}

/// What follows the deletion of a secret, when `left` more are to be deleted.
/// A failure is remembered and keeps no other secret from being deleted.
pub fn after_delete(left: usize, failed: bool, ok: bool) -> (r: DeleteStep)
    ensures
        r == delete_step(left as nat, failed, ok),
{
    if left > 0 {
        DeleteStep::Next(failed || !ok)
    } else {
        DeleteStep::Done(failed || !ok)
    }
}

/// The step after the deletions with these outcomes, of `count` secrets.
pub open spec fn delete_run(outcomes: Seq<bool>, count: nat) -> DeleteStep
    decreases outcomes.len(),
{
    if outcomes.len() == 0 {
        DeleteStep::Next(false)
    } else {
        let failed = match delete_run(outcomes.drop_last(), count) {
            DeleteStep::Next(f) => f,
            DeleteStep::Done(f) => f,
        };
        delete_step((count - outcomes.len()) as nat, failed, outcomes.last())
    }
}

/// A failed deletion does not mask the rest: the run ends when every secret
/// has been handled and no sooner, and it tells a failure exactly if one of
/// the deletions has failed.
pub proof fn law_every_secret_is_handled(outcomes: Seq<bool>, count: nat)
    requires
        outcomes.len() <= count,
        count > 0,
    ensures
        delete_run(outcomes, count) is Done == (outcomes.len() == count),
        (match delete_run(outcomes, count) {
            DeleteStep::Next(f) => f,
            DeleteStep::Done(f) => f,
        }) == outcomes.contains(false),
    decreases outcomes.len(),
{
    if outcomes.len() > 0 {
        let rest = outcomes.drop_last();
        law_every_secret_is_handled(rest, count);
        if rest.contains(false) {
            let i = choose|i: int| 0 <= i < rest.len() && rest[i] == false;
            assert(outcomes[i] == false);
        }
        if outcomes.contains(false) {
            let i = choose|i: int| 0 <= i < outcomes.len() && outcomes[i] == false;
            if i < rest.len() {
                assert(rest[i] == false);
            }
        }
        assert(outcomes[outcomes.len() - 1] == outcomes.last());
    }
}

/// How far the lookup of a secret has come. `T` is the type of its texts.
#[derive(Debug)]
pub enum Lookup<T = String> {
    /// Searching by the digest of the path.
    ByDigest,
    /// Searching by the plain path, as older stores have it.
    ByPath,
    /// Searching by the configuration's name, as the oldest stores have it.
    ByName,
    /// Storing what was found by name under the digest.
    Storing(T),
    /// Deleting what was found by name.
    Deleting(T),
}

/// What the keyring answered.
#[derive(Debug)]
pub enum KeyringReply<T = String> {
    /// A search found this secret.
    Found(T),
    /// A search found nothing.
    Absent,
    /// A secret was stored or deleted.
    Done,
    /// The keyring failed, or the secret is no text.
    Failed,
}

/// What is asked of the keyring next. `A` is the type of attributes.
pub enum LookupStep<T = String, A = Attributes> {
    /// Search for a secret.
    Search(A),
    /// Store a secret.
    Store(A, T),
    /// Delete the secret that the last search found.
    DeleteFound,
    /// The lookup is over, with this secret or none.
    Finished(Option<T>),
    /// The lookup is over with the keyring's own error.
    Broken,
}

impl View for Lookup<String> {
    type V = Lookup<Seq<char>>;

    open spec fn view(&self) -> Lookup<Seq<char>> {
        match *self {
            Lookup::ByDigest => Lookup::ByDigest,
            Lookup::ByPath => Lookup::ByPath,
            Lookup::ByName => Lookup::ByName,
            Lookup::Storing(s) => Lookup::Storing(s@),
            Lookup::Deleting(s) => Lookup::Deleting(s@),
        }
    }
}

impl View for KeyringReply<String> {
    type V = KeyringReply<Seq<char>>;

    open spec fn view(&self) -> KeyringReply<Seq<char>> {
        match *self {
            KeyringReply::Found(s) => KeyringReply::Found(s@),
            KeyringReply::Absent => KeyringReply::Absent,
            KeyringReply::Done => KeyringReply::Done,
            KeyringReply::Failed => KeyringReply::Failed,
        }
    }
}

impl View for LookupStep<String, Attributes> {
    type V = LookupStep<Seq<char>, Map<Seq<char>, Seq<char>>>;

    open spec fn view(&self) -> LookupStep<Seq<char>, Map<Seq<char>, Seq<char>>> {
        match *self {
            LookupStep::Search(a) => LookupStep::Search(attrs_view(a@)),
            LookupStep::Store(a, s) => LookupStep::Store(attrs_view(a@), s@),
            LookupStep::DeleteFound => LookupStep::DeleteFound,
            LookupStep::Finished(s) => LookupStep::Finished(
                match s {
                    Some(t) => Some(t@),
                    None => None,
                },
            ),
            LookupStep::Broken => LookupStep::Broken,
        }
    }
}

/// The identity of a secret: its configuration's path and name, and its label.
pub struct SecretId {
    pub config_id: String,
    pub config_name: String,
    pub key: String,
}

/// What follows an answer of the keyring.
pub open spec fn lookup_step(
    at: Lookup<Seq<char>>,
    reply: KeyringReply<Seq<char>>,
    id: SecretId,
) -> (Lookup<Seq<char>>, LookupStep<Seq<char>, Map<Seq<char>, Seq<char>>>) {
    match (at, reply) {
        (Lookup::ByDigest, KeyringReply::Found(s)) => (
            Lookup::ByDigest,
            LookupStep::Finished(Some(s)),
        ),
        (Lookup::ByDigest, KeyringReply::Failed) => (Lookup::ByDigest, LookupStep::Broken),
        (Lookup::ByDigest, _) => (
            Lookup::ByPath,
            LookupStep::Search(secret_query(id.config_id@, id.key@)),
        ),
        (Lookup::ByPath, KeyringReply::Found(s)) => (Lookup::ByPath, LookupStep::Finished(Some(s))),
        (Lookup::ByPath, KeyringReply::Failed) => (Lookup::ByPath, LookupStep::Broken),
        (Lookup::ByPath, _) => if id.config_id@.len() == 0 {
            (Lookup::ByPath, LookupStep::Finished(None))
        } else {
            (Lookup::ByName, LookupStep::Search(secret_query(id.config_name@, id.key@)))
        },
        (Lookup::ByName, KeyringReply::Found(s)) => (
            Lookup::Storing(s),
            LookupStep::Store(secret_query(config_key(id.config_id@), id.key@), s),
        ),
        (Lookup::ByName, _) => (Lookup::ByName, LookupStep::Finished(None)),
        (Lookup::Storing(s), KeyringReply::Failed) => (
            Lookup::Storing(s),
            LookupStep::Finished(None),
        ),
        (Lookup::Storing(s), _) => (Lookup::Deleting(s), LookupStep::DeleteFound),
        (Lookup::Deleting(s), KeyringReply::Failed) => (
            Lookup::Deleting(s),
            LookupStep::Finished(None),
        ),
        (Lookup::Deleting(s), _) => (Lookup::Deleting(s), LookupStep::Finished(Some(s))),
    }
}

/// Where the lookup of a secret begins.
pub open spec fn lookup_start(id: SecretId) -> (
    Lookup<Seq<char>>,
    LookupStep<Seq<char>, Map<Seq<char>, Seq<char>>>,
) {
    (
        Lookup::ByDigest,
        LookupStep::Search(secret_query(config_key(id.config_id@), id.key@)),
    )
}

/// Begins the lookup of a secret.
pub fn begin_lookup(id: &SecretId) -> (r: (Lookup, LookupStep))
    ensures
        (r.0)@ == Lookup::<Seq<char>>::ByDigest,
        (r.1)@ == LookupStep::<Seq<char>, Map<Seq<char>, Seq<char>>>::Search(
            secret_query(config_key(id.config_id@), id.key@),
        ),
        ((r.0)@, (r.1)@) == lookup_start(*id),
{
    (
        Lookup::ByDigest,
        LookupStep::Search(store_attrs(id.config_id.as_str(), id.key.as_str())),
    )
}

/// Moves a secret that is still filed under the configuration's name. Without
/// a path there is nowhere to move it to; a failure on the way leaves it where
/// it is, and only a secret that was stored anew is deleted there. The secret
/// is handed out once it has been both stored anew and deleted there; the next
/// lookup finds one that was stored and could not be deleted.
fn migrate_legacy_secret(at: Lookup, reply: KeyringReply, id: &SecretId) -> (r: (
    Lookup,
    LookupStep,
))
    requires
        !(at is ByDigest),
        at is ByPath ==> !(reply is Found) && !(reply is Failed),
    ensures
        ((r.0)@, (r.1)@) == lookup_step(at@, reply@, *id),
{
    match at {
        Lookup::ByDigest | Lookup::ByPath => if id.config_id.as_str().is_empty() {
            (Lookup::ByPath, LookupStep::Finished(None))
        } else {
            (
                Lookup::ByName,
                LookupStep::Search(
                    legacy_search_attrs(id.config_name.as_str(), id.key.as_str()),
                ),
            )
        },
        Lookup::ByName => match reply {
            KeyringReply::Found(s) => {
                let copy = s.clone();
                (
                    Lookup::Storing(copy),
                    LookupStep::Store(store_attrs(id.config_id.as_str(), id.key.as_str()), s),
                )
            },
            _ => (Lookup::ByName, LookupStep::Finished(None)),
        },
        Lookup::Storing(s) => match reply {
            KeyringReply::Failed => (Lookup::Storing(s), LookupStep::Finished(None)),
            _ => (Lookup::Deleting(s), LookupStep::DeleteFound),
        },
        Lookup::Deleting(s) => match reply {
            KeyringReply::Failed => (Lookup::Deleting(s), LookupStep::Finished(None)),
            _ => {
                let copy = s.clone();
                (Lookup::Deleting(copy), LookupStep::Finished(Some(s)))
            },
        },
    }
}

/// Goes on with the lookup of a secret: it is searched for by the digest of
/// the path, then by the plain path, and else moved from where the oldest
/// stores have it.
pub fn get_with_keyring(at: Lookup, reply: KeyringReply, id: &SecretId) -> (r: (
    Lookup,
    LookupStep,
))
    ensures
        ((r.0)@, (r.1)@) == lookup_step(at@, reply@, *id),
{
    match at {
        Lookup::ByDigest => match reply {
            KeyringReply::Found(s) => (Lookup::ByDigest, LookupStep::Finished(Some(s))),
            KeyringReply::Failed => (Lookup::ByDigest, LookupStep::Broken),
            _ => (
                Lookup::ByPath,
                LookupStep::Search(legacy_search_attrs(id.config_id.as_str(), id.key.as_str())),
            ),
        },
        Lookup::ByPath => match reply {
            KeyringReply::Found(s) => (Lookup::ByPath, LookupStep::Finished(Some(s))),
            KeyringReply::Failed => (Lookup::ByPath, LookupStep::Broken),
            other => migrate_legacy_secret(Lookup::ByPath, other, id),
        },
        later => migrate_legacy_secret(later, reply, id),
    }
}

/// Moving a secret never loses it: it is deleted under the old name only after
/// the very text that was found there has been stored under the digest of the
/// path. Whoever asked gets that text if both have succeeded, and nothing if
/// one of them has failed.
pub proof fn law_migration_never_loses_a_secret(
    at: Lookup<Seq<char>>,
    reply: KeyringReply<Seq<char>>,
    id: SecretId,
)
    ensures
        lookup_step(at, reply, id).1 is DeleteFound ==> at is Storing && !(reply is Failed),
        lookup_step(at, reply, id).0 is Storing && !(at is Storing) ==> at is ByName && reply
            == KeyringReply::Found(lookup_step(at, reply, id).0->Storing_0) && lookup_step(
            at,
            reply,
            id,
        ).1 == LookupStep::<Seq<char>, Map<Seq<char>, Seq<char>>>::Store(
            secret_query(config_key(id.config_id@), id.key@),
            lookup_step(at, reply, id).0->Storing_0,
        ),
        lookup_step(at, reply, id).0 is Deleting && !(at is Deleting) ==> at == Lookup::Storing(
            lookup_step(at, reply, id).0->Deleting_0,
        ),
        at is Deleting && !(reply is Failed) ==> lookup_step(at, reply, id).1 == LookupStep::<
            Seq<char>,
            Map<Seq<char>, Seq<char>>,
        >::Finished(Some(at->Deleting_0)),
        (at is Storing || at is Deleting) && reply is Failed ==> lookup_step(at, reply, id).1
            == LookupStep::<Seq<char>, Map<Seq<char>, Seq<char>>>::Finished(None),
{
}

/// Nothing is moved while the configuration's path is unknown.
pub proof fn law_no_migration_without_a_path(
    at: Lookup<Seq<char>>,
    reply: KeyringReply<Seq<char>>,
    id: SecretId,
)
    requires
        id.config_id@.len() == 0,
        at is ByDigest || at is ByPath,
    ensures
        lookup_step(at, reply, id).0 is ByDigest || lookup_step(at, reply, id).0 is ByPath,
        !(lookup_step(at, reply, id).1 is Store),
        !(lookup_step(at, reply, id).1 is DeleteFound),
{
}

/// A search finds the secrets that have all of its attributes.
pub open spec fn finds(
    query: Map<Seq<char>, Seq<char>>,
    attrs: Map<Seq<char>, Seq<char>>,
) -> bool {
    forall|k: Seq<char>| #[trigger] query.contains_key(k) ==> attrs.contains_key(k) && attrs[k]
        == query[k]
}

proof fn lemma_attribute_names()
    ensures
        "application"@ != "config-id"@,
        "application"@ != "key"@,
        "config-id"@ != "key"@,
{
    reveal_strlit("application");
    reveal_strlit("config-id");
    reveal_strlit("key");
    assert("application"@.len() == 11 && "config-id"@.len() == 9 && "key"@.len() == 3);
}

/// A secret with exactly the attributes that the application stores.
pub open spec fn filed(attrs: Map<Seq<char>, Seq<char>>) -> bool {
    attrs.dom() == set!["application"@, "config-id"@, "key"@]
}

/// In a keyring that holds one secret for each set of attributes, the search
/// for a secret that was stored finds that secret and no other.
pub proof fn law_stored_secret_is_found(
    items: Map<Map<Seq<char>, Seq<char>>, Seq<char>>,
    config_id: Seq<char>,
    key: Seq<char>,
    secret: Seq<char>,
    item: Map<Seq<char>, Seq<char>>,
)
    requires
        items.contains_key(item) ==> filed(item),
    ensures
        ({
            let query = secret_query(config_key(config_id), key);
            let stored = items.insert(query, secret);
            &&& stored.contains_key(query) && finds(query, query)
            &&& stored.contains_key(item) && finds(query, item) ==> stored[item] == secret
        }),
{
    lemma_attribute_names();
    let query = secret_query(config_key(config_id), key);
    assert(query.dom() =~= set!["application"@, "config-id"@, "key"@]);
    if items.contains_key(item) && finds(query, item) {
        assert(query.contains_key("application"@));
        assert(query.contains_key("config-id"@));
        assert(query.contains_key("key"@));
        assert(item =~= query);
    }
}

/// Forgetting a configuration finds all of its secrets, whatever their label
/// and whichever way they were filed, and forgetting everything finds every
/// secret.
pub proof fn law_forgetting_finds_every_secret(config_id: Seq<char>, key: Seq<char>)
    ensures
        finds(config_query(config_key(config_id)), secret_query(config_key(config_id), key)),
        finds(config_query(config_id), secret_query(config_id, key)),
        finds(application_query(), secret_query(config_id, key)),
{
    lemma_attribute_names();
}

/// Forgetting a configuration finds no secret of another one, unless the two
/// paths have the same digest.
pub proof fn law_forgetting_spares_other_configs(
    config_id: Seq<char>,
    other: Seq<char>,
    key: Seq<char>,
)
    requires
        sha256_hex(config_id) != sha256_hex(other),
    ensures
        !finds(config_query(config_key(config_id)), secret_query(config_key(other), key)),
{
    lemma_attribute_names();
    let query = config_query(config_key(config_id));
    let attrs = secret_query(config_key(other), key);
    assert(query.contains_key("config-id"@));
    assert(query["config-id"@] == config_key(config_id));
    assert(attrs["config-id"@] == config_key(other));
    assert(config_key(config_id).skip("v1:"@.len() as int) =~= sha256_hex(config_id));
    assert(config_key(other).skip("v1:"@.len() as int) =~= sha256_hex(other));
}

/// A search for one label finds no secret with another label.
pub proof fn law_labels_are_kept_apart(
    config_attr: Seq<char>,
    other_attr: Seq<char>,
    key: Seq<char>,
    other_key: Seq<char>,
)
    requires
        key != other_key,
    ensures
        !finds(secret_query(config_attr, key), secret_query(other_attr, other_key)),
{
    lemma_attribute_names();
    let query = secret_query(config_attr, key);
    assert(query.contains_key("key"@));
}

/// The attribute never is an object path: those begin with a slash.
pub proof fn law_attribute_is_no_path(config_path: Seq<char>, path: Seq<char>)
    requires
        path.len() > 0,
        path[0] == '/',
    ensures
        config_key(config_path) != path,
{
    reveal_strlit("v1:");
    assert(config_key(config_path)[0] == 'v');
}

/// The keyring, which is opened when it is needed.
#[derive(Debug)]
pub struct CredentialStore {}

impl CredentialStore {
    /// A store; making one cannot fail.
    pub fn new() -> (r: Result<Self, String>)
        ensures
            r is Ok,
    {
        Ok(CredentialStore {  })
    }

    /// A store.
    pub fn new_sync() -> (r: Self)
        ensures
            r == (CredentialStore {  }),
    {
        CredentialStore {  }
    }
}

impl Default for CredentialStore {
    /// A store.
    fn default() -> (r: Self)
        ensures
            r == (CredentialStore {  }),
    {
        CredentialStore::new_sync()
    }
}

/// One cause in the chain of an error.
#[derive(Clone, Copy, Debug, PartialEq, Eq, Structural)]
pub enum KeyringCause {
    /// The collection is locked.
    Locked,
    /// The user dismissed the prompt to unlock it.
    Dismissed,
    Other,
}

/// `anyhow::Error`, an error with its chain of causes.
#[verifier::external_type_specification]
#[verifier::external_body]
pub struct ExAnyhowError(anyhow::Error);

/// The causes that an error's chain holds, outermost first.
pub uninterp spec fn causes_of(e: anyhow::Error) -> Seq<KeyringCause>;

/// `anyhow::Error::chain` and its length: how many causes the chain holds.
#[verifier::external_body]
fn cause_count(e: &anyhow::Error) -> (r: usize)
    ensures
        r == causes_of(*e).len(),
{
    e.chain().len()
}

/// `anyhow::Error::chain` and `downcast_ref`: the cause at position `i` of the
/// chain, as far as it is one of the keyring crate's own errors.
#[verifier::external_body]
fn cause_at(e: &anyhow::Error, i: usize) -> (r: KeyringCause)
    requires
        i < causes_of(*e).len(),
    ensures
        r == causes_of(*e)[i as int],
{
    let cause = e.chain().nth(i);
    match cause.and_then(|c| c.downcast_ref::<oo7::Error>()) {
        Some(oo7::Error::DBus(oo7::dbus::Error::Service(oo7::dbus::ServiceError::IsLocked(_)))) => {
            KeyringCause::Locked
        },
        Some(oo7::Error::DBus(oo7::dbus::Error::Dismissed)) => KeyringCause::Dismissed,
        _ => KeyringCause::Other,
    }
}

/// A cause says that the keyring is locked or stayed locked.
pub open spec fn says_locked(c: KeyringCause) -> bool {
    c == KeyringCause::Locked || c == KeyringCause::Dismissed
}

pub open spec fn some_locked(causes: Seq<KeyringCause>) -> bool {
    exists|i: int| 0 <= i < causes.len() && says_locked(#[trigger] causes[i])
}

/// Whether one of the causes says that the keyring is locked.
pub fn any_cause_locked(causes: &[KeyringCause]) -> (r: bool)
    ensures
        r == some_locked(causes@),
{
    let mut i: usize = 0;
    while i < causes.len()
        invariant
            i <= causes.len(),
            forall|j: int| 0 <= j < i ==> !says_locked(#[trigger] causes@[j]),
        decreases causes.len() - i,
    {
        if causes[i] == KeyringCause::Locked || causes[i] == KeyringCause::Dismissed {
            assert(says_locked(causes@[i as int]));
            return true;
        }
        i = i + 1;
    }
    false
}

/// Whether an error means that the keyring is locked, or stayed locked because
/// the user dismissed the prompt.
pub fn is_locked_error(e: &anyhow::Error) -> (r: bool)
    ensures
        r == some_locked(causes_of(*e)),
{
    let n = cause_count(e);
    let mut causes: Vec<KeyringCause> = Vec::new();
    let mut i: usize = 0;
    while i < n
        invariant
            i <= n,
            n == causes_of(*e).len(),
            causes@ == causes_of(*e).take(i as int),
        decreases n - i,
    {
        causes.push(cause_at(e, i));
        i = i + 1;
        assert(causes@ =~= causes_of(*e).take(i as int));
    }
    assert(causes_of(*e).take(i as int) =~= causes_of(*e));
    any_cause_locked(causes.as_slice())
}

/// A secret that a search by digest or by path has found ends the lookup, and
/// is what the lookup gives.
pub proof fn law_found_secret_is_given(
    at: Lookup<Seq<char>>,
    secret: Seq<char>,
    id: SecretId,
)
    requires
        at is ByDigest || at is ByPath,
    ensures
        lookup_step(at, KeyringReply::Found(secret), id).1 == LookupStep::<
            Seq<char>,
            Map<Seq<char>, Seq<char>>,
        >::Finished(Some(secret)),
{
}

/// The keyring's own error comes out of the first two searches, and only when
/// the keyring has failed; later failures leave the lookup without a secret.
pub proof fn law_keyring_failures(
    at: Lookup<Seq<char>>,
    reply: KeyringReply<Seq<char>>,
    id: SecretId,
)
    ensures
        lookup_step(at, reply, id).1 is Broken <==> reply is Failed && (at is ByDigest
            || at is ByPath),
        reply is Failed && !(at is ByDigest) && !(at is ByPath) ==> lookup_step(at, reply, id).1
            == LookupStep::<Seq<char>, Map<Seq<char>, Seq<char>>>::Finished(None),
{
}

/// The attributes of a search, each with its value, and no others.
pub proof fn law_attributes_of_a_search(config_attr: Seq<char>, key: Seq<char>)
    ensures
        ({
            let one = secret_query(config_attr, key);
            let all = config_query(config_attr);
            &&& one.dom() == set!["application"@, "config-id"@, "key"@]
            &&& one["application"@] == "net.openvpn.openvpn3-gui-rs"@
            &&& one["config-id"@] == config_attr
            &&& one["key"@] == key
            &&& all.dom() == set!["application"@, "config-id"@]
            &&& all["application"@] == "net.openvpn.openvpn3-gui-rs"@
            &&& all["config-id"@] == config_attr
            &&& application_query().dom() == set!["application"@]
            &&& application_query()["application"@] == "net.openvpn.openvpn3-gui-rs"@
        }),
{
    lemma_attribute_names();
    let one = secret_query(config_attr, key);
    let all = config_query(config_attr);
    assert(one.dom() =~= set!["application"@, "config-id"@, "key"@]);
    assert(all.dom() =~= set!["application"@, "config-id"@]);
    assert(application_query().dom() =~= set!["application"@]);
}

/// The attribute of a configuration is its path's digest behind the number of
/// the scheme.
pub proof fn law_attribute_is_the_digest(config_path: Seq<char>)
    ensures
        config_key(config_path).len() == 3 + sha256_hex(config_path).len(),
        config_key(config_path).take(3) == "v1:"@,
        config_key(config_path).skip(3) == sha256_hex(config_path),
{
    reveal_strlit("v1:");
    assert(config_key(config_path).take(3) =~= "v1:"@);
    assert(config_key(config_path).skip(3) =~= sha256_hex(config_path));
}

/// The secrets of a keyring, by their attributes.
pub type Secrets = Map<Map<Seq<char>, Seq<char>>, Seq<char>>;

/// A lookup in a keyring that does not fail and holds these secrets, from the
/// point where `asked` is asked of it, `last` being the last search: the
/// secrets it then holds, and what the lookup gives. Nothing, if the lookup is
/// not over after that many answers.
pub open spec fn lookup_run(
    secrets: Secrets,
    last: Map<Seq<char>, Seq<char>>,
    at: Lookup<Seq<char>>,
    asked: LookupStep<Seq<char>, Map<Seq<char>, Seq<char>>>,
    id: SecretId,
    answers: nat,
) -> Option<(Secrets, Option<Seq<char>>)>
    decreases answers,
{
    match asked {
        LookupStep::Finished(given) => Some((secrets, given)),
        LookupStep::Broken => None,
        _ if answers == 0 => None,
        LookupStep::Search(query) => {
            let reply = if secrets.contains_key(query) {
                KeyringReply::Found(secrets[query])
            } else {
                KeyringReply::Absent
            };
            let (next, step) = lookup_step(at, reply, id);
            lookup_run(secrets, query, next, step, id, (answers - 1) as nat)
        },
        LookupStep::Store(attrs, secret) => {
            let (next, step) = lookup_step(at, KeyringReply::Done, id);
            lookup_run(secrets.insert(attrs, secret), last, next, step, id, (answers - 1) as nat)
        },
        LookupStep::DeleteFound => {
            let (next, step) = lookup_step(at, KeyringReply::Done, id);
            lookup_run(secrets.remove(last), last, next, step, id, (answers - 1) as nat)
        },
    }
}

/// A lookup gives the secret that the keyring holds: the one under the digest
/// of the path, else the one under the path, else the one under the name,
/// which is then filed under the digest instead. It gives none only if none of
/// the three is there, or the path is not known and neither of the first two.
/// The first two ways change nothing in the keyring.
pub proof fn law_lookup_gives_what_the_keyring_holds(secrets: Secrets, id: SecretId)
    ensures
        ({
            let digest = secret_query(config_key(id.config_id@), id.key@);
            let path = secret_query(id.config_id@, id.key@);
            let name = secret_query(id.config_name@, id.key@);
            let (at, asked) = lookup_start(id);
            let end = lookup_run(secrets, Map::empty(), at, asked, id, 5);
            &&& end is Some
            &&& secrets.contains_key(digest) ==> end == Some((secrets, Some(secrets[digest])))
            &&& !secrets.contains_key(digest) && secrets.contains_key(path) ==> end == Some(
                (secrets, Some(secrets[path])),
            )
            &&& !secrets.contains_key(digest) && !secrets.contains_key(path)
                && secrets.contains_key(name) && id.config_id@.len() > 0 ==> end == Some(
                (secrets.insert(digest, secrets[name]).remove(name), Some(secrets[name])),
            )
            &&& !secrets.contains_key(digest) && !secrets.contains_key(path) && (
            !secrets.contains_key(name) || id.config_id@.len() == 0) ==> end == Some(
                (secrets, None::<Seq<char>>),
            )
        }),
{
    reveal_with_fuel(lookup_run, 6);
}

/// Looking a secret up twice gives it twice, also when the first lookup has
/// moved it.
pub proof fn law_second_lookup_gives_the_same(secrets: Secrets, id: SecretId)
    ensures
        ({
            let (at, asked) = lookup_start(id);
            let once = lookup_run(secrets, Map::empty(), at, asked, id, 5);
            let left = (once->0).0;
            let twice = lookup_run(left, Map::empty(), at, asked, id, 5);
            once is Some && twice is Some && (twice->0).1 == (once->0).1
        }),
{
    let (at, asked) = lookup_start(id);
    let once = lookup_run(secrets, Map::empty(), at, asked, id, 5);
    law_lookup_gives_what_the_keyring_holds(secrets, id);
    law_lookup_gives_what_the_keyring_holds((once->0).0, id);
}

/// An error means a locked keyring just when one of its causes says that the
/// keyring is locked or that the prompt was dismissed.
pub proof fn law_locked_by_any_cause(causes: Seq<KeyringCause>)
    ensures
        some_locked(causes) <==> causes.contains(KeyringCause::Locked) || causes.contains(
            KeyringCause::Dismissed,
        ),
{
    if some_locked(causes) {
        let i = choose|i: int| 0 <= i < causes.len() && says_locked(#[trigger] causes[i]);
        assert(causes[i] == KeyringCause::Locked || causes[i] == KeyringCause::Dismissed);
    }
    if causes.contains(KeyringCause::Locked) {
        let i = choose|i: int| 0 <= i < causes.len() && causes[i] == KeyringCause::Locked;
        assert(says_locked(causes[i]));
    }
    if causes.contains(KeyringCause::Dismissed) {
        let i = choose|i: int| 0 <= i < causes.len() && causes[i] == KeyringCause::Dismissed;
        assert(says_locked(causes[i]));
    }
}

/// The digits of a digest are the decimal digits and the first six small
/// letters.
pub proof fn law_hexadecimal_digits(c: char)
    ensures
        is_lower_hex(c) <==> '0' <= c && c <= '9' || 'a' <= c && c <= 'f',
{
}

/// A step of deleting several secrets goes on while some are left, and a
/// failure is never forgotten.
pub proof fn law_deleting_goes_on(left: nat, failed: bool, ok: bool)
    ensures
        delete_step(left, failed, ok) is Next <==> left > 0,
        delete_step(left, failed, ok) == DeleteStep::Next(true) || delete_step(left, failed, ok)
            == DeleteStep::Done(true) <==> failed || !ok,
{
}

/// Forgetting finds what a lookup would have found under the digest or the
/// path, and with a label only the secret of that label.
pub proof fn law_forgetting_covers_both_ways(
    config_id: Seq<char>,
    key: Option<Seq<char>>,
    label: Seq<char>,
)
    ensures
        ({
            let (digest, path) = forget_searches(config_id, key);
            let all = key is None;
            &&& finds(digest, secret_query(config_key(config_id), label)) <==> all || key->0 == label
            &&& finds(path, secret_query(config_id, label)) <==> all || key->0 == label
        }),
{
    lemma_attribute_names();
    if key is None {
        law_forgetting_finds_every_secret(config_id, label);
    } else if key->0 != label {
        law_labels_are_kept_apart(config_key(config_id), config_key(config_id), key->0, label);
        law_labels_are_kept_apart(config_id, config_id, key->0, label);
    }
}

} // verus!
