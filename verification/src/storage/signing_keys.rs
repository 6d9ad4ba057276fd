//! The repository of signing keys: one current key, every key that was
//! current before it, and the verifying keys of them all.

use vstd::prelude::*;
use crate::crypto::{now_millis, SigningKey, SigningKeyView, VerifyingKey, VerifyingKeyView};

verus! {

/// Why a repository of verifying keys failed.
#[derive(Debug)]
pub enum VerifyingKeyRepositoryError {
    Custom(String),
    IoError(String),
    SerializationError(String),
}

impl VerifyingKeyRepositoryError {
    pub open spec fn message(self) -> Seq<char> {
        match self {
            VerifyingKeyRepositoryError::Custom(e) => "Verifying key repository error: "@ + e@,
            VerifyingKeyRepositoryError::IoError(e) => "IO error: "@ + e@,
            VerifyingKeyRepositoryError::SerializationError(e) => "Serialization error: "@ + e@,
        }
    }

    pub fn to_string(&self) -> (text: String)
        ensures
            text@ == self.message(),
    {
        match self {
            VerifyingKeyRepositoryError::Custom(e) => crate::text::join(
                "Verifying key repository error: ",
                e.as_str(),
            ),
            VerifyingKeyRepositoryError::IoError(e) => crate::text::join("IO error: ", e.as_str()),
            VerifyingKeyRepositoryError::SerializationError(e) => crate::text::join(
                "Serialization error: ",
                e.as_str(),
            ),
        }
    }
}

/// Why a repository of signing keys failed.
#[derive(Debug)]
pub enum SigningKeyRepositoryError {
    Custom(String),
    IoError(String),
    SerializationError(String),
    VerifyingKeyRepositoryError(VerifyingKeyRepositoryError),
    /// A freshly generated key carries the identifier of a key that the
    /// repository already holds; the rotation was not made.
    KeyIdInUse(u128),
}

impl SigningKeyRepositoryError {
    pub open spec fn message(self) -> Seq<char> {
        match self {
            SigningKeyRepositoryError::Custom(e) => "Signing key repository error: "@ + e@,
            SigningKeyRepositoryError::IoError(e) => "IO error: "@ + e@,
            SigningKeyRepositoryError::SerializationError(e) => "Serialization error: "@ + e@,
            SigningKeyRepositoryError::VerifyingKeyRepositoryError(e) =>
                "Issue creating verifying key repository: "@ + e.message(),
            SigningKeyRepositoryError::KeyIdInUse(key_id) => "Key id is already in use: "@
                + crate::crypto::key_id_text(key_id),
        }
    }

    pub fn to_string(&self) -> (text: String)
        ensures
            text@ == self.message(),
    {
        match self {
            SigningKeyRepositoryError::Custom(e) => crate::text::join(
                "Signing key repository error: ",
                e.as_str(),
            ),
            SigningKeyRepositoryError::IoError(e) => crate::text::join("IO error: ", e.as_str()),
            SigningKeyRepositoryError::SerializationError(e) => crate::text::join(
                "Serialization error: ",
                e.as_str(),
            ),
            SigningKeyRepositoryError::VerifyingKeyRepositoryError(e) => crate::text::join(
                "Issue creating verifying key repository: ",
                e.to_string().as_str(),
            ),
            SigningKeyRepositoryError::KeyIdInUse(key_id) => crate::text::join(
                "Key id is already in use: ",
                crate::crypto::key_id_string(*key_id).as_str(),
            ),
        }
    }
}

/// The key that a list of verifying keys holds for an identifier: the last
/// one listed under it.
pub open spec fn latest_with_id(keys: Seq<VerifyingKeyView>, key_id: u128) -> Option<
    VerifyingKeyView,
>
    decreases keys.len(),
{
    if keys.len() == 0 {
        None
    } else if keys.last().key_id == key_id {
        Some(keys.last())
    } else {
        latest_with_id(keys.drop_last(), key_id)
    }
}

/// A list of verifying keys as a map from identifiers to keys.
pub open spec fn keys_by_id(keys: Seq<VerifyingKeyView>) -> Map<u128, VerifyingKeyView> {
    Map::new(
        |key_id: u128| latest_with_id(keys, key_id) is Some,
        |key_id: u128| latest_with_id(keys, key_id)->0,
    )
}

/// The values of a list of verifying keys.
pub open spec fn verifying_views(keys: Seq<VerifyingKey>) -> Seq<VerifyingKeyView> {
    keys.map_values(|key: VerifyingKey| key@)
}

/// Adding a key to the end of a list puts it under its identifier and
/// leaves every other identifier as it was.
pub proof fn lemma_keys_by_id_push(keys: Seq<VerifyingKeyView>, key: VerifyingKeyView)
    ensures
        keys_by_id(keys.push(key)) == keys_by_id(keys).insert(key.key_id, key),
{
    let grown = keys.push(key);
    assert(grown.drop_last() =~= keys);
    assert(grown.last() == key);
    assert forall|key_id: u128|
        latest_with_id(grown, key_id) == (if key_id == key.key_id {
            Some(key)
        } else {
            latest_with_id(keys, key_id)
        }) by {}
    assert(keys_by_id(grown) =~= keys_by_id(keys).insert(key.key_id, key));
}

/// A read-only view over verifying keys, by key identifier.
pub trait VerifyingKeyRepository {
    /// The keys that the repository resolves. An implementation says what
    /// they are; of one that does not, nothing is known.
    open spec fn keys(&self) -> Map<u128, VerifyingKeyView> {
        arbitrary()
    }

    /// Whether no call of the repository ever fails. An implementation of
    /// which that is true says so; of one that does not, it is not known.
    open spec fn dependable(&self) -> bool {
        false
    }

    /// The key held under `key_id`, if there is one.
    fn get_verifying_key(&self, key_id: u128) -> (r: Result<
        Option<VerifyingKey>,
        VerifyingKeyRepositoryError,
    >)
        ensures
            r matches Ok(found) ==> match found {
                Some(key) => self.keys().contains_key(key_id) && self.keys()[key_id] == key@,
                None => !self.keys().contains_key(key_id),
            },
            self.dependable() ==> r is Ok,
    ;

    /// Every key that the repository holds.
    fn list_keys(&self) -> (r: Result<Vec<VerifyingKey>, VerifyingKeyRepositoryError>)
        ensures
            r matches Ok(listed) ==> keys_by_id(verifying_views(listed@)) == self.keys(),
            self.dependable() ==> r is Ok,
    ;
}

/// Verifying keys held in memory.
#[derive(Debug)]
pub struct InMemoryVerifyingKeyRepository {
    verifying_keys: Vec<VerifyingKey>,
}

impl View for InMemoryVerifyingKeyRepository {
    type V = Seq<VerifyingKeyView>;

    closed spec fn view(&self) -> Seq<VerifyingKeyView> {
        verifying_views(self.verifying_keys@)
    }
}

impl Clone for InMemoryVerifyingKeyRepository {
    fn clone(&self) -> (copy: InMemoryVerifyingKeyRepository)
        ensures
            copy@ == self@,
    {
        let copy = InMemoryVerifyingKeyRepository { verifying_keys: self.verifying_keys.clone() };
        assert(copy.verifying_keys@ =~= self.verifying_keys@);
        copy
    }
}

/// The last occurrence of an identifier in a list is what the list holds
/// for it.
proof fn lemma_latest_found(keys: Seq<VerifyingKeyView>, key_id: u128, i: int)
    requires
        0 <= i < keys.len(),
        keys[i].key_id == key_id,
        forall|j: int| i < j < keys.len() ==> keys[j].key_id != key_id,
    ensures
        latest_with_id(keys, key_id) == Some(keys[i]),
    decreases keys.len(),
{
    if i < keys.len() - 1 {
        lemma_latest_found(keys.drop_last(), key_id, i);
    }
}

/// An identifier that occurs nowhere in a list is not held by it.
proof fn lemma_latest_absent(keys: Seq<VerifyingKeyView>, key_id: u128)
    requires
        forall|j: int| 0 <= j < keys.len() ==> keys[j].key_id != key_id,
    ensures
        latest_with_id(keys, key_id) is None,
    decreases keys.len(),
{
    if keys.len() > 0 {
        lemma_latest_absent(keys.drop_last(), key_id);
    }
}

/// Whatever a list holds for an identifier is one of its entries.
proof fn lemma_latest_is_entry(keys: Seq<VerifyingKeyView>, key_id: u128)
    requires
        latest_with_id(keys, key_id) is Some,
    ensures
        exists|i: int|
            0 <= i < keys.len() && keys[i] == latest_with_id(keys, key_id)->0 && keys[i].key_id
                == key_id,
    decreases keys.len(),
{
    if keys.last().key_id == key_id {
        assert(keys[keys.len() - 1] == keys.last());
    } else {
        lemma_latest_is_entry(keys.drop_last(), key_id);
        let i = choose|i: int|
            0 <= i < keys.drop_last().len() && keys.drop_last()[i] == latest_with_id(
                keys.drop_last(),
                key_id,
            )->0 && keys.drop_last()[i].key_id == key_id;
        assert(keys[i] == keys.drop_last()[i]);
    }
}

/// Every entry's identifier is held by the list.
proof fn lemma_entry_is_held(keys: Seq<VerifyingKeyView>, i: int)
    requires
        0 <= i < keys.len(),
    ensures
        latest_with_id(keys, keys[i].key_id) is Some,
    decreases keys.len(),
{
    if keys.last().key_id != keys[i].key_id {
        lemma_entry_is_held(keys.drop_last(), i);
    }
}

impl InMemoryVerifyingKeyRepository {
    /// A repository of the given keys. Where two keys carry one identifier,
    /// the later one is held.
    pub fn new(verifying_keys: Vec<VerifyingKey>) -> (repository: InMemoryVerifyingKeyRepository)
        ensures
            repository@ == verifying_views(verifying_keys@),
    {
        InMemoryVerifyingKeyRepository { verifying_keys }
    }
}

impl VerifyingKeyRepository for InMemoryVerifyingKeyRepository {
    open spec fn keys(&self) -> Map<u128, VerifyingKeyView> {
        keys_by_id(self@)
    }

    open spec fn dependable(&self) -> bool {
        true
    }

    fn get_verifying_key(&self, key_id: u128) -> (r: Result<
        Option<VerifyingKey>,
        VerifyingKeyRepositoryError,
    >)
        ensures
            r is Ok,
    {
        let ghost views = self@;
        let mut i: usize = self.verifying_keys.len();
        while i > 0
            invariant
                i <= self.verifying_keys@.len(),
                views == verifying_views(self.verifying_keys@),
                forall|j: int| i <= j < views.len() ==> views[j].key_id != key_id,
            decreases i,
        {
            i = i - 1;
            if self.verifying_keys[i].key_id == key_id {
                proof {
                    lemma_latest_found(views, key_id, i as int);
                }
                return Ok(Some(self.verifying_keys[i]));
            }
        }
        proof {
            lemma_latest_absent(views, key_id);
        }
        Ok(None)
    }

    fn list_keys(&self) -> (r: Result<Vec<VerifyingKey>, VerifyingKeyRepositoryError>)
        ensures
            r matches Ok(listed) && verifying_views(listed@) == self@,
    {
        let listed = self.verifying_keys.clone();
        assert(listed@ =~= self.verifying_keys@);
        Ok(listed)
    }
}

/// The mathematical value of a `KeyState`.
pub struct KeyStateView {
    pub current_signing_key: SigningKeyView,
    pub expired_keys: Seq<SigningKeyView>,
}

impl KeyStateView {
    /// The verifying keys of the retired keys, oldest first, and then that
    /// of the current key.
    pub open spec fn verifying_keys(self) -> Seq<VerifyingKeyView> {
        self.expired_keys.map_values(|key: SigningKeyView| key.verifying_key()).push(
            self.current_signing_key.verifying_key(),
        )
    }

    /// Whether some key of the state carries the identifier.
    pub open spec fn holds_id(self, key_id: u128) -> bool {
        self.current_signing_key.key_id == key_id || exists|i: int|
            0 <= i < self.expired_keys.len() && (#[trigger] self.expired_keys[i]).key_id == key_id
    }

    /// The state after the current key has been asked for at `now`, with
    /// `fresh` at hand: a current key that is expired at `now` is rotated
    /// away, unless the identifier of `fresh` is held already.
    pub open spec fn after_request(self, now: i64, fresh: SigningKeyView) -> KeyStateView {
        if self.current_signing_key.expired_at(now) && !self.holds_id(fresh.key_id) {
            self.rotated(fresh, now)
        } else {
            self
        }
    }

    /// The key that is handed out when the current key is asked for at
    /// `now`, with `fresh` at hand: none where a rotation is due and the
    /// identifier of `fresh` is held already.
    pub open spec fn served(self, now: i64, fresh: SigningKeyView) -> Option<SigningKeyView> {
        if !self.current_signing_key.expired_at(now) {
            Some(self.current_signing_key)
        } else if self.holds_id(fresh.key_id) {
            None
        } else {
            Some(fresh)
        }
    }

    /// Whether `r` and `after` are the answer to a request for the current
    /// key at `now`, with `fresh` at hand.
    pub open spec fn answers_request(
        self,
        after: KeyStateView,
        r: Result<SigningKey, SigningKeyRepositoryError>,
        now: i64,
        fresh: SigningKeyView,
    ) -> bool {
        &&& after == self.after_request(now, fresh)
        &&& match self.served(now, fresh) {
            Some(served) => r matches Ok(key) && key@ == served,
            None => r matches Err(SigningKeyRepositoryError::KeyIdInUse(key_id)) && key_id
                == fresh.key_id,
        }
    }

    /// The state after a rotation at `now` to the key `fresh`: the current
    /// key ends at `now` and joins the retired keys, and `fresh` is current.
    pub open spec fn rotated(self, fresh: SigningKeyView, now: i64) -> KeyStateView {
        KeyStateView {
            current_signing_key: fresh,
            expired_keys: self.expired_keys.push(self.current_signing_key.expired_by(now)),
        }
    }
}

/// The most keys that are drawn for one rotation before an identifier that
/// is in use already is given up on.
pub const MAX_KEY_DRAWS: usize = 8;

/// The current signing key and the keys that were current before it.
pub struct KeyState {
    current_signing_key: SigningKey,
    expired_keys: Vec<SigningKey>,
}

impl View for KeyState {
    type V = KeyStateView;

    closed spec fn view(&self) -> KeyStateView {
        KeyStateView {
            current_signing_key: self.current_signing_key@,
            expired_keys: self.expired_keys@.map_values(|key: SigningKey| key@),
        }
    }
}

/// A rotation to a key with an unused identifier keeps every identifier
/// that resolved before resolving to the same key, puts the new key under
/// its own identifier, and leaves the new current key's identifier different
/// from that of every retired key.
pub proof fn lemma_rotation_keeps_keys(state: KeyStateView, fresh: SigningKeyView, now: i64)
    requires
        !state.holds_id(fresh.key_id),
    ensures
        keys_by_id(state.verifying_keys()).submap_of(
            keys_by_id(state.rotated(fresh, now).verifying_keys()),
        ),
        keys_by_id(state.rotated(fresh, now).verifying_keys()) == keys_by_id(
            state.verifying_keys(),
        ).insert(fresh.key_id, fresh.verifying_key()),
        forall|i: int|
            0 <= i < state.rotated(fresh, now).expired_keys.len() ==> {
                &&& (#[trigger] state.rotated(fresh, now).expired_keys[i]).key_id != fresh.key_id
                &&& keys_by_id(state.rotated(fresh, now).verifying_keys()).contains_key(
                    state.rotated(fresh, now).expired_keys[i].key_id,
                )
            },
{
    let before = state.verifying_keys();
    let after = state.rotated(fresh, now);
    let retired = state.expired_keys.map_values(|key: SigningKeyView| key.verifying_key());
    assert(state.current_signing_key.expired_by(now).verifying_key()
        == state.current_signing_key.verifying_key());
    assert(after.expired_keys.map_values(|key: SigningKeyView| key.verifying_key()) =~= before);
    assert(after.verifying_keys() == before.push(fresh.verifying_key()));
    lemma_keys_by_id_push(before, fresh.verifying_key());
    assert(!keys_by_id(before).contains_key(fresh.key_id)) by {
        if latest_with_id(before, fresh.key_id) is Some {
            lemma_latest_is_entry(before, fresh.key_id);
            let i = choose|i: int|
                0 <= i < before.len() && before[i] == latest_with_id(before, fresh.key_id)->0
                    && before[i].key_id == fresh.key_id;
            if i < retired.len() {
                assert(state.expired_keys[i].key_id == fresh.key_id);
            }
        }
    }
    assert forall|i: int| 0 <= i < after.expired_keys.len() implies {
        &&& (#[trigger] after.expired_keys[i]).key_id != fresh.key_id
        &&& keys_by_id(after.verifying_keys()).contains_key(after.expired_keys[i].key_id)
    } by {
        if i < state.expired_keys.len() {
            assert(after.expired_keys[i] == state.expired_keys[i]);
        }
        assert(before[i].key_id == after.expired_keys[i].key_id);
        lemma_entry_is_held(before, i);
    }
}

impl KeyState {
    /// A state with `initial` as the current key and no retired keys.
    pub fn new(initial: SigningKey) -> (state: KeyState)
        ensures
            state@ == (KeyStateView {
                current_signing_key: initial@,
                expired_keys: Seq::<SigningKeyView>::empty(),
            }),
    {
        let state = KeyState { current_signing_key: initial, expired_keys: Vec::new() };
        assert(state@.expired_keys =~= Seq::<SigningKeyView>::empty());
        state
    }

    /// A state read back from where it was kept.
    pub fn from_keys(current_signing_key: SigningKey, expired_keys: Vec<SigningKey>) -> (state:
        KeyState)
        ensures
            state@ == (KeyStateView {
                current_signing_key: current_signing_key@,
                expired_keys: expired_keys@.map_values(|key: SigningKey| key@),
            }),
    {
        KeyState { current_signing_key, expired_keys }
    }

    pub fn current_signing_key(&self) -> (key: SigningKey)
        ensures
            key@ == self@.current_signing_key,
    {
        self.current_signing_key
    }

    /// The retired keys, oldest first.
    pub fn expired_keys(&self) -> (keys: Vec<SigningKey>)
        ensures
            keys@.map_values(|key: SigningKey| key@) == self@.expired_keys,
    {
        let keys = self.expired_keys.clone();
        assert(keys@ =~= self.expired_keys@);
        keys
    }

    /// Whether some key of the state carries the identifier.
    pub fn holds_id(&self, key_id: u128) -> (held: bool)
        ensures
            held == self@.holds_id(key_id),
    {
        if self.current_signing_key.key_id() == key_id {
            return true;
        }
        let mut i: usize = 0;
        while i < self.expired_keys.len()
            invariant
                i <= self.expired_keys@.len(),
                forall|j: int| 0 <= j < i ==> (#[trigger] self@.expired_keys[j]).key_id != key_id,
            decreases self.expired_keys@.len() - i,
        {
            if self.expired_keys[i].key_id() == key_id {
                assert(self@.expired_keys[i as int].key_id == key_id);
                return true;
            }
            i = i + 1;
        }
        false
    }

    /// Rotates at the instant `now` to the key `fresh`. A key whose
    /// identifier is already held is refused, and the state stays as it was.
    pub fn rotate_with(&mut self, fresh: SigningKey, now: i64) -> (r: Result<
        (),
        SigningKeyRepositoryError,
    >)
        ensures
            old(self)@.holds_id(fresh@.key_id) ==> (r matches Err(
                SigningKeyRepositoryError::KeyIdInUse(key_id),
            ) && key_id == fresh@.key_id && final(self)@ == old(self)@),
            !old(self)@.holds_id(fresh@.key_id) ==> (r is Ok && final(self)@
                == old(self)@.rotated(fresh@, now)),
            keys_by_id(old(self)@.verifying_keys()).submap_of(
                keys_by_id(final(self)@.verifying_keys()),
            ),
            r is Ok ==> forall|i: int|
                0 <= i < final(self)@.expired_keys.len() ==> {
                    &&& (#[trigger] final(self)@.expired_keys[i]).key_id
                        != final(self)@.current_signing_key.key_id
                    &&& keys_by_id(final(self)@.verifying_keys()).contains_key(
                        final(self)@.expired_keys[i].key_id,
                    )
                },
    {
        if self.holds_id(fresh.key_id()) {
            return Err(SigningKeyRepositoryError::KeyIdInUse(fresh.key_id()));
        }
        proof {
            lemma_rotation_keeps_keys(self@, fresh@, now);
        }
        let mut retiring = self.current_signing_key;
        retiring.expire_at(now);
        self.expired_keys.push(retiring);
        self.current_signing_key = fresh;
        assert(self@.expired_keys =~= old(self)@.rotated(fresh@, now).expired_keys);
        Ok(())
    }

    /// Whether another key is drawn after `drawn` keys, the last of which
    /// carries the identifier `key_id`: it is, while that identifier is held
    /// and fewer than `MAX_KEY_DRAWS` keys have been drawn.
    pub fn draws_again(&self, key_id: u128, drawn: usize) -> (again: bool)
        ensures
            again == (drawn < MAX_KEY_DRAWS && self@.holds_id(key_id)),
    {
        drawn < MAX_KEY_DRAWS && self.holds_id(key_id)
    }

    /// A fresh key that signs from `now` on, for `lifetime` milliseconds. A
    /// key whose identifier is held already is drawn again, up to
    /// `MAX_KEY_DRAWS` keys in all; the last key drawn is the result.
    pub fn draw_fresh(&self, now: i64, lifetime: i64) -> (fresh: SigningKey)
        ensures
            fresh@.starts_at(now, lifetime),
    {
        let mut fresh = SigningKey::generate_from(now, lifetime);
        let mut drawn: usize = 1;
        while self.draws_again(fresh.key_id(), drawn)
            invariant
                fresh@.starts_at(now, lifetime),
                drawn <= MAX_KEY_DRAWS,
            decreases MAX_KEY_DRAWS - drawn,
        {
            fresh = SigningKey::generate_from(now, lifetime);
            drawn = drawn + 1;
        }
        fresh
    }

    /// The verifying keys of the retired keys, oldest first, and then that
    /// of the current key.
    pub fn to_verifying_keys(&self) -> (r: Result<Vec<VerifyingKey>, SigningKeyRepositoryError>)
        ensures
            r matches Ok(keys) && verifying_views(keys@) == self@.verifying_keys(),
    {
        let mut keys: Vec<VerifyingKey> = Vec::new();
        let mut i: usize = 0;
        while i < self.expired_keys.len()
            invariant
                i <= self.expired_keys@.len(),
                verifying_views(keys@) == self@.expired_keys.subrange(0, i as int).map_values(
                    |key: SigningKeyView| key.verifying_key(),
                ),
            decreases self.expired_keys@.len() - i,
        {
            let key = match self.expired_keys[i].verifying_key() {
                Ok(key) => key,
                Err(e) => {
                    return Err(SigningKeyRepositoryError::Custom(e));
                },
            };
            let ghost before = verifying_views(keys@);
            keys.push(key);
            i = i + 1;
            proof {
                let target = self@.expired_keys.subrange(0, i as int).map_values(
                    |key: SigningKeyView| key.verifying_key(),
                );
                let earlier = self@.expired_keys.subrange(0, i - 1).map_values(
                    |key: SigningKeyView| key.verifying_key(),
                );
                assert(before == earlier);
                assert(verifying_views(keys@).len() == target.len());
                assert forall|j: int| 0 <= j < target.len() implies verifying_views(keys@)[j]
                    == target[j] by {
                    if j < i - 1 {
                        assert(verifying_views(keys@)[j] == before[j]);
                        assert(earlier[j] == target[j]);
                    } else {
                        assert(self@.expired_keys[j] == self.expired_keys@[j]@);
                    }
                }
                assert(verifying_views(keys@) =~= target);
            }
        }
        assert(self@.expired_keys.subrange(0, i as int) =~= self@.expired_keys);
        let current = match self.current_signing_key.verifying_key() {
            Ok(key) => key,
            Err(e) => {
                return Err(SigningKeyRepositoryError::Custom(e));
            },
        };
        keys.push(current);
        assert(verifying_views(keys@) =~= self@.verifying_keys());
        Ok(keys)
    }
}

/// Owns the current signing key and every key that was current before it.
pub trait SigningKeyRepository {
    /// The verifying keys of the current key and of all retired keys. An
    /// implementation says what they are; of one that does not, nothing is
    /// known.
    open spec fn verifying_keys(&self) -> Map<u128, VerifyingKeyView> {
        arbitrary()
    }

    /// The identifier of the current signing key.
    open spec fn current_key_id(&self) -> u128 {
        arbitrary()
    }

    /// Whether the repository never fails but where a fresh key would carry
    /// an identifier that is in use already. An implementation of which that
    /// is true says so; of one that does not, it is not known.
    open spec fn dependable(&self) -> bool {
        false
    }

    /// The current signing key. A current key that is expired is rotated
    /// away first. Whatever happens, every key that resolved before the call
    /// resolves to the same key after it.
    fn get_current_signing_key(&mut self) -> (r: Result<SigningKey, SigningKeyRepositoryError>)
        ensures
            old(self).verifying_keys().submap_of(final(self).verifying_keys()),
            r matches Ok(key) ==> final(self).verifying_keys().contains_key(key@.key_id)
                && final(self).verifying_keys()[key@.key_id] == key@.verifying_key(),
            r matches Ok(key) ==> key@.key_id == final(self).current_key_id(),
            r is Err ==> final(self).current_key_id() == old(self).current_key_id(),
            r matches Err(e) ==> e is KeyIdInUse || !old(self).dependable(),
            final(self).dependable() == old(self).dependable(),
    ;

    /// Retires the current key now and makes a fresh key current.
    fn force_key_rotation(&mut self) -> (r: Result<(), SigningKeyRepositoryError>)
        ensures
            old(self).verifying_keys().submap_of(final(self).verifying_keys()),
            r is Err ==> final(self).current_key_id() == old(self).current_key_id(),
            r matches Err(e) ==> e is KeyIdInUse || !old(self).dependable(),
            final(self).dependable() == old(self).dependable(),
    ;

    /// A repository of the verifying keys of the current key and of all
    /// retired keys.
    fn verifying_key_repository(&self) -> (r: Result<
        InMemoryVerifyingKeyRepository,
        SigningKeyRepositoryError,
    >)
        ensures
            r matches Ok(repository) ==> repository.keys() == self.verifying_keys(),
            self.dependable() ==> r is Ok,
    ;
}

/// Signing keys held in memory.
pub struct InMemorySigningKeyRepository {
    keys: KeyState,
    key_lifetime: i64,
}

impl View for InMemorySigningKeyRepository {
    type V = KeyStateView;

    closed spec fn view(&self) -> KeyStateView {
        self.keys@
    }
}

impl InMemorySigningKeyRepository {
    /// A repository with a fresh current key; keys live for `key_lifetime`
    /// milliseconds.
    pub fn new(key_lifetime: i64) -> (repository: InMemorySigningKeyRepository)
        ensures
            repository@.expired_keys.len() == 0,
            repository@.current_signing_key.not_after_date == crate::crypto::instant_after(
                repository@.current_signing_key.created_at,
                key_lifetime,
            ),
            repository.key_lifetime() == key_lifetime,
    {
        let initial_key = SigningKey::generate(key_lifetime);
        InMemorySigningKeyRepository { keys: KeyState::new(initial_key), key_lifetime }
    }

    /// A repository over the given state.
    pub fn with_state(keys: KeyState, key_lifetime: i64) -> (repository:
        InMemorySigningKeyRepository)
        ensures
            repository@ == keys@,
            repository.key_lifetime() == key_lifetime,
    {
        InMemorySigningKeyRepository { keys, key_lifetime }
    }

    pub closed spec fn key_lifetime(&self) -> i64 {
        self.key_lifetime
    }

    pub fn get_expired_keys_count(&self) -> (count: usize)
        ensures
            count == self@.expired_keys.len(),
    {
        self.keys.expired_keys.len()
    }

    pub fn get_expired_key_ids(&self) -> (ids: Vec<u128>)
        ensures
            ids@ == self@.expired_keys.map_values(|key: SigningKeyView| key.key_id),
    {
        let mut ids: Vec<u128> = Vec::new();
        let mut i: usize = 0;
        while i < self.keys.expired_keys.len()
            invariant
                i <= self.keys.expired_keys@.len(),
                ids@ == self@.expired_keys.subrange(0, i as int).map_values(
                    |key: SigningKeyView| key.key_id,
                ),
            decreases self.keys.expired_keys@.len() - i,
        {
            ids.push(self.keys.expired_keys[i].key_id());
            i = i + 1;
            assert(ids@ =~= self@.expired_keys.subrange(0, i as int).map_values(
                |key: SigningKeyView| key.key_id,
            ));
        }
        assert(self@.expired_keys.subrange(0, i as int) =~= self@.expired_keys);
        ids
    }

    /// The state of the keys, as it would be kept.
    pub fn key_state(&self) -> (state: &KeyState)
        ensures
            state@ == self@,
    {
        &self.keys
    }

    /// The current signing key at the instant `now`, rotating to `fresh`
    /// first when the current key is expired at `now`.
    pub fn current_signing_key_at(&mut self, now: i64, fresh: SigningKey) -> (r: Result<
        SigningKey,
        SigningKeyRepositoryError,
    >)
        ensures
            final(self).key_lifetime() == old(self).key_lifetime(),
            old(self)@.answers_request(final(self)@, r, now, fresh@),
    {
        if self.keys.current_signing_key.is_expired_at(now) {
            match self.keys.rotate_with(fresh, now) {
                Ok(()) => Ok(self.keys.current_signing_key),
                Err(e) => Err(e),
            }
        } else {
            Ok(self.keys.current_signing_key)
        }
    }
}

impl SigningKeyRepository for InMemorySigningKeyRepository {
    open spec fn verifying_keys(&self) -> Map<u128, VerifyingKeyView> {
        keys_by_id(self@.verifying_keys())
    }

    open spec fn current_key_id(&self) -> u128 {
        self@.current_signing_key.key_id
    }

    open spec fn dependable(&self) -> bool {
        true
    }

    fn get_current_signing_key(&mut self) -> (r: Result<SigningKey, SigningKeyRepositoryError>)
        ensures
            final(self).key_lifetime() == old(self).key_lifetime(),
            r matches Ok(key) ==> key@ == final(self)@.current_signing_key,
            old(self)@.request_served(final(self)@, r, old(self).key_lifetime()),
    {
        let now = now_millis();
        if !self.keys.current_signing_key.is_expired_at(now) {
            // No rotation is due, so no key is made; any key would do as
            // the key at hand.
            let ghost spare = SigningKeyView {
                created_at: now,
                not_after_date: crate::crypto::instant_after(now, self.key_lifetime),
                ..self@.current_signing_key
            };
            proof {
                lemma_latest_found(
                    self@.verifying_keys(),
                    self@.current_signing_key.key_id,
                    self@.expired_keys.len() as int,
                );
            }
            let r = Ok(self.keys.current_signing_key);
            assert(old(self)@.answers_request(self@, r, now, spare));
            return r;
        }
        let fresh = self.keys.draw_fresh(now, self.key_lifetime);
        proof {
            if !self@.holds_id(fresh@.key_id) {
                lemma_rotation_keeps_keys(self@, fresh@, now);
            }
        }
        let r = self.current_signing_key_at(now, fresh);
        proof {
            if r is Ok {
                lemma_latest_found(
                    self@.verifying_keys(),
                    self@.current_signing_key.key_id,
                    self@.expired_keys.len() as int,
                );
            }
            assert(old(self)@.answers_request(self@, r, now, fresh@));
        }
        r
    }

    fn force_key_rotation(&mut self) -> (r: Result<(), SigningKeyRepositoryError>)
        ensures
            final(self).key_lifetime() == old(self).key_lifetime(),
            old(self)@.rotation_made(final(self)@, failure_of(r), old(self).key_lifetime()),
    {
        let now = now_millis();
        let fresh = self.keys.draw_fresh(now, self.key_lifetime);
        proof {
            if !self@.holds_id(fresh@.key_id) {
                lemma_rotation_keeps_keys(self@, fresh@, now);
            }
        }
        let r = self.keys.rotate_with(fresh, now);
        assert(old(self)@.answers_rotation(self@, failure_of(r), now, fresh@));
        r
    }

    fn verifying_key_repository(&self) -> (r: Result<
        InMemoryVerifyingKeyRepository,
        SigningKeyRepositoryError,
    >)
        ensures
            r matches Ok(repository) && repository@ == self@.verifying_keys(),
    {
        match self.keys.to_verifying_keys() {
            Ok(keys) => Ok(InMemoryVerifyingKeyRepository::new(keys)),
            Err(e) => Err(e),
        }
    }
}


/// Name of the directory, under the data directory, that holds the keys.
pub const KEYS_DIRECTORY: &'static str = "keys";

/// Name of the file that holds the signing keys. It is never read by
/// anyone but the signing key repository.
pub const SIGNING_KEYS_FILE: &'static str = "keys.json";

/// Name of the file that holds the verifying keys, which may be published.
pub const VERIFYING_KEYS_FILE: &'static str = "keys_verifying.json";

impl InMemoryVerifyingKeyRepository {
    /// Adds keys to the repository. A key that is added takes the place of
    /// a key with the same identifier.
    pub fn extend(&mut self, more: Vec<VerifyingKey>)
        ensures
            final(self)@ == old(self)@ + verifying_views(more@),
    {
        let mut more = more;
        let ghost added = more@;
        self.verifying_keys.append(&mut more);
        assert(self@ =~= old(self)@ + verifying_views(added));
    }
}

/// The signing keys that the key files hold, as they are held in memory
/// while the auditor runs. The files themselves are read and written by the
/// user of this type: after every call that leaves unsaved changes, both
/// files are to be written before the keys are used.
pub struct FileSigningKeyRepository {
    directory: String,
    keys: InMemorySigningKeyRepository,
    unsaved: bool,
}

impl View for FileSigningKeyRepository {
    type V = KeyStateView;

    closed spec fn view(&self) -> KeyStateView {
        self.keys@
    }
}

impl FileSigningKeyRepository {
    /// The directory that holds the key files.
    pub closed spec fn location(&self) -> Seq<char> {
        self.directory@
    }

    /// Whether the keys have changed since the files were last written.
    pub closed spec fn unsaved(&self) -> bool {
        self.unsaved
    }

    /// How long a key that the repository makes lives, in milliseconds.
    pub closed spec fn key_lifetime(&self) -> i64 {
        self.keys.key_lifetime()
    }

    /// The directory of the keys under a data directory.
    pub fn key_directory(data_directory: &str) -> (path: String)
        ensures
            path@ == data_directory@ + "/"@ + KEYS_DIRECTORY@,
    {
        let mut path = data_directory.to_owned();
        path.append("/");
        path.append(KEYS_DIRECTORY);
        path
    }

    /// The file of the signing keys in a key directory.
    pub fn signing_key_path(dir: &str) -> (path: String)
        ensures
            path@ == dir@ + "/"@ + SIGNING_KEYS_FILE@,
    {
        let mut path = dir.to_owned();
        path.append("/");
        path.append(SIGNING_KEYS_FILE);
        path
    }

    /// The file of the verifying keys in a key directory.
    pub fn verifying_key_path(dir: &str) -> (path: String)
        ensures
            path@ == dir@ + "/"@ + VERIFYING_KEYS_FILE@,
    {
        let mut path = dir.to_owned();
        path.append("/");
        path.append(VERIFYING_KEYS_FILE);
        path
    }

    /// The repository of a data directory that holds no keys yet, with a
    /// fresh current key. The key files are still to be written.
    pub fn new(data_directory: &str, key_lifetime: i64) -> (repository: FileSigningKeyRepository)
        ensures
            repository.location() == data_directory@ + "/"@ + KEYS_DIRECTORY@,
            repository@.expired_keys.len() == 0,
            repository.key_lifetime() == key_lifetime,
            repository.unsaved(),
    {
        FileSigningKeyRepository {
            directory: FileSigningKeyRepository::key_directory(data_directory),
            keys: InMemorySigningKeyRepository::new(key_lifetime),
            unsaved: true,
        }
    }

    /// The repository of a data directory whose signing key file held
    /// `state`. The key files are to be written again.
    pub fn with_state(data_directory: &str, state: KeyState, key_lifetime: i64) -> (repository:
        FileSigningKeyRepository)
        ensures
            repository.location() == data_directory@ + "/"@ + KEYS_DIRECTORY@,
            repository@ == state@,
            repository.key_lifetime() == key_lifetime,
            repository.unsaved(),
    {
        FileSigningKeyRepository {
            directory: FileSigningKeyRepository::key_directory(data_directory),
            keys: InMemorySigningKeyRepository::with_state(state, key_lifetime),
            unsaved: true,
        }
    }

    pub fn directory(&self) -> (directory: &String)
        ensures
            directory@ == self.location(),
    {
        &self.directory
    }

    /// The state of the keys, as the signing key file is to hold it.
    pub fn key_state(&self) -> (state: &KeyState)
        ensures
            state@ == self@,
    {
        self.keys.key_state()
    }

    /// Whether the key files have to be written again.
    pub fn has_unsaved_changes(&self) -> (unsaved: bool)
        ensures
            unsaved == self.unsaved(),
    {
        self.unsaved
    }

    /// Notes that the key files have been written.
    pub fn mark_saved(&mut self)
        ensures
            final(self)@ == old(self)@,
            final(self).location() == old(self).location(),
            final(self).key_lifetime() == old(self).key_lifetime(),
            !final(self).unsaved(),
    {
        self.unsaved = false;
    }

    /// Retires the current key now and makes a fresh key current, which is
    /// the result. The rotation is made as `KeyStateView::rotation_made`
    /// says, and a rotation that was made leaves the key files to be written.
    pub fn rotate_signing_key(&mut self) -> (r: Result<SigningKey, SigningKeyRepositoryError>)
        ensures
            final(self).location() == old(self).location(),
            final(self).key_lifetime() == old(self).key_lifetime(),
            old(self).verifying_keys().submap_of(final(self).verifying_keys()),
            old(self)@.rotation_made(final(self)@, failure_of(r), old(self).key_lifetime()),
            r matches Ok(key) ==> key@ == final(self)@.current_signing_key,
            final(self).unsaved() == (old(self).unsaved() || r is Ok),
    {
        match self.keys.force_key_rotation() {
            Ok(()) => {
                self.unsaved = true;
                Ok(self.keys.key_state().current_signing_key())
            },
            Err(e) => Err(e),
        }
    }
}

impl SigningKeyRepository for FileSigningKeyRepository {
    open spec fn verifying_keys(&self) -> Map<u128, VerifyingKeyView> {
        keys_by_id(self@.verifying_keys())
    }

    open spec fn current_key_id(&self) -> u128 {
        self@.current_signing_key.key_id
    }

    open spec fn dependable(&self) -> bool {
        true
    }

    fn get_current_signing_key(&mut self) -> (r: Result<SigningKey, SigningKeyRepositoryError>)
        ensures
            final(self).location() == old(self).location(),
            final(self).key_lifetime() == old(self).key_lifetime(),
            r matches Ok(key) ==> key@ == final(self)@.current_signing_key,
            old(self)@.request_served(final(self)@, r, old(self).key_lifetime()),
            final(self).unsaved() == (old(self).unsaved() || final(self)@ != old(self)@),
    {
        let ghost before = self.keys@;
        let expired_before = self.keys.get_expired_keys_count();
        let r = self.keys.get_current_signing_key();
        if self.keys.get_expired_keys_count() != expired_before {
            self.unsaved = true;
        }
        proof {
            if self.keys@ != before {
                assert(self.keys@.expired_keys.len() == before.expired_keys.len() + 1);
            }
        }
        r
    }

    fn force_key_rotation(&mut self) -> (r: Result<(), SigningKeyRepositoryError>)
        ensures
            final(self).location() == old(self).location(),
            final(self).key_lifetime() == old(self).key_lifetime(),
            old(self)@.rotation_made(final(self)@, failure_of(r), old(self).key_lifetime()),
            final(self).unsaved() == (old(self).unsaved() || r is Ok),
    {
        match self.rotate_signing_key() {
            Ok(_) => Ok(()),
            Err(e) => Err(e),
        }
    }

    fn verifying_key_repository(&self) -> (r: Result<
        InMemoryVerifyingKeyRepository,
        SigningKeyRepositoryError,
    >)
        ensures
            r matches Ok(repository) && repository@ == self@.verifying_keys(),
    {
        self.keys.verifying_key_repository()
    }
}

/// The signing key repositories that exist.
pub enum SigningKeyStorage {
    File(FileSigningKeyRepository),
    InMemory(InMemorySigningKeyRepository),
}

impl SigningKeyStorage {
    /// The keys that the repository holds.
    pub open spec fn key_state(&self) -> KeyStateView {
        match self {
            SigningKeyStorage::File(repo) => repo@,
            SigningKeyStorage::InMemory(repo) => repo@,
        }
    }

    /// How long a key that the repository makes lives, in milliseconds.
    pub open spec fn key_lifetime(&self) -> i64 {
        match self {
            SigningKeyStorage::File(repo) => repo.key_lifetime(),
            SigningKeyStorage::InMemory(repo) => repo.key_lifetime(),
        }
    }

    /// Whether the repository keeps its keys in files that have to be
    /// written again.
    pub open spec fn unsaved(&self) -> bool {
        match self {
            SigningKeyStorage::File(repo) => repo.unsaved(),
            SigningKeyStorage::InMemory(_) => false,
        }
    }
}

impl SigningKeyRepository for SigningKeyStorage {
    open spec fn verifying_keys(&self) -> Map<u128, VerifyingKeyView> {
        match self {
            SigningKeyStorage::File(repo) => repo.verifying_keys(),
            SigningKeyStorage::InMemory(repo) => repo.verifying_keys(),
        }
    }

    open spec fn current_key_id(&self) -> u128 {
        self.key_state().current_signing_key.key_id
    }

    open spec fn dependable(&self) -> bool {
        true
    }

    fn get_current_signing_key(&mut self) -> (r: Result<SigningKey, SigningKeyRepositoryError>)
        ensures
            (*old(self) is File) == (*final(self) is File),
            final(self).key_lifetime() == old(self).key_lifetime(),
            r matches Ok(key) ==> key@ == final(self).key_state().current_signing_key,
            old(self).key_state().request_served(
                final(self).key_state(),
                r,
                old(self).key_lifetime(),
            ),
            *old(self) is File ==> final(self).unsaved() == (old(self).unsaved() || final(self).key_state() != old(self).key_state()),
    {
        match self {
            SigningKeyStorage::File(repo) => repo.get_current_signing_key(),
            SigningKeyStorage::InMemory(repo) => repo.get_current_signing_key(),
        }
    }

    fn force_key_rotation(&mut self) -> (r: Result<(), SigningKeyRepositoryError>)
        ensures
            (*old(self) is File) == (*final(self) is File),
            final(self).key_lifetime() == old(self).key_lifetime(),
            old(self).key_state().rotation_made(
                final(self).key_state(),
                failure_of(r),
                old(self).key_lifetime(),
            ),
            *old(self) is File ==> final(self).unsaved() == (old(self).unsaved() || r is Ok),
    {
        match self {
            SigningKeyStorage::File(repo) => repo.force_key_rotation(),
            SigningKeyStorage::InMemory(repo) => repo.force_key_rotation(),
        }
    }

    fn verifying_key_repository(&self) -> (r: Result<
        InMemoryVerifyingKeyRepository,
        SigningKeyRepositoryError,
    >)
        ensures
            r matches Ok(repository) && repository@ == self.key_state().verifying_keys(),
    {
        match self {
            SigningKeyStorage::File(repo) => repo.verifying_key_repository(),
            SigningKeyStorage::InMemory(repo) => repo.verifying_key_repository(),
        }
    }
}

/// The verifying keys that the file of verifying keys holds, as far as
/// they have been read. The file itself is read by the user of this type,
/// who reads it again when a key is missed, so that keys made after the
/// last reading are found.
#[derive(Debug)]
pub struct FileVerifyingKeyRepository {
    path: String,
    verifying_keys: InMemoryVerifyingKeyRepository,
}

impl View for FileVerifyingKeyRepository {
    type V = Seq<VerifyingKeyView>;

    closed spec fn view(&self) -> Seq<VerifyingKeyView> {
        self.verifying_keys@
    }
}

impl FileVerifyingKeyRepository {
    /// Where the file of verifying keys is.
    pub closed spec fn location(&self) -> Seq<char> {
        self.path@
    }

    /// The repository of a file of which nothing has been read yet.
    pub fn new(path: String) -> (repository: FileVerifyingKeyRepository)
        ensures
            repository.location() == path@,
            repository@.len() == 0,
    {
        FileVerifyingKeyRepository {
            path,
            verifying_keys: InMemoryVerifyingKeyRepository::new(Vec::new()),
        }
    }

    pub fn path(&self) -> (path: &String)
        ensures
            path@ == self.location(),
    {
        &self.path
    }

    /// Takes in what has been read from the file. A key that is read takes
    /// the place of a key with the same identifier.
    pub fn populate_in_memory_map(&mut self, loaded: Vec<VerifyingKey>)
        ensures
            final(self).location() == old(self).location(),
            final(self)@ == old(self)@ + verifying_views(loaded@),
    {
        self.verifying_keys.extend(loaded);
    }

    /// The key held in memory under `key_id`, if there is one.
    pub fn get_verifying_key_from_memory(&self, key_id: u128) -> (r: Option<VerifyingKey>)
        ensures
            match r {
                Some(key) => self.keys().contains_key(key_id) && self.keys()[key_id] == key@,
                None => !self.keys().contains_key(key_id),
            },
    {
        match self.verifying_keys.get_verifying_key(key_id) {
            Ok(found) => found,
            Err(_) => None,
        }
    }

    /// Whether the file has to be read again before `key_id` can be said to
    /// be unknown: it has, when the key is not held in memory.
    pub fn needs_reload(&self, key_id: u128) -> (r: bool)
        ensures
            r == !self.keys().contains_key(key_id),
    {
        self.get_verifying_key_from_memory(key_id).is_none()
    }
}

impl VerifyingKeyRepository for FileVerifyingKeyRepository {
    open spec fn keys(&self) -> Map<u128, VerifyingKeyView> {
        keys_by_id(self@)
    }

    open spec fn dependable(&self) -> bool {
        true
    }

    fn get_verifying_key(&self, key_id: u128) -> (r: Result<
        Option<VerifyingKey>,
        VerifyingKeyRepositoryError,
    >)
        ensures
            r is Ok,
    {
        self.verifying_keys.get_verifying_key(key_id)
    }

    fn list_keys(&self) -> (r: Result<Vec<VerifyingKey>, VerifyingKeyRepositoryError>)
        ensures
            r is Ok,
    {
        self.verifying_keys.list_keys()
    }
}

/// The verifying key repositories that exist.
#[derive(Debug)]
pub enum VerifyingKeyStorage {
    File(FileVerifyingKeyRepository),
    InMemory(InMemoryVerifyingKeyRepository),
}

impl VerifyingKeyRepository for VerifyingKeyStorage {
    open spec fn keys(&self) -> Map<u128, VerifyingKeyView> {
        match self {
            VerifyingKeyStorage::File(repo) => repo.keys(),
            VerifyingKeyStorage::InMemory(repo) => repo.keys(),
        }
    }

    open spec fn dependable(&self) -> bool {
        true
    }

    fn get_verifying_key(&self, key_id: u128) -> (r: Result<
        Option<VerifyingKey>,
        VerifyingKeyRepositoryError,
    >)
        ensures
            r is Ok,
    {
        match self {
            VerifyingKeyStorage::File(repo) => repo.get_verifying_key(key_id),
            VerifyingKeyStorage::InMemory(repo) => repo.get_verifying_key(key_id),
        }
    }

    fn list_keys(&self) -> (r: Result<Vec<VerifyingKey>, VerifyingKeyRepositoryError>)
        ensures
            r is Ok,
    {
        match self {
            VerifyingKeyStorage::File(repo) => repo.list_keys(),
            VerifyingKeyStorage::InMemory(repo) => repo.list_keys(),
        }
    }
}

/// The identifiers that resolve are those of the current key and of the
/// retired keys, and no others; and what an identifier resolves to is a key
/// under that identifier.
pub proof fn lemma_held_ids_resolve(state: KeyStateView, key_id: u128)
    ensures
        keys_by_id(state.verifying_keys()).contains_key(key_id) <==> state.holds_id(key_id),
        state.holds_id(key_id) ==> keys_by_id(state.verifying_keys())[key_id].key_id == key_id,
        keys_by_id(state.verifying_keys()).contains_key(state.current_signing_key.key_id),
        keys_by_id(state.verifying_keys())[state.current_signing_key.key_id]
            == state.current_signing_key.verifying_key(),
{
    let keys = state.verifying_keys();
    lemma_latest_found(keys, state.current_signing_key.key_id, state.expired_keys.len() as int);
    if state.holds_id(key_id) {
        if state.current_signing_key.key_id != key_id {
            let i = choose|i: int|
                0 <= i < state.expired_keys.len() && (#[trigger] state.expired_keys[i]).key_id
                    == key_id;
            assert(keys[i].key_id == key_id);
            lemma_entry_is_held(keys, i);
        }
        lemma_latest_is_entry(keys, key_id);
    }
    if latest_with_id(keys, key_id) is Some {
        lemma_latest_is_entry(keys, key_id);
        let i = choose|i: int|
            0 <= i < keys.len() && keys[i] == latest_with_id(keys, key_id)->0 && keys[i].key_id
                == key_id;
        if i < state.expired_keys.len() {
            assert(state.expired_keys[i].key_id == key_id);
        }
    }
}

/// The error of a result, if it is one.
pub open spec fn failure_of<T>(r: Result<T, SigningKeyRepositoryError>) -> Option<
    SigningKeyRepositoryError,
> {
    match r {
        Ok(_) => None,
        Err(e) => Some(e),
    }
}

impl KeyStateView {
    /// Whether `after` and `failure` are what a rotation at `now` to the key
    /// `fresh` leaves: a key whose identifier is held already is refused and
    /// the state stays as it was; any other key becomes the current key.
    pub open spec fn answers_rotation(
        self,
        after: KeyStateView,
        failure: Option<SigningKeyRepositoryError>,
        now: i64,
        fresh: SigningKeyView,
    ) -> bool {
        if self.holds_id(fresh.key_id) {
            failure matches Some(SigningKeyRepositoryError::KeyIdInUse(key_id)) && key_id
                == fresh.key_id && after == self
        } else {
            after == self.rotated(fresh, now) && failure is None
        }
    }

    /// Whether `after` and `failure` are what a rotation leaves that is made
    /// at some instant, to a key that is made at that instant and lives for
    /// `lifetime` milliseconds.
    pub open spec fn rotation_made(
        self,
        after: KeyStateView,
        failure: Option<SigningKeyRepositoryError>,
        lifetime: i64,
    ) -> bool {
        exists|now: i64, fresh: SigningKeyView| #[trigger]
            self.answers_rotation(after, failure, now, fresh) && fresh.starts_at(now, lifetime)
    }

    /// Whether `after` and `r` are the answer to a request for the current
    /// key that is made at some instant, with a key at hand that is made at
    /// that instant and lives for `lifetime` milliseconds.
    pub open spec fn request_served(
        self,
        after: KeyStateView,
        r: Result<SigningKey, SigningKeyRepositoryError>,
        lifetime: i64,
    ) -> bool {
        exists|now: i64, fresh: SigningKeyView| #[trigger]
            self.answers_request(after, r, now, fresh) && fresh.starts_at(now, lifetime)
    }
}

} // verus!
