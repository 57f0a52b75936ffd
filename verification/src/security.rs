use vstd::prelude::*;
use vstd::seq_lib::group_to_multiset_ensures;

use crate::application::NetworkKeyPayload;
use crate::error::{CapacityExceeded, ErrorKind};
use crate::key::Key;

verus! {

/// Protection level of a security envelope: integrity only, encryption
/// only, or encryption with an integrity check of the given width.
#[derive(Clone, Copy, PartialEq, Eq, Structural, Debug)]
pub enum SecurityLevel {
    NoSecurity,
    Integrity32,
    Integrity64,
    Integrity128,
    Encrypted,
    EncryptedIntegrity32,
    EncryptedIntegrity64,
    EncryptedIntegrity128,
}

/// Which class of key a security envelope names. It never names a concrete
/// key: the engine decides which key to use by trying candidates.
#[derive(Clone, Copy, PartialEq, Eq, Structural, Debug)]
pub enum KeyIdentifier {
    Data,
    Network,
    KeyTransport,
    KeyLoad,
}

/// Parsed metadata of a security envelope. Produced by the frame codec and
/// rendered; the engine deliberately does not let the advertised `level`
/// pick the cipher mode (see `TrialQuery::level`).
#[derive(Clone, Copy, PartialEq, Debug)]
pub struct SecurityHeader {
    pub level: SecurityLevel,
    pub identifier: KeyIdentifier,
    pub source: Option<u64>,
    pub sequence: Option<u8>,
    pub counter: u32,
}

/// The well-known default pre-shared key that seeds every key store before
/// any network-specific key is known.
pub const DEFAULT_LINK_KEY: [u8; 16] = [
    0x5A,
    0x69,
    0x67,
    0x42,
    0x65,
    0x65,
    0x41,
    0x6C,
    0x6C,
    0x69,
    0x61,
    0x6E,
    0x63,
    0x65,
    0x30,
    0x39,
];

/// Most keys a store will hold. Insertion beyond this bound is rejected,
/// never silently dropped.
pub const KEY_STORE_CAPACITY: usize = 16;

/// Whether a store with these entries holds a key with these bytes.
pub open spec fn contains_key(keys: Seq<Key>, key: Key) -> bool {
    exists|i: int| 0 <= i < keys.len() && keys[i]@ == key@
}

/// The store's entries after an unconditional insertion: appended while
/// there is room, unchanged once the capacity is reached.
pub open spec fn add_spec(keys: Seq<Key>, key: Key) -> Seq<Key> {
    if keys.len() < KEY_STORE_CAPACITY {
        keys.push(key)
    } else {
        keys
    }
}

/// The store's entries after a key-learning observation: unchanged when an
/// identical key is already present, otherwise inserted as `add_spec`.
pub open spec fn learn_spec(keys: Seq<Key>, key: Key) -> Seq<Key> {
    if contains_key(keys, key) {
        keys
    } else {
        add_spec(keys, key)
    }
}

/// Result of one key-learning observation.
#[derive(Clone, Copy, PartialEq, Eq, Structural, Debug)]
pub enum LearnOutcome {
    /// The key was new and has been appended to the store.
    Added,
    /// An identical key was already present; the store is unchanged.
    AlreadyKnown,
    /// The key was new but the store is at capacity; the key is not
    /// retained and the store is unchanged.
    StoreFull,
}

/// The bounded, ordered store of candidate keys, together with the key
/// learning step that grows it. Created once at system start; the only
/// state that outlives a single frame.
pub struct SecurityService {
    pub keys: Vec<Key>,
}

impl SecurityService {
    /// A fresh store holding exactly the default pre-shared key.
    pub fn new() -> (r: SecurityService)
        ensures
            r.keys@.len() == 1,
            r.keys@[0]@ == DEFAULT_LINK_KEY@,
    {
        let mut keys: Vec<Key> = Vec::new();
        keys.push(Key::from_bytes(DEFAULT_LINK_KEY));
        SecurityService { keys }
    }

    /// Whether an identical key is already present.
    pub fn contains(&self, key: &Key) -> (r: bool)
        ensures
            r == contains_key(self.keys@, *key),
    {
        let mut i: usize = 0;
        while i < self.keys.len()
            invariant
                i <= self.keys@.len(),
                forall|j: int| 0 <= j < i ==> self.keys@[j]@ != key@,
            decreases self.keys@.len() - i,
        {
            if self.keys[i].same(key) {
                return true;
            }
            i += 1;
        }
        false
    }

    /// Append a key unconditionally (no de-duplication at this layer;
    /// callers decide). Fails once the capacity is reached, leaving the
    /// store unchanged.
    pub fn add_key(&mut self, key: Key) -> (r: Result<(), CapacityExceeded>)
        ensures
            final(self).keys@ == add_spec(old(self).keys@, key),
            r is Ok <==> old(self).keys@.len() < KEY_STORE_CAPACITY,
    {
        if self.keys.len() < KEY_STORE_CAPACITY {
            self.keys.push(key);
            Ok(())
        } else {
            Err(CapacityExceeded)
        }
    }

    /// Append a key given as its raw bytes; see `add_key`.
    pub fn add_key_bytes(&mut self, key: [u8; 16]) -> (r: Result<(), CapacityExceeded>)
        ensures
            final(self).keys@ == add_spec(old(self).keys@, Key { bytes: key }),
            r is Ok <==> old(self).keys@.len() < KEY_STORE_CAPACITY,
    {
        self.add_key(Key::from_bytes(key))
    }

    /// Key learning: fold an observed transported standard network key into
    /// the store. A byte-identical key is never inserted twice; a new key
    /// is appended unless the store is full, in which case the loss is
    /// reported rather than silent.
    pub fn add_transport_key(&mut self, new_key: &NetworkKeyPayload) -> (r: LearnOutcome)
        ensures
            final(self).keys@ == learn_spec(old(self).keys@, new_key.key),
            r is AlreadyKnown <==> contains_key(old(self).keys@, new_key.key),
            r is Added <==> (!contains_key(old(self).keys@, new_key.key) && old(self).keys@.len()
                < KEY_STORE_CAPACITY),
            r is StoreFull <==> (!contains_key(old(self).keys@, new_key.key) && old(
                self,
            ).keys@.len() >= KEY_STORE_CAPACITY),
    {
        if self.contains(&new_key.key) {
            return LearnOutcome::AlreadyKnown;
        }
        match self.add_key(new_key.key) {
            Ok(()) => LearnOutcome::Added,
            Err(CapacityExceeded) => LearnOutcome::StoreFull,
        }
    }
}

/// What the cipher backend reported for one candidate key: an authenticated
/// plaintext, or an authentication failure. A wrong key is an expected,
/// non-exceptional outcome.
#[derive(Clone, PartialEq, Eq, Debug)]
pub enum CipherOutcome {
    Plaintext(Vec<u8>),
    AuthFailure,
}

impl View for CipherOutcome {
    type V = Option<Seq<u8>>;

    open spec fn view(&self) -> Option<Seq<u8>> {
        match self {
            CipherOutcome::Plaintext(plaintext) => Some(plaintext@),
            CipherOutcome::AuthFailure => None,
        }
    }
}

/// Whether a cipher outcome ends the trial: only an authenticated,
/// non-empty plaintext does.
pub open spec fn accepts(outcome: Option<Seq<u8>>) -> bool {
    match outcome {
        Some(plaintext) => plaintext.len() > 0,
        None => false,
    }
}

/// Index of the first outcome that ends a trial, if any.
pub open spec fn first_accepting(outcomes: Seq<Option<Seq<u8>>>) -> Option<int>
    decreases outcomes.len(),
{
    if outcomes.len() == 0 {
        None
    } else if accepts(outcomes[0]) {
        Some(0 as int)
    } else {
        match first_accepting(outcomes.drop_first()) {
            Some(i) => Some(i + 1),
            None => None,
        }
    }
}

/// Ask the cipher backend to decrypt the trial's payload with this one
/// candidate key. The `level` is always the fixed
/// `SecurityLevel::EncryptedIntegrity32`: a forged or corrupted header must
/// not be allowed to downgrade the integrity check, so the advertised level
/// is deliberately not trusted.
#[derive(Clone, Copy, PartialEq, Debug)]
pub struct TrialQuery {
    pub key_index: usize,
    pub key: Key,
    pub level: SecurityLevel,
}

/// An in-progress trial decryption: candidate keys are tried in store
/// order, one cipher call at a time, until one authenticates with a
/// non-empty plaintext or the store is exhausted.
pub struct DecryptTrial {
    keys: Vec<Key>,
    payload: Vec<u8>,
    offset: usize,
    next_index: usize,
    history: Ghost<Seq<Option<Seq<u8>>>>,
}

/// What one cipher outcome did to a trial.
pub enum TrialStep {
    /// The outcome did not authenticate; try the next candidate key.
    Continue { trial: DecryptTrial, query: TrialQuery },
    /// The queried key authenticated: the plaintext and the index of the
    /// first key that authenticated, reported for diagnostics.
    Success { key_index: usize, plaintext: Vec<u8> },
    /// Every key in the store has been tried and none authenticated. No
    /// plaintext is exposed; the frame is undecipherable with current
    /// knowledge.
    Exhausted,
}

impl DecryptTrial {
    /// The candidate keys, in store order.
    pub closed spec fn spec_keys(self) -> Seq<Key> {
        self.keys@
    }

    /// The protected bytes under trial, security header included.
    pub closed spec fn spec_payload(self) -> Seq<u8> {
        self.payload@
    }

    /// Where the security envelope starts within the payload.
    pub closed spec fn spec_offset(self) -> int {
        self.offset as int
    }

    /// Index of the key the outstanding query asks the cipher to try.
    pub closed spec fn spec_next_index(self) -> int {
        self.next_index as int
    }

    /// The cipher outcomes seen so far, in key order.
    pub closed spec fn spec_history(self) -> Seq<Option<Seq<u8>>> {
        self.history@
    }

    /// A trial is well-formed while its outstanding query names a key in
    /// the store and no earlier outcome has authenticated.
    pub open spec fn wf(self) -> bool {
        &&& self.spec_next_index() < self.spec_keys().len()
        &&& self.spec_history().len() == self.spec_next_index()
        &&& forall|j: int|
            0 <= j < self.spec_history().len() ==> !accepts(self.spec_history()[j])
    }

    /// The protected bytes under trial, for handing to the cipher backend.
    pub fn payload(&self) -> (r: &Vec<u8>)
        ensures
            r@ == self.spec_payload(),
    {
        &self.payload
    }

    /// Where the security envelope starts within the payload.
    pub fn offset(&self) -> (r: usize)
        ensures
            r as int == self.spec_offset(),
    {
        self.offset
    }

    /// Advance the trial with the cipher backend's outcome for the key the
    /// outstanding query named.
    pub fn feed(self, outcome: CipherOutcome) -> (r: TrialStep)
        requires
            self.wf(),
        ensures
            ({
                let outcomes = self.spec_history().push(outcome@);
                match r {
                    TrialStep::Success { key_index, plaintext } => {
                        &&& accepts(outcome@)
                        &&& outcome@ == Some(plaintext@)
                        &&& key_index as int == self.spec_next_index()
                        &&& first_accepting(outcomes) == Some(key_index as int)
                    },
                    TrialStep::Continue { trial, query } => {
                        &&& !accepts(outcome@)
                        &&& self.spec_next_index() + 1 < self.spec_keys().len()
                        &&& trial.wf()
                        &&& trial.spec_keys() == self.spec_keys()
                        &&& trial.spec_payload() == self.spec_payload()
                        &&& trial.spec_offset() == self.spec_offset()
                        &&& trial.spec_next_index() == self.spec_next_index() + 1
                        &&& trial.spec_history() == outcomes
                        &&& query.key_index as int == trial.spec_next_index()
                        &&& query.key@ == self.spec_keys()[trial.spec_next_index()]@
                        &&& query.level is EncryptedIntegrity32
                    },
                    TrialStep::Exhausted => {
                        &&& !accepts(outcome@)
                        &&& self.spec_next_index() + 1 == self.spec_keys().len()
                        &&& outcomes.len() == self.spec_keys().len()
                        &&& first_accepting(outcomes) is None
                    },
                }
            }),
    {
        let ghost outcomes = self.history@.push(outcome@);
        proof {
            assert(outcomes.drop_last() =~= self.history@);
            assert(outcomes.last() == outcome@);
        }
        match outcome {
            CipherOutcome::Plaintext(plaintext) => {
                if plaintext.len() > 0 {
                    proof {
                        assert forall|j: int| 0 <= j < self.spec_next_index() implies !accepts(
                            outcomes[j],
                        ) by {
                            assert(outcomes[j] == self.spec_history()[j]);
                        }
                        lemma_first_accepting_at(outcomes, self.next_index as int);
                    }
                    TrialStep::Success { key_index: self.next_index, plaintext }
                } else {
                    self.miss(Ghost(outcomes))
                }
            },
            CipherOutcome::AuthFailure => self.miss(Ghost(outcomes)),
        }
    }

    /// The queried key did not authenticate: move to the next candidate,
    /// or end the trial with nothing exposed.
    fn miss(self, Ghost(outcomes): Ghost<Seq<Option<Seq<u8>>>>) -> (r: TrialStep)
        requires
            self.wf(),
            outcomes.len() == self.spec_history().len() + 1,
            self.spec_history() == outcomes.drop_last(),
            !accepts(outcomes.last()),
        ensures
            match r {
                TrialStep::Continue { trial, query } => {
                    &&& self.spec_next_index() + 1 < self.spec_keys().len()
                    &&& trial.wf()
                    &&& trial.spec_keys() == self.spec_keys()
                    &&& trial.spec_payload() == self.spec_payload()
                    &&& trial.spec_offset() == self.spec_offset()
                    &&& trial.spec_next_index() == self.spec_next_index() + 1
                    &&& trial.spec_history() == outcomes
                    &&& query.key_index as int == trial.spec_next_index()
                    &&& query.key@ == self.spec_keys()[trial.spec_next_index()]@
                    &&& query.level is EncryptedIntegrity32
                },
                TrialStep::Exhausted => {
                    &&& self.spec_next_index() + 1 == self.spec_keys().len()
                    &&& outcomes.len() == self.spec_keys().len()
                    &&& first_accepting(outcomes) is None
                },
                TrialStep::Success { .. } => false,
            },
    {
        let DecryptTrial { keys, payload, offset, next_index, history: _ } = self;
        let count = keys.len();
        if next_index + 1 < count {
            let key = keys[next_index + 1];
            let query = TrialQuery {
                key_index: next_index + 1,
                key,
                level: SecurityLevel::EncryptedIntegrity32,
            };
            let trial = DecryptTrial {
                keys,
                payload,
                offset,
                next_index: next_index + 1,
                history: Ghost(outcomes),
            };
            proof {
                assert forall|j: int| 0 <= j < outcomes.len() implies !accepts(
                    outcomes[j],
                ) by {
                    if j < outcomes.len() - 1 {
                        assert(outcomes[j] == outcomes.drop_last()[j]);
                    }
                }
            }
            TrialStep::Continue { trial, query }
        } else {
            proof {
                assert forall|j: int| 0 <= j < outcomes.len() implies !accepts(
                    outcomes[j],
                ) by {
                    if j < outcomes.len() - 1 {
                        assert(outcomes[j] == outcomes.drop_last()[j]);
                    }
                }
                lemma_first_accepting_none(outcomes);
            }
            TrialStep::Exhausted
        }
    }
}

/// How a trial decryption begins, given the codec's parse of the security
/// envelope's metadata.
pub enum DecryptStart {
    /// The envelope metadata failed to parse: decryption is not attempted
    /// at all, reported apart from "no key matched".
    HeaderMalformed { error: ErrorKind },
    /// The store holds no candidate keys at all.
    Exhausted { header: SecurityHeader },
    /// Try candidate keys in store order, starting with `query`.
    Trial { header: SecurityHeader, trial: DecryptTrial, query: TrialQuery },
}

impl SecurityService {
    /// Begin the trial decryption of a protected segment: `payload` holds
    /// the whole layer with the security envelope starting at `offset`,
    /// and `header` is the frame codec's parse of that envelope. The store
    /// itself is never changed by decryption; learning is a separate,
    /// explicit step.
    pub fn decrypt(&self, payload: Vec<u8>, offset: usize, header: Result<
        SecurityHeader,
        ErrorKind,
    >) -> (r: DecryptStart)
        ensures
            match r {
                DecryptStart::HeaderMalformed { error } => header == Err::<
                    SecurityHeader,
                    ErrorKind,
                >(error),
                DecryptStart::Exhausted { header: h } => {
                    &&& header == Ok::<SecurityHeader, ErrorKind>(h)
                    &&& self.keys@.len() == 0
                },
                DecryptStart::Trial { header: h, trial, query } => {
                    &&& header == Ok::<SecurityHeader, ErrorKind>(h)
                    &&& self.keys@.len() > 0
                    &&& trial.wf()
                    &&& trial.spec_keys() == self.keys@
                    &&& trial.spec_payload() == payload@
                    &&& trial.spec_offset() == offset as int
                    &&& trial.spec_next_index() == 0
                    &&& trial.spec_history() == Seq::<Option<Seq<u8>>>::empty()
                    &&& query.key_index == 0
                    &&& query.key@ == self.keys@[0]@
                    &&& query.level is EncryptedIntegrity32
                },
            },
    {
        let parsed = match header {
            Ok(h) => h,
            Err(error) => {
                return DecryptStart::HeaderMalformed { error };
            },
        };
        if self.keys.len() == 0 {
            return DecryptStart::Exhausted { header: parsed };
        }
        let key = self.keys[0];
        let query = TrialQuery { key_index: 0, key, level: SecurityLevel::EncryptedIntegrity32 };
        let trial = DecryptTrial {
            keys: copy_keys(&self.keys),
            payload,
            offset,
            next_index: 0,
            history: Ghost(Seq::empty()),
        };
        DecryptStart::Trial { header: parsed, trial, query }
    }
}

/// Element-wise copy of the candidate keys for a trial's own use.
fn copy_keys(keys: &Vec<Key>) -> (r: Vec<Key>)
    ensures
        r@ == keys@,
{
    let mut r: Vec<Key> = Vec::new();
    let mut i: usize = 0;
    while i < keys.len()
        invariant
            i <= keys@.len(),
            r@ == keys@.subrange(0, i as int),
        decreases keys@.len() - i,
    {
        r.push(keys[i]);
        i += 1;
    }
    proof {
        assert(r@ =~= keys@);
    }
    r
}

/// A trial ends at the first outcome that authenticates with a non-empty
/// plaintext: if any outcome is chosen, it is in range, it authenticates,
/// and every outcome before it failed to.
pub proof fn lemma_trial_order(outcomes: Seq<Option<Seq<u8>>>)
    ensures
        match first_accepting(outcomes) {
            Some(i) => {
                &&& 0 <= i < outcomes.len()
                &&& accepts(outcomes[i])
                &&& forall|j: int| 0 <= j < i ==> !accepts(outcomes[j])
            },
            None => forall|j: int| 0 <= j < outcomes.len() ==> !accepts(outcomes[j]),
        },
    decreases outcomes.len(),
{
    if outcomes.len() == 0 {
    } else if accepts(outcomes[0]) {
    } else {
        let rest = outcomes.drop_first();
        lemma_trial_order(rest);
        match first_accepting(rest) {
            Some(i) => {
                assert(outcomes[i + 1] == rest[i]);
                assert forall|j: int| 0 <= j < i + 1 implies !accepts(outcomes[j]) by {
                    if j > 0 {
                        assert(outcomes[j] == rest[j - 1]);
                    }
                }
            },
            None => {
                assert forall|j: int| 0 <= j < outcomes.len() implies !accepts(outcomes[j]) by {
                    if j > 0 {
                        assert(outcomes[j] == rest[j - 1]);
                    }
                }
            },
        }
    }
}

/// The index of an authenticating outcome preceded only by failures is the
/// one the trial reports.
pub proof fn lemma_first_accepting_at(outcomes: Seq<Option<Seq<u8>>>, i: int)
    requires
        0 <= i < outcomes.len(),
        accepts(outcomes[i]),
        forall|j: int| 0 <= j < i ==> !accepts(outcomes[j]),
    ensures
        first_accepting(outcomes) == Some(i),
    decreases outcomes.len(),
{
    if i == 0 {
    } else {
        assert forall|j: int| 0 <= j < i - 1 implies !accepts(outcomes.drop_first()[j]) by {
            assert(outcomes.drop_first()[j] == outcomes[j + 1]);
        }
        assert(outcomes.drop_first()[i - 1] == outcomes[i]);
        lemma_first_accepting_at(outcomes.drop_first(), i - 1);
    }
}

/// Fail-closed: when no outcome authenticates, the trial chooses nothing,
/// so no plaintext is ever exposed downstream.
pub proof fn lemma_first_accepting_none(outcomes: Seq<Option<Seq<u8>>>)
    requires
        forall|j: int| 0 <= j < outcomes.len() ==> !accepts(outcomes[j]),
    ensures
        first_accepting(outcomes) is None,
    decreases outcomes.len(),
{
    if outcomes.len() == 0 {
    } else {
        assert forall|j: int| 0 <= j < outcomes.len() - 1 implies !accepts(
            outcomes.drop_first()[j],
        ) by {
            assert(outcomes.drop_first()[j] == outcomes[j + 1]);
        }
        lemma_first_accepting_none(outcomes.drop_first());
    }
}

/// Whether each cipher outcome agrees with a per-key authentication
/// predicate: the cipher's verdict depends only on the key being tried.
pub open spec fn outcomes_follow(
    keys: Seq<Key>,
    outcomes: Seq<Option<Seq<u8>>>,
    authenticates: spec_fn(Seq<u8>) -> bool,
) -> bool {
    &&& outcomes.len() == keys.len()
    &&& forall|i: int|
        0 <= i < keys.len() ==> accepts(#[trigger] outcomes[i]) == authenticates(keys[i]@)
}

/// A trial against outcomes that follow a per-key authentication predicate
/// succeeds exactly when some key in the store authenticates.
pub proof fn lemma_success_iff_key_accepted(
    keys: Seq<Key>,
    outcomes: Seq<Option<Seq<u8>>>,
    authenticates: spec_fn(Seq<u8>) -> bool,
)
    requires
        outcomes_follow(keys, outcomes, authenticates),
    ensures
        (first_accepting(outcomes) is Some) <==> (exists|i: int|
            0 <= i < keys.len() && authenticates(#[trigger] keys[i]@)),
{
    lemma_trial_order(outcomes);
    match first_accepting(outcomes) {
        Some(i) => {
            assert(authenticates(keys[i]@));
        },
        None => {
            if exists|i: int| 0 <= i < keys.len() && authenticates(#[trigger] keys[i]@) {
                let i = choose|i: int| 0 <= i < keys.len() && authenticates(#[trigger] keys[i]@);
                assert(accepts(outcomes[i]));
            }
        },
    }
}

/// Reordering the store's insertions changes which index is reported on
/// success but never whether decryption succeeds: success only depends on
/// which keys are present, given that the cipher's verdict depends only on
/// the key being tried.
pub proof fn lemma_success_independent_of_order(
    keys1: Seq<Key>,
    keys2: Seq<Key>,
    authenticates: spec_fn(Seq<u8>) -> bool,
)
    requires
        keys1.to_multiset() == keys2.to_multiset(),
    ensures
        (exists|i: int| 0 <= i < keys1.len() && authenticates(#[trigger] keys1[i]@)) <==> (
        exists|i: int| 0 <= i < keys2.len() && authenticates(#[trigger] keys2[i]@)),
{
    broadcast use group_to_multiset_ensures;

    if exists|i: int| 0 <= i < keys1.len() && authenticates(#[trigger] keys1[i]@) {
        let i = choose|i: int| 0 <= i < keys1.len() && authenticates(#[trigger] keys1[i]@);
        assert(keys1.contains(keys1[i]));
        assert(keys2.to_multiset().count(keys1[i]) > 0);
        assert(keys2.contains(keys1[i]));
        let j = choose|j: int| 0 <= j < keys2.len() && keys2[j] == keys1[i];
        assert(authenticates(keys2[j]@));
    }
    if exists|i: int| 0 <= i < keys2.len() && authenticates(#[trigger] keys2[i]@) {
        let i = choose|i: int| 0 <= i < keys2.len() && authenticates(#[trigger] keys2[i]@);
        assert(keys2.contains(keys2[i]));
        assert(keys1.to_multiset().count(keys2[i]) > 0);
        assert(keys1.contains(keys2[i]));
        let j = choose|j: int| 0 <= j < keys1.len() && keys1[j] == keys2[i];
        assert(authenticates(keys1[j]@));
    }
}

/// Learning is idempotent: observing byte-identical key material a second
/// time changes nothing.
pub proof fn lemma_learning_idempotent(keys: Seq<Key>, key: Key)
    ensures
        learn_spec(learn_spec(keys, key), key) == learn_spec(keys, key),
{
    if !contains_key(keys, key) && keys.len() < KEY_STORE_CAPACITY {
        assert(learn_spec(keys, key) == keys.push(key));
        assert(keys.push(key)[keys.len() as int]@ == key@);
        assert(contains_key(keys.push(key), key));
    }
}

/// The store size after any number of duplicate observations equals the
/// size after one.
pub open spec fn learn_repeatedly(keys: Seq<Key>, key: Key, n: nat) -> Seq<Key>
    decreases n,
{
    if n == 0 {
        keys
    } else {
        learn_spec(learn_repeatedly(keys, key, (n - 1) as nat), key)
    }
}

/// Observing the same key material N times leaves the store exactly as one
/// observation does.
pub proof fn lemma_learning_stable(keys: Seq<Key>, key: Key, n: nat)
    requires
        n >= 1,
    ensures
        learn_repeatedly(keys, key, n) == learn_spec(keys, key),
    decreases n,
{
    if n == 1 {
        assert(learn_repeatedly(keys, key, 0) == keys);
        assert(learn_repeatedly(keys, key, 1) == learn_spec(keys, key));
    } else {
        lemma_learning_stable(keys, key, (n - 1) as nat);
        assert(learn_repeatedly(keys, key, n) == learn_spec(learn_repeatedly(keys, key, (n
            - 1) as nat), key));
        lemma_learning_idempotent(keys, key);
    }
}

/// Capacity bound: inserting a key never grows a store beyond its capacity
/// and never disturbs the entries already present.
pub proof fn lemma_capacity_bound(keys: Seq<Key>, key: Key)
    requires
        keys.len() <= KEY_STORE_CAPACITY,
    ensures
        add_spec(keys, key).len() <= KEY_STORE_CAPACITY,
        learn_spec(keys, key).len() <= KEY_STORE_CAPACITY,
        forall|i: int| 0 <= i < keys.len() ==> add_spec(keys, key)[i] == keys[i],
        forall|i: int| 0 <= i < keys.len() ==> learn_spec(keys, key)[i] == keys[i],
{
}

} // verus!
