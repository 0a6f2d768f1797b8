//! The in-memory ledger entry of one account: balance, nonce, code identity,
//! storage slots and status flags.
use crate::bytecode::{
    empty_code_view, keccak_code_hash_of, logical_code, logical_len, slow_hash, Bytecode,
};
use crate::digest::{
    empty_code_hash, empty_code_hash_of, keccak_empty, keccak_empty_bytes, CodeHashScheme,
};
use crate::word::{B256, U256};
use vstd::prelude::*;

verus! {

/// Set when the account was created in this transaction.
pub const CREATED: u8 = 0b0000_0001;
/// Set when the account is marked for self destruction.
pub const SELF_DESTRUCTED: u8 = 0b0000_0010;
/// Set when the account was touched and so must be saved.
pub const TOUCHED: u8 = 0b0000_0100;
/// Set when the account was loaded as absent (rules before state clearing).
pub const LOADED_AS_NOT_EXISTING: u8 = 0b0000_1000;
/// Set while the account has not been accessed in this transaction.
pub const COLD: u8 = 0b0001_0000;

/// The five status flags; each is one bit.
pub open spec fn is_flag(f: u8) -> bool {
    f == CREATED || f == SELF_DESTRUCTED || f == TOUCHED || f == LOADED_AS_NOT_EXISTING || f == COLD
}

/// All bits of `flags` are set in `bits`.
pub open spec fn has_flags(bits: u8, flags: u8) -> bool {
    bits & flags == flags
}

/// Account status: independent flags held as bits. No bits set means loaded.
#[derive(Clone, Copy, Debug, PartialEq, Eq, Structural, Hash)]
pub struct AccountStatus {
    bits: u8,
}

impl View for AccountStatus {
    type V = u8;

    closed spec fn view(&self) -> u8 {
        self.bits
    }
}

impl AccountStatus {
    /// No flag set: the account was loaded and nothing more.
    pub fn loaded() -> (r: AccountStatus)
        ensures
            r@ == 0,
    {
        AccountStatus { bits: 0 }
    }

    pub fn created() -> (r: AccountStatus)
        ensures
            r@ == CREATED,
    {
        AccountStatus { bits: CREATED }
    }

    pub fn self_destructed() -> (r: AccountStatus)
        ensures
            r@ == SELF_DESTRUCTED,
    {
        AccountStatus { bits: SELF_DESTRUCTED }
    }

    pub fn touched() -> (r: AccountStatus)
        ensures
            r@ == TOUCHED,
    {
        AccountStatus { bits: TOUCHED }
    }

    pub fn loaded_as_not_existing() -> (r: AccountStatus)
        ensures
            r@ == LOADED_AS_NOT_EXISTING,
    {
        AccountStatus { bits: LOADED_AS_NOT_EXISTING }
    }

    pub fn cold() -> (r: AccountStatus)
        ensures
            r@ == COLD,
    {
        AccountStatus { bits: COLD }
    }

    pub fn bits(&self) -> (r: u8)
        ensures
            r == self@,
    {
        self.bits
    }

    /// Whether every flag of `other` is set here.
    pub fn contains(&self, other: AccountStatus) -> (r: bool)
        ensures
            r == has_flags(self@, other@),
    {
        self.bits & other.bits == other.bits
    }

    /// Sets the flags of `other`.
    pub fn insert(&mut self, other: AccountStatus)
        ensures
            final(self)@ == old(self)@ | other@,
    {
        self.bits = self.bits | other.bits;
    }

    /// Clears the flags of `other`.
    pub fn remove(&mut self, other: AccountStatus)
        ensures
            final(self)@ == old(self)@ & !other@,
    {
        self.bits = self.bits & !other.bits;
    }
}

impl Default for AccountStatus {
    fn default() -> (r: AccountStatus)
        ensures
            r@ == 0,
    {
        AccountStatus::loaded()
    }
}

/// Setting or clearing one flag decides that flag and leaves every other flag
/// as it was.
pub proof fn lemma_flags_independent(s: u8, f: u8, g: u8)
    requires
        is_flag(f),
        is_flag(g),
        f != g,
    ensures
        has_flags(s | f, f),
        !has_flags(s & !f, f),
        has_flags(s | f, g) == has_flags(s, g),
        has_flags(s & !f, g) == has_flags(s, g),
{
    assert((s | f) & f == f && (s & !f) & f != f && ((s | f) & g == g) == (s & g == g) && ((s & !f) & g
        == g) == (s & g == g)) by (bit_vector)
        requires
            f == 1u8 || f == 2u8 || f == 4u8 || f == 8u8 || f == 16u8,
            g == 1u8 || g == 2u8 || g == 4u8 || g == 8u8 || g == 16u8,
            f != g,
    ;
}

/// Warming a cold account reports that it was cold and clears the flag;
/// warming it again reports that it is not cold and changes nothing.
pub proof fn lemma_mark_warm_twice(s: u8)
    ensures
        has_flags(s | COLD, COLD),
        !has_flags((s | COLD) & !COLD, COLD),
        ((s | COLD) & !COLD) & !COLD == (s | COLD) & !COLD,
{
    assert(has_flags(s | COLD, COLD) && !has_flags((s | COLD) & !COLD, COLD) && ((s | COLD) & !COLD) & !COLD == (s
        | COLD) & !COLD) by (bit_vector);
}

/// The value of one storage slot.
#[derive(Clone, Copy, Debug, PartialEq, Eq, Structural, Hash, Default)]
pub struct EvmStorageSlot {
    /// Value at the start of the transaction.
    pub original_value: U256,
    /// Value now.
    pub present_value: U256,
    /// The slot has not been accessed in this transaction.
    pub is_cold: bool,
}

impl EvmStorageSlot {
    /// An unchanged slot holding `original`.
    pub fn new(original: U256) -> (r: EvmStorageSlot)
        ensures
            r == (EvmStorageSlot { original_value: original, present_value: original, is_cold: false }),
    {
        EvmStorageSlot { original_value: original, present_value: original, is_cold: false }
    }

    /// A slot whose value went from `original_value` to `present_value`.
    pub fn new_changed(original_value: U256, present_value: U256) -> (r: EvmStorageSlot)
        ensures
            r == (EvmStorageSlot { original_value, present_value, is_cold: false }),
    {
        EvmStorageSlot { original_value, present_value, is_cold: false }
    }

    pub open spec fn spec_is_changed(self) -> bool {
        self.original_value != self.present_value
    }

    /// Whether the present value differs from the original one.
    pub fn is_changed(&self) -> (r: bool)
        ensures
            r == self.spec_is_changed(),
    {
        self.original_value != self.present_value
    }

    pub fn original_value(&self) -> (r: U256)
        ensures
            r == self.original_value,
    {
        self.original_value
    }

    pub fn present_value(&self) -> (r: U256)
        ensures
            r == self.present_value,
    {
        self.present_value
    }

    pub fn mark_cold(&mut self)
        ensures
            *final(self) == (EvmStorageSlot { is_cold: true, ..*old(self) }),
    {
        self.is_cold = true;
    }

    /// Marks the slot warm and returns whether it was cold.
    pub fn mark_warm(&mut self) -> (r: bool)
        ensures
            r == old(self).is_cold,
            *final(self) == (EvmStorageSlot { is_cold: false, ..*old(self) }),
    {
        let was_cold = self.is_cold;
        self.is_cold = false;
        was_cold
    }
}

/// Whether an entry's slot changed.
pub open spec fn slot_changed() -> spec_fn((U256, EvmStorageSlot)) -> bool {
    |e: (U256, EvmStorageSlot)| e.1.spec_is_changed()
}

/// Keys occur at most once.
pub open spec fn keys_unique(entries: Seq<(U256, EvmStorageSlot)>) -> bool {
    forall|i: int, j: int|
        0 <= i < entries.len() && 0 <= j < entries.len() && i != j ==> (#[trigger] entries[i]).0
            != (#[trigger] entries[j]).0
}

/// The storage of one account: slots by key, each key at most once, in no
/// particular order.
#[derive(Debug)]
pub struct EvmStorage {
    entries: Vec<(U256, EvmStorageSlot)>,
}

impl View for EvmStorage {
    type V = Seq<(U256, EvmStorageSlot)>;

    closed spec fn view(&self) -> Seq<(U256, EvmStorageSlot)> {
        self.entries@
    }
}

impl EvmStorage {
    #[verifier::type_invariant]
    spec fn inv(&self) -> bool {
        keys_unique(self.entries@)
    }

    pub fn new() -> (r: EvmStorage)
        ensures
            r@ == Seq::<(U256, EvmStorageSlot)>::empty(),
    {
        EvmStorage { entries: Vec::new() }
    }

    pub fn len(&self) -> (r: usize)
        ensures
            r == self@.len(),
    {
        self.entries.len()
    }

    /// The slot stored under `key`.
    pub fn get(&self, key: U256) -> (r: Option<EvmStorageSlot>)
        ensures
            r matches Some(slot) ==> exists|i: int| 0 <= i < self@.len() && self@[i] == (key, slot),
            r is None ==> forall|i: int| 0 <= i < self@.len() ==> (#[trigger] self@[i]).0 != key,
    {
        let mut i: usize = 0;
        while i < self.entries.len()
            invariant
                i <= self.entries@.len(),
                forall|j: int| 0 <= j < i ==> (#[trigger] self.entries@[j]).0 != key,
            decreases self.entries@.len() - i,
        {
            if self.entries[i].0 == key {
                let slot = self.entries[i].1;
                assert(self@[i as int] == (key, slot));
                return Some(slot);
            }
            i = i + 1;
        }
        None
    }

    /// Stores `slot` under `key`, replacing the slot held there before.
    pub fn insert(&mut self, key: U256, slot: EvmStorageSlot)
        ensures
            (exists|i: int| 0 <= i < old(self)@.len() && old(self)@[i].0 == key) ==> exists|i: int|
                0 <= i < old(self)@.len() && old(self)@[i].0 == key && final(self)@ == old(self)@.update(
                    i,
                    (key, slot),
                ),
            (forall|i: int| 0 <= i < old(self)@.len() ==> (#[trigger] old(self)@[i]).0 != key)
                ==> final(self)@ == old(self)@.push((key, slot)),
    {
        proof {
            use_type_invariant(&*self);
        }
        let ghost before = self.entries@;
        let ghost mut pos: int = -1;
        let mut entries: Vec<(U256, EvmStorageSlot)> = Vec::new();
        let mut found: bool = false;
        let mut i: usize = 0;
        while i < self.entries.len()
            invariant
                i <= before.len(),
                self.entries@ == before,
                keys_unique(before),
                found ==> 0 <= pos < i && before[pos].0 == key && entries@ == before.subrange(
                    0,
                    i as int,
                ).update(pos, (key, slot)),
                !found ==> entries@ == before.subrange(0, i as int) && forall|j: int|
                    0 <= j < i ==> (#[trigger] before[j]).0 != key,
            decreases before.len() - i,
        {
            let e = self.entries[i];
            if e.0 == key {
                proof {
                    if found {
                        assert(before[pos].0 != before[i as int].0);
                    }
                }
                entries.push((key, slot));
                proof {
                    pos = i as int;
                    assert(entries@ =~= before.subrange(0, i + 1).update(pos, (key, slot)));
                }
                found = true;
            } else {
                entries.push(e);
                proof {
                    if found {
                        assert(entries@ =~= before.subrange(0, i + 1).update(pos, (key, slot)));
                    } else {
                        assert(entries@ =~= before.subrange(0, i + 1));
                    }
                }
            }
            i = i + 1;
        }
        assert(before.subrange(0, i as int) =~= before);
        if !found {
            entries.push((key, slot));
        }
        proof {
            assert forall|a: int, b: int|
                0 <= a < entries@.len() && 0 <= b < entries@.len() && a != b implies (
            #[trigger] entries@[a]).0 != (#[trigger] entries@[b]).0 by {
                if found {
                    assert(before[a].0 != before[b].0);
                } else if a < before.len() && b < before.len() {
                    assert(before[a].0 != before[b].0);
                } else if a < before.len() {
                    assert(before[a].0 != key);
                } else {
                    assert(before[b].0 != key);
                }
            }
        }
        *self = EvmStorage { entries };
    }

    /// The entries whose slot changed, in storage order.
    pub fn changed(&self) -> (r: Vec<(U256, EvmStorageSlot)>)
        ensures
            r@ == self@.filter(slot_changed()),
    {
        let ghost pred = slot_changed();
        let mut r: Vec<(U256, EvmStorageSlot)> = Vec::new();
        let mut i: usize = 0;
        while i < self.entries.len()
            invariant
                i <= self.entries@.len(),
                pred == slot_changed(),
                r@ == self.entries@.subrange(0, i as int).filter(pred),
            decreases self.entries@.len() - i,
        {
            let e = self.entries[i];
            proof {
                let s = self.entries@.subrange(0, i as int);
                assert(self.entries@.subrange(0, i + 1) =~= s.push(e));
                s.lemma_filter_push(e, pred);
            }
            let changed = e.1.is_changed();
            proof {
                assert(pred(e) == changed);
            }
            if changed {
                r.push(e);
            }
            proof {
                let s = self.entries@.subrange(0, i as int);
                assert(s.push(e).filter(pred) == if pred(e) { s.filter(pred).push(e) } else { s.filter(pred) });
                assert(self.entries@.subrange(0, i + 1) == s.push(e));
            }
            i = i + 1;
        }
        assert(self.entries@.subrange(0, i as int) =~= self.entries@);
        r
    }
}

} // verus!

verus! {

/// The all-zero hash, which also marks an account without code.
pub open spec fn zero_hash_bytes() -> Seq<u8> {
    Seq::new(32, |i: int| 0u8)
}

/// Balance, nonce and code of an account. Equality looks at balance, nonce and
/// code hash only: the cached code and its size are accelerants.
#[derive(Debug)]
pub struct AccountInfo {
    pub balance: U256,
    pub nonce: u64,
    /// Length of the code, kept beside the hash.
    pub code_size: usize,
    /// Hash of the code under `code_hash_scheme`.
    pub code_hash: B256,
    /// Which hash `code_hash` is, as configured for the engine.
    pub code_hash_scheme: CodeHashScheme,
    /// Keccak-256 hash of the code.
    pub keccak_code_hash: B256,
    /// The code, when it is at hand.
    pub code: Option<Bytecode>,
}

/// The account without balance, nonce or code, under `scheme`.
pub open spec fn is_default_info(info: AccountInfo, scheme: CodeHashScheme) -> bool {
    &&& info.balance.value() == 0
    &&& info.nonce == 0
    &&& info.code_size == 0
    &&& info.code_hash_scheme == scheme
    &&& info.code_hash.bytes@ == empty_code_hash(scheme)
    &&& info.keccak_code_hash.bytes@ == keccak_empty_bytes()
    &&& info.code matches Some(c) && c@ == empty_code_view(scheme)
}

/// Whether the account counts as empty: no balance, no nonce, and no code.
pub open spec fn info_is_empty(info: AccountInfo) -> bool {
    &&& info.balance.value() == 0
    &&& info.nonce == 0
    &&& (info.code_hash.bytes@ == empty_code_hash(info.code_hash_scheme) || info.code_hash.bytes@
        == zero_hash_bytes())
}

impl Default for AccountInfo {
    /// The empty account under the Poseidon scheme of the rollup.
    fn default() -> (r: AccountInfo)
        ensures
            is_default_info(r, CodeHashScheme::Poseidon),
    {
        AccountInfo::default_with(CodeHashScheme::Poseidon)
    }
}

impl PartialEq for AccountInfo {
    fn eq(&self, other: &AccountInfo) -> (r: bool) {
        self.balance == other.balance && self.nonce == other.nonce && self.code_hash == other.code_hash
    }
}

impl vstd::std_specs::cmp::PartialEqSpecImpl for AccountInfo {
    open spec fn obeys_eq_spec() -> bool {
        true
    }

    open spec fn eq_spec(&self, other: &AccountInfo) -> bool {
        self.balance == other.balance && self.nonce == other.nonce && self.code_hash.bytes@
            == other.code_hash.bytes@
    }
}

impl Eq for AccountInfo {
}

impl AccountInfo {
    /// The empty account under `scheme`.
    pub fn default_with(scheme: CodeHashScheme) -> (r: AccountInfo)
        ensures
            is_default_info(r, scheme),
    {
        AccountInfo {
            balance: U256::zero(),
            nonce: 0,
            code_size: 0,
            code_hash: empty_code_hash_of(scheme),
            code_hash_scheme: scheme,
            keccak_code_hash: keccak_empty(),
            code: Some(Bytecode::empty(scheme)),
        }
    }

    /// An account with `code`, whose scheme it takes.
    pub fn new(balance: U256, nonce: u64, code_hash: B256, keccak_code_hash: B256, code: Bytecode) -> (r: AccountInfo)
        ensures
            r.balance == balance,
            r.nonce == nonce,
            r.code_size == logical_len(code@),
            r.code_hash == code_hash,
            r.code_hash_scheme == code@.scheme,
            r.keccak_code_hash == keccak_code_hash,
            r.code == Some(code),
    {
        let code_size = code.len();
        let code_hash_scheme = code.scheme();
        AccountInfo { balance, nonce, code_size, code_hash, code_hash_scheme, keccak_code_hash, code: Some(code) }
    }

    /// The same account without its cached code.
    pub fn without_code(self) -> (r: AccountInfo)
        ensures
            r == (AccountInfo { code: None, ..self }),
    {
        let mut info = self;
        info.take_bytecode();
        info
    }

    /// Whether the account is empty: zero balance, zero nonce, and a code hash
    /// that is the empty-code constant or all zeros.
    pub fn is_empty(&self) -> (r: bool)
        ensures
            r == info_is_empty(*self),
    {
        let code_empty = self.is_empty_code_hash() || self.code_hash == B256::zero();
        code_empty && self.balance.is_zero() && self.nonce == 0
    }

    pub fn is_existing(&self) -> (r: bool)
        ensures
            r == !info_is_empty(*self),
    {
        !self.is_empty()
    }

    /// Whether the account has neither code nor nonce.
    pub fn has_no_code_and_nonce(&self) -> (r: bool)
        ensures
            r == (self.code_hash.bytes@ == empty_code_hash(self.code_hash_scheme) && self.nonce == 0),
    {
        self.is_empty_code_hash() && self.nonce == 0
    }

    pub fn code_hash(&self) -> (r: B256)
        ensures
            r == self.code_hash,
    {
        self.code_hash
    }

    pub fn keccak_code_hash(&self) -> (r: B256)
        ensures
            r == self.keccak_code_hash,
    {
        self.keccak_code_hash
    }

    /// Whether the code hash is the hash of empty code under the account's scheme.
    pub fn is_empty_code_hash(&self) -> (r: bool)
        ensures
            r == (self.code_hash.bytes@ == empty_code_hash(self.code_hash_scheme)),
    {
        self.code_hash == empty_code_hash_of(self.code_hash_scheme)
    }

    /// Takes the cached code out, leaving none.
    pub fn take_bytecode(&mut self) -> (r: Option<Bytecode>)
        ensures
            r == old(self).code,
            *final(self) == (AccountInfo { code: None, ..*old(self) }),
    {
        self.code.take()
    }

    /// Sets the code and the hashes the caller computed for it.
    pub fn set_code_with_hash(&mut self, code: Bytecode, hash: B256, keccak_code_hash: B256)
        ensures
            *final(self) == (AccountInfo {
                code_size: logical_len(code@) as usize,
                keccak_code_hash,
                code: Some(code),
                code_hash: hash,
                ..*old(self)
            }),
    {
        self.code_size = code.len();
        self.keccak_code_hash = keccak_code_hash;
        self.code = Some(code);
        self.code_hash = hash;
    }

    /// Sets the code and hashes it; no code means the empty-code hashes of the
    /// account's scheme.
    pub fn set_code_rehash_slow(&mut self, code: Option<Bytecode>)
        ensures
            final(self).balance == old(self).balance,
            final(self).nonce == old(self).nonce,
            final(self).code_hash_scheme == old(self).code_hash_scheme,
            final(self).code == code,
            match code {
                Some(c) => {
                    &&& final(self).code_hash.bytes@ == slow_hash(c@)
                    &&& final(self).keccak_code_hash.bytes@ == keccak_code_hash_of(logical_code(c@))
                    &&& final(self).code_size == logical_len(c@)
                },
                None => {
                    &&& final(self).code_hash.bytes@ == empty_code_hash(old(self).code_hash_scheme)
                    &&& final(self).keccak_code_hash.bytes@ == keccak_empty_bytes()
                    &&& final(self).code_size == 0
                },
            },
    {
        match code {
            Some(code) => {
                self.code_hash = code.hash_slow();
                self.code_size = code.len();
                self.keccak_code_hash = code.keccak_hash_slow();
                self.code = Some(code);
            },
            None => {
                self.code_hash = empty_code_hash_of(self.code_hash_scheme);
                self.code_size = 0;
                self.keccak_code_hash = keccak_empty();
                self.code = None;
            },
        }
    }

    /// An account that holds `balance` and nothing else, under the Poseidon scheme.
    pub fn from_balance(balance: U256) -> (r: AccountInfo)
        ensures
            is_default_info(AccountInfo { balance: U256::spec_zero(), ..r }, CodeHashScheme::Poseidon),
            r.balance == balance,
    {
        let mut info = AccountInfo::default();
        info.balance = balance;
        info
    }

    /// A contract account for `bytecode`: nonce one, no balance, hashes computed.
    pub fn from_bytecode(bytecode: Bytecode) -> (r: AccountInfo)
        ensures
            r.balance.value() == 0,
            r.nonce == 1,
            r.code_size == logical_len(bytecode@),
            r.code_hash_scheme == bytecode@.scheme,
            r.code_hash.bytes@ == slow_hash(bytecode@),
            r.keccak_code_hash.bytes@ == keccak_code_hash_of(logical_code(bytecode@)),
            r.code == Some(bytecode),
    {
        let code_hash = bytecode.hash_slow();
        let keccak_code_hash = bytecode.keccak_hash_slow();
        let code_size = bytecode.len();
        let code_hash_scheme = bytecode.scheme();
        AccountInfo {
            balance: U256::zero(),
            nonce: 1,
            code_size,
            code_hash,
            code_hash_scheme,
            keccak_code_hash,
            code: Some(bytecode),
        }
    }
}

/// An account as loaded into the transaction: info, storage and status.
#[derive(Debug)]
pub struct Account {
    pub info: AccountInfo,
    pub storage: EvmStorage,
    pub status: AccountStatus,
}

impl Default for Account {
    fn default() -> (r: Account)
        ensures
            is_default_info(r.info, CodeHashScheme::Poseidon),
            r.storage@.len() == 0,
            r.status@ == 0,
    {
        Account::from_info(AccountInfo::default())
    }
}

impl Account {
    /// An account that `info` describes, with no storage loaded and no flag set.
    pub fn from_info(info: AccountInfo) -> (r: Account)
        ensures
            r.info == info,
            r.storage@.len() == 0,
            r.status@ == 0,
    {
        Account { info, storage: EvmStorage::new(), status: AccountStatus::loaded() }
    }

    /// A default account flagged as loaded while absent.
    pub fn new_not_existing() -> (r: Account)
        ensures
            is_default_info(r.info, CodeHashScheme::Poseidon),
            r.storage@.len() == 0,
            r.status@ == LOADED_AS_NOT_EXISTING,
    {
        Account {
            info: AccountInfo::default(),
            storage: EvmStorage::new(),
            status: AccountStatus::loaded_as_not_existing(),
        }
    }

    pub fn mark_selfdestruct(&mut self)
        ensures
            final(self).status@ == old(self).status@ | SELF_DESTRUCTED,
            final(self).info == old(self).info,
            final(self).storage == old(self).storage,
    {
        self.status.insert(AccountStatus::self_destructed());
    }

    pub fn unmark_selfdestruct(&mut self)
        ensures
            final(self).status@ == old(self).status@ & !SELF_DESTRUCTED,
            final(self).info == old(self).info,
            final(self).storage == old(self).storage,
    {
        self.status.remove(AccountStatus::self_destructed());
    }

    pub fn is_selfdestructed(&self) -> (r: bool)
        ensures
            r == has_flags(self.status@, SELF_DESTRUCTED),
    {
        self.status.contains(AccountStatus::self_destructed())
    }

    pub fn mark_touch(&mut self)
        ensures
            final(self).status@ == old(self).status@ | TOUCHED,
            final(self).info == old(self).info,
            final(self).storage == old(self).storage,
    {
        self.status.insert(AccountStatus::touched());
    }

    pub fn unmark_touch(&mut self)
        ensures
            final(self).status@ == old(self).status@ & !TOUCHED,
            final(self).info == old(self).info,
            final(self).storage == old(self).storage,
    {
        self.status.remove(AccountStatus::touched());
    }

    pub fn is_touched(&self) -> (r: bool)
        ensures
            r == has_flags(self.status@, TOUCHED),
    {
        self.status.contains(AccountStatus::touched())
    }

    pub fn mark_created(&mut self)
        ensures
            final(self).status@ == old(self).status@ | CREATED,
            final(self).info == old(self).info,
            final(self).storage == old(self).storage,
    {
        self.status.insert(AccountStatus::created());
    }

    pub fn unmark_created(&mut self)
        ensures
            final(self).status@ == old(self).status@ & !CREATED,
            final(self).info == old(self).info,
            final(self).storage == old(self).storage,
    {
        self.status.remove(AccountStatus::created());
    }

    pub fn mark_cold(&mut self)
        ensures
            final(self).status@ == old(self).status@ | COLD,
            final(self).info == old(self).info,
            final(self).storage == old(self).storage,
    {
        self.status.insert(AccountStatus::cold());
    }

    /// Marks the account warm and returns whether it was cold.
    pub fn mark_warm(&mut self) -> (r: bool)
        ensures
            r == has_flags(old(self).status@, COLD),
            final(self).status@ == old(self).status@ & !COLD,
            final(self).info == old(self).info,
            final(self).storage == old(self).storage,
    {
        if self.status.contains(AccountStatus::cold()) {
            self.status.remove(AccountStatus::cold());
            true
        } else {
            let ghost s = self.status@;
            assert(s & !COLD == s) by (bit_vector)
                requires
                    s & COLD != COLD,
            ;
            false
        }
    }

    pub fn is_loaded_as_not_existing(&self) -> (r: bool)
        ensures
            r == has_flags(self.status@, LOADED_AS_NOT_EXISTING),
    {
        self.status.contains(AccountStatus::loaded_as_not_existing())
    }

    pub fn is_created(&self) -> (r: bool)
        ensures
            r == has_flags(self.status@, CREATED),
    {
        self.status.contains(AccountStatus::created())
    }

    /// Whether the account is empty (see [`AccountInfo::is_empty`]).
    pub fn is_empty(&self) -> (r: bool)
        ensures
            r == info_is_empty(self.info),
    {
        self.info.is_empty()
    }

    /// The storage entries whose present value differs from the original one.
    pub fn changed_storage_slots(&self) -> (r: Vec<(U256, EvmStorageSlot)>)
        ensures
            r@ == self.storage@.filter(slot_changed()),
    {
        self.storage.changed()
    }
}

} // verus!
