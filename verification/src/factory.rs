use vstd::prelude::*;
use crate::factory_laws::lemma_record_preserves_wf;

verus! {

/// Reasons a factory call is refused.
#[derive(Clone, Copy, Debug, PartialEq, Eq, PartialOrd, Ord, Structural)]
pub enum Error {
    NotInitialized,
    NoVaultsForOwner,
}

/// Published when the factory records a newly deployed vault.
#[derive(Clone, Debug, PartialEq, Eq)]
pub struct VaultDeployed {
    pub owner: String,
    pub vault: String,
}

/// What a factory call asks of its host, in the order it asks.
#[derive(Clone, Debug, PartialEq, Eq)]
pub enum Effect {
    /// The call proceeds only if this address authorized it.
    RequireAuth(String),
    /// The factory publishes this event.
    Publish(VaultDeployed),
}

/// A vault deployment for the host to carry out: the vault code, the salt
/// from which the host derives the new address, and the arguments of the
/// vault's constructor.
#[derive(Clone, Debug, PartialEq, Eq)]
pub struct VaultDeployment {
    pub wasm_hash: [u8; 32],
    pub salt: [u8; 32],
    pub owner: String,
    pub token: String,
    pub min_deposit: i128,
    pub max_balance: Option<i128>,
}

/// The vaults deployed for one owner, oldest first.
#[derive(Debug)]
pub struct OwnerVaults {
    pub owner: String,
    pub vaults: Vec<String>,
}

/// The stored values of the factory: the vault code it deploys, how many
/// vaults it deployed, and, per owner, the vaults deployed for them.
#[derive(Debug)]
pub struct LumenVaultFactory {
    pub vault_wasm_hash: Option<[u8; 32]>,
    pub vault_count: Option<u32>,
    pub vaults_by_owner: Vec<OwnerVaults>,
}

/// An owner index as plain values: (owner, vaults) pairs.
pub type OwnerIndex = Seq<(Seq<char>, Seq<String>)>;

/// `i` is the first position of `owner` in `index`.
pub open spec fn is_first_match(index: OwnerIndex, owner: Seq<char>, i: int) -> bool {
    &&& 0 <= i < index.len()
    &&& index[i].0 == owner
    &&& forall|j: int| 0 <= j < i ==> index[j].0 != owner
}

/// Whether `owner` has an entry in `index`.
pub open spec fn index_has(index: OwnerIndex, owner: Seq<char>) -> bool {
    exists|i: int| 0 <= i < index.len() && index[i].0 == owner
}

/// The first position of `owner` in `index`.
pub open spec fn index_position(index: OwnerIndex, owner: Seq<char>) -> int {
    choose|i: int| is_first_match(index, owner, i)
}

/// The vaults that `index` lists for `owner` (none when it has no entry).
pub open spec fn index_vaults(index: OwnerIndex, owner: Seq<char>) -> Seq<String> {
    if index_has(index, owner) {
        index[index_position(index, owner)].1
    } else {
        seq![]
    }
}

/// The index after recording `vault` for `owner`: appended to the owner's
/// entry, or in a new entry at the end.
pub open spec fn index_record(index: OwnerIndex, owner: Seq<char>, vault: String) -> OwnerIndex {
    if index_has(index, owner) {
        let p = index_position(index, owner);
        index.update(p, (owner, index[p].1.push(vault)))
    } else {
        index.push((owner, seq![vault]))
    }
}

/// No owner has two entries.
pub open spec fn owners_distinct(index: OwnerIndex) -> bool {
    forall|i: int, j: int| 0 <= i < index.len() && 0 <= j < index.len() && i != j ==> index[i].0 != index[j].0
}

/// How many vaults an index lists over all owners.
pub open spec fn total_vaults(index: OwnerIndex) -> int
    decreases index.len(),
{
    if index.len() == 0 {
        0
    } else {
        total_vaults(index.drop_last()) + index.last().1.len()
    }
}

/// The part of `list` from `start` on, at most `limit` long.
pub open spec fn page(list: Seq<String>, start: int, limit: int) -> Seq<String> {
    let lo = if start < list.len() { start } else { list.len() as int };
    let hi = if start + limit < list.len() { start + limit } else { list.len() as int };
    list.subrange(lo, hi)
}

impl LumenVaultFactory {
    /// The owner index as plain values.
    pub open spec fn index(self) -> OwnerIndex {
        self.vaults_by_owner@.map_values(|e: OwnerVaults| (e.owner@, e.vaults@))
    }

    /// The stored vault count, zero when none is stored.
    pub open spec fn stored_count(self) -> u32 {
        match self.vault_count {
            Some(c) => c,
            None => 0,
        }
    }

    /// Whether `owner` has an entry in the index.
    pub open spec fn has_entry(self, owner: Seq<char>) -> bool {
        index_has(self.index(), owner)
    }

    /// The position of `owner`'s entry.
    pub open spec fn position(self, owner: Seq<char>) -> int {
        index_position(self.index(), owner)
    }

    /// The vaults deployed for `owner`, oldest first.
    pub open spec fn vaults_of(self, owner: Seq<char>) -> Seq<String> {
        index_vaults(self.index(), owner)
    }

    /// What every constructed factory satisfies, and recording keeps: one
    /// entry per owner, and the count is the number of vaults listed.
    pub open spec fn wf(self) -> bool {
        &&& owners_distinct(self.index())
        &&& self.stored_count() == total_vaults(self.index())
    }

    /// Creates a factory that deploys the vault code `vault_wasm_hash`.
    pub fn __constructor(vault_wasm_hash: [u8; 32]) -> (f: LumenVaultFactory)
        ensures
            f.vault_wasm_hash == Some(vault_wasm_hash),
            f.vault_count == Some(0u32),
            f.index() == Seq::<(Seq<char>, Seq<String>)>::empty(),
    {
        let f = LumenVaultFactory {
            vault_wasm_hash: Some(vault_wasm_hash),
            vault_count: Some(0),
            vaults_by_owner: Vec::new(),
        };
        assert(f.index() =~= Seq::<(Seq<char>, Seq<String>)>::empty());
        f
    }
}

/// Only one position is the first position of an owner.
pub proof fn lemma_first_match_unique(index: OwnerIndex, owner: Seq<char>, i: int, k: int)
    requires
        is_first_match(index, owner, i),
        is_first_match(index, owner, k),
    ensures
        i == k,
{
    if i < k {
        assert(index[i].0 != owner);
    } else if k < i {
        assert(index[k].0 != owner);
    }
}

/// An owner that occurs in an index has a first position.
pub proof fn lemma_first_match_exists(index: OwnerIndex, owner: Seq<char>, i: int)
    requires
        0 <= i < index.len(),
        index[i].0 == owner,
    ensures
        exists|k: int| is_first_match(index, owner, k),
    decreases i,
{
    if exists|j: int| 0 <= j < i && index[j].0 == owner {
        let j = choose|j: int| 0 <= j < i && index[j].0 == owner;
        lemma_first_match_exists(index, owner, j);
    } else {
        assert(is_first_match(index, owner, i));
    }
}

impl LumenVaultFactory {
    /// The index after recording `vault` for `owner`.
    pub open spec fn record_index(self, owner: Seq<char>, vault: String) -> OwnerIndex {
        index_record(self.index(), owner, vault)
    }

    /// The stored deployment counter, zero when none is stored.
    fn read_vault_count(&self) -> (r: u32)
        ensures
            r == self.stored_count(),
    {
        match self.vault_count {
            Some(c) => c,
            None => 0,
        }
    }

    /// The first position of `owner` in the index, if any.
    fn find_owner(&self, owner: &String) -> (r: Option<usize>)
        ensures
            match r {
                Some(i) => is_first_match(self.index(), owner@, i as int) && self.position(owner@) == i
                    && self.has_entry(owner@),
                None => !self.has_entry(owner@),
            },
    {
        let ghost index = self.index();
        let mut i: usize = 0;
        while i < self.vaults_by_owner.len()
            invariant
                index == self.index(),
                index.len() == self.vaults_by_owner@.len(),
                i <= self.vaults_by_owner.len(),
                forall|j: int| 0 <= j < i ==> index[j].0 != owner@,
            decreases self.vaults_by_owner.len() - i,
        {
            assert(index[i as int] == (self.vaults_by_owner@[i as int].owner@, self.vaults_by_owner@[i as int].vaults@));
            if self.vaults_by_owner[i].owner == *owner {
                proof {
                    assert(is_first_match(index, owner@, i as int));
                    let k = self.position(owner@);
                    lemma_first_match_unique(index, owner@, i as int, k);
                }
                return Some(i);
            }
            i += 1;
        }
        proof {
            assert forall|j: int| 0 <= j < index.len() implies index[j].0 != owner@ by {}
        }
        None
    }

    /// Checks that the factory knows its vault code and hands back the
    /// deployment of a vault for `owner`, which `owner` must authorize.
    pub fn deploy_vault(
        &self,
        owner: String,
        token: String,
        min_deposit: i128,
        max_balance: Option<i128>,
        salt: [u8; 32],
        effects: &mut Vec<Effect>,
    ) -> (r: Result<VaultDeployment, Error>)
        ensures
            r == (match self.vault_wasm_hash {
                Some(wasm_hash) => Ok(VaultDeployment {
                    wasm_hash: wasm_hash,
                    salt: salt,
                    owner: owner,
                    token: token,
                    min_deposit: min_deposit,
                    max_balance: max_balance,
                }),
                None => Err(Error::NotInitialized),
            }),
            final(effects)@ == old(effects)@.push(Effect::RequireAuth(owner)),
    {
        effects.push(Effect::RequireAuth(owner.clone()));
        let wasm_hash = match self.vault_wasm_hash {
            Some(h) => h,
            None => return Err(Error::NotInitialized),
        };
        Ok(VaultDeployment { wasm_hash, salt, owner, token, min_deposit, max_balance })
    }

    /// Records that `vault` was deployed for `owner`: counts it, appends it
    /// to the owner's vaults, and announces it. Returns the vault.
    pub fn record_deployment(&mut self, owner: String, vault: String, effects: &mut Vec<Effect>) -> (r: String)
        requires
            old(self).stored_count() < u32::MAX,
        ensures
            r == vault,
            final(self).vault_wasm_hash == old(self).vault_wasm_hash,
            final(self).vault_count == Some((old(self).stored_count() + 1) as u32),
            final(self).index() == old(self).record_index(owner@, vault),
            old(self).wf() ==> final(self).wf(),
            final(effects)@ == old(effects)@.push(Effect::Publish(VaultDeployed { owner: owner, vault: vault })),
    {
        let ghost old_entries = self.vaults_by_owner@;
        let count = self.read_vault_count();
        self.vault_count = Some(count + 1);
        match self.find_owner(&owner) {
            Some(i) => {
                let mut entry = self.vaults_by_owner.remove(i);
                entry.vaults.push(vault.clone());
                self.vaults_by_owner.insert(i, entry);
                proof {
                    assert(self.vaults_by_owner@ =~= old_entries.update(i as int, entry));
                    assert(self.index() =~= old(self).record_index(owner@, vault));
                }
            },
            None => {
                let mut vaults = Vec::new();
                vaults.push(vault.clone());
                self.vaults_by_owner.push(OwnerVaults { owner: owner.clone(), vaults });
                proof {
                    assert(self.index() =~= old(self).record_index(owner@, vault));
                }
            },
        }
        proof {
            if old(self).wf() {
                lemma_record_preserves_wf(
                    old(self).index(),
                    old(self).stored_count() as int,
                    owner@,
                    vault,
                );
            }
        }
        effects.push(Effect::Publish(VaultDeployed { owner, vault: vault.clone() }));
        vault
    }

    /// How many vaults the factory deployed.
    pub fn vault_count(&self) -> (r: u32)
        ensures
            r == self.stored_count(),
    {
        self.read_vault_count()
    }

    /// The vaults deployed for `owner`, oldest first, from position `start`
    /// on and at most `limit` of them.
    pub fn vaults_by_owner(&self, owner: String, start: u32, limit: u32) -> (r: Vec<String>)
        ensures
            r@ == page(self.vaults_of(owner@), start as int, limit as int),
    {
        match self.find_owner(&owner) {
            None => {
                let out: Vec<String> = Vec::new();
                assert(out@ =~= page(self.vaults_of(owner@), start as int, limit as int));
                out
            },
            Some(i) => {
                let list = &self.vaults_by_owner[i].vaults;
                assert(list@ == self.vaults_of(owner@));
                let len = list.len();
                let lo: usize = if (start as usize) < len { start as usize } else { len };
                let end: u64 = start as u64 + limit as u64;
                let hi: usize = if end < len as u64 { end as usize } else { len };
                let mut out: Vec<String> = Vec::new();
                let mut k: usize = lo;
                while k < hi
                    invariant
                        lo <= k <= hi <= len,
                        len == list@.len(),
                        out@ == list@.subrange(lo as int, k as int),
                    decreases hi - k,
                {
                    out.push(list[k].clone());
                    k += 1;
                    assert(out@ =~= list@.subrange(lo as int, k as int));
                }
                assert(out@ =~= page(self.vaults_of(owner@), start as int, limit as int));
                out
            },
        }
    }

    /// Allows extending the storage lifetime of `owner`'s entry only when
    /// `owner` has one.
    pub fn extend_vaults_by_owner_ttl(&self, owner: String) -> (r: Result<(), Error>)
        ensures
            r == (if self.has_entry(owner@) {
                Ok(())
            } else {
                Err(Error::NoVaultsForOwner)
            }),
    {
        match self.find_owner(&owner) {
            Some(_) => Ok(()),
            None => Err(Error::NoVaultsForOwner),
        }
    }

    /// The vault code the factory deploys.
    pub fn vault_wasm_hash(&self) -> (r: Result<[u8; 32], Error>)
        ensures
            r == (match self.vault_wasm_hash {
                Some(h) => Ok(h),
                None => Err(Error::NotInitialized),
            }),
    {
        match self.vault_wasm_hash {
            Some(h) => Ok(h),
            None => Err(Error::NotInitialized),
        }
    }
}

/// Sets up a factory for the vault code `vault_wasm_hash`.
pub fn deploy_factory(vault_wasm_hash: [u8; 32]) -> (f: LumenVaultFactory)
    ensures
        f.vault_wasm_hash == Some(vault_wasm_hash),
        f.vault_count == Some(0u32),
        f.index() == Seq::<(Seq<char>, Seq<String>)>::empty(),
{
    LumenVaultFactory::__constructor(vault_wasm_hash)
}

} // verus!
