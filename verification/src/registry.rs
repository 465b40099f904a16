use crate::records::VaultAccount;
use vstd::prelude::*;

verus! {

/// One allocated vault: the derived address it lives at, its durable record,
/// and the balance currently held in its custody account.
#[derive(Clone, Copy, Debug)]
pub struct StoredVault {
    /// Derived storage address the record is addressable under.
    pub address: [u8; 32],
    /// The durable vault record.
    pub record: VaultAccount,
    /// Funds held in the vault's custody account.
    pub custody: u64,
}

impl StoredVault {
    /// A stored vault is well formed when its record is, and its custody
    /// balance equals the deposit until the vault is drained, then zero.
    pub open spec fn wf(self) -> bool {
        &&& self.record.wf()
        &&& self.custody == if self.record.is_withdrawn {
            0u64
        } else {
            self.record.amount
        }
    }
}

/// Invariants of the whole ledger of stored vaults: every entry is well
/// formed, and no two entries share a storage address or an owner (at most
/// one live vault per owner).
pub open spec fn ledger_wf(s: Seq<StoredVault>) -> bool {
    &&& forall|i: int| 0 <= i < s.len() ==> (#[trigger] s[i]).wf()
    &&& forall|i: int, j: int|
        0 <= i < s.len() && 0 <= j < s.len() && i != j ==> (#[trigger] s[i]).address@ != (
        #[trigger] s[j]).address@
    &&& forall|i: int, j: int|
        0 <= i < s.len() && 0 <= j < s.len() && i != j ==> (#[trigger] s[i]).record.owner@ != (
        #[trigger] s[j]).record.owner@
}

/// Index of the entry stored at `addr`, if any. The scan starts from the
/// most recently allocated entry; under `ledger_wf` the match is unique
/// anyway.
pub open spec fn find_address(s: Seq<StoredVault>, addr: Seq<u8>) -> Option<int>
    decreases s.len(),
{
    if s.len() == 0 {
        None
    } else if s.last().address@ == addr {
        Some(s.len() - 1)
    } else {
        find_address(s.drop_last(), addr)
    }
}

/// Index of the entry owned by `owner`, if any.
pub open spec fn find_owner(s: Seq<StoredVault>, owner: Seq<u8>) -> Option<int>
    decreases s.len(),
{
    if s.len() == 0 {
        None
    } else if s.last().record.owner@ == owner {
        Some(s.len() - 1)
    } else {
        find_owner(s.drop_last(), owner)
    }
}

/// `find_address` returns an in-range index of a matching entry, or `None`
/// exactly when no entry matches.
pub proof fn lemma_find_address_spec(s: Seq<StoredVault>, addr: Seq<u8>)
    ensures
        find_address(s, addr) matches Some(i) ==> 0 <= i < s.len() && s[i].address@ == addr,
        find_address(s, addr) is None <==> forall|i: int|
            0 <= i < s.len() ==> (#[trigger] s[i]).address@ != addr,
    decreases s.len(),
{
    if s.len() > 0 && s.last().address@ != addr {
        lemma_find_address_spec(s.drop_last(), addr);
        assert forall|i: int| 0 <= i < s.len() - 1 implies s.drop_last()[i] == s[i] by {}
    }
}

/// `find_owner` returns an in-range index of a matching entry, or `None`
/// exactly when no entry matches.
pub proof fn lemma_find_owner_spec(s: Seq<StoredVault>, owner: Seq<u8>)
    ensures
        find_owner(s, owner) matches Some(i) ==> 0 <= i < s.len() && s[i].record.owner@ == owner,
        find_owner(s, owner) is None <==> forall|i: int|
            0 <= i < s.len() ==> (#[trigger] s[i]).record.owner@ != owner,
    decreases s.len(),
{
    if s.len() > 0 && s.last().record.owner@ != owner {
        lemma_find_owner_spec(s.drop_last(), owner);
        assert forall|i: int| 0 <= i < s.len() - 1 implies s.drop_last()[i] == s[i] by {}
    }
}

/// Two ledgers whose entries sit at the same addresses resolve every
/// address lookup to the same index.
pub proof fn lemma_find_address_same_addresses(s1: Seq<StoredVault>, s2: Seq<StoredVault>, addr: Seq<u8>)
    requires
        s1.len() == s2.len(),
        forall|k: int| 0 <= k < s1.len() ==> (#[trigger] s1[k]).address@ == (#[trigger] s2[k]).address@,
    ensures
        find_address(s1, addr) == find_address(s2, addr),
    decreases s1.len(),
{
    if s1.len() > 0 {
        assert(s1.last().address@ == s2.last().address@);
        if s1.last().address@ != addr {
            assert forall|k: int| 0 <= k < s1.len() - 1 implies (#[trigger] s1.drop_last()[k]).address@
                == (#[trigger] s2.drop_last()[k]).address@ by {
                assert(s1.drop_last()[k] == s1[k]);
                assert(s2.drop_last()[k] == s2[k]);
            }
            lemma_find_address_same_addresses(s1.drop_last(), s2.drop_last(), addr);
        }
    }
}

/// The Vault Registry: the durable set of allocated vaults under one fixed
/// program identity.
#[derive(Debug)]
pub struct VaultRegistry {
    /// Compile-time identity of this service in inter-component calls; all
    /// vault addresses are derived under it.
    pub program_id: [u8; 32],
    /// The allocated vaults.
    pub vaults: Vec<StoredVault>,
}

impl View for VaultRegistry {
    type V = Seq<StoredVault>;

    open spec fn view(&self) -> Seq<StoredVault> {
        self.vaults@
    }
}

/// Compare two 32-byte identities or addresses.
pub fn bytes32_eq(a: &[u8; 32], b: &[u8; 32]) -> (r: bool)
    ensures
        r <==> a@ == b@,
{
    let mut i: usize = 0;
    while i < 32
        invariant
            i <= 32,
            forall|k: int| 0 <= k < i ==> a@[k] == b@[k],
        decreases 32 - i,
    {
        if a[i] != b[i] {
            return false;
        }
        i += 1;
    }
    proof {
        assert(a@ =~= b@);
    }
    true
}

impl VaultRegistry {
    /// All registry invariants.
    pub open spec fn wf(self) -> bool {
        ledger_wf(self@)
    }

    /// An empty registry for the service identified by `program_id`.
    pub fn new(program_id: [u8; 32]) -> (r: VaultRegistry)
        ensures
            r.wf(),
            r@ == Seq::<StoredVault>::empty(),
            r.program_id == program_id,
    {
        VaultRegistry { program_id, vaults: Vec::new() }
    }

    /// Number of vaults ever allocated (records are never deleted).
    pub fn vault_count(&self) -> (r: usize)
        ensures
            r == self@.len(),
    {
        self.vaults.len()
    }

    /// Index of the vault stored at `addr`, if one exists.
    pub(crate) fn find_index(&self, addr: &[u8; 32]) -> (r: Option<usize>)
        ensures
            r is Some <==> find_address(self@, addr@) is Some,
            r matches Some(i) ==> find_address(self@, addr@) == Some(i as int) && i < self@.len(),
    {
        let n = self.vaults.len();
        let mut i: usize = n;
        proof {
            assert(self@.take(n as int) =~= self@);
        }
        loop
            invariant
                i <= n,
                n == self@.len(),
                find_address(self@, addr@) == find_address(self@.take(i as int), addr@),
            decreases i,
        {
            if i == 0 {
                return None;
            }
            i = i - 1;
            proof {
                assert(self@.take(i + 1).last() == self@[i as int]);
                assert(self@.take(i + 1).drop_last() =~= self@.take(i as int));
            }
            if bytes32_eq(&self.vaults[i].address, addr) {
                return Some(i);
            }
        }
    }

    /// The permanent receipt of `owner`'s vault, if one was ever allocated:
    /// records are never deleted, so a drained vault still resolves here
    /// with `is_withdrawn` set.
    pub fn lookup(&self, owner: &[u8; 32]) -> (r: Option<VaultAccount>)
        ensures
            r is Some <==> find_owner(self@, owner@) is Some,
            r matches Some(rec) ==> find_owner(self@, owner@) matches Some(i) && rec == self@[i].record,
    {
        let n = self.vaults.len();
        let mut i: usize = n;
        proof {
            assert(self@.take(n as int) =~= self@);
        }
        loop
            invariant
                i <= n,
                n == self@.len(),
                find_owner(self@, owner@) == find_owner(self@.take(i as int), owner@),
            decreases i,
        {
            if i == 0 {
                return None;
            }
            i = i - 1;
            proof {
                assert(self@.take(i + 1).last() == self@[i as int]);
                assert(self@.take(i + 1).drop_last() =~= self@.take(i as int));
            }
            if bytes32_eq(&self.vaults[i].record.owner, owner) {
                return Some(self.vaults[i].record);
            }
        }
    }

    /// Whether some vault is already owned by `owner`.
    pub(crate) fn contains_owner(&self, owner: &[u8; 32]) -> (r: bool)
        ensures
            r <==> find_owner(self@, owner@) is Some,
    {
        let n = self.vaults.len();
        let mut i: usize = n;
        proof {
            assert(self@.take(n as int) =~= self@);
        }
        loop
            invariant
                i <= n,
                n == self@.len(),
                find_owner(self@, owner@) == find_owner(self@.take(i as int), owner@),
            decreases i,
        {
            if i == 0 {
                return false;
            }
            i = i - 1;
            proof {
                assert(self@.take(i + 1).last() == self@[i as int]);
                assert(self@.take(i + 1).drop_last() =~= self@.take(i as int));
            }
            if bytes32_eq(&self.vaults[i].record.owner, owner) {
                return true;
            }
        }
    }
}

} // verus!
