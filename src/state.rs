//! The program's records and the host's account store that holds them.
use vstd::prelude::*;

use crate::pubkey::Pubkey;

verus! {

/// The single global record: whether transfers are stopped.
#[derive(Clone, Copy, Debug, PartialEq, Eq)]
pub struct GlobalState {
    /// true = stopped, false = active.
    pub is_frozen: bool,
}

/// The collateral vault of one owner.
#[derive(Clone, Copy, Debug, PartialEq, Eq)]
pub struct VaultState {
    pub owner: Pubkey,
    pub collateral_amount: u64,
}

/// Bytes of the type tag that prefixes every record in its account.
pub const DISCRIMINATOR_LEN: usize = 8;

impl GlobalState {
    /// Bytes of the record's fields: the flag.
    pub const INIT_SPACE: usize = 1;
}

impl VaultState {
    /// Bytes of the record's fields: the owner's key and the amount.
    pub const INIT_SPACE: usize = 32 + 8;
}

/// What an account of this program holds.
#[derive(Clone, Copy, Debug, PartialEq, Eq)]
pub enum Record {
    Vault(VaultState),
    Global(GlobalState),
}

/// Why an instruction failed.
#[derive(Clone, Copy, Debug, PartialEq, Eq, Structural)]
pub enum ErrorCode {
    /// The bridge is currently frozen by the bank.
    BridgeIsFrozen,
    /// A required signer did not sign.
    AccountNotSigner,
    /// A supplied address is not the one derived from its seeds.
    ConstraintSeeds,
    /// The account to read does not exist.
    AccountNotInitialized,
    /// The account to create exists already.
    AccountAlreadyInitialized,
    /// The account holds a record of another kind.
    AccountDiscriminatorMismatch,
    /// No bump seed gives an address off the curve.
    NoViableBump,
}

/// One account: its address and the record stored there.
#[derive(Clone, Copy, Debug)]
pub struct Account {
    pub address: Pubkey,
    pub data: Record,
}

/// The accounts owned by one program, keyed by address.
pub struct Ledger {
    program_id: Pubkey,
    accounts: Vec<Account>,
}

/// Whether some account of `s` lies at address `k`.
pub open spec fn occupied(s: Seq<Account>, k: Seq<u8>) -> bool {
    exists|i: int| 0 <= i < s.len() && #[trigger] s[i].address@ == k
}

/// The map from address to record that a list of accounts describes.
pub open spec fn accounts_map(s: Seq<Account>) -> Map<Seq<u8>, Record> {
    Map::new(
        |k: Seq<u8>| occupied(s, k),
        |k: Seq<u8>| s[choose|i: int| 0 <= i < s.len() && #[trigger] s[i].address@ == k].data,
    )
}

/// No two accounts of `s` share an address.
pub open spec fn unique_addresses(s: Seq<Account>) -> bool {
    forall|i: int, j: int|
        0 <= i < s.len() && 0 <= j < s.len() && i != j ==> #[trigger] s[i].address@ != #[trigger] s[j].address@
}

proof fn lemma_lookup(s: Seq<Account>, i: int)
    requires
        unique_addresses(s),
        0 <= i < s.len(),
    ensures
        accounts_map(s).contains_key(s[i].address@),
        accounts_map(s)[s[i].address@] == s[i].data,
{
    let k = s[i].address@;
    assert(occupied(s, k));
    let j = choose|j: int| 0 <= j < s.len() && #[trigger] s[j].address@ == k;
    assert(i == j);
}

proof fn lemma_push(s: Seq<Account>, a: Account)
    requires
        unique_addresses(s),
        !occupied(s, a.address@),
    ensures
        unique_addresses(s.push(a)),
        accounts_map(s.push(a)) == accounts_map(s).insert(a.address@, a.data),
{
    let t = s.push(a);
    assert forall|i: int, j: int|
        0 <= i < t.len() && 0 <= j < t.len() && i != j implies #[trigger] t[i].address@ != #[trigger] t[j].address@ by {
        if i < s.len() && j < s.len() {
            assert(s[i] == t[i] && s[j] == t[j]);
        } else if i < s.len() {
            assert(s[i] == t[i]);
        } else if j < s.len() {
            assert(s[j] == t[j]);
        }
    }
    assert forall|k: Seq<u8>| occupied(t, k) == (occupied(s, k) || k == a.address@) by {
        if occupied(s, k) {
            let i = choose|i: int| 0 <= i < s.len() && #[trigger] s[i].address@ == k;
            assert(t[i] == s[i]);
        }
        if k == a.address@ {
            assert(t[s.len() as int] == a);
        }
    }
    let m = accounts_map(s).insert(a.address@, a.data);
    assert forall|k: Seq<u8>| #[trigger] m.contains_key(k) implies accounts_map(t)[k] == m[k] by {
        if k == a.address@ {
            lemma_lookup(t, s.len() as int);
        } else {
            let i = choose|i: int| 0 <= i < s.len() && #[trigger] s[i].address@ == k;
            lemma_lookup(s, i);
            assert(t[i] == s[i]);
            lemma_lookup(t, i);
        }
    }
    assert(accounts_map(t) =~= m);
}

proof fn lemma_update(s: Seq<Account>, i: int, a: Account)
    requires
        unique_addresses(s),
        0 <= i < s.len(),
        s[i].address@ == a.address@,
    ensures
        unique_addresses(s.update(i, a)),
        accounts_map(s.update(i, a)) == accounts_map(s).insert(a.address@, a.data),
{
    let t = s.update(i, a);
    assert forall|p: int, q: int|
        0 <= p < t.len() && 0 <= q < t.len() && p != q implies #[trigger] t[p].address@ != #[trigger] t[q].address@ by {
        assert(t[p].address@ == s[p].address@);
        assert(t[q].address@ == s[q].address@);
    }
    assert forall|k: Seq<u8>| occupied(t, k) == occupied(s, k) by {
        if occupied(s, k) {
            let j = choose|j: int| 0 <= j < s.len() && #[trigger] s[j].address@ == k;
            assert(t[j].address@ == s[j].address@);
        }
        if occupied(t, k) {
            let j = choose|j: int| 0 <= j < t.len() && #[trigger] t[j].address@ == k;
            assert(t[j].address@ == s[j].address@);
        }
    }
    let m = accounts_map(s).insert(a.address@, a.data);
    assert forall|k: Seq<u8>| #[trigger] m.contains_key(k) implies accounts_map(t)[k] == m[k] by {
        if k == a.address@ {
            lemma_lookup(t, i);
        } else {
            let j = choose|j: int| 0 <= j < s.len() && #[trigger] s[j].address@ == k;
            lemma_lookup(s, j);
            assert(t[j] == s[j]);
            lemma_lookup(t, j);
        }
    }
    lemma_lookup(s, i);
    assert(accounts_map(t) =~= m);
}

impl View for Ledger {
    type V = Map<Seq<u8>, Record>;

    closed spec fn view(&self) -> Map<Seq<u8>, Record> {
        accounts_map(self.accounts@)
    }
}

impl Ledger {
    /// The store is well formed: no two accounts share an address.
    pub closed spec fn wf(&self) -> bool {
        unique_addresses(self.accounts@)
    }

    /// The program that owns the accounts.
    pub closed spec fn id(&self) -> Pubkey {
        self.program_id
    }

    /// The program that owns the accounts.
    pub fn program_id(&self) -> (r: &Pubkey)
        ensures
            *r == self.id(),
    {
        &self.program_id
    }

    /// An empty store for the program `program_id`.
    pub fn new(program_id: Pubkey) -> (r: Ledger)
        ensures
            r.wf(),
            r.id() == program_id,
            r@ == Map::<Seq<u8>, Record>::empty(),
    {
        let r = Ledger { program_id, accounts: Vec::new() };
        assert(r@ =~= Map::<Seq<u8>, Record>::empty());
        r
    }

    /// The index of the account at `address`, if there is one.
    fn position(&self, address: &Pubkey) -> (r: Option<usize>)
        requires
            self.wf(),
        ensures
            match r {
                Some(i) => i < self.accounts@.len() && self.accounts@[i as int].address@ == address@,
                None => !self@.contains_key(address@),
            },
    {
        let mut i: usize = 0;
        while i < self.accounts.len()
            invariant
                i <= self.accounts@.len(),
                forall|j: int| 0 <= j < i ==> self.accounts@[j].address@ != address@,
            decreases self.accounts@.len() - i,
        {
            if self.accounts[i].address == *address {
                return Some(i);
            }
            i += 1;
        }
        None
    }

    /// The record stored at `address`, if there is one.
    pub fn account(&self, address: &Pubkey) -> (r: Option<Record>)
        requires
            self.wf(),
        ensures
            r == (if self@.contains_key(address@) { Some(self@[address@]) } else { None::<Record> }),
    {
        match self.position(address) {
            Some(i) => {
                proof {
                    lemma_lookup(self.accounts@, i as int);
                }
                Some(self.accounts[i].data)
            },
            None => None,
        }
    }

    /// The vault stored at `address`, if a vault is stored there.
    pub fn vault(&self, address: &Pubkey) -> (r: Option<VaultState>)
        requires
            self.wf(),
        ensures
            r == (if self@.contains_key(address@) && self@[address@] is Vault {
                Some(self@[address@]->Vault_0)
            } else {
                None::<VaultState>
            }),
    {
        match self.account(address) {
            Some(Record::Vault(v)) => Some(v),
            _ => None,
        }
    }

    /// The global state stored at `address`, if one is stored there.
    pub fn global_state(&self, address: &Pubkey) -> (r: Option<GlobalState>)
        requires
            self.wf(),
        ensures
            r == (if self@.contains_key(address@) && self@[address@] is Global {
                Some(self@[address@]->Global_0)
            } else {
                None::<GlobalState>
            }),
    {
        match self.account(address) {
            Some(Record::Global(g)) => Some(g),
            _ => None,
        }
    }

    /// Stores `data` at `address`, replacing what was there.
    pub(crate) fn store(&mut self, address: Pubkey, data: Record)
        requires
            old(self).wf(),
        ensures
            final(self).wf(),
            final(self).id() == old(self).id(),
            final(self)@ == old(self)@.insert(address@, data),
    {
        let a = Account { address, data };
        match self.position(&address) {
            Some(i) => {
                proof {
                    lemma_update(self.accounts@, i as int, a);
                }
                self.accounts.set(i, a);
            },
            None => {
                proof {
                    lemma_push(self.accounts@, a);
                }
                self.accounts.push(a);
            },
        }
    }
}

} // verus!
