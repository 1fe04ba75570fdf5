use vstd::prelude::*;

use crate::address::Address;

verus! {

/// A token account as the token program keeps it.
#[derive(Clone, Copy, Debug)]
pub struct TokenAccount {
    /// The account's own address.
    pub key: Address,
    /// The kind of token it holds.
    pub mint: Address,
    /// The identity whose signature moves its tokens (its authority).
    pub owner: Address,
    /// Its balance.
    pub amount: u64,
}

/// Failures of the token program.
#[derive(Clone, Copy, Debug, PartialEq, Eq, Structural)]
pub enum TokenError {
    AccountNotFound,
    InsufficientFunds,
    MintMismatch,
    OwnerMismatch,
    Overflow,
}

/// The token accounts of the ledger. Where two entries share a key, the
/// first one is the account of that key.
pub struct Ledger {
    pub accounts: Vec<TokenAccount>,
}

/// `i` is the first position of an account with key `k`.
pub open spec fn is_first(s: Seq<TokenAccount>, k: Seq<u8>, i: int) -> bool {
    &&& 0 <= i < s.len()
    &&& s[i].key@ == k
    &&& forall|j: int| 0 <= j < i ==> s[j].key@ != k
}

pub open spec fn first_index(s: Seq<TokenAccount>, k: Seq<u8>) -> int {
    choose|i: int| is_first(s, k, i)
}

/// The accounts by key.
pub open spec fn accounts_map(s: Seq<TokenAccount>) -> Map<Seq<u8>, TokenAccount> {
    Map::new(
        |k: Seq<u8>| exists|i: int| is_first(s, k, i),
        |k: Seq<u8>| s[first_index(s, k)],
    )
}

pub open spec fn with_amount(a: TokenAccount, amount: u64) -> TokenAccount {
    TokenAccount { amount, ..a }
}

pub open spec fn with_owner(a: TokenAccount, owner: Address) -> TokenAccount {
    TokenAccount { owner, ..a }
}

/// What a transfer of `amount` from `from` to `to`, signed by `signer`, does
/// to the accounts, or the error it fails with.
pub open spec fn transfer_result(
    m: Map<Seq<u8>, TokenAccount>,
    from: Seq<u8>,
    to: Seq<u8>,
    amount: u64,
    signer: Seq<u8>,
) -> Result<Map<Seq<u8>, TokenAccount>, TokenError> {
    if !m.contains_key(from) || !m.contains_key(to) {
        Err(TokenError::AccountNotFound)
    } else if m[from].amount < amount {
        Err(TokenError::InsufficientFunds)
    } else if m[from].mint@ != m[to].mint@ {
        Err(TokenError::MintMismatch)
    } else if m[from].owner@ != signer {
        Err(TokenError::OwnerMismatch)
    } else if from == to {
        Ok(m)
    } else if m[to].amount + amount > u64::MAX {
        Err(TokenError::Overflow)
    } else {
        Ok(
            m.insert(from, with_amount(m[from], (m[from].amount - amount) as u64)).insert(
                to,
                with_amount(m[to], (m[to].amount + amount) as u64),
            ),
        )
    }
}

/// What handing control of `account` to `new_owner`, signed by `signer`,
/// does to the accounts, or the error it fails with.
pub open spec fn set_authority_result(
    m: Map<Seq<u8>, TokenAccount>,
    account: Seq<u8>,
    signer: Seq<u8>,
    new_owner: Address,
) -> Result<Map<Seq<u8>, TokenAccount>, TokenError> {
    if !m.contains_key(account) {
        Err(TokenError::AccountNotFound)
    } else if m[account].owner@ != signer {
        Err(TokenError::OwnerMismatch)
    } else {
        Ok(m.insert(account, with_owner(m[account], new_owner)))
    }
}

proof fn lemma_first_unique(s: Seq<TokenAccount>, k: Seq<u8>, i: int)
    requires
        is_first(s, k, i),
    ensures
        first_index(s, k) == i,
        accounts_map(s).contains_key(k),
        accounts_map(s)[k] == s[i],
{
    let c = first_index(s, k);
    assert(is_first(s, k, c));
    if c < i {
        assert(s[c].key@ != k);
    } else if i < c {
        assert(s[i].key@ != k);
    }
}

/// Replacing the first account of a key by one with the same key updates
/// that key alone.
proof fn lemma_update(s: Seq<TokenAccount>, i: int, v: TokenAccount)
    requires
        is_first(s, v.key@, i),
    ensures
        accounts_map(s.update(i, v)) == accounts_map(s).insert(v.key@, v),
{
    let t = s.update(i, v);
    let m = accounts_map(s);
    let n = accounts_map(t);
    assert forall|k: Seq<u8>, j: int| is_first(s, k, j) <==> is_first(t, k, j) by {
        if 0 <= j < s.len() {
            assert forall|l: int| 0 <= l < j implies (s[l].key@ == t[l].key@) by {}
            assert(s[j].key@ == t[j].key@);
        }
    }
    assert forall|k: Seq<u8>| n.contains_key(k) <==> m.insert(v.key@, v).contains_key(k) by {
        if n.contains_key(k) {
            let j = choose|j: int| is_first(t, k, j);
            assert(is_first(s, k, j));
        }
        if m.contains_key(k) {
            let j = choose|j: int| is_first(s, k, j);
            assert(is_first(t, k, j));
        }
        if k == v.key@ {
            assert(is_first(t, k, i));
        }
    }
    assert forall|k: Seq<u8>| n.contains_key(k) implies n[k] == m.insert(v.key@, v)[k] by {
        let j = choose|j: int| is_first(t, k, j);
        assert(is_first(s, k, j));
        lemma_first_unique(t, k, j);
        lemma_first_unique(s, k, j);
        if k == v.key@ {
            lemma_first_unique(s, k, i);
        } else {
            assert(j != i);
        }
    }
    assert(n =~= m.insert(v.key@, v));
}

impl View for Ledger {
    type V = Map<Seq<u8>, TokenAccount>;

    open spec fn view(&self) -> Map<Seq<u8>, TokenAccount> {
        accounts_map(self.accounts@)
    }
}

impl Ledger {
    pub fn new(accounts: Vec<TokenAccount>) -> (r: Ledger)
        ensures
            r.accounts@ == accounts@,
    {
        Ledger { accounts }
    }

    /// Position of the account of `key`, if the ledger holds one.
    pub fn find(&self, key: &Address) -> (r: Option<usize>)
        ensures
            match r {
                Some(i) => is_first(self.accounts@, key@, i as int),
                None => !self@.contains_key(key@),
            },
    {
        let mut i: usize = 0;
        while i < self.accounts.len()
            invariant
                0 <= i <= self.accounts@.len(),
                forall|j: int| 0 <= j < i ==> self.accounts@[j].key@ != key@,
            decreases self.accounts@.len() - i,
        {
            if self.accounts[i].key.same(key) {
                return Some(i);
            }
            i = i + 1;
        }
        assert forall|j: int| !is_first(self.accounts@, key@, j) by {}
        None
    }

    /// The account of `key`, if the ledger holds one.
    pub fn get(&self, key: &Address) -> (r: Option<TokenAccount>)
        ensures
            match r {
                Some(a) => self@.contains_key(key@) && self@[key@] == a,
                None => !self@.contains_key(key@),
            },
    {
        match self.find(key) {
            Some(i) => {
                proof {
                    lemma_first_unique(self.accounts@, key@, i as int);
                }
                Some(self.accounts[i])
            },
            None => None,
        }
    }

    /// Balance of the account of `key`, if the ledger holds one.
    pub fn balance(&self, key: &Address) -> (r: Option<u64>)
        ensures
            match r {
                Some(a) => self@.contains_key(key@) && self@[key@].amount == a,
                None => !self@.contains_key(key@),
            },
    {
        match self.get(key) {
            Some(a) => Some(a.amount),
            None => None,
        }
    }

    fn replace(&mut self, i: usize, v: TokenAccount)
        requires
            is_first(old(self).accounts@, v.key@, i as int),
        ensures
            final(self)@ == old(self)@.insert(v.key@, v),
            final(self).accounts@ == old(self).accounts@.update(i as int, v),
    {
        proof {
            lemma_update(self.accounts@, i as int, v);
        }
        self.accounts.set(i, v);
    }

    /// Moves `amount` tokens from `from` to `to`, authorized by `signer`.
    /// Nothing changes when it fails.
    pub fn transfer(&mut self, from: &Address, to: &Address, amount: u64, signer: &Address) -> (r:
        Result<(), TokenError>)
        ensures
            match transfer_result(old(self)@, from@, to@, amount, signer@) {
                Ok(m) => r is Ok && final(self)@ == m,
                Err(e) => r == Err::<(), TokenError>(e) && final(self)@ == old(self)@,
            },
    {
        let i = match self.find(from) {
            Some(i) => i,
            None => return Err(TokenError::AccountNotFound),
        };
        let j = match self.find(to) {
            Some(j) => j,
            None => return Err(TokenError::AccountNotFound),
        };
        proof {
            lemma_first_unique(self.accounts@, from@, i as int);
            lemma_first_unique(self.accounts@, to@, j as int);
        }
        let src = self.accounts[i];
        let dst = self.accounts[j];
        if src.amount < amount {
            return Err(TokenError::InsufficientFunds);
        }
        if !src.mint.same(&dst.mint) {
            return Err(TokenError::MintMismatch);
        }
        if !src.owner.same(signer) {
            return Err(TokenError::OwnerMismatch);
        }
        if i == j {
            return Ok(());
        }
        if dst.amount > u64::MAX - amount {
            return Err(TokenError::Overflow);
        }
        let new_src = TokenAccount { amount: src.amount - amount, ..src };
        let new_dst = TokenAccount { amount: dst.amount + amount, ..dst };
        self.replace(i, new_src);
        proof {
            assert(from@ != to@);
            assert(self.accounts@[j as int] == dst);
            assert forall|l: int| 0 <= l < j implies self.accounts@[l].key@ != to@ by {
                if l == i {
                } else {
                    assert(self.accounts@[l] == old(self).accounts@[l]);
                }
            }
        }
        self.replace(j, new_dst);
        Ok(())
    }

    /// Hands control of `account` to `new_owner`, authorized by `signer`.
    /// Nothing changes when it fails.
    pub fn set_authority(&mut self, account: &Address, signer: &Address, new_owner: &Address) -> (r:
        Result<(), TokenError>)
        ensures
            match set_authority_result(old(self)@, account@, signer@, *new_owner) {
                Ok(m) => r is Ok && final(self)@ == m,
                Err(e) => r == Err::<(), TokenError>(e) && final(self)@ == old(self)@,
            },
    {
        let i = match self.find(account) {
            Some(i) => i,
            None => return Err(TokenError::AccountNotFound),
        };
        proof {
            lemma_first_unique(self.accounts@, account@, i as int);
        }
        let a = self.accounts[i];
        if !a.owner.same(signer) {
            return Err(TokenError::OwnerMismatch);
        }
        self.replace(i, TokenAccount { owner: *new_owner, ..a });
        Ok(())
    }
}

} // verus!
