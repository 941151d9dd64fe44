//! An explicit store of token accounts and the transfers between them.

use vstd::prelude::*;
use crate::address::Address;

verus! {

/// Why the ledger refused a transfer.
#[derive(Clone, Copy, Debug, PartialEq, Eq, Structural)]
pub enum TokenError {
    AccountNotFound,
    OwnerMismatch,
    MintMismatch,
    InsufficientFunds,
    Overflow,
}

/// A token account: its own address, the mint of its tokens, the owner
/// that may move them, and its balance.
#[derive(Clone, Copy, Debug)]
pub struct TokenAccount {
    pub key: Address,
    pub mint: Address,
    pub owner: Address,
    pub amount: u64,
}

/// The token accounts, each key held by at most one of them.
pub struct Ledger {
    pub accounts: Vec<TokenAccount>,
}

/// Whether some account in `s` has the key `key`.
pub open spec fn has_key(s: Seq<TokenAccount>, key: Seq<u8>) -> bool {
    exists|i: int| 0 <= i < s.len() && s[i].key@ == key
}

/// The position of the account with key `key` in `s`.
pub open spec fn index_of(s: Seq<TokenAccount>, key: Seq<u8>) -> int {
    choose|i: int| 0 <= i < s.len() && s[i].key@ == key
}

/// No two accounts share a key.
pub open spec fn keys_unique(s: Seq<TokenAccount>) -> bool {
    forall|i: int, j: int| 0 <= i < s.len() && 0 <= j < s.len() && i != j ==> s[i].key@ != s[j].key@
}

/// The balance held under `key`, zero where no account has it.
pub open spec fn balance(s: Seq<TokenAccount>, key: Seq<u8>) -> int {
    if has_key(s, key) {
        s[index_of(s, key)].amount as int
    } else {
        0
    }
}

/// `a` with its balance replaced by `amount`.
pub open spec fn with_amount(a: TokenAccount, amount: u64) -> TokenAccount {
    TokenAccount { amount, ..a }
}

/// The accounts after `authority` moves `amount` from `from` to `to`, or why
/// that is refused.
pub open spec fn transfer_outcome(
    s: Seq<TokenAccount>,
    from: Seq<u8>,
    to: Seq<u8>,
    amount: u64,
    authority: Seq<u8>,
) -> Result<Seq<TokenAccount>, TokenError> {
    if !has_key(s, from) || !has_key(s, to) {
        Err(TokenError::AccountNotFound)
    } else {
        let i = index_of(s, from);
        let j = index_of(s, to);
        if s[i].amount < amount {
            Err(TokenError::InsufficientFunds)
        } else if s[i].mint@ != s[j].mint@ {
            Err(TokenError::MintMismatch)
        } else if s[i].owner@ != authority {
            Err(TokenError::OwnerMismatch)
        } else if i == j {
            Ok(s)
        } else if s[j].amount + amount > u64::MAX {
            Err(TokenError::Overflow)
        } else {
            Ok(
                s.update(i, with_amount(s[i], (s[i].amount - amount) as u64)).update(
                    j,
                    with_amount(s[j], (s[j].amount + amount) as u64),
                ),
            )
        }
    }
}

impl View for Ledger {
    type V = Seq<TokenAccount>;

    open spec fn view(&self) -> Seq<TokenAccount> {
        self.accounts@
    }
}

impl Ledger {
    pub open spec fn wf(&self) -> bool {
        keys_unique(self@)
    }

    pub fn new() -> (r: Ledger)
        ensures
            r.wf(),
            r@ == Seq::<TokenAccount>::empty(),
    {
        Ledger { accounts: Vec::new() }
    }

    /// The position of the account with key `key`.
    pub fn find(&self, key: &Address) -> (r: Option<usize>)
        requires
            self.wf(),
        ensures
            r is Some <==> has_key(self@, key@),
            r matches Some(i) ==> i == index_of(self@, key@) && i < self@.len(),
    {
        let mut i: usize = 0;
        while i < self.accounts.len()
            invariant
                self.wf(),
                i <= self@.len(),
                forall|k: int| 0 <= k < i ==> self@[k].key@ != key@,
            decreases self@.len() - i,
        {
            if self.accounts[i].key.same(key) {
                proof {
                    assert(has_key(self@, key@));
                    let j = index_of(self@, key@);
                    assert(self@[j].key@ == key@);
                    assert(self@[i as int].key@ == key@);
                    if j != i {
                        assert(self@[i as int].key@ != self@[j].key@);
                    }
                }
                return Some(i);
            }
            i = i + 1;
        }
        None
    }

    /// Adds an account; refused (`false`, nothing added) where its key is
    /// already held.
    pub fn open_account(&mut self, account: TokenAccount) -> (r: bool)
        requires
            old(self).wf(),
        ensures
            final(self).wf(),
            r == !has_key(old(self)@, account.key@),
            r ==> final(self)@ == old(self)@.push(account),
            !r ==> final(self)@ == old(self)@,
    {
        match self.find(&account.key) {
            Some(_) => false,
            None => {
                self.accounts.push(account);
                true
            },
        }
    }

    /// The balance under `key`, zero where no account has it.
    pub fn balance_of(&self, key: &Address) -> (r: u64)
        requires
            self.wf(),
        ensures
            r == balance(self@, key@),
    {
        match self.find(key) {
            Some(i) => self.accounts[i].amount,
            None => 0,
        }
    }

    /// Moves `amount` from `from` to `to` on the authority of `authority`.
    pub fn transfer(&mut self, from: &Address, to: &Address, amount: u64, authority: &Address) -> (r:
        Result<(), TokenError>)
        requires
            old(self).wf(),
        ensures
            final(self).wf(),
            match transfer_outcome(old(self)@, from@, to@, amount, authority@) {
                Ok(s) => r is Ok && final(self)@ == s,
                Err(e) => r == Err::<(), TokenError>(e) && final(self)@ == old(self)@,
            },
    {
        let i = match self.find(from) {
            Some(i) => i,
            None => return Err(TokenError::AccountNotFound),
        };
        let j = match self.find(to) {
            Some(j) => j,
            None => return Err(TokenError::AccountNotFound),
        };
        let source = self.accounts[i];
        let dest = self.accounts[j];
        if source.amount < amount {
            return Err(TokenError::InsufficientFunds);
        }
        if !source.mint.same(&dest.mint) {
            return Err(TokenError::MintMismatch);
        }
        if !source.owner.same(authority) {
            return Err(TokenError::OwnerMismatch);
        }
        if i == j {
            return Ok(());
        }
        if dest.amount > u64::MAX - amount {
            return Err(TokenError::Overflow);
        }
        let ghost before = self@;
        self.accounts.set(i, TokenAccount { amount: source.amount - amount, ..source });
        self.accounts.set(j, TokenAccount { amount: dest.amount + amount, ..dest });
        assert(self@ =~= before.update(i as int, with_amount(source, (source.amount - amount) as u64)).update(
            j as int,
            with_amount(dest, (dest.amount + amount) as u64),
        ));
        assert forall|a: int, b: int|
            0 <= a < self@.len() && 0 <= b < self@.len() && a != b implies self@[a].key@
            != self@[b].key@ by {
            assert(self@[a].key@ == before[a].key@);
            assert(self@[b].key@ == before[b].key@);
        }
        Ok(())
    }
}

/// A successful transfer between two distinct accounts takes exactly
/// `amount` from the source and gives exactly `amount` to the destination.
pub proof fn lemma_transfer_moves_amount(
    s: Seq<TokenAccount>,
    t: Seq<TokenAccount>,
    from: Seq<u8>,
    to: Seq<u8>,
    amount: u64,
    authority: Seq<u8>,
)
    requires
        keys_unique(s),
        from != to,
        transfer_outcome(s, from, to, amount, authority) == Ok::<Seq<TokenAccount>, TokenError>(t),
    ensures
        keys_unique(t),
        balance(t, from) == balance(s, from) - amount,
        balance(t, to) == balance(s, to) + amount,
{
    let i = index_of(s, from);
    let j = index_of(s, to);
    assert(s[i].key@ == from);
    assert(s[j].key@ == to);
    assert(t.len() == s.len());
    assert forall|k: int| 0 <= k < t.len() implies t[k].key@ == s[k].key@ by {}
    assert(t[i].key@ == from);
    assert(t[j].key@ == to);
    assert(has_key(t, from));
    assert(has_key(t, to));
    let fi = index_of(t, from);
    let tj = index_of(t, to);
    assert(t[fi].key@ == from);
    assert(t[tj].key@ == to);
    if fi != i {
        assert(s[fi].key@ != s[i].key@);
    }
    if tj != j {
        assert(s[tj].key@ != s[j].key@);
    }
    assert forall|a: int, b: int| 0 <= a < t.len() && 0 <= b < t.len() && a != b implies t[a].key@
        != t[b].key@ by {
        assert(s[a].key@ != s[b].key@);
    }
}

} // verus!
