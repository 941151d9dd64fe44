//! Checks: creation against a deposit into the vault, and one-time cashing.

use vstd::prelude::*;
use crate::address::Address;
use crate::authority::{
    authority_matches,
    authority_outcome,
    create_program_address,
    option_view,
    program_address,
    result_view,
    verify,
};
use crate::error::ErrorCode;
use crate::ledger::{
    Ledger,
    TokenAccount,
    TokenError,
    balance,
    has_key,
    index_of,
    keys_unique,
    lemma_transfer_moves_amount,
    transfer_outcome,
};

verus! {

/// A single-use check: the amount held in its vault, an optional memo, the
/// vault, the nonce of its authority, and whether it has been cashed.
#[derive(Debug)]
pub struct Check {
    pub amount: u64,
    pub memo: Option<String>,
    pub vault: Address,
    pub nonce: u8,
    pub burned: bool,
}

/// The accounts that creating a check works on: the new check's own
/// address, its token vault, the claimed authority of the vault, the token
/// account the funds come from, and that account's owner.
#[derive(Clone, Copy, Debug)]
pub struct CreateCheck {
    pub check: Address,
    pub vault: Address,
    pub check_signer: Address,
    pub from: Address,
    pub owner: Address,
}

/// The accounts that cashing a check works on: the check's own address,
/// its token vault, the claimed authority of the vault, and the token
/// account that receives the funds.
#[derive(Clone, Copy, Debug)]
pub struct CashCheck {
    pub check: Address,
    pub vault: Address,
    pub check_signer: Address,
    pub to: Address,
}

/// A memo seen as characters.
pub open spec fn memo_view(memo: &Option<String>) -> Option<Seq<char>> {
    match memo {
        Some(m) => Some(m@),
        None => None,
    }
}

/// A check may carry no memo, or exactly the approved one.
pub open spec fn memo_ok(memo: Option<Seq<char>>) -> bool {
    match memo {
        None => true,
        Some(m) => m == "gm"@,
    }
}

/// Whether the vault `vault` is a token account owned by `authority`.
pub open spec fn vault_controlled_by(s: Seq<TokenAccount>, vault: Seq<u8>, authority: Seq<u8>) -> bool {
    has_key(s, vault) && s[index_of(s, vault)].owner@ == authority
}

/// Why creating a check is refused, given the derived authority, or `None`
/// where it succeeds.
pub open spec fn create_error(
    derived: Option<Seq<u8>>,
    accounts: CreateCheck,
    s: Seq<TokenAccount>,
    amount: u64,
    memo: Option<Seq<char>>,
) -> Option<ErrorCode> {
    match authority_outcome(derived, accounts.check_signer@) {
        Err(e) => Some(e),
        Ok(a) => if !vault_controlled_by(s, accounts.vault@, a) {
            Some(ErrorCode::InvalidCheckSigner)
        } else if !memo_ok(memo) {
            Some(ErrorCode::InvalidMessage)
        } else {
            match transfer_outcome(s, accounts.from@, accounts.vault@, amount, accounts.owner@) {
                Err(e) => Some(ErrorCode::TransferFailed(e)),
                Ok(_) => None,
            }
        },
    }
}

/// Why cashing `check` is refused, given the derived authority, or `None`
/// where it succeeds.
pub open spec fn cash_error(
    derived: Option<Seq<u8>>,
    accounts: CashCheck,
    check: Check,
    s: Seq<TokenAccount>,
) -> Option<ErrorCode> {
    if check.burned {
        Some(ErrorCode::AlreadyBurned)
    } else if check.vault@ != accounts.vault@ {
        Some(ErrorCode::InvalidCheckSigner)
    } else {
        match authority_outcome(derived, accounts.check_signer@) {
            Err(e) => Some(e),
            Ok(a) => match transfer_outcome(s, accounts.vault@, accounts.to@, check.amount, a) {
                Err(e) => Some(ErrorCode::TransferFailed(e)),
                Ok(_) => None,
            },
        }
    }
}

/// The check that a successful creation records.
pub open spec fn new_check(accounts: CreateCheck, amount: u64, memo: Option<String>, nonce: u8) -> Check {
    Check { amount, memo, vault: accounts.vault, nonce, burned: false }
}

/// `check` once cashed.
pub open spec fn burn(check: Check) -> Check {
    Check { burned: true, ..check }
}

/// Whether the memo is absent or the approved one.
pub fn memo_allowed(memo: &Option<String>) -> (r: bool)
    ensures
        r == memo_ok(memo_view(memo)),
{
    match memo {
        None => true,
        Some(m) => {
            let approved = String::from_str("gm");
            proof {
                reveal_strlit("gm");
            }
            *m == approved
        },
    }
}

/// Refuses a check that has already been cashed.
pub fn not_burned(check: &Check) -> (r: Result<(), ErrorCode>)
    ensures
        check.burned ==> r == Err::<(), ErrorCode>(ErrorCode::AlreadyBurned),
        !check.burned ==> r is Ok,
{
    if check.burned {
        return Err(ErrorCode::AlreadyBurned);
    }
    Ok(())
}

impl CreateCheck {
    /// Holds the claimed vault authority against the one derived from the
    /// new check's address and `nonce`.
    pub fn accounts(&self, nonce: u8, program_id: &Address) -> (r: Result<Address, ErrorCode>)
        ensures
            result_view(r) == authority_outcome(
                program_address(self.check@, nonce, program_id@),
                self.check_signer@,
            ),
    {
        verify(&self.check_signer, &self.check, nonce, program_id)
    }
}

/// Creates a check, given the authority derived from the new check's
/// address and `nonce` (`None` where no address derives): holds it against
/// the claimed signer and the vault's owner, checks the memo, and moves
/// `amount` from `from` into the vault.
pub fn create_check_with(
    ledger: &mut Ledger,
    accounts: &CreateCheck,
    derived: Option<Address>,
    amount: u64,
    memo: Option<String>,
    nonce: u8,
) -> (r: Result<Check, ErrorCode>)
    requires
        old(ledger).wf(),
    ensures
        final(ledger).wf(),
        match create_error(option_view(derived), *accounts, old(ledger)@, amount, memo_view(&memo)) {
            Some(e) => r == Err::<Check, ErrorCode>(e) && final(ledger)@ == old(ledger)@,
            None => r == Ok::<Check, ErrorCode>(new_check(*accounts, amount, memo, nonce))
                && transfer_outcome(
                old(ledger)@,
                accounts.from@,
                accounts.vault@,
                amount,
                accounts.owner@,
            ) == Ok::<Seq<TokenAccount>, TokenError>(final(ledger)@),
        },
{
    let authority = match authority_matches(derived, &accounts.check_signer) {
        Ok(a) => a,
        Err(e) => return Err(e),
    };
    match ledger.find(&accounts.vault) {
        None => return Err(ErrorCode::InvalidCheckSigner),
        Some(i) => {
            if !ledger.accounts[i].owner.same(&authority) {
                return Err(ErrorCode::InvalidCheckSigner);
            }
        },
    }
    if !memo_allowed(&memo) {
        return Err(ErrorCode::InvalidMessage);
    }
    match ledger.transfer(&accounts.from, &accounts.vault, amount, &accounts.owner) {
        Ok(()) => {},
        Err(e) => return Err(ErrorCode::TransferFailed(e)),
    }
    Ok(Check { amount, memo, vault: accounts.vault, nonce, burned: false })
}

/// Creates a check: derives the vault authority from the new check's
/// address and `nonce`, then proceeds as `create_check_with`.
pub fn create_check(
    ledger: &mut Ledger,
    accounts: &CreateCheck,
    amount: u64,
    memo: Option<String>,
    nonce: u8,
    program_id: &Address,
) -> (r: Result<Check, ErrorCode>)
    requires
        old(ledger).wf(),
    ensures
        final(ledger).wf(),
        match create_error(
            program_address(accounts.check@, nonce, program_id@),
            *accounts,
            old(ledger)@,
            amount,
            memo_view(&memo),
        ) {
            Some(e) => r == Err::<Check, ErrorCode>(e) && final(ledger)@ == old(ledger)@,
            None => r == Ok::<Check, ErrorCode>(new_check(*accounts, amount, memo, nonce))
                && transfer_outcome(
                old(ledger)@,
                accounts.from@,
                accounts.vault@,
                amount,
                accounts.owner@,
            ) == Ok::<Seq<TokenAccount>, TokenError>(final(ledger)@),
        },
{
    let derived = create_program_address(&accounts.check, nonce, program_id);
    create_check_with(ledger, accounts, derived, amount, memo, nonce)
}

/// Cashes a check, given the authority derived from the check's address
/// and nonce: refuses a burned check or a foreign vault, holds the derived
/// authority against the claimed signer, moves the check's whole amount
/// from the vault to `to`, and burns the check.
pub fn cash_check_with(
    ledger: &mut Ledger,
    accounts: &CashCheck,
    check: &mut Check,
    derived: Option<Address>,
) -> (r: Result<(), ErrorCode>)
    requires
        old(ledger).wf(),
    ensures
        final(ledger).wf(),
        match cash_error(option_view(derived), *accounts, *old(check), old(ledger)@) {
            Some(e) => r == Err::<(), ErrorCode>(e) && final(ledger)@ == old(ledger)@ && *final(check)
                == *old(check),
            None => r is Ok && *final(check) == burn(*old(check)) && transfer_outcome(
                old(ledger)@,
                accounts.vault@,
                accounts.to@,
                old(check).amount,
                accounts.check_signer@,
            ) == Ok::<Seq<TokenAccount>, TokenError>(final(ledger)@),
        },
{
    match not_burned(check) {
        Ok(()) => {},
        Err(e) => return Err(e),
    }
    if !check.vault.same(&accounts.vault) {
        return Err(ErrorCode::InvalidCheckSigner);
    }
    let authority = match authority_matches(derived, &accounts.check_signer) {
        Ok(a) => a,
        Err(e) => return Err(e),
    };
    match ledger.transfer(&accounts.vault, &accounts.to, check.amount, &authority) {
        Ok(()) => {},
        Err(e) => return Err(ErrorCode::TransferFailed(e)),
    }
    check.burned = true;
    Ok(())
}

/// Cashes a check: derives the vault authority from the check's address
/// and stored nonce, then proceeds as `cash_check_with`.
pub fn cash_check(
    ledger: &mut Ledger,
    accounts: &CashCheck,
    check: &mut Check,
    program_id: &Address,
) -> (r: Result<(), ErrorCode>)
    requires
        old(ledger).wf(),
    ensures
        final(ledger).wf(),
        match cash_error(
            program_address(accounts.check@, old(check).nonce, program_id@),
            *accounts,
            *old(check),
            old(ledger)@,
        ) {
            Some(e) => r == Err::<(), ErrorCode>(e) && final(ledger)@ == old(ledger)@ && *final(check)
                == *old(check),
            None => r is Ok && *final(check) == burn(*old(check)) && transfer_outcome(
                old(ledger)@,
                accounts.vault@,
                accounts.to@,
                old(check).amount,
                accounts.check_signer@,
            ) == Ok::<Seq<TokenAccount>, TokenError>(final(ledger)@),
        },
{
    let derived = create_program_address(&accounts.check, check.nonce, program_id);
    cash_check_with(ledger, accounts, check, derived)
}

/// A check is cashed at most once: once a cashing succeeds, every later
/// attempt on the burned check is refused with `AlreadyBurned`, whatever
/// accounts, authority and ledger it is made with.
pub proof fn cashing_twice_fails(
    first_derived: Option<Seq<u8>>,
    first_accounts: CashCheck,
    check: Check,
    first_ledger: Seq<TokenAccount>,
    second_derived: Option<Seq<u8>>,
    second_accounts: CashCheck,
    second_ledger: Seq<TokenAccount>,
)
    requires
        cash_error(first_derived, first_accounts, check, first_ledger) is None,
    ensures
        !check.burned,
        burn(check).burned,
        cash_error(second_derived, second_accounts, burn(check), second_ledger) == Some(
            ErrorCode::AlreadyBurned,
        ),
{
}

/// A burned check is never cashed again.
pub proof fn burned_check_is_refused(
    derived: Option<Seq<u8>>,
    accounts: CashCheck,
    check: Check,
    s: Seq<TokenAccount>,
)
    requires
        check.burned,
    ensures
        cash_error(derived, accounts, check, s) == Some(ErrorCode::AlreadyBurned),
{
}

/// Creating a check whose vault is not owned by the derived authority is
/// refused with `InvalidCheckSigner`.
pub proof fn foreign_vault_is_refused(
    derived: Option<Seq<u8>>,
    accounts: CreateCheck,
    s: Seq<TokenAccount>,
    amount: u64,
    memo: Option<Seq<char>>,
)
    requires
        derived matches Some(a) && !vault_controlled_by(s, accounts.vault@, a),
    ensures
        create_error(derived, accounts, s, amount, memo) == Some(ErrorCode::InvalidCheckSigner),
{
}

/// The memo policy: no memo and the approved memo are accepted; any other
/// memo refuses an otherwise valid creation with `InvalidMessage`.
pub proof fn memo_policy(
    derived: Option<Seq<u8>>,
    accounts: CreateCheck,
    s: Seq<TokenAccount>,
    amount: u64,
    memo: Seq<char>,
)
    requires
        derived == Some(accounts.check_signer@),
        vault_controlled_by(s, accounts.vault@, accounts.check_signer@),
    ensures
        memo_ok(None),
        memo_ok(Some("gm"@)),
        memo != "gm"@ ==> create_error(derived, accounts, s, amount, Some(memo)) == Some(
            ErrorCode::InvalidMessage,
        ),
        create_error(derived, accounts, s, amount, None) == create_error(
            derived,
            accounts,
            s,
            amount,
            Some("gm"@),
        ),
{
}

/// The amount a check pays out is the amount deposited into it: creation
/// moves `amount` from the source into the vault, and cashing the recorded
/// check moves that same amount from the vault to the recipient.
pub proof fn redeemed_equals_deposited(
    created: Option<Seq<u8>>,
    create_accounts: CreateCheck,
    before: Seq<TokenAccount>,
    after_create: Seq<TokenAccount>,
    amount: u64,
    memo: Option<String>,
    nonce: u8,
    cashed: Option<Seq<u8>>,
    cash_accounts: CashCheck,
    before_cash: Seq<TokenAccount>,
    after_cash: Seq<TokenAccount>,
)
    requires
        keys_unique(before),
        keys_unique(before_cash),
        create_accounts.from@ != create_accounts.vault@,
        cash_accounts.vault@ != cash_accounts.to@,
        create_error(created, create_accounts, before, amount, memo_view(&memo)) is None,
        transfer_outcome(
            before,
            create_accounts.from@,
            create_accounts.vault@,
            amount,
            create_accounts.owner@,
        ) == Ok::<Seq<TokenAccount>, TokenError>(after_create),
        cash_error(cashed, cash_accounts, new_check(create_accounts, amount, memo, nonce), before_cash)
            is None,
        transfer_outcome(
            before_cash,
            cash_accounts.vault@,
            cash_accounts.to@,
            new_check(create_accounts, amount, memo, nonce).amount,
            cash_accounts.check_signer@,
        ) == Ok::<Seq<TokenAccount>, TokenError>(after_cash),
    ensures
        new_check(create_accounts, amount, memo, nonce).amount == amount,
        balance(after_create, create_accounts.from@) == balance(before, create_accounts.from@)
            - amount,
        balance(after_create, create_accounts.vault@) == balance(before, create_accounts.vault@)
            + amount,
        balance(after_cash, cash_accounts.vault@) == balance(before_cash, cash_accounts.vault@)
            - amount,
        balance(after_cash, cash_accounts.to@) == balance(before_cash, cash_accounts.to@) + amount,
{
    lemma_transfer_moves_amount(
        before,
        after_create,
        create_accounts.from@,
        create_accounts.vault@,
        amount,
        create_accounts.owner@,
    );
    lemma_transfer_moves_amount(
        before_cash,
        after_cash,
        cash_accounts.vault@,
        cash_accounts.to@,
        amount,
        cash_accounts.check_signer@,
    );
}

} // verus!
