//! The token contract: construction, the token interface, burning, and
//! minting by the owner.

use vstd::prelude::*;
use soroban_sdk::Address;
use soroban_sdk::Env;
use soroban_sdk::Val;
use crate::host;
use crate::host::address_at;
use crate::host::asked;
use crate::host::asked_nobody;
use crate::host::allowance_of;
use crate::host::authorized;
use crate::host::balance_of;
use crate::host::expiry_of;
use crate::host::flag_at;
use crate::host::live_limit_of;
use crate::host::metadata_of;
use crate::host::name_at;
use crate::host::moved;
use crate::host::number_at;
use crate::host::same_allowances;
use crate::host::same_allowances_but;
use crate::host::same_balances;
use crate::host::same_clock;
use crate::host::same_setup;
use crate::host::sequence_of;
use crate::host::supply_of;
use crate::host::text_of;
use crate::host::value_at;
use crate::mode::TestMode;
use crate::status::Status;

verus! {

/// The slot that holds the owner's address.
pub const OWNER: &'static str = "OWNER";

/// The slot that holds the flag given at construction.
pub const MYBOOL: &'static str = "MYBOOL";

/// The slot that holds the deployment stage given at construction.
pub const MYENUM: &'static str = "MYENUM";

/// The slot that holds the activity state given at construction.
pub const STATUS: &'static str = "STATUS";

/// The slot that holds the tagged value given at construction.
pub const TESTKIND: &'static str = "TESTKIND";

/// The slot that holds the record given at construction.
pub const TESTOBJ: &'static str = "TESTOBJ";

/// The token's name.
pub const NAME: &'static str = "MyToken";

/// The token's symbol.
pub const SYMBOL: &'static str = "MTK";

/// The token's number of decimals.
pub const DECIMALS: u32 = 18;

/// Why the token refuses an operation.
#[derive(Copy, Clone, Debug, PartialEq, Eq, Structural)]
pub enum TokenError {
    /// No owner is recorded.
    OwnerUnset,
    /// No metadata are recorded.
    UnsetMetadata,
    /// The amount is negative.
    LessThanZero,
    /// The account holds less than the amount.
    InsufficientBalance,
    /// The allowance is less than the amount.
    InsufficientAllowance,
    /// The allowance would end after the host's limit, or before the current
    /// ledger.
    InvalidLiveUntilLedger,
    /// A balance or the supply would leave the range of amounts.
    MathOverflow,
}

/// The names of the six slots that construction fills.
pub open spec fn is_slot_name(k: Seq<char>) -> bool {
    k == OWNER@ || k == MYBOOL@ || k == MYENUM@ || k == STATUS@ || k == TESTKIND@ || k == TESTOBJ@
}

/// The six slot names are symbols, and no two of them are equal.
pub proof fn lemma_slot_names()
    ensures
        host::is_symbol(OWNER@),
        host::is_symbol(MYBOOL@),
        host::is_symbol(MYENUM@),
        host::is_symbol(STATUS@),
        host::is_symbol(TESTKIND@),
        host::is_symbol(TESTOBJ@),
        OWNER@ != MYBOOL@ && OWNER@ != MYENUM@ && OWNER@ != STATUS@ && OWNER@ != TESTKIND@ && OWNER@
            != TESTOBJ@,
        MYBOOL@ != MYENUM@ && MYBOOL@ != STATUS@ && MYBOOL@ != TESTKIND@ && MYBOOL@ != TESTOBJ@,
        MYENUM@ != STATUS@ && MYENUM@ != TESTKIND@ && MYENUM@ != TESTOBJ@,
        STATUS@ != TESTKIND@ && STATUS@ != TESTOBJ@,
        TESTKIND@ != TESTOBJ@,
{
    reveal_strlit("OWNER");
    reveal_strlit("MYBOOL");
    reveal_strlit("MYENUM");
    reveal_strlit("STATUS");
    reveal_strlit("TESTKIND");
    reveal_strlit("TESTOBJ");
    assert(MYBOOL@[2] != MYENUM@[2]);
    assert(MYBOOL@[0] != STATUS@[0]);
    assert(MYENUM@[0] != STATUS@[0]);
}

/// Why `amount` cannot be added to the supply and to the balance of `to`, if
/// it cannot.
pub open spec fn issue_fault(e: Env, to: Address, amount: i128) -> Option<TokenError> {
    if amount < 0 {
        Some(TokenError::LessThanZero)
    } else if supply_of(e) + amount > i128::MAX {
        Some(TokenError::MathOverflow)
    } else if balance_of(e, to) + amount > i128::MAX {
        Some(TokenError::MathOverflow)
    } else {
        None
    }
}

/// Why the owner cannot mint `amount` for `account`, if they cannot.
pub open spec fn mint_fault(e: Env, account: Address, amount: i128) -> Option<TokenError> {
    if address_at(e, OWNER@) is None {
        Some(TokenError::OwnerUnset)
    } else {
        issue_fault(e, account, amount)
    }
}

/// Why `amount` cannot move from the balance of `from` to that of `to`, if it
/// cannot.
pub open spec fn move_fault(e: Env, from: Address, to: Address, amount: i128) -> Option<TokenError> {
    if amount < 0 {
        Some(TokenError::LessThanZero)
    } else if balance_of(e, from) < amount {
        Some(TokenError::InsufficientBalance)
    } else if from != to && balance_of(e, to) + amount > i128::MAX {
        Some(TokenError::MathOverflow)
    } else {
        None
    }
}

/// Why `spender` cannot take `amount` off the allowance that `owner` gave,
/// if they cannot.
pub open spec fn spend_fault(e: Env, owner: Address, spender: Address, amount: i128) -> Option<
    TokenError,
> {
    if amount < 0 {
        Some(TokenError::LessThanZero)
    } else if allowance_of(e, owner, spender) < amount {
        Some(TokenError::InsufficientAllowance)
    } else if amount > 0 && expiry_of(e, owner, spender) > live_limit_of(e) {
        Some(TokenError::InvalidLiveUntilLedger)
    } else {
        None
    }
}

/// Why `spender` cannot move `amount` from `from` to `to`, if they cannot.
pub open spec fn transfer_from_fault(
    e: Env,
    spender: Address,
    from: Address,
    to: Address,
    amount: i128,
) -> Option<TokenError> {
    if spend_fault(e, from, spender, amount) is Some {
        spend_fault(e, from, spender, amount)
    } else {
        move_fault(e, from, to, amount)
    }
}

/// Why an allowance of `amount` that holds until `live_until_ledger` cannot
/// be set, if it cannot.
pub open spec fn approve_fault(e: Env, amount: i128, live_until_ledger: u32) -> Option<TokenError> {
    if amount < 0 {
        Some(TokenError::LessThanZero)
    } else if live_until_ledger > live_limit_of(e) || (amount > 0 && live_until_ledger
        < sequence_of(e)) {
        Some(TokenError::InvalidLiveUntilLedger)
    } else {
        None
    }
}

/// Why `amount` cannot be taken off the balance of `from` and off the
/// supply, if it cannot.
pub open spec fn burn_fault(e: Env, from: Address, amount: i128) -> Option<TokenError> {
    if amount < 0 {
        Some(TokenError::LessThanZero)
    } else if balance_of(e, from) < amount {
        Some(TokenError::InsufficientBalance)
    } else if supply_of(e) < amount {
        Some(TokenError::MathOverflow)
    } else {
        None
    }
}

/// Why `spender` cannot burn `amount` of what `from` holds, if they cannot.
pub open spec fn burn_from_fault(e: Env, spender: Address, from: Address, amount: i128) -> Option<
    TokenError,
> {
    if spend_fault(e, from, spender, amount) is Some {
        spend_fault(e, from, spender, amount)
    } else {
        burn_fault(e, from, amount)
    }
}

/// The recorded owner may mint `amount` for `account`: an owner is recorded
/// and has authorized the invocation, and the tokens can be issued.
pub open spec fn mint_admitted(e: Env, account: Address, amount: i128) -> bool {
    &&& mint_fault(e, account, amount) is None
    &&& authorized(e, address_at(e, OWNER@).unwrap())
}

/// `from` may move `amount` to `to`: `from` has authorized the invocation,
/// and the amount can move.
pub open spec fn transfer_admitted(e: Env, from: Address, to: Address, amount: i128) -> bool {
    &&& move_fault(e, from, to, amount) is None
    &&& authorized(e, from)
}

/// `spender` may move `amount` from `from` to `to`: `spender` has authorized
/// the invocation, the allowance covers the amount, and the amount can move.
pub open spec fn transfer_from_admitted(
    e: Env,
    spender: Address,
    from: Address,
    to: Address,
    amount: i128,
) -> bool {
    &&& transfer_from_fault(e, spender, from, to, amount) is None
    &&& authorized(e, spender)
}

/// `owner` may set an allowance of `amount` until `live_until_ledger`:
/// `owner` has authorized the invocation, and the allowance can be set.
pub open spec fn approve_admitted(e: Env, owner: Address, amount: i128, live_until_ledger: u32) -> bool {
    &&& approve_fault(e, amount, live_until_ledger) is None
    &&& authorized(e, owner)
}

/// `from` may burn `amount`: `from` has authorized the invocation, and the
/// tokens can be destroyed.
pub open spec fn burn_admitted(e: Env, from: Address, amount: i128) -> bool {
    &&& burn_fault(e, from, amount) is None
    &&& authorized(e, from)
}

/// `spender` may burn `amount` of what `from` holds: `spender` has
/// authorized the invocation, the allowance covers the amount, and the tokens
/// can be destroyed.
pub open spec fn burn_from_admitted(e: Env, spender: Address, from: Address, amount: i128) -> bool {
    &&& burn_from_fault(e, spender, from, amount) is None
    &&& authorized(e, spender)
}

/// What a checked operation answers: the fault, or success where there is
/// none.
pub open spec fn answer(fault: Option<TokenError>) -> Result<(), TokenError> {
    match fault {
        Some(f) => Err(f),
        None => Ok(()),
    }
}

/// Nothing that the environment shows differs between `a` and `b`.
pub open spec fn unchanged(a: Env, b: Env) -> bool {
    &&& host::same_ledger(a, b)
    &&& same_setup(a, b)
    &&& asked_nobody(a, b)
}

/// `b` is `a` after `amount` new tokens went to `to`.
pub open spec fn minted(a: Env, b: Env, to: Address, amount: i128) -> bool {
    &&& supply_of(b) == supply_of(a) + amount
    &&& moved(a, b, None, Some(to), amount as int)
    &&& same_allowances(a, b)
    &&& same_setup(a, b)
}

/// `b` is `a` after `amount` tokens went from `from` to `to`.
pub open spec fn transferred(a: Env, b: Env, from: Address, to: Address, amount: i128) -> bool {
    &&& moved(a, b, Some(from), Some(to), amount as int)
    &&& supply_of(b) == supply_of(a)
    &&& same_setup(a, b)
}

/// `b` is `a` after `amount` tokens of `from` were destroyed.
pub open spec fn burned(a: Env, b: Env, from: Address, amount: i128) -> bool {
    &&& moved(a, b, Some(from), None, amount as int)
    &&& supply_of(b) == supply_of(a) - amount
    &&& same_setup(a, b)
}

/// In `b` the allowance that `owner` gave to `spender` is `amount` less than
/// in `a`, and no other allowance differs.
pub open spec fn spent(a: Env, b: Env, owner: Address, spender: Address, amount: i128) -> bool {
    &&& allowance_of(b, owner, spender) == allowance_of(a, owner, spender) - amount
    &&& expiry_of(b, owner, spender) == expiry_of(a, owner, spender)
    &&& same_allowances_but(a, b, owner, spender)
}

/// `b` is `a` after `owner` allowed `spender` to move `amount` until
/// `live_until_ledger`.
pub open spec fn approved(
    a: Env,
    b: Env,
    owner: Address,
    spender: Address,
    amount: i128,
    live_until_ledger: u32,
) -> bool {
    &&& allowance_of(b, owner, spender) == amount
    &&& expiry_of(b, owner, spender) == (if live_until_ledger < sequence_of(a) {
        0u32
    } else {
        live_until_ledger
    })
    &&& same_allowances_but(a, b, owner, spender)
    &&& same_balances(a, b)
    &&& supply_of(b) == supply_of(a)
    &&& same_setup(a, b)
}

/// `b` is `a` after the token was set up for `owner` with `initial_supply`
/// tokens, and the owner and the five values were put in their slots.
pub open spec fn constructed(
    a: Env,
    b: Env,
    owner: Address,
    initial_supply: i128,
    mybool: bool,
    myenum: TestMode,
    status: Status,
    testkind: Val,
    testobj: Val,
) -> bool {
    &&& metadata_of(b) == Some((DECIMALS, NAME@, SYMBOL@))
    &&& supply_of(b) == supply_of(a) + initial_supply
    &&& moved(a, b, None, Some(owner), initial_supply as int)
    &&& same_allowances(a, b)
    &&& address_at(b, OWNER@) == Some(owner)
    &&& flag_at(b, MYBOOL@) == Some(mybool)
    &&& number_at(b, MYENUM@) == Some(myenum.spec_code())
    &&& name_at(b, STATUS@) == Some(status.spec_label())
    &&& value_at(b, TESTKIND@) == Some(testkind)
    &&& value_at(b, TESTOBJ@) == Some(testobj)
    &&& forall|k: Seq<char>| !is_slot_name(k) ==> #[trigger] address_at(b, k) == address_at(a, k)
    &&& forall|k: Seq<char>| !is_slot_name(k) ==> #[trigger] flag_at(b, k) == flag_at(a, k)
    &&& forall|k: Seq<char>| !is_slot_name(k) ==> #[trigger] number_at(b, k) == number_at(a, k)
    &&& forall|k: Seq<char>| !is_slot_name(k) ==> #[trigger] name_at(b, k) == name_at(a, k)
    &&& forall|k: Seq<char>| !is_slot_name(k) ==> #[trigger] value_at(b, k) == value_at(a, k)
    &&& same_clock(a, b)
    &&& asked_nobody(a, b)
}

/// The token contract.
pub struct MyToken;

impl MyToken {
    /// Sets the token up: 18 decimals, the name "MyToken" and the symbol
    /// "MTK"; `initial_supply` new tokens for `owner`; and the owner, the
    /// flag, the stage, the state and the two host values in their slots.
    /// Nothing reads the five values again.
    pub fn __constructor(
        e: &mut Env,
        owner: Address,
        initial_supply: i128,
        mybool: bool,
        myenum: TestMode,
        status: Status,
        testkind: Val,
        testobj: Val,
    )
        requires
            issue_fault(*old(e), owner, initial_supply) is None,
        ensures
            constructed(
                *old(e),
                *final(e),
                owner,
                initial_supply,
                mybool,
                myenum,
                status,
                testkind,
                testobj,
            ),
    {
        proof {
            lemma_slot_names();
        }
        let name = host::host_text(e, NAME);
        let symbol = host::host_text(e, SYMBOL);
        host::set_metadata(e, DECIMALS, name, symbol);
        host::mint(e, &owner, initial_supply);
        host::put_address(e, OWNER, &owner);
        host::put_flag(e, MYBOOL, mybool);
        host::put_number(e, MYENUM, myenum.code());
        proof {
            status.lemma_labels(status);
        }
        host::put_name(e, STATUS, status.label());
        host::put_value(e, TESTKIND, testkind);
        host::put_value(e, TESTOBJ, testobj);
    }

    /// The number of tokens in circulation.
    pub fn total_supply(e: &Env) -> (supply: i128)
        ensures
            supply == supply_of(*e),
    {
        host::total_supply(e)
    }

    /// The number of tokens that `account` holds.
    pub fn balance(e: &Env, account: Address) -> (held: i128)
        ensures
            held == balance_of(*e, account),
    {
        host::balance(e, &account)
    }

    /// What `spender` may still move out of the balance of `owner`.
    pub fn allowance(e: &Env, owner: Address, spender: Address) -> (allowed: i128)
        ensures
            allowed == allowance_of(*e, owner, spender),
    {
        host::allowance(e, &owner, &spender)
    }

    /// Moves `amount` tokens from `from` to `to`, under the authorization of
    /// `from`.
    pub fn transfer(e: &mut Env, from: Address, to: Address, amount: i128)
        requires
            transfer_admitted(*old(e), from, to, amount),
        ensures
            asked(*old(e), *final(e), from),
            transferred(*old(e), *final(e), from, to, amount),
            same_allowances(*old(e), *final(e)),
    {
        host::transfer(e, &from, &to, amount);
    }

    /// Moves `amount` tokens from `from` to `to` out of the allowance that
    /// `from` gave to `spender`, under the authorization of `spender`.
    pub fn transfer_from(e: &mut Env, spender: Address, from: Address, to: Address, amount: i128)
        requires
            transfer_from_admitted(*old(e), spender, from, to, amount),
        ensures
            asked(*old(e), *final(e), spender),
            transferred(*old(e), *final(e), from, to, amount),
            spent(*old(e), *final(e), from, spender, amount),
    {
        host::transfer_from(e, &spender, &from, &to, amount);
    }

    /// Lets `spender` move up to `amount` tokens of `owner` until
    /// `live_until_ledger`, under the authorization of `owner`.
    pub fn approve(e: &mut Env, owner: Address, spender: Address, amount: i128, live_until_ledger: u32)
        requires
            approve_admitted(*old(e), owner, amount, live_until_ledger),
        ensures
            asked(*old(e), *final(e), owner),
            approved(*old(e), *final(e), owner, spender, amount, live_until_ledger),
    {
        host::approve(e, &owner, &spender, amount, live_until_ledger);
    }

    /// The token's number of decimals.
    pub fn decimals(e: &Env) -> (decimals: u32)
        requires
            metadata_of(*e) is Some,
        ensures
            decimals == metadata_of(*e).unwrap().0,
    {
        host::decimals(e)
    }

    /// The token's name.
    pub fn name(e: &Env) -> (name: soroban_sdk::String)
        requires
            metadata_of(*e) is Some,
        ensures
            text_of(name) == metadata_of(*e).unwrap().1,
    {
        host::name(e)
    }

    /// The token's symbol.
    pub fn symbol(e: &Env) -> (symbol: soroban_sdk::String)
        requires
            metadata_of(*e) is Some,
        ensures
            text_of(symbol) == metadata_of(*e).unwrap().2,
    {
        host::symbol(e)
    }

    /// Destroys `amount` tokens of `from`, under the authorization of `from`.
    pub fn burn(e: &mut Env, from: Address, amount: i128)
        requires
            burn_admitted(*old(e), from, amount),
        ensures
            asked(*old(e), *final(e), from),
            burned(*old(e), *final(e), from, amount),
            same_allowances(*old(e), *final(e)),
    {
        host::burn(e, &from, amount);
    }

    /// Destroys `amount` tokens of `from` out of the allowance that `from`
    /// gave to `spender`, under the authorization of `spender`.
    pub fn burn_from(e: &mut Env, spender: Address, from: Address, amount: i128)
        requires
            burn_from_admitted(*old(e), spender, from, amount),
        ensures
            asked(*old(e), *final(e), spender),
            burned(*old(e), *final(e), from, amount),
            spent(*old(e), *final(e), from, spender, amount),
    {
        host::burn_from(e, &spender, &from, amount);
    }

    /// Creates `amount` new tokens for `account`, under the authorization of
    /// the recorded owner, whoever else has authorized the invocation: it
    /// demands the owner's authorization, and nobody else's.
    pub fn mint(e: &mut Env, account: Address, amount: i128)
        requires
            mint_admitted(*old(e), account, amount),
        ensures
            asked(*old(e), *final(e), address_at(*old(e), OWNER@).unwrap()),
            minted(*old(e), *final(e), account, amount),
    {
        proof {
            lemma_slot_names();
        }
        let owner = host::get_address(e, OWNER).unwrap();
        host::require_auth(e, &owner);
        host::mint(e, &account, amount);
    }

    /// `issue_fault`, computed.
    fn check_issue(e: &Env, to: &Address, amount: i128) -> (fault: Option<TokenError>)
        ensures
            fault == issue_fault(*e, *to, amount),
    {
        if amount < 0 {
            Some(TokenError::LessThanZero)
        } else if host::total_supply(e) > i128::MAX - amount {
            Some(TokenError::MathOverflow)
        } else if host::balance(e, to) > i128::MAX - amount {
            Some(TokenError::MathOverflow)
        } else {
            None
        }
    }

    /// `move_fault`, computed.
    fn check_move(e: &Env, from: &Address, to: &Address, amount: i128) -> (fault: Option<TokenError>)
        ensures
            fault == move_fault(*e, *from, *to, amount),
    {
        if amount < 0 {
            Some(TokenError::LessThanZero)
        } else if host::balance(e, from) < amount {
            Some(TokenError::InsufficientBalance)
        } else if !host::same_address(from, to) && host::balance(e, to) > i128::MAX - amount {
            Some(TokenError::MathOverflow)
        } else {
            None
        }
    }

    /// `spend_fault`, computed.
    fn check_spend(e: &Env, owner: &Address, spender: &Address, amount: i128) -> (fault: Option<
        TokenError,
    >)
        ensures
            fault == spend_fault(*e, *owner, *spender, amount),
    {
        let terms = host::allowance_terms(e, owner, spender);
        if amount < 0 {
            Some(TokenError::LessThanZero)
        } else if terms.0 < amount {
            Some(TokenError::InsufficientAllowance)
        } else if amount > 0 && terms.1 > host::live_limit(e) {
            Some(TokenError::InvalidLiveUntilLedger)
        } else {
            None
        }
    }

    /// `burn_fault`, computed.
    fn check_burn(e: &Env, from: &Address, amount: i128) -> (fault: Option<TokenError>)
        ensures
            fault == burn_fault(*e, *from, amount),
    {
        if amount < 0 {
            Some(TokenError::LessThanZero)
        } else if host::balance(e, from) < amount {
            Some(TokenError::InsufficientBalance)
        } else if host::total_supply(e) < amount {
            Some(TokenError::MathOverflow)
        } else {
            None
        }
    }

    /// `approve_fault`, computed.
    fn check_approve(e: &Env, amount: i128, live_until_ledger: u32) -> (fault: Option<TokenError>)
        ensures
            fault == approve_fault(*e, amount, live_until_ledger),
    {
        if amount < 0 {
            Some(TokenError::LessThanZero)
        } else if live_until_ledger > host::live_limit(e) || (amount > 0 && live_until_ledger
            < host::sequence(e)) {
            Some(TokenError::InvalidLiveUntilLedger)
        } else {
            None
        }
    }

    /// Sets the token up as `__constructor` does where the initial supply
    /// can be issued, and says why it cannot where it cannot.
    pub fn try_constructor(
        e: &mut Env,
        owner: Address,
        initial_supply: i128,
        mybool: bool,
        myenum: TestMode,
        status: Status,
        testkind: Val,
        testobj: Val,
    ) -> (done: Result<(), TokenError>)
        ensures
            done == answer(issue_fault(*old(e), owner, initial_supply)),
            done is Ok ==> constructed(
                *old(e),
                *final(e),
                owner,
                initial_supply,
                mybool,
                myenum,
                status,
                testkind,
                testobj,
            ),
            done is Err ==> unchanged(*old(e), *final(e)),
    {
        match Self::check_issue(e, &owner, initial_supply) {
            Some(fault) => Err(fault),
            None => {
                Self::__constructor(
                    e,
                    owner,
                    initial_supply,
                    mybool,
                    myenum,
                    status,
                    testkind,
                    testobj,
                );
                Ok(())
            },
        }
    }

    /// Transfers as `transfer` does where the amount can move, and says why
    /// it cannot where it cannot. Where it can, `from` has to have authorized
    /// the invocation.
    pub fn try_transfer(e: &mut Env, from: Address, to: Address, amount: i128) -> (done: Result<
        (),
        TokenError,
    >)
        requires
            move_fault(*old(e), from, to, amount) is None ==> authorized(*old(e), from),
        ensures
            done == answer(move_fault(*old(e), from, to, amount)),
            done is Ok ==> asked(*old(e), *final(e), from) && transferred(
                *old(e),
                *final(e),
                from,
                to,
                amount,
            ) && same_allowances(*old(e), *final(e)),
            done is Err ==> unchanged(*old(e), *final(e)),
    {
        match Self::check_move(e, &from, &to, amount) {
            Some(fault) => Err(fault),
            None => {
                Self::transfer(e, from, to, amount);
                Ok(())
            },
        }
    }

    /// Transfers as `transfer_from` does where the allowance covers the amount
    /// and the amount can move, and says why it cannot where it cannot. Where
    /// it can, `spender` has to have authorized the invocation.
    pub fn try_transfer_from(
        e: &mut Env,
        spender: Address,
        from: Address,
        to: Address,
        amount: i128,
    ) -> (done: Result<(), TokenError>)
        requires
            transfer_from_fault(*old(e), spender, from, to, amount) is None ==> authorized(
                *old(e),
                spender,
            ),
        ensures
            done == answer(transfer_from_fault(*old(e), spender, from, to, amount)),
            done is Ok ==> asked(*old(e), *final(e), spender) && transferred(
                *old(e),
                *final(e),
                from,
                to,
                amount,
            ) && spent(*old(e), *final(e), from, spender, amount),
            done is Err ==> unchanged(*old(e), *final(e)),
    {
        match Self::check_spend(e, &from, &spender, amount) {
            Some(fault) => Err(fault),
            None => match Self::check_move(e, &from, &to, amount) {
                Some(fault) => Err(fault),
                None => {
                    Self::transfer_from(e, spender, from, to, amount);
                    Ok(())
                },
            },
        }
    }

    /// Approves as `approve` does where the allowance can be set, and says
    /// why it cannot where it cannot. Where it can, `owner` has to have
    /// authorized the invocation.
    pub fn try_approve(
        e: &mut Env,
        owner: Address,
        spender: Address,
        amount: i128,
        live_until_ledger: u32,
    ) -> (done: Result<(), TokenError>)
        requires
            approve_fault(*old(e), amount, live_until_ledger) is None ==> authorized(*old(e), owner),
        ensures
            done == answer(approve_fault(*old(e), amount, live_until_ledger)),
            done is Ok ==> asked(*old(e), *final(e), owner) && approved(
                *old(e),
                *final(e),
                owner,
                spender,
                amount,
                live_until_ledger,
            ),
            done is Err ==> unchanged(*old(e), *final(e)),
    {
        match Self::check_approve(e, amount, live_until_ledger) {
            Some(fault) => Err(fault),
            None => {
                Self::approve(e, owner, spender, amount, live_until_ledger);
                Ok(())
            },
        }
    }

    /// The token's number of decimals, or `UnsetMetadata` where the token
    /// has not been set up.
    pub fn try_decimals(e: &Env) -> (decimals: Result<u32, TokenError>)
        ensures
            decimals == (match metadata_of(*e) {
                Some(m) => Ok::<u32, TokenError>(m.0),
                None => Err::<u32, TokenError>(TokenError::UnsetMetadata),
            }),
    {
        if host::has_metadata(e) {
            Ok(Self::decimals(e))
        } else {
            Err(TokenError::UnsetMetadata)
        }
    }

    /// The token's name, or `UnsetMetadata` where the token has not been set
    /// up.
    pub fn try_name(e: &Env) -> (name: Result<soroban_sdk::String, TokenError>)
        ensures
            metadata_of(*e) is Some ==> name is Ok && text_of(name.unwrap()) == metadata_of(
                *e,
            ).unwrap().1,
            metadata_of(*e) is None ==> name == Err::<soroban_sdk::String, TokenError>(
                TokenError::UnsetMetadata,
            ),
    {
        if host::has_metadata(e) {
            Ok(Self::name(e))
        } else {
            Err(TokenError::UnsetMetadata)
        }
    }

    /// The token's symbol, or `UnsetMetadata` where the token has not been
    /// set up.
    pub fn try_symbol(e: &Env) -> (symbol: Result<soroban_sdk::String, TokenError>)
        ensures
            metadata_of(*e) is Some ==> symbol is Ok && text_of(symbol.unwrap()) == metadata_of(
                *e,
            ).unwrap().2,
            metadata_of(*e) is None ==> symbol == Err::<soroban_sdk::String, TokenError>(
                TokenError::UnsetMetadata,
            ),
    {
        if host::has_metadata(e) {
            Ok(Self::symbol(e))
        } else {
            Err(TokenError::UnsetMetadata)
        }
    }

    /// Burns as `burn` does where the tokens can be destroyed, and says why
    /// they cannot where they cannot. Where they can, `from` has to have
    /// authorized the invocation.
    pub fn try_burn(e: &mut Env, from: Address, amount: i128) -> (done: Result<(), TokenError>)
        requires
            burn_fault(*old(e), from, amount) is None ==> authorized(*old(e), from),
        ensures
            done == answer(burn_fault(*old(e), from, amount)),
            done is Ok ==> asked(*old(e), *final(e), from) && burned(*old(e), *final(e), from, amount)
                && same_allowances(*old(e), *final(e)),
            done is Err ==> unchanged(*old(e), *final(e)),
    {
        match Self::check_burn(e, &from, amount) {
            Some(fault) => Err(fault),
            None => {
                Self::burn(e, from, amount);
                Ok(())
            },
        }
    }

    /// Burns as `burn_from` does where the allowance covers the amount and
    /// the tokens can be destroyed, and says why they cannot where they
    /// cannot. Where they can, `spender` has to have authorized the
    /// invocation.
    pub fn try_burn_from(e: &mut Env, spender: Address, from: Address, amount: i128) -> (done: Result<
        (),
        TokenError,
    >)
        requires
            burn_from_fault(*old(e), spender, from, amount) is None ==> authorized(*old(e), spender),
        ensures
            done == answer(burn_from_fault(*old(e), spender, from, amount)),
            done is Ok ==> asked(*old(e), *final(e), spender) && burned(
                *old(e),
                *final(e),
                from,
                amount,
            ) && spent(*old(e), *final(e), from, spender, amount),
            done is Err ==> unchanged(*old(e), *final(e)),
    {
        match Self::check_spend(e, &from, &spender, amount) {
            Some(fault) => Err(fault),
            None => match Self::check_burn(e, &from, amount) {
                Some(fault) => Err(fault),
                None => {
                    Self::burn_from(e, spender, from, amount);
                    Ok(())
                },
            },
        }
    }

    /// Mints as `mint` does where an owner is recorded and the tokens can be
    /// issued, and says why it cannot where it cannot. Where it can, the
    /// recorded owner has to have authorized the invocation.
    pub fn try_mint(e: &mut Env, account: Address, amount: i128) -> (done: Result<(), TokenError>)
        requires
            mint_fault(*old(e), account, amount) is None ==> authorized(
                *old(e),
                address_at(*old(e), OWNER@).unwrap(),
            ),
        ensures
            done == answer(mint_fault(*old(e), account, amount)),
            done is Ok ==> asked(*old(e), *final(e), address_at(*old(e), OWNER@).unwrap()) && minted(
                *old(e),
                *final(e),
                account,
                amount,
            ),
            done is Err ==> unchanged(*old(e), *final(e)),
    {
        proof {
            lemma_slot_names();
        }
        if host::get_address(e, OWNER).is_none() {
            return Err(TokenError::OwnerUnset);
        }
        match Self::check_issue(e, &account, amount) {
            Some(fault) => Err(fault),
            None => {
                Self::mint(e, account, amount);
                Ok(())
            },
        }
    }
}

} // verus!
