//! What follows from the contracts of the token's functions, taken
//! together. Each law speaks of environments before and after a call, as the
//! contracts in `contract` do.

use vstd::prelude::*;
use soroban_sdk::Address;
use soroban_sdk::Env;
use soroban_sdk::Val;
use crate::contract::burned;
use crate::contract::constructed;
use crate::contract::minted;
use crate::contract::approve_admitted;
use crate::contract::burn_admitted;
use crate::contract::burn_from_admitted;
use crate::contract::mint_admitted;
use crate::contract::transfer_admitted;
use crate::contract::transfer_from_admitted;
use crate::contract::spent;
use crate::contract::transferred;
use crate::contract::MYBOOL;
use crate::contract::MYENUM;
use crate::contract::OWNER;
use crate::contract::STATUS;
use crate::contract::TESTKIND;
use crate::contract::TESTOBJ;
use crate::host::address_at;
use crate::host::allowance_of;
use crate::host::authorized;
use crate::host::balance_of;
use crate::host::expiry_of;
use crate::host::live_limit_of;
use crate::host::sequence_of;
use crate::host::flag_at;
use crate::host::metadata_of;
use crate::host::name_at;
use crate::host::number_at;
use crate::host::same_balances;
use crate::host::same_ledger;
use crate::host::supply_of;
use crate::host::value_at;
use crate::mode::TestMode;
use crate::status::Status;

verus! {

/// After construction the metadata are set: `decimals` answers 18, `name`
/// answers "MyToken" and `symbol` answers "MTK".
pub proof fn law_metadata_after_construction(
    a: Env,
    b: Env,
    owner: Address,
    initial_supply: i128,
    mybool: bool,
    myenum: TestMode,
    status: Status,
    testkind: Val,
    testobj: Val,
)
    requires
        constructed(a, b, owner, initial_supply, mybool, myenum, status, testkind, testobj),
    ensures
        metadata_of(b) is Some,
        metadata_of(b).unwrap().0 == 18,
        metadata_of(b).unwrap().1 == "MyToken"@,
        metadata_of(b).unwrap().2 == "MTK"@,
{
}

/// Where no token is in circulation and the owner holds none, construction
/// leaves the initial supply as the total supply and as the owner's balance.
pub proof fn law_initial_supply(
    a: Env,
    b: Env,
    owner: Address,
    initial_supply: i128,
    mybool: bool,
    myenum: TestMode,
    status: Status,
    testkind: Val,
    testobj: Val,
)
    requires
        constructed(a, b, owner, initial_supply, mybool, myenum, status, testkind, testobj),
        supply_of(a) == 0,
        balance_of(a, owner) == 0,
    ensures
        supply_of(b) == initial_supply,
        balance_of(b, owner) == initial_supply,
{
}

/// Construction records the owner, and `mint` is for that owner alone: where
/// the owner has not authorized the invocation, `mint` is not admitted for any
/// account and any amount, whoever else has authorized.
pub proof fn law_only_the_owner_mints(
    a: Env,
    b: Env,
    owner: Address,
    initial_supply: i128,
    mybool: bool,
    myenum: TestMode,
    status: Status,
    testkind: Val,
    testobj: Val,
    account: Address,
    amount: i128,
)
    requires
        constructed(a, b, owner, initial_supply, mybool, myenum, status, testkind, testobj),
        !authorized(b, owner),
    ensures
        !mint_admitted(b, account, amount),
{
}

/// `mint` is admitted where an owner is recorded and has authorized the
/// invocation, the amount is not negative, and neither the supply nor the
/// balance of the account would pass the largest amount.
pub proof fn law_mint_is_admitted(e: Env, owner: Address, account: Address, amount: i128)
    requires
        address_at(e, OWNER@) == Some(owner),
        authorized(e, owner),
        amount >= 0,
        supply_of(e) + amount <= i128::MAX,
        balance_of(e, account) + amount <= i128::MAX,
    ensures
        mint_admitted(e, account, amount),
{
}

/// `transfer` is admitted where `from` has authorized the invocation and
/// holds the amount, which is not negative, and the balance of another
/// account `to` would not pass the largest amount.
pub proof fn law_transfer_is_admitted(e: Env, from: Address, to: Address, amount: i128)
    requires
        authorized(e, from),
        0 <= amount <= balance_of(e, from),
        from != to ==> balance_of(e, to) + amount <= i128::MAX,
    ensures
        transfer_admitted(e, from, to, amount),
{
}

/// `transfer_from` is admitted where `spender` has authorized the
/// invocation, the allowance and the balance of `from` cover the amount,
/// which is not negative, the allowance does not end after the host's limit,
/// and the balance of another account `to` would not pass the largest amount.
pub proof fn law_transfer_from_is_admitted(
    e: Env,
    spender: Address,
    from: Address,
    to: Address,
    amount: i128,
)
    requires
        authorized(e, spender),
        0 <= amount <= allowance_of(e, from, spender),
        expiry_of(e, from, spender) <= live_limit_of(e),
        amount <= balance_of(e, from),
        from != to ==> balance_of(e, to) + amount <= i128::MAX,
    ensures
        transfer_from_admitted(e, spender, from, to, amount),
{
}

/// `approve` is admitted where `owner` has authorized the invocation, the
/// amount is not negative, and the last ledger is neither after the host's
/// limit nor, for a positive amount, before the current ledger.
pub proof fn law_approve_is_admitted(e: Env, owner: Address, amount: i128, live_until_ledger: u32)
    requires
        authorized(e, owner),
        amount >= 0,
        live_until_ledger <= live_limit_of(e),
        amount > 0 ==> live_until_ledger >= sequence_of(e),
    ensures
        approve_admitted(e, owner, amount, live_until_ledger),
{
}

/// `burn` is admitted where `from` has authorized the invocation and holds
/// the amount, which is not negative, and the supply is at least the amount.
pub proof fn law_burn_is_admitted(e: Env, from: Address, amount: i128)
    requires
        authorized(e, from),
        0 <= amount <= balance_of(e, from),
        amount <= supply_of(e),
    ensures
        burn_admitted(e, from, amount),
{
}

/// `burn_from` is admitted where `spender` has authorized the invocation,
/// the allowance and the balance of `from` cover the amount, which is not
/// negative, the allowance does not end after the host's limit, and the
/// supply is at least the amount.
pub proof fn law_burn_from_is_admitted(e: Env, spender: Address, from: Address, amount: i128)
    requires
        authorized(e, spender),
        0 <= amount <= allowance_of(e, from, spender),
        expiry_of(e, from, spender) <= live_limit_of(e),
        amount <= balance_of(e, from),
        amount <= supply_of(e),
    ensures
        burn_from_admitted(e, spender, from, amount),
{
}

/// Minting adds exactly the amount to the supply and to the balance of the
/// account, and leaves every other balance as it is.
pub proof fn law_mint_is_exact(a: Env, b: Env, account: Address, amount: i128)
    requires
        minted(a, b, account, amount),
    ensures
        supply_of(b) == supply_of(a) + amount,
        balance_of(b, account) == balance_of(a, account) + amount,
        forall|w: Address| w != account ==> #[trigger] balance_of(b, w) == balance_of(a, w),
{
}

/// A transfer between two accounts takes exactly the amount from the one and
/// gives it to the other; every other balance and the supply stay.
pub proof fn law_transfer_is_exact(a: Env, b: Env, from: Address, to: Address, amount: i128)
    requires
        transferred(a, b, from, to, amount),
        from != to,
    ensures
        balance_of(b, from) == balance_of(a, from) - amount,
        balance_of(b, to) == balance_of(a, to) + amount,
        forall|w: Address| w != from && w != to ==> #[trigger] balance_of(b, w) == balance_of(a, w),
        supply_of(b) == supply_of(a),
{
}

/// A transfer from an account to itself changes no balance.
pub proof fn law_transfer_to_oneself(a: Env, b: Env, who: Address, amount: i128)
    requires
        transferred(a, b, who, who, amount),
    ensures
        same_balances(a, b),
        supply_of(b) == supply_of(a),
{
}

/// Burning takes exactly the amount from the balance of the account and from
/// the supply, and leaves every other balance as it is.
pub proof fn law_burn_is_exact(a: Env, b: Env, from: Address, amount: i128)
    requires
        burned(a, b, from, amount),
    ensures
        supply_of(b) == supply_of(a) - amount,
        balance_of(b, from) == balance_of(a, from) - amount,
        forall|w: Address| w != from ==> #[trigger] balance_of(b, w) == balance_of(a, w),
{
}

/// Spending takes exactly the amount from the one allowance, and leaves
/// every other allowance as it is.
pub proof fn law_spending_is_exact(a: Env, b: Env, owner: Address, spender: Address, amount: i128)
    requires
        spent(a, b, owner, spender, amount),
    ensures
        allowance_of(b, owner, spender) == allowance_of(a, owner, spender) - amount,
        forall|o: Address, s: Address|
            !(o == owner && s == spender) ==> #[trigger] allowance_of(b, o, s) == allowance_of(a, o, s),
{
}

/// Minting and then burning the same amount for one account gives back the
/// supply and every balance.
pub proof fn law_burn_undoes_mint(a: Env, b: Env, c: Env, account: Address, amount: i128)
    requires
        minted(a, b, account, amount),
        burned(b, c, account, amount),
    ensures
        supply_of(c) == supply_of(a),
        same_balances(a, c),
{
}

/// Construction keeps the owner and the five values in their slots as they
/// were given: the stage and the state can be read back from what stands for
/// them.
pub proof fn law_values_are_kept(
    a: Env,
    b: Env,
    owner: Address,
    initial_supply: i128,
    mybool: bool,
    myenum: TestMode,
    status: Status,
    testkind: Val,
    testobj: Val,
)
    requires
        constructed(a, b, owner, initial_supply, mybool, myenum, status, testkind, testobj),
    ensures
        address_at(b, OWNER@) == Some(owner),
        flag_at(b, MYBOOL@) == Some(mybool),
        number_at(b, MYENUM@) is Some,
        TestMode::spec_from_code(number_at(b, MYENUM@).unwrap()) == Some(myenum),
        name_at(b, STATUS@) is Some,
        forall|other: Status| #[trigger]
            other.spec_label() == name_at(b, STATUS@).unwrap() ==> other == status,
        value_at(b, TESTKIND@) == Some(testkind),
        value_at(b, TESTOBJ@) == Some(testobj),
{
    assert forall|other: Status| #[trigger]
        other.spec_label() == name_at(b, STATUS@).unwrap() implies other == status by {
        other.lemma_labels(status);
    }
}

/// The five values do not count: two constructions that differ in them alone
/// leave the same supply, balances, allowances, metadata and owner, which is
/// all that the token's functions read.
pub proof fn law_values_do_not_count(
    a: Env,
    b: Env,
    c: Env,
    owner: Address,
    initial_supply: i128,
    mybool: bool,
    myenum: TestMode,
    status: Status,
    testkind: Val,
    testobj: Val,
    other_bool: bool,
    other_enum: TestMode,
    other_status: Status,
    other_testkind: Val,
    other_testobj: Val,
)
    requires
        constructed(a, b, owner, initial_supply, mybool, myenum, status, testkind, testobj),
        constructed(
            a,
            c,
            owner,
            initial_supply,
            other_bool,
            other_enum,
            other_status,
            other_testkind,
            other_testobj,
        ),
    ensures
        same_ledger(b, c),
        metadata_of(b) == metadata_of(c),
        address_at(b, OWNER@) == address_at(c, OWNER@),
{
}

/// The number of a stage stands for that stage and for no other.
pub proof fn law_stage_round_trip(mode: TestMode, code: u32)
    ensures
        TestMode::spec_from_code(mode.spec_code()) == Some(mode),
        TestMode::spec_from_code(code) == Some(mode) ==> code == mode.spec_code(),
        TestMode::spec_from_code(code) is Some <==> code <= 2,
{
}

} // verus!
