//! The boundary with the Soroban host and the fungible-token library.
//!
//! The functions in this file that make a call, and the spec functions
//! without a body, are believed, not proved. An `Env` stands for the
//! environment of one running invocation of the contract: the host gives
//! storage to a running contract only. Contracts speak of what such an
//! environment shows through the spec functions below. Events, the lifetimes
//! of entries and the host's resource budget are not modelled.
//!
//! Two addresses are equal in contracts exactly when they name the same
//! account or contract. An address, a string or a value is used with the
//! environment that it came from.

use vstd::prelude::*;
use soroban_sdk::Address;
use soroban_sdk::Env;
use soroban_sdk::TryFromVal;
use soroban_sdk::Val;
use soroban_sdk::Symbol;
use stellar_tokens::fungible::Base;
use stellar_tokens::fungible::FungibleStorageKey;
use stellar_tokens::fungible::total_supply::TotalSupply;

verus! {

/// `soroban_sdk::Env`: the host as a running contract sees it.
#[verifier::external_type_specification]
#[verifier::external_body]
pub struct ExEnv(soroban_sdk::Env);

/// `soroban_sdk::Address`: an account or a contract.
#[verifier::external_type_specification]
#[verifier::external_body]
pub struct ExAddress(soroban_sdk::Address);

/// `soroban_sdk::String`: a string that the host holds.
#[verifier::external_type_specification]
#[verifier::external_body]
pub struct ExString(soroban_sdk::String);

/// `soroban_sdk::Val`: any value that the host can store.
#[verifier::external_type_specification]
#[verifier::external_body]
pub struct ExVal(soroban_sdk::Val);

/// The characters of a host string.
pub uninterp spec fn text_of(s: soroban_sdk::String) -> Seq<char>;

/// The token's decimals, name and symbol, once they have been set.
pub uninterp spec fn metadata_of(e: Env) -> Option<(u32, Seq<char>, Seq<char>)>;

/// The number of tokens in circulation.
pub uninterp spec fn supply_of(e: Env) -> i128;

/// The number of tokens that an account holds.
pub uninterp spec fn balance_of(e: Env, who: Address) -> i128;

/// What `spender` may still move out of `owner`'s balance at the current
/// ledger: zero once the allowance has expired.
pub uninterp spec fn allowance_of(e: Env, owner: Address, spender: Address) -> i128;

/// The last ledger at which that allowance holds: zero where there is none or
/// it has expired.
pub uninterp spec fn expiry_of(e: Env, owner: Address, spender: Address) -> u32;

/// Whether the address has authorized the running invocation. The host
/// alone decides this, and it gives a contract no way to ask: a contract can
/// only demand the authorization.
pub uninterp spec fn authorized(e: Env, who: Address) -> bool;

/// The addresses whose authorization the contract has demanded so far in
/// the running invocation, in the order of the demands.
pub uninterp spec fn demands_of(e: Env) -> Seq<Address>;

/// The address kept in the contract's instance storage under a symbol, if an
/// address is kept there.
pub uninterp spec fn address_at(e: Env, key: Seq<char>) -> Option<Address>;

/// The boolean kept in the contract's instance storage under a symbol.
pub uninterp spec fn flag_at(e: Env, key: Seq<char>) -> Option<bool>;

/// The 32-bit number kept in the contract's instance storage under a symbol.
pub uninterp spec fn number_at(e: Env, key: Seq<char>) -> Option<u32>;

/// The name in the one-element vector kept in the contract's instance
/// storage under a symbol, if such a vector is kept there. This is how the
/// host keeps a variant without fields.
pub uninterp spec fn name_at(e: Env, key: Seq<char>) -> Option<Seq<char>>;

/// The host value kept in the contract's instance storage under a symbol.
pub uninterp spec fn value_at(e: Env, key: Seq<char>) -> Option<Val>;

/// The sequence number of the current ledger.
pub uninterp spec fn sequence_of(e: Env) -> u32;

/// The last ledger to which the host lets an entry live.
pub uninterp spec fn live_limit_of(e: Env) -> u32;

/// The characters that a symbol may hold.
pub open spec fn is_symbol_char(c: char) -> bool {
    ('a' <= c && c <= 'z') || ('A' <= c && c <= 'Z') || ('0' <= c && c <= '9') || c == '_'
}

/// The strings that can name a storage slot: at most 32 characters out of
/// letters, digits and the underscore.
pub open spec fn is_symbol(s: Seq<char>) -> bool {
    &&& s.len() <= 32
    &&& forall|i: int| 0 <= i < s.len() ==> is_symbol_char(#[trigger] s[i])
}

/// Every account holds in `b` what it holds in `a`, less `amount` for the
/// account `from` and plus `amount` for the account `to`.
pub open spec fn moved(a: Env, b: Env, from: Option<Address>, to: Option<Address>, amount: int) -> bool {
    forall|w: Address| #[trigger]
        balance_of(b, w) == balance_of(a, w) - (if from == Some(w) {
            amount
        } else {
            0
        }) + (if to == Some(w) {
            amount
        } else {
            0
        })
}

/// Every account holds in `b` what it holds in `a`.
pub open spec fn same_balances(a: Env, b: Env) -> bool {
    forall|w: Address| #[trigger] balance_of(b, w) == balance_of(a, w)
}

/// Every allowance but the one that `owner` gave to `spender` is in `b` what
/// it is in `a`.
pub open spec fn same_allowances_but(a: Env, b: Env, owner: Address, spender: Address) -> bool {
    &&& forall|o: Address, s: Address|
        !(o == owner && s == spender) ==> #[trigger] allowance_of(b, o, s) == allowance_of(a, o, s)
    &&& forall|o: Address, s: Address|
        !(o == owner && s == spender) ==> #[trigger] expiry_of(b, o, s) == expiry_of(a, o, s)
}

/// Every allowance is in `b` what it is in `a`.
pub open spec fn same_allowances(a: Env, b: Env) -> bool {
    &&& forall|o: Address, s: Address| #[trigger] allowance_of(b, o, s) == allowance_of(a, o, s)
    &&& forall|o: Address, s: Address| #[trigger] expiry_of(b, o, s) == expiry_of(a, o, s)
}

/// Supply, balances and allowances are in `b` what they are in `a`.
pub open spec fn same_ledger(a: Env, b: Env) -> bool {
    &&& supply_of(b) == supply_of(a)
    &&& same_balances(a, b)
    &&& same_allowances(a, b)
}

/// Every slot of the instance storage but the one named `key` shows in `b`
/// what it shows in `a`.
pub open spec fn same_slots_but(a: Env, b: Env, key: Seq<char>) -> bool {
    &&& forall|k: Seq<char>| k != key ==> #[trigger] address_at(b, k) == address_at(a, k)
    &&& forall|k: Seq<char>| k != key ==> #[trigger] flag_at(b, k) == flag_at(a, k)
    &&& forall|k: Seq<char>| k != key ==> #[trigger] number_at(b, k) == number_at(a, k)
    &&& forall|k: Seq<char>| k != key ==> #[trigger] name_at(b, k) == name_at(a, k)
    &&& forall|k: Seq<char>| k != key ==> #[trigger] value_at(b, k) == value_at(a, k)
}

/// Every slot of the instance storage shows in `b` what it shows in `a`.
pub open spec fn same_slots(a: Env, b: Env) -> bool {
    &&& forall|k: Seq<char>| #[trigger] address_at(b, k) == address_at(a, k)
    &&& forall|k: Seq<char>| #[trigger] flag_at(b, k) == flag_at(a, k)
    &&& forall|k: Seq<char>| #[trigger] number_at(b, k) == number_at(a, k)
    &&& forall|k: Seq<char>| #[trigger] name_at(b, k) == name_at(a, k)
    &&& forall|k: Seq<char>| #[trigger] value_at(b, k) == value_at(a, k)
}

/// Between `a` and `b` the contract has demanded the authorization of `who`,
/// once, and of nobody else.
pub open spec fn asked(a: Env, b: Env, who: Address) -> bool {
    demands_of(b) == demands_of(a).push(who)
}

/// Between `a` and `b` the contract has demanded no authorization.
pub open spec fn asked_nobody(a: Env, b: Env) -> bool {
    demands_of(b) == demands_of(a)
}

/// The ledger's sequence number and the host's lifetime limit are in `b` what
/// they are in `a`.
pub open spec fn same_clock(a: Env, b: Env) -> bool {
    &&& sequence_of(b) == sequence_of(a)
    &&& live_limit_of(b) == live_limit_of(a)
}

/// Metadata, slots and clock are in `b` what they are in `a`.
pub open spec fn same_setup(a: Env, b: Env) -> bool {
    &&& metadata_of(b) == metadata_of(a)
    &&& same_slots(a, b)
    &&& same_clock(a, b)
}

/// `soroban_sdk::String::from_str`: a host string that holds the characters
/// of `s`.
#[verifier::external_body]
pub(crate) fn host_text(e: &Env, s: &str) -> (t: soroban_sdk::String)
    ensures
        text_of(t) == s@,
{
    soroban_sdk::String::from_str(e, s)
}

/// `Address::eq`: whether two addresses name the same account or contract.
#[verifier::external_body]
pub(crate) fn same_address(a: &Address, b: &Address) -> (same: bool)
    ensures
        same == (*a == *b),
{
    a == b
}

/// `Ledger::sequence`: the sequence number of the current ledger.
#[verifier::external_body]
pub(crate) fn sequence(e: &Env) -> (n: u32)
    ensures
        n == sequence_of(*e),
{
    e.ledger().sequence()
}

/// `Ledger::max_live_until_ledger`: the last ledger to which the host lets an
/// entry live.
#[verifier::external_body]
pub(crate) fn live_limit(e: &Env) -> (n: u32)
    ensures
        n == live_limit_of(*e),
{
    e.ledger().max_live_until_ledger()
}

/// `Address::require_auth`, on an address of the environment `e`. It panics
/// where the address has not authorized the invocation, and returns only
/// under that authorization. It is one demand more, and leaves the token's
/// ledger and the contract's records as they are.
#[verifier::external_body]
pub(crate) fn require_auth(e: &mut Env, who: &Address)
    requires
        authorized(*old(e), *who),
    ensures
        authorized(*old(e), *who),
        demands_of(*final(e)) == demands_of(*old(e)).push(*who),
        same_ledger(*old(e), *final(e)),
        same_setup(*old(e), *final(e)),
{
    who.require_auth()
}

/// `Instance::set` with an address as the value: the slot named `key` then
/// holds `value`, and nothing else changes. `Symbol::new` panics on a string
/// that is no symbol.
#[verifier::external_body]
pub(crate) fn put_address(e: &mut Env, key: &str, value: &Address)
    requires
        is_symbol(key@),
    ensures
        address_at(*final(e), key@) == Some(*value),
        same_slots_but(*old(e), *final(e), key@),
        metadata_of(*final(e)) == metadata_of(*old(e)),
        same_clock(*old(e), *final(e)),
        same_ledger(*old(e), *final(e)),
        demands_of(*final(e)) == demands_of(*old(e)),
{
    e.storage().instance().set(&Symbol::new(e, key), value)
}

/// `Instance::set` with a boolean as the value: the slot named `key` then
/// holds `value`, and nothing else changes.
#[verifier::external_body]
pub(crate) fn put_flag(e: &mut Env, key: &str, value: bool)
    requires
        is_symbol(key@),
    ensures
        flag_at(*final(e), key@) == Some(value),
        same_slots_but(*old(e), *final(e), key@),
        metadata_of(*final(e)) == metadata_of(*old(e)),
        same_clock(*old(e), *final(e)),
        same_ledger(*old(e), *final(e)),
        demands_of(*final(e)) == demands_of(*old(e)),
{
    e.storage().instance().set(&Symbol::new(e, key), &value)
}

/// `Instance::set` with a 32-bit number as the value: the slot named `key`
/// then holds `value`, and nothing else changes.
#[verifier::external_body]
pub(crate) fn put_number(e: &mut Env, key: &str, value: u32)
    requires
        is_symbol(key@),
    ensures
        number_at(*final(e), key@) == Some(value),
        same_slots_but(*old(e), *final(e), key@),
        metadata_of(*final(e)) == metadata_of(*old(e)),
        same_clock(*old(e), *final(e)),
        same_ledger(*old(e), *final(e)),
        demands_of(*final(e)) == demands_of(*old(e)),
{
    e.storage().instance().set(&Symbol::new(e, key), &value)
}

/// `Instance::set` with a one-element tuple that holds a symbol as the
/// value: the slot named `key` then holds the vector of that one symbol, and
/// nothing else changes.
#[verifier::external_body]
pub(crate) fn put_name(e: &mut Env, key: &str, name: &str)
    requires
        is_symbol(key@),
        is_symbol(name@),
    ensures
        name_at(*final(e), key@) == Some(name@),
        same_slots_but(*old(e), *final(e), key@),
        metadata_of(*final(e)) == metadata_of(*old(e)),
        same_clock(*old(e), *final(e)),
        same_ledger(*old(e), *final(e)),
        demands_of(*final(e)) == demands_of(*old(e)),
{
    e.storage().instance().set(&Symbol::new(e, key), &(Symbol::new(e, name),))
}

/// `Instance::set` with a host value as the value: the slot named `key` then
/// holds `value`, and nothing else changes.
#[verifier::external_body]
pub(crate) fn put_value(e: &mut Env, key: &str, value: Val)
    requires
        is_symbol(key@),
    ensures
        value_at(*final(e), key@) == Some(value),
        same_slots_but(*old(e), *final(e), key@),
        metadata_of(*final(e)) == metadata_of(*old(e)),
        same_clock(*old(e), *final(e)),
        same_ledger(*old(e), *final(e)),
        demands_of(*final(e)) == demands_of(*old(e)),
{
    e.storage().instance().set(&Symbol::new(e, key), &value)
}

/// `Instance::get`, and `Address::try_from_val` on what it found: the address
/// in the slot named `key`, and `None` where the slot is empty or holds
/// something else.
#[verifier::external_body]
pub(crate) fn get_address(e: &Env, key: &str) -> (found: Option<Address>)
    requires
        is_symbol(key@),
    ensures
        found == address_at(*e, key@),
{
    let held: Option<Val> = e.storage().instance().get(&Symbol::new(e, key));
    held.and_then(|v| Address::try_from_val(e, &v).ok())
}

/// `Base::set_metadata` of the token library: it records the three values,
/// and nothing else changes.
#[verifier::external_body]
pub(crate) fn set_metadata(
    e: &mut Env,
    decimals: u32,
    name: soroban_sdk::String,
    symbol: soroban_sdk::String,
)
    ensures
        metadata_of(*final(e)) == Some((decimals, text_of(name), text_of(symbol))),
        same_slots(*old(e), *final(e)),
        same_clock(*old(e), *final(e)),
        same_ledger(*old(e), *final(e)),
        demands_of(*final(e)) == demands_of(*old(e)),
{
    Base::set_metadata(e, decimals, name, symbol)
}

/// `Instance::has` on the key under which the token library keeps its
/// metadata: whether they have been set.
#[verifier::external_body]
pub(crate) fn has_metadata(e: &Env) -> (set: bool)
    ensures
        set == metadata_of(*e).is_some(),
{
    e.storage().instance().has(&FungibleStorageKey::Meta)
}

/// `Base::decimals` of the token library. It fails with `UnsetMetadata` where
/// no metadata have been set.
#[verifier::external_body]
pub(crate) fn decimals(e: &Env) -> (d: u32)
    requires
        metadata_of(*e).is_some(),
    ensures
        d == metadata_of(*e).unwrap().0,
{
    Base::decimals(e)
}

/// `Base::name` of the token library. It fails with `UnsetMetadata` where no
/// metadata have been set.
#[verifier::external_body]
pub(crate) fn name(e: &Env) -> (n: soroban_sdk::String)
    requires
        metadata_of(*e).is_some(),
    ensures
        text_of(n) == metadata_of(*e).unwrap().1,
{
    Base::name(e)
}

/// `Base::symbol` of the token library. It fails with `UnsetMetadata` where no
/// metadata have been set.
#[verifier::external_body]
pub(crate) fn symbol(e: &Env) -> (s: soroban_sdk::String)
    requires
        metadata_of(*e).is_some(),
    ensures
        text_of(s) == metadata_of(*e).unwrap().2,
{
    Base::symbol(e)
}

/// `total_supply::total_supply` of the token library: the recorded supply,
/// zero where none is recorded.
#[verifier::external_body]
pub(crate) fn total_supply(e: &Env) -> (s: i128)
    ensures
        s == supply_of(*e),
{
    stellar_tokens::fungible::total_supply::total_supply(e)
}

/// `Base::balance` of the token library: the recorded balance, zero where
/// none is recorded.
#[verifier::external_body]
pub(crate) fn balance(e: &Env, account: &Address) -> (b: i128)
    ensures
        b == balance_of(*e, *account),
{
    Base::balance(e, account)
}

/// `Base::allowance` of the token library: the amount of the allowance, zero
/// where there is none or it has expired.
#[verifier::external_body]
pub(crate) fn allowance(e: &Env, owner: &Address, spender: &Address) -> (a: i128)
    ensures
        a == allowance_of(*e, *owner, *spender),
{
    Base::allowance(e, owner, spender)
}

/// `Base::allowance_data` of the token library: the amount of the allowance
/// and the last ledger at which it holds, both zero where there is none or it
/// has expired.
#[verifier::external_body]
pub(crate) fn allowance_terms(e: &Env, owner: &Address, spender: &Address) -> (terms: (i128, u32))
    ensures
        terms.0 == allowance_of(*e, *owner, *spender),
        terms.1 == expiry_of(*e, *owner, *spender),
{
    let data = Base::allowance_data(e, owner, spender);
    (data.amount, data.live_until_ledger)
}

/// `total_supply::mint` of the token library: it adds `amount` to the supply
/// and to the balance of `to`. It fails with `LessThanZero` on a negative
/// amount and with `MathOverflow` where the supply or the balance would pass
/// `i128::MAX`.
#[verifier::external_body]
pub(crate) fn mint(e: &mut Env, to: &Address, amount: i128)
    requires
        amount >= 0,
        supply_of(*old(e)) + amount <= i128::MAX,
        balance_of(*old(e), *to) + amount <= i128::MAX,
    ensures
        supply_of(*final(e)) == supply_of(*old(e)) + amount,
        moved(*old(e), *final(e), None, Some(*to), amount as int),
        same_allowances(*old(e), *final(e)),
        same_setup(*old(e), *final(e)),
        demands_of(*final(e)) == demands_of(*old(e)),
{
    stellar_tokens::fungible::total_supply::mint(e, to, amount)
}

/// `Base::transfer` of the token library, with a destination that carries no
/// muxed id: it demands the authorization of `from` and moves `amount` from
/// `from` to `to`. It fails where `from` has not authorized the invocation,
/// with `LessThanZero` on a negative amount, with `InsufficientBalance` where
/// `from` holds less, and with `MathOverflow` where the balance of another
/// account `to` would pass `i128::MAX`.
#[verifier::external_body]
pub(crate) fn transfer(e: &mut Env, from: &Address, to: &Address, amount: i128)
    requires
        authorized(*old(e), *from),
        amount >= 0,
        balance_of(*old(e), *from) >= amount,
        *from != *to ==> balance_of(*old(e), *to) + amount <= i128::MAX,
    ensures
        authorized(*old(e), *from),
        demands_of(*final(e)) == demands_of(*old(e)).push(*from),
        moved(*old(e), *final(e), Some(*from), Some(*to), amount as int),
        supply_of(*final(e)) == supply_of(*old(e)),
        same_allowances(*old(e), *final(e)),
        same_setup(*old(e), *final(e)),
{
    Base::transfer(e, from, &to.into(), amount)
}

/// `Base::transfer_from` of the token library: it demands the authorization
/// of `spender`, takes `amount` off the allowance that `from` gave to
/// `spender`, and moves `amount` from `from` to `to`. It fails where
/// `spender` has not authorized the invocation, with `LessThanZero` on a
/// negative amount, with `InsufficientAllowance` where the
/// allowance is less, with `InvalidLiveUntilLedger` where an allowance that
/// it has to write again ends after the host's limit, with
/// `InsufficientBalance` where `from` holds less, and with `MathOverflow`
/// where the balance of another account `to` would pass `i128::MAX`.
#[verifier::external_body]
pub(crate) fn transfer_from(e: &mut Env, spender: &Address, from: &Address, to: &Address, amount: i128)
    requires
        authorized(*old(e), *spender),
        amount >= 0,
        allowance_of(*old(e), *from, *spender) >= amount,
        amount > 0 ==> expiry_of(*old(e), *from, *spender) <= live_limit_of(*old(e)),
        balance_of(*old(e), *from) >= amount,
        *from != *to ==> balance_of(*old(e), *to) + amount <= i128::MAX,
    ensures
        authorized(*old(e), *spender),
        demands_of(*final(e)) == demands_of(*old(e)).push(*spender),
        allowance_of(*final(e), *from, *spender) == allowance_of(*old(e), *from, *spender) - amount,
        expiry_of(*final(e), *from, *spender) == expiry_of(*old(e), *from, *spender),
        same_allowances_but(*old(e), *final(e), *from, *spender),
        moved(*old(e), *final(e), Some(*from), Some(*to), amount as int),
        supply_of(*final(e)) == supply_of(*old(e)),
        same_setup(*old(e), *final(e)),
{
    Base::transfer_from(e, spender, from, to, amount)
}

/// `Base::approve` of the token library: it demands the authorization of
/// `owner` and sets the allowance that `owner` gives to `spender`. It fails
/// where `owner` has not authorized the invocation, with `LessThanZero` on a
/// negative amount, and with `InvalidLiveUntilLedger`
/// on a last ledger after the host's limit, or before the current ledger
/// where the amount is positive.
#[verifier::external_body]
pub(crate) fn approve(e: &mut Env, owner: &Address, spender: &Address, amount: i128, live_until_ledger: u32)
    requires
        authorized(*old(e), *owner),
        amount >= 0,
        live_until_ledger <= live_limit_of(*old(e)),
        amount > 0 ==> live_until_ledger >= sequence_of(*old(e)),
    ensures
        authorized(*old(e), *owner),
        demands_of(*final(e)) == demands_of(*old(e)).push(*owner),
        allowance_of(*final(e), *owner, *spender) == amount,
        expiry_of(*final(e), *owner, *spender) == (if live_until_ledger < sequence_of(*old(e)) {
            0u32
        } else {
            live_until_ledger
        }),
        same_allowances_but(*old(e), *final(e), *owner, *spender),
        same_balances(*old(e), *final(e)),
        supply_of(*final(e)) == supply_of(*old(e)),
        same_setup(*old(e), *final(e)),
{
    Base::approve(e, owner, spender, amount, live_until_ledger)
}

/// `TotalSupply::burn` of the token library: it demands the authorization of
/// `from` and takes `amount` off the balance of `from` and off the supply. It
/// fails where `from` has not authorized the invocation, with `LessThanZero`
/// on a negative amount, with `InsufficientBalance`
/// where `from` holds less, and with `MathOverflow` where the supply is less.
#[verifier::external_body]
pub(crate) fn burn(e: &mut Env, from: &Address, amount: i128)
    requires
        authorized(*old(e), *from),
        amount >= 0,
        balance_of(*old(e), *from) >= amount,
        supply_of(*old(e)) >= amount,
    ensures
        authorized(*old(e), *from),
        demands_of(*final(e)) == demands_of(*old(e)).push(*from),
        moved(*old(e), *final(e), Some(*from), None, amount as int),
        supply_of(*final(e)) == supply_of(*old(e)) - amount,
        same_allowances(*old(e), *final(e)),
        same_setup(*old(e), *final(e)),
{
    TotalSupply::burn(e, from, amount)
}

/// `TotalSupply::burn_from` of the token library: it demands the
/// authorization of `spender`, takes `amount` off the allowance that `from`
/// gave to `spender`, off the balance of `from` and off the supply. It fails
/// where `spender` has not authorized the invocation, as `Base::transfer_from`
/// does on the amount, the allowance and the balance, and with `MathOverflow`
/// where the supply is less than `amount`.
#[verifier::external_body]
pub(crate) fn burn_from(e: &mut Env, spender: &Address, from: &Address, amount: i128)
    requires
        authorized(*old(e), *spender),
        amount >= 0,
        allowance_of(*old(e), *from, *spender) >= amount,
        amount > 0 ==> expiry_of(*old(e), *from, *spender) <= live_limit_of(*old(e)),
        balance_of(*old(e), *from) >= amount,
        supply_of(*old(e)) >= amount,
    ensures
        authorized(*old(e), *spender),
        demands_of(*final(e)) == demands_of(*old(e)).push(*spender),
        allowance_of(*final(e), *from, *spender) == allowance_of(*old(e), *from, *spender) - amount,
        expiry_of(*final(e), *from, *spender) == expiry_of(*old(e), *from, *spender),
        same_allowances_but(*old(e), *final(e), *from, *spender),
        moved(*old(e), *final(e), Some(*from), None, amount as int),
        supply_of(*final(e)) == supply_of(*old(e)) - amount,
        same_setup(*old(e), *final(e)),
{
    TotalSupply::burn_from(e, spender, from, amount)
}

} // verus!
