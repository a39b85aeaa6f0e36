//! Plain value types shared by every module: addresses, coins, and the
//! execution context handed in by the environment.

use vstd::prelude::*;

verus! {

/// An amount of one denomination. Prices and payments are lists of coins.
#[derive(Debug, PartialEq, Eq)]
pub struct Coin {
    pub denom: String,
    pub amount: u128,
}

impl Clone for Coin {
    fn clone(&self) -> (r: Self)
        ensures
            r == *self,
    {
        Coin { denom: self.denom.clone(), amount: self.amount }
    }
}

/// Any clone of a coin equals the original, because `Coin::clone` promises
/// exactly that.
pub proof fn lemma_cloned_coin(a: Coin, b: Coin)
    requires
        cloned(a, b),
    ensures
        a == b,
{
}

/// Any clone of a string equals the original, by the standard library's
/// contract on `String::clone`.
pub proof fn lemma_cloned_string(a: String, b: String)
    requires
        cloned(a, b),
    ensures
        a == b,
{
}

/// A clone of an optional string, equal to the original.
pub fn clone_opt_string(o: &Option<String>) -> (r: Option<String>)
    ensures
        r == *o,
{
    match o {
        Some(s) => Some(s.clone()),
        None => None,
    }
}

/// The execution context the environment supplies with every call:
/// the contract's own address and the current logical time in seconds.
pub struct Env {
    pub contract_address: String,
    pub time: u64,
}

/// The message context: the calling address and the funds sent along.
pub struct MessageInfo {
    pub sender: String,
    pub funds: Vec<Coin>,
}

/// Whether the funds contain a coin of `price`'s denomination whose amount
/// meets or exceeds `price.amount`.
pub open spec fn spec_payment_covers(funds: Seq<Coin>, price: Coin) -> bool {
    exists|i: int|
        0 <= i < funds.len() && funds[i].denom@ == price.denom@ && funds[i].amount
            >= price.amount
}

/// Whether the funds cover every coin of a multi-denomination price.
pub open spec fn spec_payment_covers_all(funds: Seq<Coin>, price: Seq<Coin>) -> bool {
    forall|j: int| 0 <= j < price.len() ==> spec_payment_covers(funds, price[j])
}

/// Decides whether the funds cover `price`.
pub fn payment_covers(funds: &Vec<Coin>, price: &Coin) -> (r: bool)
    ensures
        r == spec_payment_covers(funds@, *price),
{
    let mut i: usize = 0;
    while i < funds.len()
        invariant
            0 <= i <= funds@.len(),
            forall|k: int|
                0 <= k < i ==> !(funds@[k].denom@ == price.denom@ && funds@[k].amount
                    >= price.amount),
        decreases funds@.len() - i,
    {
        if funds[i].denom == price.denom && funds[i].amount >= price.amount {
            return true;
        }
        i = i + 1;
    }
    false
}

/// Decides whether the funds cover every coin of `price`.
pub fn payment_covers_all(funds: &Vec<Coin>, price: &Vec<Coin>) -> (r: bool)
    ensures
        r == spec_payment_covers_all(funds@, price@),
{
    let mut j: usize = 0;
    while j < price.len()
        invariant
            0 <= j <= price@.len(),
            forall|k: int| 0 <= k < j ==> spec_payment_covers(funds@, price@[k]),
        decreases price@.len() - j,
    {
        if !payment_covers(funds, &price[j]) {
            return false;
        }
        j = j + 1;
    }
    true
}

} // verus!
