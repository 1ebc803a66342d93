//! Plain values that a call hands in (who sent it, what they paid, the time)
//! and the fund transfers that a call hands back.
use vstd::prelude::*;

verus! {

/// An amount of one currency denomination.
#[derive(Debug)]
pub struct Coin {
    pub denom: String,
    pub amount: u128,
}

/// Who made the call and which coins came with it.
#[derive(Debug)]
pub struct MessageInfo {
    pub sender: String,
    pub funds: Vec<Coin>,
}

/// What a call learns from its surroundings: the block time in seconds and
/// the contract's own balance in its configured denomination.
#[derive(Debug)]
pub struct Env {
    pub block_time: u64,
    pub contract_balance: u128,
}

/// An instruction to send `amount` of `denom` to `to_address`.
#[derive(Debug)]
pub struct Transfer {
    pub to_address: String,
    pub denom: String,
    pub amount: u128,
}

/// The amount of the first coin of `denom` among `funds`, if any.
pub open spec fn first_payment(funds: Seq<Coin>, denom: Seq<char>) -> Option<u128>
    decreases funds.len(),
{
    if funds.len() == 0 {
        None
    } else if funds[0].denom@ == denom {
        Some(funds[0].amount)
    } else {
        first_payment(funds.drop_first(), denom)
    }
}

proof fn lemma_first_payment_skip(funds: Seq<Coin>, denom: Seq<char>, i: int)
    requires
        0 <= i < funds.len(),
        forall|j: int| 0 <= j < i ==> (#[trigger] funds[j]).denom@ != denom,
    ensures
        first_payment(funds, denom) == first_payment(funds.subrange(i, funds.len() as int), denom),
    decreases i,
{
    if i > 0 {
        let rest = funds.drop_first();
        assert forall|j: int| 0 <= j < i - 1 implies (#[trigger] rest[j]).denom@ != denom by {
            assert(rest[j] == funds[j + 1]);
        }
        lemma_first_payment_skip(rest, denom, i - 1);
        assert(rest.subrange(i - 1, rest.len() as int) =~= funds.subrange(i, funds.len() as int));
    } else {
        assert(funds.subrange(0, funds.len() as int) =~= funds);
    }
}

/// The amount paid in `denom`: that of the first coin of that denomination.
pub fn find_payment(funds: &Vec<Coin>, denom: &String) -> (r: Option<u128>)
    ensures
        r == first_payment(funds@, denom@),
{
    let mut i: usize = 0;
    while i < funds.len()
        invariant
            i <= funds@.len(),
            forall|j: int| 0 <= j < i ==> (#[trigger] funds@[j]).denom@ != denom@,
        decreases funds@.len() - i,
    {
        if funds[i].denom == *denom {
            proof {
                lemma_first_payment_skip(funds@, denom@, i as int);
            }
            return Some(funds[i].amount);
        }
        i = i + 1;
    }
    proof {
        lemma_first_payment_none(funds@, denom@);
    }
    None
}

proof fn lemma_first_payment_none(funds: Seq<Coin>, denom: Seq<char>)
    requires
        forall|j: int| 0 <= j < funds.len() ==> (#[trigger] funds[j]).denom@ != denom,
    ensures
        first_payment(funds, denom) is None,
    decreases funds.len(),
{
    if funds.len() > 0 {
        let rest = funds.drop_first();
        assert forall|j: int| 0 <= j < rest.len() implies (#[trigger] rest[j]).denom@ != denom by {
            assert(rest[j] == funds[j + 1]);
        }
        lemma_first_payment_none(rest, denom);
    }
}

/// A copy of an optional address.
pub fn clone_opt(s: &Option<String>) -> (r: Option<String>)
    ensures
        r == *s,
{
    match s {
        Some(x) => Some(x.clone()),
        None => None,
    }
}

} // verus!
