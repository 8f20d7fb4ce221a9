//! Attached payments: coins and the exact-payment check.
//!
//! A purchase must attach a payment that equals the listing price exactly in
//! the configured settlement currency; coins of other currencies are
//! ignored by the check.

use vstd::prelude::*;

verus! {

/// The abstraction of a [`Coin`].
pub struct CoinView {
    pub denom: Seq<char>,
    pub amount: u128,
}

/// An amount of a named currency attached to a call.
#[derive(Debug)]
pub struct Coin {
    pub denom: String,
    pub amount: u128,
}

impl View for Coin {
    type V = CoinView;

    open spec fn view(&self) -> CoinView {
        CoinView { denom: self.denom@, amount: self.amount }
    }
}

impl DeepView for Coin {
    type V = CoinView;

    open spec fn deep_view(&self) -> CoinView {
        self.view()
    }
}

/// The total attached amount of `denom`, over the mathematical integers.
pub open spec fn paid_amount(funds: Seq<CoinView>, denom: Seq<char>) -> int
    decreases funds.len(),
{
    if funds.len() == 0 {
        0int
    } else {
        (if funds[0].denom == denom {
            funds[0].amount as int
        } else {
            0int
        }) + paid_amount(funds.drop_first(), denom)
    }
}

/// The total attached amount is never negative.
pub proof fn lemma_paid_amount_nonneg(funds: Seq<CoinView>, denom: Seq<char>)
    ensures
        paid_amount(funds, denom) >= 0,
    decreases funds.len(),
{
    if funds.len() > 0 {
        lemma_paid_amount_nonneg(funds.drop_first(), denom);
    }
}

/// True exactly when the attached coins pay `price` of `denom` in total.
pub fn pays_exactly(funds: &Vec<Coin>, denom: &String, price: u64) -> (r: bool)
    ensures
        r == (paid_amount(funds.deep_view(), denom@) == price as int),
{
    let ghost all = funds.deep_view();
    proof {
        assert(all.subrange(0, all.len() as int) =~= all);
    }
    let mut acc: u128 = 0;
    let mut i: usize = 0;
    while i < funds.len()
        invariant
            i <= funds@.len(),
            all == funds.deep_view(),
            all.len() == funds@.len(),
            acc as int + paid_amount(all.subrange(i as int, all.len() as int), denom@)
                == paid_amount(all, denom@),
        decreases funds@.len() - i,
    {
        proof {
            let rest = all.subrange(i as int, all.len() as int);
            assert(rest[0] == all[i as int]);
            assert(rest.drop_first() =~= all.subrange(i + 1, all.len() as int));
            assert(all[i as int] == funds@[i as int]@);
            lemma_paid_amount_nonneg(rest.drop_first(), denom@);
        }
        if funds[i].denom == *denom {
            match acc.checked_add(funds[i].amount) {
                Some(next) => {
                    acc = next;
                },
                None => {
                    // The running total already exceeds any u64 price, so
                    // the payment cannot be exact.
                    return false;
                },
            }
        }
        i = i + 1;
    }
    proof {
        assert(all.subrange(all.len() as int, all.len() as int) =~= Seq::<CoinView>::empty());
    }
    acc == price as u128
}

} // verus!
