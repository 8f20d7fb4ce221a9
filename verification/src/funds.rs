//! The funds router: pure computation turning a settlement event into
//! transfer instructions.
//!
//! The router only computes recipients and amounts; it never moves value
//! and never validates identities. On settlement the fee is computed first
//! with floor division and the seller receives the remainder, so the two
//! amounts always add up to the price exactly.

use vstd::arithmetic::div_mod::{lemma_div_is_ordered, lemma_div_multiples_vanish};
use vstd::prelude::*;

verus! {

/// The abstraction of a [`TransferInstruction`].
pub struct TransferView {
    pub recipient: Seq<char>,
    pub amount: u128,
    pub denom: Seq<char>,
}

/// One instruction for the surrounding settlement ledger: pay `amount` of
/// `denom` to `recipient`. The library emits instructions; the execution
/// environment moves the value.
#[derive(Debug)]
pub struct TransferInstruction {
    pub recipient: String,
    pub amount: u128,
    pub denom: String,
}

impl View for TransferInstruction {
    type V = TransferView;

    open spec fn view(&self) -> TransferView {
        TransferView { recipient: self.recipient@, amount: self.amount, denom: self.denom@ }
    }
}

impl DeepView for TransferInstruction {
    type V = TransferView;

    open spec fn deep_view(&self) -> TransferView {
        self.view()
    }
}

/// The settlement fee: five percent of the price, rounded down.
pub open spec fn fee_of(price: u64) -> int {
    price * 5 / 100
}

/// The seller's share: the price less the fee.
pub open spec fn seller_share(price: u64) -> int {
    price - fee_of(price)
}

/// The fee is at most the price, so the seller's share is never negative.
pub proof fn lemma_fee_bounds(price: u64)
    ensures
        0 <= fee_of(price) <= price,
        seller_share(price) + fee_of(price) == price,
{
    lemma_div_is_ordered(0, price * 5, 100);
    lemma_div_is_ordered(price * 5, price * 100, 100);
    lemma_div_multiples_vanish(price as int, 100);
    assert(price * 100 == 100 * price);
}

/// The two settlement instructions: the seller's share, then the fee to the
/// administrator.
pub open spec fn settlement_transfers(
    price: u64,
    seller: Seq<char>,
    admin: Seq<char>,
    denom: Seq<char>,
) -> Seq<TransferView> {
    seq![
        TransferView { recipient: seller, amount: seller_share(price) as u128, denom },
        TransferView { recipient: admin, amount: fee_of(price) as u128, denom },
    ]
}

/// The single refund instruction: the full price back to the buyer.
pub open spec fn refund_transfers(buyer: Seq<char>, price: u64, denom: Seq<char>) -> Seq<
    TransferView,
> {
    seq![TransferView { recipient: buyer, amount: price as u128, denom }]
}

/// The single arbitration instruction: the full price to the chosen
/// recipient.
pub open spec fn arbitration_transfers(
    recipient: Seq<char>,
    price: u64,
    denom: Seq<char>,
) -> Seq<TransferView> {
    seq![TransferView { recipient: recipient, amount: price as u128, denom }]
}

/// Computes the settlement instructions for a received purchase: the seller
/// is paid the price less the five-percent fee, the administrator the fee.
pub fn route_settlement(price: u64, seller: &String, admin: &String, denom: &String) -> (r: Vec<
    TransferInstruction,
>)
    ensures
        r.deep_view() == settlement_transfers(price, seller@, admin@, denom@),
{
    proof {
        lemma_fee_bounds(price);
    }
    let fee_amount: u128 = price as u128 * 5 / 100;
    let seller_amount: u128 = price as u128 - fee_amount;
    let mut r: Vec<TransferInstruction> = Vec::new();
    r.push(
        TransferInstruction {
            recipient: seller.clone(),
            amount: seller_amount,
            denom: denom.clone(),
        },
    );
    r.push(
        TransferInstruction { recipient: admin.clone(), amount: fee_amount, denom: denom.clone() },
    );
    proof {
        assert(r.deep_view() =~= settlement_transfers(price, seller@, admin@, denom@));
    }
    r
}

/// Computes the refund instruction for a cancelled purchase.
pub fn route_refund(buyer: &String, price: u64, denom: &String) -> (r: Vec<TransferInstruction>)
    ensures
        r.deep_view() == refund_transfers(buyer@, price, denom@),
{
    let mut r: Vec<TransferInstruction> = Vec::new();
    r.push(
        TransferInstruction {
            recipient: buyer.clone(),
            amount: price as u128,
            denom: denom.clone(),
        },
    );
    proof {
        assert(r.deep_view() =~= refund_transfers(buyer@, price, denom@));
    }
    r
}

/// Computes the payout instruction for an arbitrated dispute. The caller
/// validates that the recipient is the seller or the buyer before routing.
pub fn route_arbitration(recipient: &String, price: u64, denom: &String) -> (r: Vec<
    TransferInstruction,
>)
    ensures
        r.deep_view() == arbitration_transfers(recipient@, price, denom@),
{
    let mut r: Vec<TransferInstruction> = Vec::new();
    r.push(
        TransferInstruction {
            recipient: recipient.clone(),
            amount: price as u128,
            denom: denom.clone(),
        },
    );
    proof {
        assert(r.deep_view() =~= arbitration_transfers(recipient@, price, denom@));
    }
    r
}

} // verus!
