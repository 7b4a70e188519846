//! The UTXO view of one Bitcoin transaction, and the pattern by which a
//! marketplace trade is recognised in it.

use vstd::prelude::*;

verus! {

/// The output that an input spends.
#[derive(Debug, PartialEq, Eq)]
pub struct Prevout {
    pub value: u64,
    pub scriptpubkey_address: String,
}

/// One input of a transaction.
#[derive(Debug, PartialEq, Eq)]
pub struct Vin {
    pub prevout: Prevout,
}

/// One output of a transaction.
#[derive(Debug, PartialEq, Eq)]
pub struct Vout {
    pub value: u64,
    pub scriptpubkey_address: String,
}

/// Where a transaction stands in the chain.
#[derive(Debug, PartialEq, Eq)]
pub struct Status {
    pub block_height: u128,
}

/// A transaction as the UTXO service describes it.
#[derive(Debug, PartialEq, Eq)]
pub struct Transaction {
    pub txid: String,
    pub vin: Vec<Vin>,
    pub vout: Vec<Vout>,
    pub status: Status,
}

/// A marketplace trade: the first two inputs are the buyer's and the
/// seller's; the first output pays the buyer back the value of the seller's
/// input (the inscription), and the second output pays the seller.
pub open spec fn is_okx_trade(t: Transaction) -> bool {
    &&& t.vin@.len() >= 2
    &&& t.vout@.len() >= 2
    &&& t.vout@[0].scriptpubkey_address@ == t.vin@[0].prevout.scriptpubkey_address@
    &&& t.vout@[0].value == t.vin@[1].prevout.value
    &&& t.vout@[1].scriptpubkey_address@ == t.vin@[1].prevout.scriptpubkey_address@
}

/// Tells whether the transaction has the shape of a marketplace trade,
/// without taking it.
pub fn okx_trade(t: &Transaction) -> (r: bool)
    ensures
        r == is_okx_trade(*t),
{
    if t.vin.len() < 2 || t.vout.len() < 2 {
        return false;
    }
    let buyer = &t.vin[0].prevout.scriptpubkey_address;
    let seller = &t.vin[1].prevout.scriptpubkey_address;
    let value = t.vin[1].prevout.value;
    let vout0 = &t.vout[0];
    let vout1 = &t.vout[1];
    vout0.scriptpubkey_address == *buyer && vout0.value == value
        && vout1.scriptpubkey_address == *seller
}

/// Tells whether the transaction has the shape of a marketplace trade.
pub fn detect_okx(t: Transaction) -> (r: bool)
    ensures
        r == is_okx_trade(t),
{
    okx_trade(&t)
}

} // verus!
