//! Transactions of a block as the indexer lists them, the choice of those
//! that are worth a look at the UTXO service, and the lines that a block
//! leaves in its result file.

use vstd::prelude::*;
use vstd::string::StringExecFns;

use crate::text::{any_contains, comma_free, some_contains};
use crate::transaction::{Transaction, is_okx_trade, okx_trade};

verus! {

/// What the indexer says of one atom.
#[derive(Debug, PartialEq, Eq)]
pub struct AtomInfo {
    pub nft_name: Option<String>,
    pub types: Option<String>,
}

/// One atom moved by a transaction.
#[derive(Debug, PartialEq, Eq)]
pub struct Atom {
    pub atom_info: AtomInfo,
}

/// One side of a transfer: an address and the atoms it holds there.
#[derive(Debug, PartialEq, Eq)]
pub struct Party {
    pub address: String,
    pub atoms_info: Vec<Atom>,
}

/// One transaction of a block as the indexer lists it.
#[derive(Debug, PartialEq, Eq)]
pub struct Trans {
    pub block: u128,
    pub events: Vec<String>,
    pub froms: Option<Vec<Party>>,
    pub market: String,
    pub market_base64: Option<String>,
    pub tos: Option<Vec<Party>>,
    pub txid: String,
    pub utc: String,
}

/// The indexer's answer for one block.
#[derive(Debug, PartialEq, Eq)]
pub struct Root {
    pub trans: Vec<Trans>,
}

/// What the UTXO service answered for one transaction id.
#[derive(Debug, PartialEq, Eq)]
pub enum UtxoReply {
    /// No request was made.
    NotAsked,
    /// The request failed, or the body was not JSON.
    Failed,
    /// The service answered with a status other than success.
    Rejected,
    /// The body was JSON but not a transaction.
    Malformed,
    /// The transaction.
    Parsed(Transaction),
}

/// A request to the UTXO service failed.
#[derive(Debug, PartialEq, Eq)]
pub struct FetchFailed;

/// The address of the UTXO service; a transaction id follows it.
pub const BASE_URL: &'static str = "http://ws.btc.whitetowers.io/api/v1/tx/";

pub open spec fn burn_word() -> Seq<char> {
    seq!['B', 'u', 'r', 'n']
}

pub open spec fn mint_word() -> Seq<char> {
    seq!['M', 'i', 'n', 't']
}

/// The market name that the indexer gives to trades it could not place
/// (spelled as the indexer spells it).
pub open spec fn unknown_market() -> Seq<char> {
    seq!['U', 'n', 'k', 'o', 'w', 'n']
}

pub open spec fn ft_word() -> Seq<char> {
    seq!['F', 'T']
}

/// A transaction is worth a look when none of its events is a burn or a
/// mint and the indexer did not place it on a known market.
pub open spec fn is_candidate_spec(t: Trans) -> bool {
    &&& !some_contains(t.events@, burn_word())
    &&& !some_contains(t.events@, mint_word())
    &&& (t.market@ == unknown_market() || t.market_base64 is None)
}

/// Tells whether a transaction is worth a look at the UTXO service.
pub fn is_candidate(t: &Trans) -> (r: bool)
    ensures
        r == is_candidate_spec(*t),
{
    proof {
        reveal_strlit("Burn");
        reveal_strlit("Mint");
        reveal_strlit("Unkown");
        assert("Burn"@ =~= burn_word());
        assert("Mint"@ =~= mint_word());
        assert("Unkown"@ =~= unknown_market());
    }
    if any_contains(&t.events, "Burn") || any_contains(&t.events, "Mint") {
        return false;
    }
    let unknown = String::from_str("Unkown");
    if !(t.market == unknown) && t.market_base64.is_some() {
        return false;
    }
    true
}

/// The address at which the UTXO service describes a transaction.
pub fn utxo_url(txid: &String) -> (r: String)
    ensures
        r@ == BASE_URL@ + txid@,
{
    let mut url = String::from_str(BASE_URL);
    url.append(txid.as_str());
    url
}

/// The transaction is kept: it is a candidate and the UTXO service
/// described it as a marketplace trade.
pub open spec fn keeps(t: Trans, r: UtxoReply) -> bool {
    is_candidate_spec(t) && (r matches UtxoReply::Parsed(tx) && is_okx_trade(tx))
}

/// The look at the UTXO service failed for a candidate, which abandons the
/// block.
pub open spec fn aborts(t: Trans, r: UtxoReply) -> bool {
    is_candidate_spec(t) && r is Failed
}

/// The kept transactions, in their order.
pub open spec fn okx_selection(ts: Seq<Trans>, rs: Seq<UtxoReply>) -> Seq<Trans>
    decreases ts.len(),
{
    if ts.len() == 0 {
        Seq::empty()
    } else {
        let rest = okx_selection(ts.drop_first(), rs.drop_first());
        if keeps(ts[0], rs[0]) {
            seq![ts[0]] + rest
        } else {
            rest
        }
    }
}

/// Given the block's transactions and, at the same positions, what the UTXO
/// service answered for them, returns the transactions that are marketplace
/// trades; fails when a request for a candidate failed.
pub fn traverse_trans(root: Root, replies: Vec<UtxoReply>) -> (r: Result<Vec<Trans>, FetchFailed>)
    requires
        replies@.len() == root.trans@.len(),
    ensures
        r is Err <==> exists|i: int|
            0 <= i < root.trans@.len() && aborts(#[trigger] root.trans@[i], replies@[i]),
        r matches Ok(v) ==> v@ == okx_selection(root.trans@, replies@),
{
    let n = root.trans.len();
    let mut i: usize = 0;
    while i < n
        invariant
            n == root.trans@.len(),
            n == replies@.len(),
            i <= n,
            forall|j: int| 0 <= j < i ==> !aborts(#[trigger] root.trans@[j], replies@[j]),
        decreases n - i,
    {
        if is_candidate(&root.trans[i]) {
            if let UtxoReply::Failed = &replies[i] {
                return Err(FetchFailed);
            }
        }
        i = i + 1;
    }
    let ghost all_t = root.trans@;
    let ghost all_r = replies@;
    let mut ts = root.trans;
    let mut rs = replies;
    let mut out: Vec<Trans> = Vec::new();
    while ts.len() > 0
        invariant
            ts@.len() == rs@.len(),
            out@ + okx_selection(ts@, rs@) == okx_selection(all_t, all_r),
        decreases ts@.len(),
    {
        let ghost before_t = ts@;
        let ghost before_r = rs@;
        let t = ts.remove(0);
        let r = rs.remove(0);
        assert(ts@ =~= before_t.drop_first());
        assert(rs@ =~= before_r.drop_first());
        let keep = is_candidate(&t) && match &r {
            UtxoReply::Parsed(tx) => okx_trade(tx),
            _ => false,
        };
        if keep {
            out.push(t);
            assert(out@ + okx_selection(ts@, rs@) =~= okx_selection(all_t, all_r));
        }
    }
    assert(out@ =~= okx_selection(all_t, all_r));
    Ok(out)
}

/// The first atom that the transaction moves out, where there is one.
pub open spec fn first_atom(t: Trans) -> Option<AtomInfo> {
    match t.froms {
        Some(fs) => if fs@.len() > 0 && fs@[0].atoms_info@.len() > 0 {
            Some(fs@[0].atoms_info@[0].atom_info)
        } else {
            None
        },
        None => None,
    }
}

/// The atom is of type FT.
pub open spec fn is_ft(info: AtomInfo) -> bool {
    info.types matches Some(ty) && ty@ == ft_word()
}

/// The fields that a result line reads are there: the transaction moves out
/// an atom, and an FT atom has a name.
pub open spec fn ft_line_readable(t: Trans) -> bool {
    first_atom(t) matches Some(info) && (is_ft(info) ==> info.nft_name is Some)
}

/// The line that a transaction leaves in the block's result file: its id
/// and the name of the FT atom that it moves, separated by a comma; none
/// where the first atom is not of type FT.
pub open spec fn ft_line_spec(t: Trans) -> Option<Seq<char>> {
    match first_atom(t) {
        Some(info) => if is_ft(info) {
            Some(t.txid@ + seq![','] + info.nft_name.unwrap()@)
        } else {
            None
        },
        None => None,
    }
}

/// Tells whether `ft_line` can read the transaction.
pub fn can_read_ft(t: &Trans) -> (r: bool)
    ensures
        r == ft_line_readable(*t),
{
    proof {
        reveal_strlit("FT");
        assert("FT"@ =~= ft_word());
    }
    match &t.froms {
        Some(fs) => {
            if fs.len() == 0 || fs[0].atoms_info.len() == 0 {
                return false;
            }
            let info = &fs[0].atoms_info[0].atom_info;
            let ft = String::from_str("FT");
            match &info.types {
                Some(ty) => !(*ty == ft) || info.nft_name.is_some(),
                None => true,
            }
        },
        None => false,
    }
}

/// The line that a transaction leaves in the block's result file.
pub fn ft_line(t: &Trans) -> (r: Option<String>)
    requires
        ft_line_readable(*t),
    ensures
        match r {
            Some(l) => ft_line_spec(*t) == Some(l@),
            None => ft_line_spec(*t) is None,
        },
{
    proof {
        reveal_strlit("FT");
        reveal_strlit(",");
        assert("FT"@ =~= ft_word());
        assert(","@ =~= seq![',']);
    }
    match &t.froms {
        Some(fs) => {
            let info = &fs[0].atoms_info[0].atom_info;
            let ft = String::from_str("FT");
            match &info.types {
                Some(ty) => {
                    if *ty == ft {
                        match &info.nft_name {
                            Some(name) => {
                                let mut line = t.txid.clone();
                                line.append(",");
                                line.append(name.as_str());
                                Some(line)
                            },
                            None => None,
                        }
                    } else {
                        None
                    }
                },
                None => None,
            }
        },
        None => None,
    }
}

/// The height that a reply gives for a transaction: the transaction's own,
/// or 0 where the service did not describe it; fails where the request
/// failed.
pub fn block_height_from_reply(reply: UtxoReply) -> (r: Result<u128, FetchFailed>)
    ensures
        match reply {
            UtxoReply::Failed => r is Err,
            UtxoReply::Parsed(tx) => r == Ok::<u128, FetchFailed>(tx.status.block_height),
            _ => r == Ok::<u128, FetchFailed>(0),
        },
{
    match reply {
        UtxoReply::Failed => Err(FetchFailed),
        UtxoReply::Parsed(tx) => Ok(tx.status.block_height),
        _ => Ok(0),
    }
}

} // verus!
