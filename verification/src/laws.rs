//! Properties that relate several operations of the library.

use vstd::prelude::*;

use crate::block::{
    Trans, UtxoReply, first_atom, ft_line_readable, ft_line_spec, is_candidate_spec, keeps,
    okx_selection,
};
use crate::transaction::{Transaction, is_okx_trade};
use crate::detect::{appended, cache_hit, true_count};
use crate::text::{comma_free, contains_seq, line_fields, occurs_at, some_contains};
use crate::block::{burn_word, mint_word};

verus! {

/// A line `txid,name` whose two parts hold no comma reads back as the
/// fields `txid` and `name`.
pub proof fn lemma_line_round_trip(txid: Seq<char>, name: Seq<char>)
    requires
        comma_free(txid),
        comma_free(name),
    ensures
        line_fields(txid + seq![','] + name, txid, name),
        !comma_free(txid + seq![','] + name),
{
    let line = txid + seq![','] + name;
    assert(line[txid.len() as int] == ',');
    assert(line.take(txid.len() as int) =~= txid);
    assert(line.skip(txid.len() as int + 1) =~= name);
    assert(name.take(name.len() as int) =~= name);
}

/// A line has at most one pair of first two fields.
pub proof fn lemma_line_fields_unique(
    line: Seq<char>,
    a: Seq<char>,
    b: Seq<char>,
    a2: Seq<char>,
    b2: Seq<char>,
)
    requires
        line_fields(line, a, b),
        line_fields(line, a2, b2),
    ensures
        a == a2,
        b == b2,
{
    if a.len() < a2.len() {
        assert(a2[a.len() as int] == line.take(a2.len() as int)[a.len() as int]);
        assert(false);
    }
    if a2.len() < a.len() {
        assert(a[a2.len() as int] == line.take(a.len() as int)[a2.len() as int]);
        assert(false);
    }
    assert(a.len() == a2.len());
    assert(a =~= a2);
    let rest = line.skip(a.len() as int + 1);
    if b.len() < b2.len() {
        assert(b2[b.len() as int] == rest.take(b2.len() as int)[b.len() as int]);
        assert(false);
    }
    if b2.len() < b.len() {
        assert(b[b2.len() as int] == rest.take(b.len() as int)[b2.len() as int]);
        assert(false);
    }
    assert(b =~= b2);
}

/// The line that a transaction leaves in its block's result file reads
/// back as its transaction id and its FT name, where neither holds a comma.
pub proof fn lemma_result_line_reads_back(t: Trans, a: Seq<char>, b: Seq<char>)
    requires
        ft_line_spec(t) is Some,
        comma_free(t.txid@),
        comma_free(first_atom(t).unwrap().nft_name.unwrap()@),
        line_fields(ft_line_spec(t).unwrap(), a, b),
    ensures
        !comma_free(ft_line_spec(t).unwrap()),
        a == t.txid@,
        b == first_atom(t).unwrap().nft_name.unwrap()@,
{
    let name = first_atom(t).unwrap().nft_name.unwrap()@;
    lemma_line_round_trip(t.txid@, name);
    lemma_line_fields_unique(ft_line_spec(t).unwrap(), a, b, t.txid@, name);
}

/// After a hash is appended to a tick's cached activity, the cache holds
/// it for that tick.
pub proof fn lemma_cache_hit_after_push(
    m: Map<Seq<char>, Seq<Seq<char>>>,
    tick: Seq<char>,
    h: Seq<char>,
)
    ensures
        cache_hit(appended(m, tick, h), tick, h),
{
    let l = appended(m, tick, h)[tick];
    assert(l[l.len() - 1] == h);
}

/// Appending to the cache forgets nothing that it held before.
pub proof fn lemma_cache_keeps_hits(
    m: Map<Seq<char>, Seq<Seq<char>>>,
    tick: Seq<char>,
    h: Seq<char>,
    t: Seq<char>,
    x: Seq<char>,
)
    requires
        cache_hit(m, t, x),
    ensures
        cache_hit(appended(m, tick, h), t, x),
{
    if t == tick {
        let k = choose|k: int| 0 <= k < m[t].len() && m[t][k] == x;
        assert(appended(m, tick, h)[t][k] == x);
    }
}

/// Recording a verdict adds one to the number of `true` verdicts exactly
/// when the verdict is `true`.
pub proof fn lemma_true_count_push(v: Seq<(Seq<char>, bool)>, txid: Seq<char>, flag: bool)
    ensures
        true_count(v.push((txid, flag))) == true_count(v) + if flag {
            1nat
        } else {
            0nat
        },
{
    assert(v.push((txid, flag)).drop_last() =~= v);
}

/// Every transaction that a block's traversal keeps is one of the block's
/// transactions, a candidate whose reply describes a marketplace trade.
pub proof fn lemma_selection_sound(ts: Seq<Trans>, rs: Seq<UtxoReply>, k: int)
    requires
        rs.len() == ts.len(),
        0 <= k < okx_selection(ts, rs).len(),
    ensures
        exists|i: int|
            0 <= i < ts.len() && ts[i] == okx_selection(ts, rs)[k] && keeps(ts[i], rs[i]),
    decreases ts.len(),
{
    let rest = okx_selection(ts.drop_first(), rs.drop_first());
    if keeps(ts[0], rs[0]) && k == 0 {
        assert(0 <= 0 < ts.len() && ts[0] == okx_selection(ts, rs)[k] && keeps(ts[0], rs[0]));
    } else {
        let k2 = if keeps(ts[0], rs[0]) {
            k - 1
        } else {
            k
        };
        assert(okx_selection(ts, rs)[k] == rest[k2]);
        lemma_selection_sound(ts.drop_first(), rs.drop_first(), k2);
        let i = choose|i: int|
            0 <= i < ts.drop_first().len() && ts.drop_first()[i] == rest[k2] && keeps(
                ts.drop_first()[i],
                rs.drop_first()[i],
            );
        assert(ts[i + 1] == okx_selection(ts, rs)[k] && keeps(ts[i + 1], rs[i + 1]));
    }
}

/// A block's traversal keeps no more transactions than the block has.
pub proof fn lemma_selection_len(ts: Seq<Trans>, rs: Seq<UtxoReply>)
    ensures
        okx_selection(ts, rs).len() <= ts.len(),
    decreases ts.len(),
{
    if ts.len() > 0 {
        lemma_selection_len(ts.drop_first(), rs.drop_first());
    }
}

/// A transaction is a marketplace trade exactly when it has at least two
/// inputs and two outputs, its first output pays the first input's address
/// the value of the second input, and its second output pays the second
/// input's address.
pub proof fn law_okx_trade(t: Transaction)
    ensures
        is_okx_trade(t) <==> (t.vin@.len() >= 2 && t.vout@.len() >= 2
            && t.vout@[0].scriptpubkey_address@ == t.vin@[0].prevout.scriptpubkey_address@
            && t.vout@[0].value == t.vin@[1].prevout.value
            && t.vout@[1].scriptpubkey_address@ == t.vin@[1].prevout.scriptpubkey_address@),
{
}

/// A block transaction is a candidate exactly when no event, at any
/// position, holds "Burn" or "Mint" as a substring, and its market is
/// "Unkown" or it has no base64 market.
pub proof fn law_candidate(t: Trans)
    ensures
        is_candidate_spec(t) <==> ((forall|i: int, j: int|
            0 <= i < t.events@.len() && 0 <= j && j + 4 <= t.events@[i]@.len()
                ==> #[trigger] t.events@[i]@.subrange(j, j + 4) != seq!['B', 'u', 'r', 'n'])
            && (forall|i: int, j: int|
            0 <= i < t.events@.len() && 0 <= j && j + 4 <= t.events@[i]@.len()
                ==> #[trigger] t.events@[i]@.subrange(j, j + 4) != seq!['M', 'i', 'n', 't'])
            && (t.market@ == seq!['U', 'n', 'k', 'o', 'w', 'n'] || t.market_base64 is None)),
{
    let ev = t.events@;
    let no_burn = forall|i: int, j: int|
        0 <= i < ev.len() && 0 <= j && j + 4 <= ev[i]@.len()
            ==> #[trigger] ev[i]@.subrange(j, j + 4) != seq!['B', 'u', 'r', 'n'];
    let no_mint = forall|i: int, j: int|
        0 <= i < ev.len() && 0 <= j && j + 4 <= ev[i]@.len()
            ==> #[trigger] ev[i]@.subrange(j, j + 4) != seq!['M', 'i', 'n', 't'];
    if no_burn {
        assert(!some_contains(ev, burn_word())) by {
            if some_contains(ev, burn_word()) {
                let i = choose|i: int| 0 <= i < ev.len() && contains_seq(#[trigger] ev[i]@, burn_word());
                let j = choose|j: int| occurs_at(ev[i]@, burn_word(), j);
                assert(ev[i]@.subrange(j, j + 4) == seq!['B', 'u', 'r', 'n']);
            }
        }
    } else {
        let (i, j) = choose|i: int, j: int|
            0 <= i < ev.len() && 0 <= j && j + 4 <= ev[i]@.len()
                && #[trigger] ev[i]@.subrange(j, j + 4) == seq!['B', 'u', 'r', 'n'];
        assert(occurs_at(ev[i]@, burn_word(), j));
        assert(contains_seq(ev[i]@, burn_word()));
    }
    if no_mint {
        assert(!some_contains(ev, mint_word())) by {
            if some_contains(ev, mint_word()) {
                let i = choose|i: int| 0 <= i < ev.len() && contains_seq(#[trigger] ev[i]@, mint_word());
                let j = choose|j: int| occurs_at(ev[i]@, mint_word(), j);
                assert(ev[i]@.subrange(j, j + 4) == seq!['M', 'i', 'n', 't']);
            }
        }
    } else {
        let (i, j) = choose|i: int, j: int|
            0 <= i < ev.len() && 0 <= j && j + 4 <= ev[i]@.len()
                && #[trigger] ev[i]@.subrange(j, j + 4) == seq!['M', 'i', 'n', 't'];
        assert(occurs_at(ev[i]@, mint_word(), j));
        assert(contains_seq(ev[i]@, mint_word()));
    }
}

/// The candidate rule, written over the fields of the transaction.
pub open spec fn candidate_by_fields(t: Trans) -> bool {
    &&& forall|i: int, j: int|
        0 <= i < t.events@.len() && 0 <= j && j + 4 <= t.events@[i]@.len()
            ==> #[trigger] t.events@[i]@.subrange(j, j + 4) != seq!['B', 'u', 'r', 'n']
    &&& forall|i: int, j: int|
        0 <= i < t.events@.len() && 0 <= j && j + 4 <= t.events@[i]@.len()
            ==> #[trigger] t.events@[i]@.subrange(j, j + 4) != seq!['M', 'i', 'n', 't']
    &&& (t.market@ == seq!['U', 'n', 'k', 'o', 'w', 'n'] || t.market_base64 is None)
}

/// The trade pattern, written over the fields of the transaction.
pub open spec fn trade_by_fields(tx: Transaction) -> bool {
    &&& tx.vin@.len() >= 2
    &&& tx.vout@.len() >= 2
    &&& tx.vout@[0].scriptpubkey_address@ == tx.vin@[0].prevout.scriptpubkey_address@
    &&& tx.vout@[0].value == tx.vin@[1].prevout.value
    &&& tx.vout@[1].scriptpubkey_address@ == tx.vin@[1].prevout.scriptpubkey_address@
}

/// A transaction is to be kept: a candidate by its fields whose reply is a
/// transaction with the trade pattern.
pub open spec fn kept_by_fields(t: Trans, r: UtxoReply) -> bool {
    candidate_by_fields(t) && (r matches UtxoReply::Parsed(tx) && trade_by_fields(tx))
}

proof fn lemma_keeps_by_fields(t: Trans, r: UtxoReply)
    ensures
        keeps(t, r) <==> kept_by_fields(t, r),
{
    law_candidate(t);
    if let UtxoReply::Parsed(tx) = r {
        law_okx_trade(tx);
    }
}

proof fn selection_indices(ts: Seq<Trans>, rs: Seq<UtxoReply>) -> (idx: Seq<int>)
    requires
        rs.len() == ts.len(),
    ensures
        idx.len() == okx_selection(ts, rs).len(),
        forall|k: int|
            0 <= k < idx.len() ==> 0 <= #[trigger] idx[k] < ts.len() && okx_selection(ts, rs)[k]
                == ts[idx[k]],
        forall|k1: int, k2: int| 0 <= k1 < k2 < idx.len() ==> idx[k1] < idx[k2],
        forall|i: int| 0 <= i < ts.len() ==> (kept_by_fields(ts[i], rs[i]) <==> idx.contains(i)),
    decreases ts.len(),
{
    if ts.len() == 0 {
        Seq::empty()
    } else {
        let tt = ts.drop_first();
        let tr = rs.drop_first();
        let rec = selection_indices(tt, tr);
        let shifted = rec.map(|_k: int, x: int| x + 1);
        lemma_keeps_by_fields(ts[0], rs[0]);
        let keep = keeps(ts[0], rs[0]);
        let idx = if keep {
            seq![0int] + shifted
        } else {
            shifted
        };
        let sel = okx_selection(ts, rs);
        let rest = okx_selection(tt, tr);
        assert forall|k: int| 0 <= k < idx.len() implies 0 <= #[trigger] idx[k] < ts.len()
            && sel[k] == ts[idx[k]] by {
            if keep {
                if k > 0 {
                    assert(idx[k] == rec[k - 1] + 1);
                    assert(sel[k] == rest[k - 1]);
                }
            } else {
                assert(idx[k] == rec[k] + 1);
                assert(sel[k] == rest[k]);
            }
        }
        assert forall|k1: int, k2: int| 0 <= k1 < k2 < idx.len() implies idx[k1] < idx[k2] by {
            if keep {
                if k1 > 0 {
                    assert(idx[k1] == rec[k1 - 1] + 1);
                    assert(idx[k2] == rec[k2 - 1] + 1);
                } else {
                    assert(idx[k2] == rec[k2 - 1] + 1);
                    assert(0 <= rec[k2 - 1]);
                }
            } else {
                assert(idx[k1] == rec[k1] + 1);
                assert(idx[k2] == rec[k2] + 1);
            }
        }
        assert forall|i: int| 0 <= i < ts.len() implies (kept_by_fields(ts[i], rs[i])
            <==> idx.contains(i)) by {
            if i == 0 {
                if keep {
                    assert(idx[0] == 0);
                } else {
                    if idx.contains(0) {
                        let k = choose|k: int| 0 <= k < idx.len() && idx[k] == 0;
                        assert(idx[k] == rec[k] + 1);
                    }
                }
            } else {
                assert(ts[i] == tt[i - 1] && rs[i] == tr[i - 1]);
                if rec.contains(i - 1) {
                    let k = choose|k: int| 0 <= k < rec.len() && rec[k] == i - 1;
                    if keep {
                        assert(idx[k + 1] == i);
                    } else {
                        assert(idx[k] == i);
                    }
                }
                if idx.contains(i) {
                    let k = choose|k: int| 0 <= k < idx.len() && idx[k] == i;
                    if keep {
                        assert(k > 0);
                        assert(rec[k - 1] == i - 1);
                    } else {
                        assert(rec[k] == i - 1);
                    }
                }
            }
        }
        idx
    }
}

/// `idx` lists, in increasing order, the positions of the block whose
/// transactions the traversal keeps; those are the positions of the
/// candidates (by their fields) whose reply is a transaction with the trade
/// pattern, and the traversal's result is the block's transactions at them.
pub open spec fn selects_by_index(ts: Seq<Trans>, rs: Seq<UtxoReply>, idx: Seq<int>) -> bool {
    &&& idx.len() == okx_selection(ts, rs).len()
    &&& forall|k: int|
        0 <= k < idx.len() ==> 0 <= #[trigger] idx[k] < ts.len() && okx_selection(ts, rs)[k]
            == ts[idx[k]]
    &&& forall|k1: int, k2: int| 0 <= k1 < k2 < idx.len() ==> idx[k1] < idx[k2]
    &&& forall|i: int| 0 <= i < ts.len() ==> (kept_by_fields(ts[i], rs[i]) <==> idx.contains(i))
}

/// A block's traversal keeps exactly the candidates (by their fields)
/// whose reply is a transaction with the trade pattern, each once and in
/// the block's order, whatever the replies at other positions.
pub proof fn law_selection_exact(ts: Seq<Trans>, rs: Seq<UtxoReply>)
    requires
        rs.len() == ts.len(),
    ensures
        exists|idx: Seq<int>| #[trigger] selects_by_index(ts, rs, idx),
{
    let idx = selection_indices(ts, rs);
    assert(selects_by_index(ts, rs, idx));
}

/// Every candidate (by its fields) whose reply is a transaction with the
/// trade pattern is kept by its block's traversal.
pub proof fn law_selection_complete(ts: Seq<Trans>, rs: Seq<UtxoReply>, i: int)
    requires
        rs.len() == ts.len(),
        0 <= i < ts.len(),
        candidate_by_fields(ts[i]),
        rs[i] matches UtxoReply::Parsed(tx) && trade_by_fields(tx),
    ensures
        okx_selection(ts, rs).contains(ts[i]),
{
    let idx = selection_indices(ts, rs);
    assert(idx.contains(i));
    let k = choose|k: int| 0 <= k < idx.len() && idx[k] == i;
    assert(okx_selection(ts, rs)[k] == ts[i]);
}

/// The result line reads the first atom of the first party: where that
/// atom is of type "FT" and has a name, the line is the transaction id, a
/// comma and that name; where it is not of type "FT", there is no line.
pub proof fn law_ft_line_first_atom(t: Trans)
    requires
        t.froms is Some,
        t.froms.unwrap()@.len() > 0,
        t.froms.unwrap()@[0].atoms_info@.len() > 0,
    ensures
        ({
            let info = t.froms.unwrap()@[0].atoms_info@[0].atom_info;
            &&& (info.types matches Some(ty) && ty@ == seq!['F', 'T'] && info.nft_name is Some)
                ==> ft_line_spec(t) == Some(t.txid@ + seq![','] + info.nft_name.unwrap()@)
            &&& !(info.types matches Some(ty) && ty@ == seq!['F', 'T']) ==> ft_line_spec(t) is None
            &&& ft_line_readable(t) <==> (info.types matches Some(ty) && ty@ == seq!['F', 'T']
                ==> info.nft_name is Some)
        }),
{
}

/// Without a first atom of a first party there is nothing to read.
pub proof fn law_ft_line_needs_first_atom(t: Trans)
    requires
        !(t.froms is Some && t.froms.unwrap()@.len() > 0 && t.froms.unwrap()@[0].atoms_info@.len()
            > 0),
    ensures
        !ft_line_readable(t),
        ft_line_spec(t) is None,
{
}

} // verus!
