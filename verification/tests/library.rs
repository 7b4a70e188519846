use okx_detect::block::{
    Atom, AtomInfo, FetchFailed, Party, Root, Trans, UtxoReply, block_height_from_reply,
    can_read_ft, ft_line, is_candidate, traverse_trans, utxo_url, BASE_URL,
};
use okx_detect::detect::{
    okx_activity_url, scan_range, ActivityStep, Detection, ListInfo, TickCache,
};
use okx_detect::text::{any_contains, parse_line, str_contains};
use okx_detect::transaction::{Prevout, Vin, Vout};
use okx_detect::{detect_okx, foo, Status, Transaction};

fn s(x: &str) -> String {
    x.to_string()
}

fn vin(addr: &str, value: u64) -> Vin {
    Vin { prevout: Prevout { value, scriptpubkey_address: s(addr) } }
}

fn vout(addr: &str, value: u64) -> Vout {
    Vout { value, scriptpubkey_address: s(addr) }
}

fn trade(txid: &str, height: u128) -> Transaction {
    Transaction {
        txid: s(txid),
        vin: vec![vin("buyer", 1000), vin("seller", 546)],
        vout: vec![vout("buyer", 546), vout("seller", 5000)],
        status: Status { block_height: height },
    }
}

fn trans(txid: &str, events: &[&str], market: &str, market_base64: Option<&str>, froms: Option<Vec<Party>>) -> Trans {
    Trans {
        block: 836761,
        events: events.iter().map(|e| s(e)).collect(),
        froms,
        market: s(market),
        market_base64: market_base64.map(s),
        tos: None,
        txid: s(txid),
        utc: s("2024-03-20 10:00:00"),
    }
}

fn party(types: Option<&str>, nft_name: Option<&str>) -> Party {
    Party {
        address: s("bc1qaddr"),
        atoms_info: vec![Atom { atom_info: AtomInfo { nft_name: nft_name.map(s), types: types.map(s) } }],
    }
}

#[test]
fn detect_okx_accepts_trade_pattern() {
    assert!(detect_okx(trade("t", 1)));
}

#[test]
fn detect_okx_rejects_short_transactions() {
    let mut t = trade("t", 1);
    t.vin.pop();
    assert!(!detect_okx(t));
    let mut t = trade("t", 1);
    t.vout.pop();
    assert!(!detect_okx(t));
}

#[test]
fn detect_okx_rejects_mismatches() {
    let mut t = trade("t", 1);
    t.vout[0].scriptpubkey_address = s("other");
    assert!(!detect_okx(t));
    let mut t = trade("t", 1);
    t.vout[0].value = 547;
    assert!(!detect_okx(t));
    let mut t = trade("t", 1);
    t.vout[1].scriptpubkey_address = s("buyer");
    assert!(!detect_okx(t));
}

#[test]
fn foo_returns_zero() {
    assert_eq!(foo(5, 3), 0);
    assert_eq!(foo(-7, -1), 0);
}

#[test]
fn substring_search() {
    assert!(str_contains("TokenBurned", "Burn"));
    assert!(str_contains("Mint", "Mint"));
    assert!(str_contains("abc", ""));
    assert!(!str_contains("Bur", "Burn"));
    assert!(!str_contains("burn", "Burn"));
    assert!(any_contains(&vec![s("Transfer"), s("FtMint")], "Mint"));
    assert!(!any_contains(&vec![s("Transfer")], "Mint"));
}

#[test]
fn candidates() {
    assert!(is_candidate(&trans("a", &["Transfer"], "Unkown", Some("eA=="), None)));
    assert!(is_candidate(&trans("a", &["Transfer"], "okx", None, None)));
    assert!(!is_candidate(&trans("a", &["Transfer"], "okx", Some("b2t4"), None)));
    assert!(!is_candidate(&trans("a", &["Transfer", "Burn"], "Unkown", None, None)));
    assert!(!is_candidate(&trans("a", &["FtMint"], "Unkown", None, None)));
}

#[test]
fn urls() {
    assert_eq!(BASE_URL, "http://ws.btc.whitetowers.io/api/v1/tx/");
    assert_eq!(utxo_url(&s("abc")), "http://ws.btc.whitetowers.io/api/v1/tx/abc");
    assert_eq!(
        okx_activity_url(&s("atom")),
        "https://www.okx.com/priapi/v1/nft/inscription/rc20/detail/activity?tick=atom&type=5&tickerType=3&pageSize=50&ticker=atom"
    );
}

#[test]
fn traverse_keeps_detected_candidates() {
    let root = Root {
        trans: vec![
            trans("t0", &["Transfer"], "Unkown", None, None),
            trans("t1", &["Burn"], "Unkown", None, None),
            trans("t2", &["Transfer"], "Unkown", None, None),
            trans("t3", &["Transfer"], "Unkown", None, None),
            trans("t4", &["Transfer"], "Unkown", None, None),
        ],
    };
    let mut not_trade = trade("t2", 1);
    not_trade.vout[0].value = 1;
    let replies = vec![
        UtxoReply::Parsed(trade("t0", 1)),
        UtxoReply::Parsed(trade("t1", 1)),
        UtxoReply::Parsed(not_trade),
        UtxoReply::Rejected,
        UtxoReply::Parsed(trade("t4", 1)),
    ];
    let kept = traverse_trans(root, replies).unwrap();
    let ids: Vec<&str> = kept.iter().map(|t| t.txid.as_str()).collect();
    assert_eq!(ids, vec!["t0", "t4"]);
}

#[test]
fn traverse_fails_on_failed_candidate() {
    let root = Root {
        trans: vec![
            trans("t0", &["Transfer"], "Unkown", None, None),
            trans("t1", &["Transfer"], "Unkown", None, None),
        ],
    };
    let replies = vec![UtxoReply::Parsed(trade("t0", 1)), UtxoReply::Failed];
    assert_eq!(traverse_trans(root, replies), Err(FetchFailed));
}

#[test]
fn traverse_ignores_replies_of_non_candidates() {
    let root = Root {
        trans: vec![
            trans("t0", &["Mint"], "Unkown", None, None),
            trans("t1", &["Transfer"], "Unkown", None, None),
        ],
    };
    let replies = vec![UtxoReply::Failed, UtxoReply::Malformed];
    assert_eq!(traverse_trans(root, replies), Ok(vec![]));
}

#[test]
fn result_lines() {
    let t = trans("tx1", &[], "Unkown", None, Some(vec![party(Some("FT"), Some("quark"))]));
    assert!(can_read_ft(&t));
    assert_eq!(ft_line(&t), Some(s("tx1,quark")));
    let t = trans("tx2", &[], "Unkown", None, Some(vec![party(Some("NFT"), None)]));
    assert!(can_read_ft(&t));
    assert_eq!(ft_line(&t), None);
    let t = trans("tx3", &[], "Unkown", None, Some(vec![party(None, None)]));
    assert!(can_read_ft(&t));
    assert_eq!(ft_line(&t), None);
}

#[test]
fn result_line_fields_missing() {
    assert!(!can_read_ft(&trans("a", &[], "Unkown", None, None)));
    assert!(!can_read_ft(&trans("a", &[], "Unkown", None, Some(vec![]))));
    let no_atoms = Party { address: s("x"), atoms_info: vec![] };
    assert!(!can_read_ft(&trans("a", &[], "Unkown", None, Some(vec![no_atoms]))));
    assert!(!can_read_ft(&trans("a", &[], "Unkown", None, Some(vec![party(Some("FT"), None)]))));
}

#[test]
fn result_line_reads_back() {
    let t = trans("tx9", &[], "Unkown", None, Some(vec![party(Some("FT"), Some("sophon"))]));
    let line = ft_line(&t).unwrap();
    assert_eq!(parse_line(&line), Some((s("tx9"), s("sophon"))));
}

#[test]
fn block_heights_from_replies() {
    assert_eq!(block_height_from_reply(UtxoReply::Parsed(trade("t", 836700))), Ok(836700));
    assert_eq!(block_height_from_reply(UtxoReply::Rejected), Ok(0));
    assert_eq!(block_height_from_reply(UtxoReply::Malformed), Ok(0));
    assert_eq!(block_height_from_reply(UtxoReply::Failed), Err(FetchFailed));
}

#[test]
fn parse_lines() {
    assert_eq!(parse_line("a,b"), Some((s("a"), s("b"))));
    assert_eq!(parse_line("txid,tick,836761"), Some((s("txid"), s("tick"))));
    assert_eq!(parse_line(",x"), Some((s(""), s("x"))));
    assert_eq!(parse_line("a,"), Some((s("a"), s(""))));
    assert_eq!(parse_line("abc"), None);
    assert_eq!(parse_line(""), None);
}

#[test]
fn scan_range_covers_step_blocks_back() {
    assert_eq!(scan_range(836761, 2), (836759, 836762));
    assert_eq!(scan_range(5, 5), (0, 6));
}

#[test]
fn tick_cache_reads_back_pushes() {
    let mut c = TickCache::new();
    assert!(!c.hit(&s("atom"), &s("h1")));
    c.push(&s("atom"), s("h1"));
    assert!(c.hit(&s("atom"), &s("h1")));
    assert!(!c.hit(&s("atom"), &s("h2")));
    assert!(!c.hit(&s("quark"), &s("h1")));
    c.push(&s("atom"), s("h2"));
    assert!(c.hit(&s("atom"), &s("h1")));
    assert!(c.hit(&s("atom"), &s("h2")));
}

#[test]
fn detection_admits_lines() {
    let mut d = Detection::new();
    assert_eq!(d.admit_line("tx1,atom"), Some((s("tx1"), s("atom"))));
    assert_eq!(d.admit_line("no comma"), None);
    let item = ListInfo { platform_name: s("OKX"), tx_hash: s("tx1") };
    assert_eq!(d.send_req_step(836761, &s("atom"), &item, 836700, false), ActivityStep::Continue(true));
    assert!(d.cached(&s("atom"), &s("tx1")));
}

#[test]
fn detection_steps() {
    let mut d = Detection::new();
    let okx_other = ListInfo { platform_name: s("OKX"), tx_hash: s("other") };
    let unisat = ListInfo { platform_name: s("unisat"), tx_hash: s("tx5") };
    // far past the checked block: confirmed, nothing cached
    assert_eq!(d.send_req_step(100, &s("atom"), &okx_other, 151, false), ActivityStep::Confirmed);
    assert!(!d.cached(&s("atom"), &s("other")));
    // exactly 50 past: not confirmed; a marketplace entry is cached
    assert_eq!(d.send_req_step(100, &s("atom"), &okx_other, 150, false), ActivityStep::Continue(false));
    assert!(d.cached(&s("atom"), &s("other")));
    // another platform: flag kept, nothing cached
    assert_eq!(d.send_req_step(100, &s("atom"), &unisat, 90, true), ActivityStep::Continue(true));
    assert!(!d.cached(&s("atom"), &s("tx5")));
}

#[test]
fn detection_tally() {
    let mut d = Detection::new();
    assert_eq!(d.tally(), (0, 0));
    d.record(s("a"), true);
    d.record(s("b"), false);
    d.record(s("c"), true);
    assert_eq!(d.tally(), (2, 3));
}
