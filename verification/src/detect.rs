//! The state of a scan over a range of blocks: the transaction ids read so
//! far, the marketplace activity cached per tick, and the verdicts.

use vstd::prelude::*;
use vstd::hash_map::StringHashMap;
use vstd::hash_set::StringHashSet;
use vstd::string::StringExecFns;

use crate::text::{comma_free, line_fields, parse_line};

verus! {

/// The verdict for one transaction id read from a result file.
#[derive(Debug, PartialEq, Eq)]
pub struct Verify {
    pub txid: String,
    pub flag: bool,
}

/// One entry of the activity list that the marketplace publishes for a tick.
#[derive(Debug, PartialEq, Eq)]
pub struct ListInfo {
    pub platform_name: String,
    pub tx_hash: String,
}

/// What one entry of the activity list decides.
#[derive(Debug, PartialEq, Eq)]
pub enum ActivityStep {
    /// The entry is well past the block that is checked: the trade counts
    /// as confirmed and the rest of the list is not read.
    Confirmed,
    /// Go on with the next entry; the flag so far.
    Continue(bool),
}

/// The start of the marketplace's activity address; the tick follows.
pub const OKX_ACTIVITY_HEAD: &'static str = "https://www.okx.com/priapi/v1/nft/inscription/rc20/detail/activity?tick=";

/// The middle of the marketplace's activity address; the tick follows again.
pub const OKX_ACTIVITY_MIDDLE: &'static str = "&type=5&tickerType=3&pageSize=50&ticker=";

pub open spec fn okx_word() -> Seq<char> {
    seq!['O', 'K', 'X']
}

pub open spec fn strings_view(v: Seq<String>) -> Seq<Seq<char>> {
    v.map_values(|s: String| s@)
}

/// The cached list for `tick` holds `tx`.
pub open spec fn cache_hit(m: Map<Seq<char>, Seq<Seq<char>>>, tick: Seq<char>, tx: Seq<char>) -> bool {
    &&& m.contains_key(tick)
    &&& m[tick].len() >= 1
    &&& m[tick].contains(tx)
}

/// `h` appended to the list cached for `tick`, which is created empty when
/// there is none.
pub open spec fn appended(m: Map<Seq<char>, Seq<Seq<char>>>, tick: Seq<char>, h: Seq<char>) -> Map<
    Seq<char>,
    Seq<Seq<char>>,
> {
    let old_list = if m.contains_key(tick) {
        m[tick]
    } else {
        Seq::empty()
    };
    m.insert(tick, old_list.push(h))
}

fn copy_strings(v: &Vec<String>) -> (r: Vec<String>)
    ensures
        strings_view(r@) == strings_view(v@),
{
    let mut r: Vec<String> = Vec::new();
    let mut i: usize = 0;
    while i < v.len()
        invariant
            i <= v@.len(),
            r@.len() == i,
            forall|j: int| 0 <= j < i ==> #[trigger] r@[j]@ == v@[j]@,
        decreases v@.len() - i,
    {
        r.push(v[i].clone());
        i = i + 1;
    }
    assert(strings_view(r@) =~= strings_view(v@));
    r
}

fn holds_string(v: &Vec<String>, x: &String) -> (r: bool)
    ensures
        r == strings_view(v@).contains(x@),
{
    let mut i: usize = 0;
    while i < v.len()
        invariant
            i <= v@.len(),
            forall|j: int| 0 <= j < i ==> #[trigger] v@[j]@ != x@,
        decreases v@.len() - i,
    {
        if v[i] == *x {
            assert(strings_view(v@)[i as int] == x@);
            return true;
        }
        i = i + 1;
    }
    assert(!strings_view(v@).contains(x@)) by {
        if strings_view(v@).contains(x@) {
            let k = choose|k: int| 0 <= k < strings_view(v@).len() && strings_view(v@)[k] == x@;
            assert(v@[k]@ == x@);
        }
    }
    false
}

/// The marketplace activity seen so far, per tick: the transaction hashes
/// of its trades, in the order they were read.
pub struct TickCache {
    m: StringHashMap<Vec<String>>,
}

impl View for TickCache {
    type V = Map<Seq<char>, Seq<Seq<char>>>;

    closed spec fn view(&self) -> Self::V {
        self.m@.map_values(|v: Vec<String>| strings_view(v@))
    }
}

impl TickCache {
    /// An empty cache.
    pub fn new() -> (r: Self)
        ensures
            r@ == Map::<Seq<char>, Seq<Seq<char>>>::empty(),
    {
        let r = TickCache { m: StringHashMap::new() };
        assert(r@ =~= Map::<Seq<char>, Seq<Seq<char>>>::empty());
        r
    }

    /// Tells whether the list cached for `tick` holds `tx_id`.
    pub fn hit(&self, tick: &String, tx_id: &String) -> (r: bool)
        ensures
            r == cache_hit(self@, tick@, tx_id@),
    {
        match self.m.get(tick.as_str()) {
            Some(list) => list.len() >= 1 && holds_string(list, tx_id),
            None => false,
        }
    }

    /// Appends `tx_hash` to the list cached for `tick`.
    pub fn push(&mut self, tick: &String, tx_hash: String)
        ensures
            final(self)@ == appended(old(self)@, tick@, tx_hash@),
    {
        let ghost h = tx_hash@;
        let ghost old_view = self@;
        let ghost old_list = if old_view.contains_key(tick@) {
            old_view[tick@]
        } else {
            Seq::<Seq<char>>::empty()
        };
        let mut list: Vec<String> = match self.m.get(tick.as_str()) {
            Some(v) => copy_strings(v),
            None => {
                assert(strings_view(Seq::<String>::empty()) =~= Seq::<Seq<char>>::empty());
                Vec::new()
            },
        };
        assert(strings_view(list@) == old_list);
        let ghost before = list@;
        list.push(tx_hash);
        assert(strings_view(list@) =~= strings_view(before).push(h));
        self.m.insert(tick.clone(), list);
        assert(self@ =~= appended(old_view, tick@, h));
    }
}

/// The number of verdicts that are `false`.
pub open spec fn false_count(v: Seq<(Seq<char>, bool)>) -> nat
    decreases v.len(),
{
    if v.len() == 0 {
        0
    } else {
        false_count(v.drop_last()) + if v.last().1 {
            0nat
        } else {
            1nat
        }
    }
}

/// The number of verdicts that are `true`.
pub open spec fn true_count(v: Seq<(Seq<char>, bool)>) -> nat
    decreases v.len(),
{
    if v.len() == 0 {
        0
    } else {
        true_count(v.drop_last()) + if v.last().1 {
            1nat
        } else {
            0nat
        }
    }
}

/// Every verdict is either `true` or `false`.
pub proof fn lemma_counts_split(v: Seq<(Seq<char>, bool)>)
    ensures
        true_count(v) + false_count(v) == v.len(),
    decreases v.len(),
{
    if v.len() > 0 {
        lemma_counts_split(v.drop_last());
    }
}

pub open spec fn verdicts_view(v: Seq<Verify>) -> Seq<(Seq<char>, bool)> {
    v.map_values(|x: Verify| (x.txid@, x.flag))
}

/// What a scan holds: the cached activity per tick, the transaction ids
/// read, and the verdicts in the order they were given.
pub struct DetectionView {
    pub ticks: Map<Seq<char>, Seq<Seq<char>>>,
    pub tx_ids: Set<Seq<char>>,
    pub verdicts: Seq<(Seq<char>, bool)>,
}

/// The state of a scan.
pub struct Detection {
    ticks: TickCache,
    tx_ids: StringHashSet,
    ok_list: Vec<Verify>,
    count: usize,
}

impl View for Detection {
    type V = DetectionView;

    closed spec fn view(&self) -> DetectionView {
        DetectionView {
            ticks: self.ticks@,
            tx_ids: self.tx_ids@,
            verdicts: verdicts_view(self.ok_list@),
        }
    }
}

impl Detection {
    /// The scan keeps count of the `false` verdicts.
    pub closed spec fn wf(&self) -> bool {
        self.count == false_count(verdicts_view(self.ok_list@))
    }

    /// A scan that has read nothing.
    pub fn new() -> (r: Self)
        ensures
            r.wf(),
            r@.ticks == Map::<Seq<char>, Seq<Seq<char>>>::empty(),
            r@.tx_ids == Set::<Seq<char>>::empty(),
            r@.verdicts == Seq::<(Seq<char>, bool)>::empty(),
    {
        let r = Detection {
            ticks: TickCache::new(),
            tx_ids: StringHashSet::new(),
            ok_list: Vec::new(),
            count: 0,
        };
        assert(verdicts_view(r.ok_list@) =~= Seq::<(Seq<char>, bool)>::empty());
        r
    }

    /// Reads a line of a result file: where it has two fields, the first (a
    /// transaction id) joins the ids read, and both are returned.
    pub fn admit_line(&mut self, line: &str) -> (r: Option<(String, String)>)
        requires
            old(self).wf(),
        ensures
            final(self).wf(),
            final(self)@.ticks == old(self)@.ticks,
            final(self)@.verdicts == old(self)@.verdicts,
            match r {
                None => comma_free(line@) && final(self)@.tx_ids == old(self)@.tx_ids,
                Some((a, b)) => line_fields(line@, a@, b@) && final(self)@.tx_ids == old(
                    self,
                )@.tx_ids.insert(a@),
            },
    {
        match parse_line(line) {
            Some((a, b)) => {
                self.tx_ids.insert(a.clone());
                Some((a, b))
            },
            None => None,
        }
    }

    /// Tells whether the activity cached for `tick` holds `tx_id`.
    pub fn cached(&self, tick: &String, tx_id: &String) -> (r: bool)
        ensures
            r == cache_hit(self@.ticks, tick@, tx_id@),
    {
        self.ticks.hit(tick, tx_id)
    }

    /// Reads one entry of the activity list of `tick`, whose transaction
    /// lies at `block_height`, while the block at `height` is checked:
    /// an entry more than 50 blocks past `height` confirms the trade; else
    /// a marketplace entry is cached for the tick and sets the flag where
    /// its transaction is among the ids read.
    pub fn send_req_step(
        &mut self,
        height: u128,
        tick: &String,
        item: &ListInfo,
        block_height: u128,
        flag: bool,
    ) -> (r: ActivityStep)
        requires
            old(self).wf(),
            block_height >= 50,
        ensures
            final(self).wf(),
            final(self)@.tx_ids == old(self)@.tx_ids,
            final(self)@.verdicts == old(self)@.verdicts,
            block_height - 50 > height ==> r == ActivityStep::Confirmed && final(self)@.ticks == old(
                self,
            )@.ticks,
            block_height - 50 <= height ==> {
                let okx = item.platform_name@ == okx_word();
                &&& r == ActivityStep::Continue(flag || (okx && old(self)@.tx_ids.contains(item.tx_hash@)))
                &&& final(self)@.ticks == if okx {
                    appended(old(self)@.ticks, tick@, item.tx_hash@)
                } else {
                    old(self)@.ticks
                }
            },
    {
        if block_height - 50 > height {
            return ActivityStep::Confirmed;
        }
        proof {
            reveal_strlit("OKX");
            assert("OKX"@ =~= okx_word());
        }
        let okx_name = String::from_str("OKX");
        let okx = item.platform_name == okx_name;
        let mut next = flag;
        if okx && self.tx_ids.contains(item.tx_hash.as_str()) {
            next = true;
        }
        if okx {
            self.ticks.push(tick, item.tx_hash.clone());
        }
        ActivityStep::Continue(next)
    }

    /// Records the verdict for a transaction id.
    pub fn record(&mut self, txid: String, flag: bool)
        requires
            old(self).wf(),
        ensures
            final(self).wf(),
            final(self)@.ticks == old(self)@.ticks,
            final(self)@.tx_ids == old(self)@.tx_ids,
            final(self)@.verdicts == old(self)@.verdicts.push((txid@, flag)),
    {
        let ghost before = self.ok_list@;
        let ghost entry = (txid@, flag);
        self.ok_list.push(Verify { txid, flag });
        proof {
            assert(verdicts_view(self.ok_list@) =~= verdicts_view(before).push(entry));
            assert(verdicts_view(self.ok_list@).drop_last() =~= verdicts_view(before));
            lemma_counts_split(verdicts_view(before));
        }
        let len = self.ok_list.len();
        assert(self.count < len);
        if !flag {
            self.count = self.count + 1;
        }
    }

    /// The number of `true` verdicts and the number of all verdicts.
    pub fn tally(&self) -> (r: (usize, usize))
        requires
            self.wf(),
        ensures
            r.0 == true_count(self@.verdicts),
            r.1 == self@.verdicts.len(),
    {
        proof {
            lemma_counts_split(verdicts_view(self.ok_list@));
        }
        (self.ok_list.len() - self.count, self.ok_list.len())
    }
}

/// The heights that a scan reads: from `height - step` up to `height`, both
/// included (the second number is one past the last).
pub fn scan_range(height: u128, step: u128) -> (r: (u128, u128))
    requires
        step <= height,
        height < u128::MAX,
    ensures
        r.0 == height - step,
        r.1 == height + 1,
{
    (height - step, height + 1)
}

/// The address of the activity list that the marketplace publishes for a
/// tick.
pub fn okx_activity_url(tick: &String) -> (r: String)
    ensures
        r@ == OKX_ACTIVITY_HEAD@ + tick@ + OKX_ACTIVITY_MIDDLE@ + tick@,
{
    let mut url = String::from_str(OKX_ACTIVITY_HEAD);
    url.append(tick.as_str());
    url.append(OKX_ACTIVITY_MIDDLE);
    url.append(tick.as_str());
    url
}

} // verus!
