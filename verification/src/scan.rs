//! What is known of a scan: its products and their tilts.

use vstd::prelude::*;
use crate::frames::RadarSite;
use crate::kinds::RadarProduct;
use crate::measure::{distance, within};
use crate::stamp::Stamp;
use crate::table::{Key, Table};

verus! {

impl Key for RadarProduct {
    fn same(self, other: Self) -> (r: bool) {
        self == other
    }
}

/// Where each product stands in a picker. A product without a rank stands last.
pub type ProductRanks = Table<RadarProduct, u32>;

/// The tilts of each product, in millionths of a degree.
pub type TiltMap = Table<RadarProduct, Vec<i64>>;

/// Two tilts closer than this are one, in millionths of a degree.
pub const TILT_GAP: i64 = 50_000;

/// Product and tilt metadata of a site's volume.
pub struct ScanInfo {
    pub site: RadarSite,
    /// When the volume began.
    pub timestamp: Stamp,
    pub vcp_number: u16,
    pub available_products: Vec<RadarProduct>,
    pub product_elevations: TiltMap,
    pub status: String,
}

/// What a [`ScanInfo`] says.
pub struct ScanFacts {
    pub site: RadarSite,
    pub timestamp: Stamp,
    pub vcp_number: u16,
    pub products: Seq<RadarProduct>,
    pub tilts: Map<RadarProduct, Seq<i64>>,
    pub status: Seq<char>,
}

/// The tilts of each product, as sequences.
pub open spec fn tilts_of(tilts: Map<RadarProduct, Vec<i64>>) -> Map<RadarProduct, Seq<i64>> {
    tilts.map_values(|v: Vec<i64>| v@)
}

impl View for ScanInfo {
    type V = ScanFacts;

    open spec fn view(&self) -> ScanFacts {
        ScanFacts {
            site: self.site,
            timestamp: self.timestamp,
            vcp_number: self.vcp_number,
            products: self.available_products@,
            tilts: tilts_of(self.product_elevations@),
            status: self.status@,
        }
    }
}

/// What an optional [`ScanInfo`] says.
pub open spec fn facts_of(info: Option<ScanInfo>) -> Option<ScanFacts> {
    match info {
        Some(scan) => Some(scan@),
        None => None,
    }
}

/// A copy of a table of tilts.
fn copy_tilts(from: &TiltMap) -> (r: TiltMap)
    ensures
        tilts_of(r@) == tilts_of(from@),
{
    let mut r: TiltMap = Table::new();
    let n: usize = from.len();
    let mut i: usize = 0;
    while i < n
        invariant
            i <= n,
            n == from.keys().len(),
            from.wf(),
            forall|k: RadarProduct| #[trigger]
                r@.contains_key(k) <==> from.keys().take(i as int).contains(k),
            forall|k: RadarProduct| #[trigger]
                r@.contains_key(k) ==> from@.contains_key(k) && r@[k]@ == from@[k]@,
        decreases n - i,
    {
        let key: RadarProduct = from.key_at(i);
        let value: Vec<i64> = from.value_at(i).clone();
        r.insert(key, value);
        proof {
            crate::overlays::lemma_take_contains(from.keys(), i as int);
        }
        i = i + 1;
    }
    proof {
        from.law_keys();
        assert(from.keys().take(n as int) =~= from.keys());
        assert(tilts_of(r@) =~= tilts_of(from@));
    }
    r
}

impl Clone for RadarSite {
    fn clone(&self) -> (r: Self)
        ensures
            r == *self,
    {
        RadarSite { name: self.name.clone(), lat: self.lat, lon: self.lon }
    }
}

impl Clone for ScanInfo {
    fn clone(&self) -> (r: Self)
        ensures
            r@ == self@,
    {
        ScanInfo {
            site: self.site.clone(),
            timestamp: self.timestamp,
            vcp_number: self.vcp_number,
            available_products: copy_products(&self.available_products),
            product_elevations: copy_tilts(&self.product_elevations),
            status: self.status.clone(),
        }
    }
}

/// A copy of a list of products.
fn copy_products(from: &Vec<RadarProduct>) -> (r: Vec<RadarProduct>)
    ensures
        r@ == from@,
{
    let mut r: Vec<RadarProduct> = Vec::new();
    let mut i: usize = 0;
    while i < from.len()
        invariant
            i <= from@.len(),
            r@ == from@.take(i as int),
        decreases from@.len() - i,
    {
        r.push(from[i]);
        assert(r@ =~= from@.take(i + 1));
        i = i + 1;
    }
    assert(from@.take(i as int) =~= from@);
    r
}

/// A copy of what is known of a scan, if anything is.
pub fn copy_scan(info: &Option<ScanInfo>) -> (r: Option<ScanInfo>)
    ensures
        facts_of(r) == facts_of(*info),
{
    match info {
        Some(scan) => Some(scan.clone()),
        None => None,
    }
}

/// The rank of a product.
pub open spec fn rank(ranks: Map<RadarProduct, u32>, product: RadarProduct) -> int {
    if ranks.contains_key(product) {
        ranks[product] as int
    } else {
        u32::MAX as int
    }
}

fn rank_of(ranks: &ProductRanks, product: RadarProduct) -> (r: u32)
    ensures
        r == rank(ranks@, product),
{
    match ranks.get(product) {
        Some(r) => *r,
        None => u32::MAX,
    }
}

/// The products of rank `r`, in their order.
pub open spec fn of_rank(
    list: Seq<RadarProduct>,
    ranks: Map<RadarProduct, u32>,
    r: int,
) -> Seq<RadarProduct> {
    list.filter(|p: RadarProduct| rank(ranks, p) == r)
}

/// Whether `after` is `before` put in order of rank, products of one rank
/// keeping their order.
pub open spec fn ranked(
    before: Seq<RadarProduct>,
    after: Seq<RadarProduct>,
    ranks: Map<RadarProduct, u32>,
) -> bool {
    &&& forall|i: int, j: int|
        0 <= i < j < after.len() ==> rank(ranks, #[trigger] after[i]) <= rank(
            ranks,
            #[trigger] after[j],
        )
    &&& forall|r: int| #[trigger] of_rank(after, ranks, r) == of_rank(before, ranks, r)
}

/// A list with one element put in at `at` holds, of each rank, what it held
/// before and the element in its place.
proof fn lemma_insert_of_rank(
    list: Seq<RadarProduct>,
    at: int,
    product: RadarProduct,
    ranks: Map<RadarProduct, u32>,
    r: int,
)
    requires
        0 <= at <= list.len(),
        forall|i: int| at <= i < list.len() ==> rank(ranks, #[trigger] list[i]) > rank(ranks, product),
    ensures
        of_rank(list.insert(at, product), ranks, r) == of_rank(list.push(product), ranks, r),
{
    let pred = |p: RadarProduct| rank(ranks, p) == r;
    let front = list.take(at);
    let back = list.skip(at);
    let one = seq![product];
    assert(list =~= front + back);
    assert(list.insert(at, product) =~= front + one + back);
    assert(list.push(product) =~= front + back + one);
    Seq::filter_distributes_over_add(front + one, back, pred);
    Seq::filter_distributes_over_add(front, one, pred);
    Seq::filter_distributes_over_add(front + back, one, pred);
    Seq::filter_distributes_over_add(front, back, pred);
    if r == rank(ranks, product) {
        lemma_filter_none(back, pred);
        assert(one.filter(pred) + Seq::<RadarProduct>::empty() =~= Seq::<RadarProduct>::empty()
            + one.filter(pred));
        assert(front.filter(pred) + one.filter(pred) + Seq::<RadarProduct>::empty()
            =~= front.filter(pred) + Seq::<RadarProduct>::empty() + one.filter(pred));
    } else {
        lemma_filter_none(one, pred);
        assert(front.filter(pred) + Seq::<RadarProduct>::empty() + back.filter(pred)
            =~= front.filter(pred) + back.filter(pred) + Seq::<RadarProduct>::empty());
    }
}

/// A list in which nothing answers leaves nothing.
proof fn lemma_filter_none(list: Seq<RadarProduct>, pred: spec_fn(RadarProduct) -> bool)
    requires
        forall|i: int| 0 <= i < list.len() ==> !pred(#[trigger] list[i]),
    ensures
        list.filter(pred) == Seq::<RadarProduct>::empty(),
    decreases list.len(),
{
    reveal(Seq::filter);
    if list.len() > 0 {
        assert forall|i: int| 0 <= i < list.drop_last().len() implies !pred(
            #[trigger] list.drop_last()[i],
        ) by {
            assert(list.drop_last()[i] == list[i]);
        }
        lemma_filter_none(list.drop_last(), pred);
    }
}

/// The products in order of rank.
pub(crate) fn sort_by_rank(list: &Vec<RadarProduct>, ranks: &ProductRanks) -> (r: Vec<RadarProduct>)
    ensures
        ranked(list@, r@, ranks@),
{
    let mut sorted: Vec<RadarProduct> = Vec::new();
    assert(list@.take(0) =~= sorted@);
    let mut i: usize = 0;
    while i < list.len()
        invariant
            i <= list@.len(),
            ranked(list@.take(i as int), sorted@, ranks@),
        decreases list@.len() - i,
    {
        let product: RadarProduct = list[i];
        let own: u32 = rank_of(ranks, product);
        let mut at: usize = sorted.len();
        while at > 0 && rank_of(ranks, sorted[at - 1]) > own
            invariant
                at <= sorted@.len(),
                own == rank(ranks@, product),
                forall|k: int|
                    at <= k < sorted@.len() ==> rank(ranks@, #[trigger] sorted@[k]) > own,
            decreases at,
        {
            at = at - 1;
        }
        let ghost before = sorted@;
        sorted.insert(at, product);
        proof {
            let seen = list@.take(i as int);
            assert(list@.take(i + 1) =~= seen.push(product));
            assert forall|r: int| #[trigger]
                of_rank(sorted@, ranks@, r) == of_rank(list@.take(i + 1), ranks@, r) by {
                lemma_insert_of_rank(before, at as int, product, ranks@, r);
                let pred = |p: RadarProduct| rank(ranks@, p) == r;
                assert(before.push(product) =~= before + seq![product]);
                assert(seen.push(product) =~= seen + seq![product]);
                Seq::filter_distributes_over_add(before, seq![product], pred);
                Seq::filter_distributes_over_add(seen, seq![product], pred);
                assert(of_rank(before, ranks@, r) == of_rank(seen, ranks@, r));
            }
            assert forall|p: int, q: int| 0 <= p < q < sorted@.len() implies rank(
                ranks@,
                #[trigger] sorted@[p],
            ) <= rank(ranks@, #[trigger] sorted@[q]) by {
                if q == at {
                    if at > 0 {
                        assert(rank(ranks@, before[at - 1]) <= own);
                        if p < at - 1 {
                            assert(rank(ranks@, before[p]) <= rank(ranks@, before[at - 1]));
                        }
                    }
                } else if p == at {
                    assert(rank(ranks@, before[q - 1]) > own);
                } else {
                    let pp = if p < at { p } else { p - 1 };
                    let qq = if q < at { q } else { q - 1 };
                    assert(rank(ranks@, before[pp]) <= rank(ranks@, before[qq]));
                }
            }
        }
        i = i + 1;
    }
    assert(list@.take(i as int) =~= list@);
    sorted
}

/// Whether `list` holds a tilt that is the same as `angle`.
pub open spec fn lists_tilt(list: Seq<i64>, angle: int) -> bool {
    exists|i: int|
        0 <= i < list.len() && distance(#[trigger] list[i] as int, angle) < TILT_GAP
}

/// `known` and after it each of `fresh` that is not in the list yet.
pub open spec fn joined_tilts(known: Seq<i64>, fresh: Seq<i64>) -> Seq<i64>
    decreases fresh.len(),
{
    if fresh.len() == 0 {
        known
    } else {
        let before = joined_tilts(known, fresh.drop_last());
        if lists_tilt(before, fresh.last() as int) {
            before
        } else {
            before.push(fresh.last())
        }
    }
}

/// Whether `after` holds the tilts of `before`, lowest first.
pub open spec fn sorted_tilts(before: Seq<i64>, after: Seq<i64>) -> bool {
    &&& forall|i: int, j: int| 0 <= i < j < after.len() ==> #[trigger] after[i] <= #[trigger] after[j]
    &&& after.to_multiset() == before.to_multiset()
}

/// `known` and after it each of `fresh` that is not in the list yet.
pub open spec fn joined_products(
    known: Seq<RadarProduct>,
    fresh: Seq<RadarProduct>,
) -> Seq<RadarProduct>
    decreases fresh.len(),
{
    if fresh.len() == 0 {
        known
    } else {
        let before = joined_products(known, fresh.drop_last());
        if before.contains(fresh.last()) {
            before
        } else {
            before.push(fresh.last())
        }
    }
}

/// Whether `list` holds a tilt that is the same as `angle`.
fn has_tilt(list: &Vec<i64>, angle: i64) -> (r: bool)
    ensures
        r == lists_tilt(list@, angle as int),
{
    let mut i: usize = 0;
    while i < list.len()
        invariant
            i <= list@.len(),
            forall|k: int|
                0 <= k < i ==> distance(#[trigger] list@[k] as int, angle as int) >= TILT_GAP,
        decreases list@.len() - i,
    {
        if within(list[i], angle, TILT_GAP - 1) {
            return true;
        }
        i = i + 1;
    }
    false
}

/// Add to `known` each of `fresh` that is not in the list yet.
fn join_tilts(known: &Vec<i64>, fresh: &Vec<i64>) -> (r: Vec<i64>)
    ensures
        r@ == joined_tilts(known@, fresh@),
{
    let mut r: Vec<i64> = known.clone();
    let mut i: usize = 0;
    assert(fresh@.take(0).len() == 0);
    while i < fresh.len()
        invariant
            i <= fresh@.len(),
            r@ == joined_tilts(known@, fresh@.take(i as int)),
        decreases fresh@.len() - i,
    {
        let angle: i64 = fresh[i];
        proof {
            assert(fresh@.take(i + 1).drop_last() =~= fresh@.take(i as int));
        }
        if !has_tilt(&r, angle) {
            r.push(angle);
        }
        i = i + 1;
    }
    assert(fresh@.take(i as int) =~= fresh@);
    r
}

/// The tilts, lowest first.
fn sort_tilts(list: &Vec<i64>) -> (r: Vec<i64>)
    ensures
        sorted_tilts(list@, r@),
{
    let mut sorted: Vec<i64> = Vec::new();
    assert(list@.take(0) =~= sorted@);
    let mut i: usize = 0;
    while i < list.len()
        invariant
            i <= list@.len(),
            sorted_tilts(list@.take(i as int), sorted@),
        decreases list@.len() - i,
    {
        let angle: i64 = list[i];
        let mut at: usize = sorted.len();
        while at > 0 && sorted[at - 1] > angle
            invariant
                at <= sorted@.len(),
                forall|k: int| at <= k < sorted@.len() ==> #[trigger] sorted@[k] > angle,
            decreases at,
        {
            at = at - 1;
        }
        let ghost before = sorted@;
        sorted.insert(at, angle);
        proof {
            broadcast use vstd::seq_lib::group_to_multiset_ensures;

            let seen = list@.take(i as int);
            assert(list@.take(i + 1) =~= seen.push(angle));
            assert forall|p: int, q: int| 0 <= p < q < sorted@.len() implies #[trigger] sorted@[p]
                <= #[trigger] sorted@[q] by {
                if q == at {
                    if at > 0 {
                        assert(before[at - 1] <= angle);
                        if p < at - 1 {
                            assert(before[p] <= before[at - 1]);
                        }
                    }
                } else if p == at {
                    assert(before[q - 1] > angle);
                } else {
                    let pp = if p < at { p } else { p - 1 };
                    let qq = if q < at { q } else { q - 1 };
                    assert(before[pp] <= before[qq]);
                }
            }
        }
        i = i + 1;
    }
    assert(list@.take(i as int) =~= list@);
    sorted
}

/// Whether `product` is in the list.
fn has_product(list: &Vec<RadarProduct>, product: RadarProduct) -> (r: bool)
    ensures
        r == list@.contains(product),
{
    let mut i: usize = 0;
    while i < list.len()
        invariant
            i <= list@.len(),
            forall|k: int| 0 <= k < i ==> list@[k] != product,
        decreases list@.len() - i,
    {
        if list[i] == product {
            return true;
        }
        i = i + 1;
    }
    false
}

/// Add to `known` each of `fresh` that is not in the list yet.
fn join_products(known: &Vec<RadarProduct>, fresh: &Vec<RadarProduct>) -> (r: Vec<RadarProduct>)
    ensures
        r@ == joined_products(known@, fresh@),
{
    let mut r: Vec<RadarProduct> = copy_products(known);
    let mut i: usize = 0;
    assert(fresh@.take(0).len() == 0);
    while i < fresh.len()
        invariant
            i <= fresh@.len(),
            r@ == joined_products(known@, fresh@.take(i as int)),
        decreases fresh@.len() - i,
    {
        let product: RadarProduct = fresh[i];
        proof {
            assert(fresh@.take(i + 1).drop_last() =~= fresh@.take(i as int));
        }
        if !has_product(&r, product) {
            r.push(product);
        }
        i = i + 1;
    }
    assert(fresh@.take(i as int) =~= fresh@);
    r
}

/// The tilts a product had before, if any.
pub open spec fn known_tilts(
    tilts: Map<RadarProduct, Seq<i64>>,
    product: RadarProduct,
) -> Seq<i64> {
    if tilts.contains_key(product) {
        tilts[product]
    } else {
        Seq::empty()
    }
}

impl ScanFacts {
    /// Whether `merged` is what is known of a volume still being assembled:
    /// time, pattern and status are the fresh ones, and the lists are what was
    /// known joined with what is fresh, in order.
    pub open spec fn merges(
        self,
        fresh: ScanFacts,
        ranks: Map<RadarProduct, u32>,
        merged: ScanFacts,
    ) -> bool {
        &&& merged.site == self.site
        &&& merged.timestamp == fresh.timestamp
        &&& merged.vcp_number == fresh.vcp_number
        &&& merged.status == fresh.status
        &&& ranked(joined_products(self.products, fresh.products), merged.products, ranks)
        &&& merged.tilts.dom() == self.tilts.dom().union(fresh.tilts.dom())
        &&& forall|p: RadarProduct| #[trigger]
            merged.tilts.contains_key(p) ==> if fresh.tilts.contains_key(p) {
                sorted_tilts(
                    joined_tilts(known_tilts(self.tilts, p), fresh.tilts[p]),
                    merged.tilts[p],
                )
            } else {
                merged.tilts[p] == self.tilts[p]
            }
    }
}

impl ScanInfo {
    /// What is known once `fresh`, of a volume still being assembled, is added
    /// to `self`. A partial volume knows only the cuts that have completed, so
    /// nothing that was listed is dropped.
    pub fn merged_with(self, fresh: &ScanInfo, ranks: &ProductRanks) -> (r: ScanInfo)
        ensures
            self@.merges(fresh@, ranks@, r@),
    {
        let joined: Vec<RadarProduct> = join_products(
            &self.available_products,
            &fresh.available_products,
        );
        let available_products: Vec<RadarProduct> = sort_by_rank(&joined, ranks);
        let mut product_elevations: TiltMap = copy_tilts(&self.product_elevations);
        let ghost known = tilts_of(self.product_elevations@);
        let ghost added = tilts_of(fresh.product_elevations@);
        let n: usize = fresh.product_elevations.len();
        let mut i: usize = 0;
        while i < n
            invariant
                i <= n,
                n == fresh.product_elevations.keys().len(),
                fresh.product_elevations.wf(),
                known == tilts_of(self.product_elevations@),
                added == tilts_of(fresh.product_elevations@),
                forall|p: RadarProduct| #[trigger]
                    product_elevations@.contains_key(p) <==> known.contains_key(p)
                        || fresh.product_elevations.keys().take(i as int).contains(p),
                forall|p: RadarProduct| #[trigger]
                    product_elevations@.contains_key(p) ==> if fresh.product_elevations.keys().take(
                        i as int,
                    ).contains(p) {
                        sorted_tilts(
                            joined_tilts(known_tilts(known, p), added[p]),
                            product_elevations@[p]@,
                        )
                    } else {
                        product_elevations@[p]@ == known[p]
                    },
            decreases n - i,
        {
            let product: RadarProduct = fresh.product_elevations.key_at(i);
            let angles: &Vec<i64> = fresh.product_elevations.value_at(i);
            proof {
                fresh.product_elevations.law_keys();
                crate::overlays::lemma_take_contains(
                    fresh.product_elevations.keys(),
                    i as int,
                );
                let keys = fresh.product_elevations.keys();
                if keys.take(i as int).contains(product) {
                    let k = keys.take(i as int).index_of(product);
                    assert(keys[k] == keys[i as int]);
                }
            }
            let together: Vec<i64> = match self.product_elevations.get(product) {
                Some(had) => join_tilts(had, angles),
                None => {
                    let none: Vec<i64> = Vec::new();
                    assert(none@ =~= Seq::<i64>::empty());
                    join_tilts(&none, angles)
                },
            };
            let sorted: Vec<i64> = sort_tilts(&together);
            product_elevations.insert(product, sorted);
            i = i + 1;
        }
        proof {
            fresh.product_elevations.law_keys();
            let keys = fresh.product_elevations.keys();
            assert(keys.take(n as int) =~= keys);
            let merged = tilts_of(product_elevations@);
            assert(merged.dom() =~= known.dom().union(added.dom())) by {
                assert forall|p: RadarProduct| #[trigger]
                    merged.dom().contains(p) <==> known.dom().union(added.dom()).contains(p) by {
                    assert(added.contains_key(p) <==> keys.contains(p));
                    assert(merged.contains_key(p) <==> product_elevations@.contains_key(p));
                }
            }
            assert forall|p: RadarProduct| #[trigger]
                merged.contains_key(p) implies if added.contains_key(p) {
                sorted_tilts(joined_tilts(known_tilts(known, p), added[p]), merged[p])
            } else {
                merged[p] == known[p]
            } by {
                assert(product_elevations@.contains_key(p));
                assert(added.contains_key(p) <==> keys.contains(p));
            }
        }
        ScanInfo {
            site: self.site,
            timestamp: fresh.timestamp,
            vcp_number: fresh.vcp_number,
            available_products,
            product_elevations,
            status: fresh.status.clone(),
        }
    }
}

/// Joining keeps the whole known list, in front.
proof fn lemma_joined_tilts(known: Seq<i64>, fresh: Seq<i64>)
    ensures
        known.is_prefix_of(joined_tilts(known, fresh)),
        forall|i: int|
            0 <= i < fresh.len() ==> lists_tilt(
                joined_tilts(known, fresh),
                #[trigger] fresh[i] as int,
            ),
    decreases fresh.len(),
{
    if fresh.len() > 0 {
        let shorter = fresh.drop_last();
        lemma_joined_tilts(known, shorter);
        let before = joined_tilts(known, shorter);
        let after = joined_tilts(known, fresh);
        assert(before.is_prefix_of(after));
        assert forall|i: int| 0 <= i < fresh.len() implies lists_tilt(
            after,
            #[trigger] fresh[i] as int,
        ) by {
            if i < shorter.len() {
                assert(shorter[i] == fresh[i]);
                let k = choose|k: int|
                    0 <= k < before.len() && distance(
                        #[trigger] before[k] as int,
                        fresh[i] as int,
                    ) < TILT_GAP;
                assert(after[k] == before[k]);
            } else if !lists_tilt(before, fresh[i] as int) {
                assert(after[before.len() as int] == fresh[i]);
            }
        }
    }
}

/// Joining what is all listed already adds nothing.
proof fn lemma_joined_tilts_settled(known: Seq<i64>, fresh: Seq<i64>)
    requires
        forall|i: int| 0 <= i < fresh.len() ==> lists_tilt(known, #[trigger] fresh[i] as int),
    ensures
        joined_tilts(known, fresh) == known,
    decreases fresh.len(),
{
    if fresh.len() > 0 {
        assert forall|i: int| 0 <= i < fresh.drop_last().len() implies lists_tilt(
            known,
            #[trigger] fresh.drop_last()[i] as int,
        ) by {
            assert(fresh.drop_last()[i] == fresh[i]);
        }
        lemma_joined_tilts_settled(known, fresh.drop_last());
        assert(lists_tilt(known, fresh[fresh.len() - 1] as int));
    }
}

/// Joining keeps every known product and takes in every fresh one.
proof fn lemma_joined_products(known: Seq<RadarProduct>, fresh: Seq<RadarProduct>, p: RadarProduct)
    ensures
        joined_products(known, fresh).contains(p) <==> known.contains(p) || fresh.contains(p),
    decreases fresh.len(),
{
    if fresh.len() > 0 {
        let shorter = fresh.drop_last();
        let before = joined_products(known, shorter);
        let after = joined_products(known, fresh);
        lemma_joined_products(known, shorter, p);
        assert(fresh =~= shorter.push(fresh.last()));
        if before.contains(p) {
            let k = before.index_of(p);
            assert(after[k] == p);
        }
        if p == fresh.last() {
            assert(fresh[fresh.len() - 1] == p);
            if !before.contains(p) {
                assert(after[before.len() as int] == p);
            }
        }
        if shorter.contains(p) {
            let k = shorter.index_of(p);
            assert(fresh[k] == p);
        }
        if fresh.contains(p) && p != fresh.last() {
            let k = fresh.index_of(p);
            assert(shorter[k] == p);
        }
        if after.contains(p) && p != fresh.last() {
            let k = after.index_of(p);
            assert(before[k] == p);
        }
    }
}

/// Whether a list is in order of rank.
spec fn in_order(list: Seq<RadarProduct>, ranks: Map<RadarProduct, u32>) -> bool {
    forall|i: int, j: int|
        0 <= i < j < list.len() ==> rank(ranks, #[trigger] list[i]) <= rank(
            ranks,
            #[trigger] list[j],
        )
}

/// What a filter leaves of a list is what it leaves without the last product,
/// and that product where it is of the rank.
proof fn lemma_of_rank_last(list: Seq<RadarProduct>, ranks: Map<RadarProduct, u32>, r: int)
    requires
        list.len() > 0,
    ensures
        of_rank(list, ranks, r) == if rank(ranks, list.last()) == r {
            of_rank(list.drop_last(), ranks, r).push(list.last())
        } else {
            of_rank(list.drop_last(), ranks, r)
        },
{
    reveal(Seq::filter);
}

/// A product of a list is among those of its rank.
proof fn lemma_of_rank_holds(list: Seq<RadarProduct>, ranks: Map<RadarProduct, u32>, i: int)
    requires
        0 <= i < list.len(),
    ensures
        of_rank(list, ranks, rank(ranks, list[i])).contains(list[i]),
    decreases list.len(),
{
    let r = rank(ranks, list[i]);
    lemma_of_rank_last(list, ranks, r);
    let now = of_rank(list, ranks, r);
    if i == list.len() - 1 {
        assert(now.last() == list[i]);
    } else {
        let front = list.drop_last();
        assert(front[i] == list[i]);
        lemma_of_rank_holds(front, ranks, i);
        let k = of_rank(front, ranks, r).index_of(list[i]);
        assert(now[k] == list[i]);
    }
}

/// What is of a rank is in the list, and is of that rank.
proof fn lemma_of_rank_is(
    list: Seq<RadarProduct>,
    ranks: Map<RadarProduct, u32>,
    r: int,
    p: RadarProduct,
)
    requires
        of_rank(list, ranks, r).contains(p),
    ensures
        list.contains(p),
        rank(ranks, p) == r,
    decreases list.len(),
{
    reveal(Seq::filter);
    if list.len() > 0 {
        lemma_of_rank_last(list, ranks, r);
        let front = list.drop_last();
        let k = of_rank(list, ranks, r).index_of(p);
        if k < of_rank(front, ranks, r).len() {
            assert(of_rank(front, ranks, r)[k] == p);
            lemma_of_rank_is(front, ranks, r, p);
            let i = front.index_of(p);
            assert(list[i] == p);
        } else {
            assert(list[list.len() - 1] == p);
        }
    }
}

/// Two lists in order that hold the same of each rank are one list.
proof fn lemma_order_is_unique(
    a: Seq<RadarProduct>,
    b: Seq<RadarProduct>,
    ranks: Map<RadarProduct, u32>,
)
    requires
        in_order(a, ranks),
        in_order(b, ranks),
        forall|r: int| #[trigger] of_rank(a, ranks, r) == of_rank(b, ranks, r),
    ensures
        a == b,
    decreases a.len(),
{
    if a.len() == 0 {
        if b.len() > 0 {
            let r = rank(ranks, b[0]);
            lemma_of_rank_holds(b, ranks, 0);
            assert(of_rank(a, ranks, r).contains(b[0]));
            lemma_of_rank_is(a, ranks, r, b[0]);
        }
        assert(a =~= b);
    } else {
        let n = a.len() - 1;
        let r = rank(ranks, a[n]);
        lemma_of_rank_holds(a, ranks, n);
        assert(of_rank(b, ranks, r).contains(a[n]));
        lemma_of_rank_is(b, ranks, r, a[n]);
        let i = b.index_of(a[n]);
        let m = b.len() - 1;
        let q = rank(ranks, b[m]);
        assert(r <= q);
        lemma_of_rank_holds(b, ranks, m);
        assert(of_rank(a, ranks, q).contains(b[m]));
        lemma_of_rank_is(a, ranks, q, b[m]);
        let k = a.index_of(b[m]);
        assert(q <= r);
        lemma_of_rank_last(a, ranks, r);
        lemma_of_rank_last(b, ranks, r);
        assert(of_rank(a, ranks, r).last() == a.last());
        assert(of_rank(b, ranks, r).last() == b.last());
        let front_a = a.drop_last();
        let front_b = b.drop_last();
        assert forall|x: int| #[trigger] of_rank(front_a, ranks, x) == of_rank(
            front_b,
            ranks,
            x,
        ) by {
            lemma_of_rank_last(a, ranks, x);
            lemma_of_rank_last(b, ranks, x);
            assert(of_rank(a, ranks, x) == of_rank(b, ranks, x));
            if x == r {
                assert(of_rank(front_a, ranks, x) =~= of_rank(a, ranks, x).drop_last());
                assert(of_rank(front_b, ranks, x) =~= of_rank(b, ranks, x).drop_last());
            }
        }
        lemma_order_is_unique(front_a, front_b, ranks);
        assert(a =~= front_a.push(a.last()));
        assert(b =~= front_b.push(b.last()));
    }
}

/// A list has one order of rank.
pub(crate) proof fn lemma_ranked_is_unique(
    before: Seq<RadarProduct>,
    a: Seq<RadarProduct>,
    b: Seq<RadarProduct>,
    ranks: Map<RadarProduct, u32>,
)
    requires
        ranked(before, a, ranks),
        ranked(before, b, ranks),
    ensures
        a == b,
{
    assert forall|r: int| #[trigger] of_rank(a, ranks, r) == of_rank(b, ranks, r) by {
        assert(of_rank(a, ranks, r) == of_rank(before, ranks, r));
    }
    lemma_order_is_unique(a, b, ranks);
}

/// Whether no two products of a list have one rank.
pub open spec fn ranks_differ(list: Seq<RadarProduct>, ranks: Map<RadarProduct, u32>) -> bool {
    forall|i: int, j: int|
        0 <= i < j < list.len() ==> rank(ranks, #[trigger] list[i]) != rank(
            ranks,
            #[trigger] list[j],
        )
}

/// Of products that all differ in rank, at most one has a given rank.
proof fn lemma_of_rank_single(list: Seq<RadarProduct>, ranks: Map<RadarProduct, u32>, r: int)
    requires
        ranks_differ(list, ranks),
    ensures
        of_rank(list, ranks, r).len() <= 1,
    decreases list.len(),
{
    reveal(Seq::filter);
    if list.len() > 0 {
        let front = list.drop_last();
        lemma_of_rank_last(list, ranks, r);
        lemma_of_rank_single(front, ranks, r);
        if rank(ranks, list.last()) == r && of_rank(front, ranks, r).len() > 0 {
            let p = of_rank(front, ranks, r)[0];
            assert(of_rank(front, ranks, r).contains(p));
            lemma_of_rank_is(front, ranks, r, p);
            let i = front.index_of(p);
            assert(list[i] == p);
            assert(rank(ranks, list[i]) != rank(ranks, list[list.len() - 1]));
        }
    }
}

/// Products that all differ in rank have one order of rank, whatever order they
/// came in.
pub(crate) proof fn lemma_rank_decides_order(
    before: Seq<RadarProduct>,
    other: Seq<RadarProduct>,
    a: Seq<RadarProduct>,
    b: Seq<RadarProduct>,
    ranks: Map<RadarProduct, u32>,
)
    requires
        ranked(before, a, ranks),
        ranked(other, b, ranks),
        ranks_differ(before, ranks),
        ranks_differ(other, ranks),
        forall|p: RadarProduct| #[trigger] before.contains(p) <==> other.contains(p),
    ensures
        a == b,
{
    assert forall|r: int| #[trigger] of_rank(a, ranks, r) == of_rank(b, ranks, r) by {
        let left = of_rank(before, ranks, r);
        let right = of_rank(other, ranks, r);
        assert(of_rank(a, ranks, r) == left);
        assert(of_rank(b, ranks, r) == right);
        lemma_of_rank_single(before, ranks, r);
        lemma_of_rank_single(other, ranks, r);
        if left.len() == 1 {
            assert(left.contains(left[0]));
            lemma_of_rank_is(before, ranks, r, left[0]);
            assert(other.contains(left[0]));
            lemma_of_rank_holds(other, ranks, other.index_of(left[0]));
        }
        if right.len() == 1 {
            assert(right.contains(right[0]));
            lemma_of_rank_is(other, ranks, r, right[0]);
            assert(before.contains(right[0]));
            lemma_of_rank_holds(before, ranks, before.index_of(right[0]));
        }
        assert(left =~= right);
    }
    lemma_order_is_unique(a, b, ranks);
}

/// Putting a list in order of rank neither drops nor adds a product.
pub(crate) proof fn lemma_ranked_holds_same(
    before: Seq<RadarProduct>,
    after: Seq<RadarProduct>,
    ranks: Map<RadarProduct, u32>,
    p: RadarProduct,
)
    requires
        ranked(before, after, ranks),
    ensures
        before.contains(p) <==> after.contains(p),
{
    broadcast use vstd::seq_lib::group_filter_ensures;

    let r = rank(ranks, p);
    let pred = |q: RadarProduct| rank(ranks, q) == r;
    assert(of_rank(after, ranks, r) == of_rank(before, ranks, r));
    lemma_filter_is_subset(before, pred, p);
    lemma_filter_is_subset(after, pred, p);
    if before.contains(p) {
        let i = before.index_of(p);
        assert(before.filter(pred).contains(before[i]));
    }
    if after.contains(p) {
        let i = after.index_of(p);
        assert(after.filter(pred).contains(after[i]));
    }
}

/// What a filter leaves was there before.
proof fn lemma_filter_is_subset(
    list: Seq<RadarProduct>,
    pred: spec_fn(RadarProduct) -> bool,
    p: RadarProduct,
)
    ensures
        list.filter(pred).contains(p) ==> list.contains(p),
    decreases list.len(),
{
    reveal(Seq::filter);
    if list.len() > 0 {
        lemma_filter_is_subset(list.drop_last(), pred, p);
        if list.drop_last().contains(p) {
            let k = list.drop_last().index_of(p);
            assert(list[k] == p);
        }
        if list.filter(pred).contains(p) && !list.drop_last().filter(pred).contains(p) {
            let k = list.filter(pred).index_of(p);
            assert(k == list.drop_last().filter(pred).len());
            assert(list[list.len() - 1] == p);
        }
    }
}

impl ScanFacts {
    /// A partial volume drops no product that was listed and takes in every one
    /// of its own.
    pub proof fn law_merge_keeps_products(
        self,
        fresh: ScanFacts,
        ranks: Map<RadarProduct, u32>,
        merged: ScanFacts,
        p: RadarProduct,
    )
        requires
            self.merges(fresh, ranks, merged),
        ensures
            merged.products.contains(p) <==> self.products.contains(p) || fresh.products.contains(
                p,
            ),
    {
        lemma_joined_products(self.products, fresh.products, p);
        lemma_ranked_holds_same(
            joined_products(self.products, fresh.products),
            merged.products,
            ranks,
            p,
        );
    }

    /// A partial volume never shrinks a product's tilt list: every tilt that was
    /// listed still is.
    pub proof fn law_merge_keeps_tilts(
        self,
        fresh: ScanFacts,
        ranks: Map<RadarProduct, u32>,
        merged: ScanFacts,
        p: RadarProduct,
        angle: i64,
    )
        requires
            self.merges(fresh, ranks, merged),
            self.tilts.contains_key(p),
            self.tilts[p].contains(angle),
        ensures
            merged.tilts.contains_key(p),
            merged.tilts[p].contains(angle),
    {
        broadcast use vstd::seq_lib::group_to_multiset_ensures;

        assert(merged.tilts.dom().contains(p));
        if fresh.tilts.contains_key(p) {
            let joined = joined_tilts(known_tilts(self.tilts, p), fresh.tilts[p]);
            lemma_joined_tilts(self.tilts[p], fresh.tilts[p]);
            let k = self.tilts[p].index_of(angle);
            assert(joined[k] == angle);
            assert(joined.contains(angle));
            assert(joined.to_multiset().count(angle) > 0);
            assert(merged.tilts[p].to_multiset().count(angle) > 0);
        }
    }

    /// Every tilt of a partial volume can be picked afterwards, itself or one
    /// that is the same within [`TILT_GAP`].
    pub proof fn law_merge_lists_fresh_tilts(
        self,
        fresh: ScanFacts,
        ranks: Map<RadarProduct, u32>,
        merged: ScanFacts,
        p: RadarProduct,
        i: int,
    )
        requires
            self.merges(fresh, ranks, merged),
            fresh.tilts.contains_key(p),
            0 <= i < fresh.tilts[p].len(),
        ensures
            merged.tilts.contains_key(p),
            lists_tilt(merged.tilts[p], fresh.tilts[p][i] as int),
    {
        broadcast use vstd::seq_lib::group_to_multiset_ensures;

        assert(merged.tilts.dom().contains(p));
        let known = known_tilts(self.tilts, p);
        let joined = joined_tilts(known, fresh.tilts[p]);
        lemma_joined_tilts(known, fresh.tilts[p]);
        assert(lists_tilt(joined, fresh.tilts[p][i] as int));
        let k = choose|k: int|
            0 <= k < joined.len() && distance(
                #[trigger] joined[k] as int,
                fresh.tilts[p][i] as int,
            ) < TILT_GAP;
        assert(joined.contains(joined[k]));
        assert(joined.to_multiset().count(joined[k]) > 0);
        assert(merged.tilts[p].to_multiset().count(joined[k]) > 0);
        assert(merged.tilts[p].contains(joined[k]));
        let at = merged.tilts[p].index_of(joined[k]);
        assert(merged.tilts[p][at] == joined[k]);
    }

    /// Merging the same partial volume a second time leaves every list of tilts
    /// as it is.
    pub proof fn law_merge_settles(
        self,
        fresh: ScanFacts,
        ranks: Map<RadarProduct, u32>,
        once: ScanFacts,
        twice: ScanFacts,
        p: RadarProduct,
    )
        requires
            self.merges(fresh, ranks, once),
            once.merges(fresh, ranks, twice),
            once.tilts.contains_key(p),
        ensures
            twice.tilts.contains_key(p),
            twice.tilts[p] == once.tilts[p],
    {
        assert(twice.tilts.dom().contains(p));
        if fresh.tilts.contains_key(p) {
            assert forall|i: int| 0 <= i < fresh.tilts[p].len() implies lists_tilt(
                once.tilts[p],
                #[trigger] fresh.tilts[p][i] as int,
            ) by {
                self.law_merge_lists_fresh_tilts(fresh, ranks, once, p, i);
            }
            lemma_joined_tilts_settled(once.tilts[p], fresh.tilts[p]);
            vstd::seq_lib::lemma_sorted_unique(
                twice.tilts[p],
                once.tilts[p],
                |a: i64, b: i64| a <= b,
            );
        }
    }
}

impl ScanFacts {
    /// What a partial volume says of itself is what is known afterwards, except for
    /// the site, which stays.
    pub proof fn law_merge_is_of_the_fresh_moment(
        self,
        fresh: ScanFacts,
        ranks: Map<RadarProduct, u32>,
        merged: ScanFacts,
    )
        requires
            self.merges(fresh, ranks, merged),
        ensures
            merged.site == self.site,
            merged.timestamp == fresh.timestamp,
            merged.vcp_number == fresh.vcp_number,
            merged.status == fresh.status,
    {
    }

    /// Merging invents nothing: a tilt that is listed afterwards was listed before
    /// or is one of the partial volume's, for the same product.
    pub proof fn law_merge_invents_no_tilt(
        self,
        fresh: ScanFacts,
        ranks: Map<RadarProduct, u32>,
        merged: ScanFacts,
        p: RadarProduct,
        angle: i64,
    )
        requires
            self.merges(fresh, ranks, merged),
            merged.tilts.contains_key(p),
            merged.tilts[p].contains(angle),
        ensures
            (self.tilts.contains_key(p) && self.tilts[p].contains(angle)) || (
            fresh.tilts.contains_key(p) && fresh.tilts[p].contains(angle)),
    {
        broadcast use vstd::seq_lib::group_to_multiset_ensures;

        assert(self.tilts.dom().union(fresh.tilts.dom()).contains(p));
        if fresh.tilts.contains_key(p) {
            let joined = joined_tilts(known_tilts(self.tilts, p), fresh.tilts[p]);
            assert(merged.tilts[p].to_multiset().count(angle) > 0);
            assert(joined.to_multiset().count(angle) > 0);
            assert(joined.contains(angle));
            lemma_joined_is_from_either(known_tilts(self.tilts, p), fresh.tilts[p], angle);
        }
    }

    /// A product's tilts are listed lowest first wherever the partial volume has
    /// some of it, and products in the order of their ranks.
    pub proof fn law_merge_is_in_order(
        self,
        fresh: ScanFacts,
        ranks: Map<RadarProduct, u32>,
        merged: ScanFacts,
        p: RadarProduct,
        i: int,
        j: int,
    )
        requires
            self.merges(fresh, ranks, merged),
            0 <= i < j,
        ensures
            fresh.tilts.contains_key(p) && j < merged.tilts[p].len() ==> merged.tilts[p][i]
                <= merged.tilts[p][j],
            j < merged.products.len() && ranks.contains_key(merged.products[i])
                && ranks.contains_key(merged.products[j]) ==> ranks[merged.products[i]]
                <= ranks[merged.products[j]],
    {
        if fresh.tilts.contains_key(p) {
            assert(merged.tilts.dom().contains(p));
        }
        if j < merged.products.len() {
            assert(rank(ranks, merged.products[i]) <= rank(ranks, merged.products[j]));
        }
    }

    /// A tilt that lies within a twentieth of a degree of one that was listed is
    /// the same one, and lists nothing new; one that lies further from every other
    /// is listed.
    pub proof fn law_merge_knows_a_tilt_again(
        self,
        fresh: ScanFacts,
        ranks: Map<RadarProduct, u32>,
        merged: ScanFacts,
        p: RadarProduct,
        angle: i64,
    )
        requires
            self.merges(fresh, ranks, merged),
            fresh.tilts.contains_key(p),
            fresh.tilts[p] == seq![angle],
        ensures
            merged.tilts.contains_key(p),
            (exists|k: int|
                {
                    &&& self.tilts.contains_key(p)
                    &&& 0 <= k < self.tilts[p].len()
                    &&& (#[trigger] self.tilts[p][k]) - angle < 50_000
                    &&& angle - self.tilts[p][k] < 50_000
                }) ==> merged.tilts[p].to_multiset() == self.tilts[p].to_multiset(),
            (forall|k: int|
                self.tilts.contains_key(p) && 0 <= k < self.tilts[p].len() ==> (
                #[trigger] self.tilts[p][k]) - angle >= 50_000 || angle - self.tilts[p][k]
                    >= 50_000) ==> merged.tilts[p].contains(angle) && merged.tilts[p].len()
                == known_tilts(self.tilts, p).len() + 1,
    {
        broadcast use vstd::seq_lib::group_to_multiset_ensures;

        assert(merged.tilts.dom().contains(p));
        let known = known_tilts(self.tilts, p);
        let joined = joined_tilts(known, fresh.tilts[p]);
        assert(fresh.tilts[p].drop_last() =~= Seq::<i64>::empty());
        assert(joined_tilts(known, fresh.tilts[p].drop_last()) == known);
        if exists|k: int|
            {
                &&& self.tilts.contains_key(p)
                &&& 0 <= k < self.tilts[p].len()
                &&& (#[trigger] self.tilts[p][k]) - angle < 50_000
                &&& angle - self.tilts[p][k] < 50_000
            } {
            let k = choose|k: int|
                {
                    &&& self.tilts.contains_key(p)
                    &&& 0 <= k < self.tilts[p].len()
                    &&& (#[trigger] self.tilts[p][k]) - angle < 50_000
                    &&& angle - self.tilts[p][k] < 50_000
                };
            assert(distance(known[k] as int, angle as int) < TILT_GAP);
            assert(lists_tilt(known, angle as int));
        }
        if !lists_tilt(known, angle as int) {
            assert(joined == known.push(angle));
            assert(joined[known.len() as int] == angle);
            assert(joined.contains(angle));
            assert(joined.to_multiset().count(angle) > 0);
            assert(merged.tilts[p].to_multiset().count(angle) > 0);
            assert(joined.to_multiset().len() == joined.len());
            assert(merged.tilts[p].to_multiset().len() == merged.tilts[p].len());
        } else {
            let k = choose|k: int|
                0 <= k < known.len() && distance(#[trigger] known[k] as int, angle as int)
                    < TILT_GAP;
            assert(self.tilts.contains_key(p) && known == self.tilts[p]);
            assert(self.tilts[p][k] - angle < 50_000 && angle - self.tilts[p][k] < 50_000);
        }
    }
}

proof fn lemma_joined_is_from_either(known: Seq<i64>, fresh: Seq<i64>, angle: i64)
    requires
        joined_tilts(known, fresh).contains(angle),
    ensures
        known.contains(angle) || fresh.contains(angle),
    decreases fresh.len(),
{
    if fresh.len() > 0 {
        let before = joined_tilts(known, fresh.drop_last());
        let after = joined_tilts(known, fresh);
        let k = after.index_of(angle);
        if k < before.len() {
            assert(before[k] == angle);
            lemma_joined_is_from_either(known, fresh.drop_last(), angle);
            if fresh.drop_last().contains(angle) {
                let i = fresh.drop_last().index_of(angle);
                assert(fresh[i] == angle);
            }
        } else {
            assert(fresh[fresh.len() - 1] == angle);
        }
    }
}

impl ScanFacts {
    /// Merging the same partial volume a second time leaves the list of products as it is:
    /// no product is listed twice for having come twice.
    pub proof fn law_merged_products_settle(
        self,
        fresh: ScanFacts,
        ranks: Map<RadarProduct, u32>,
        once: ScanFacts,
        twice: ScanFacts,
    )
        requires
            self.merges(fresh, ranks, once),
            once.merges(fresh, ranks, twice),
        ensures
            twice.products == once.products,
    {
        assert forall|i: int| 0 <= i < fresh.products.len() implies once.products.contains(
            #[trigger] fresh.products[i],
        ) by {
            assert(fresh.products.contains(fresh.products[i]));
            self.law_merge_keeps_products(fresh, ranks, once, fresh.products[i]);
        }
        lemma_joined_products_settled(once.products, fresh.products);
        assert(ranked(once.products, once.products, ranks));
        lemma_ranked_is_unique(once.products, twice.products, once.products, ranks);
    }
}

proof fn lemma_joined_products_settled(known: Seq<RadarProduct>, fresh: Seq<RadarProduct>)
    requires
        forall|i: int| 0 <= i < fresh.len() ==> known.contains(#[trigger] fresh[i]),
    ensures
        joined_products(known, fresh) == known,
    decreases fresh.len(),
{
    if fresh.len() > 0 {
        assert forall|i: int| 0 <= i < fresh.drop_last().len() implies known.contains(
            #[trigger] fresh.drop_last()[i],
        ) by {
            assert(fresh.drop_last()[i] == fresh[i]);
        }
        lemma_joined_products_settled(known, fresh.drop_last());
        assert(known.contains(fresh[fresh.len() - 1]));
    }
}

/// What is known of a scan is all that it says.
pub proof fn law_facts_are_the_scan(scan: ScanInfo, product: RadarProduct)
    ensures
        facts_of(None) is None,
        facts_of(Some(scan)) is Some,
        scan@.timestamp == scan.timestamp,
        scan@.vcp_number == scan.vcp_number,
        scan@.site == scan.site,
        scan@.status == scan.status@,
        scan@.products == scan.available_products@,
        scan@.tilts.contains_key(product) == scan.product_elevations@.contains_key(product),
        scan.product_elevations@.contains_key(product) ==> scan@.tilts[product]
            == scan.product_elevations@[product]@,
{
}

} // verus!
