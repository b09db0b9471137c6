//! What lets an autosave tell by comparing whether anything changed.

use vstd::prelude::*;
use crate::config::PaneConfig;
use crate::gui::Gui;
use crate::kinds::RadarProduct;
use crate::measure::Measure;
use crate::scan::{
    lemma_rank_decides_order, lemma_ranked_is_unique, ranked, ranks_differ, ProductRanks,
};
use crate::table::Table;
use crate::ui_config::{
    alpha_facts, alpha_saved, curves_of, iso_saved, UiConfig, VolumeAlphaConfig, VolumeIsoConfig,
};

verus! {

/// Whether these are the products of a list of saved curves, in its order.
spec fn curve_order(
    table: Table<RadarProduct, Vec<u8>>,
    saved: Seq<VolumeAlphaConfig>,
    order: Seq<RadarProduct>,
) -> bool {
    &&& saved.len() == order.len()
    &&& forall|i: int|
        0 <= i < saved.len() ==> (#[trigger] saved[i]).product == Some(order[i])
            && saved[i].alpha@ == table@[order[i]]@
}

/// Whether these are the products of a list of saved thresholds, in its order.
spec fn threshold_order(
    table: Table<RadarProduct, i64>,
    saved: Seq<VolumeIsoConfig>,
    order: Seq<RadarProduct>,
) -> bool {
    &&& saved.len() == order.len()
    &&& forall|i: int|
        0 <= i < saved.len() ==> #[trigger] saved[i] == (VolumeIsoConfig {
            product: Some(order[i]),
            threshold: Measure::Micro(table@[order[i]]),
        })
}

/// Two lists of curves in one order, of tables that hold the same, are the same.
proof fn lemma_same_curves(
    table: Table<RadarProduct, Vec<u8>>,
    other: Table<RadarProduct, Vec<u8>>,
    order: Seq<RadarProduct>,
    a: Seq<VolumeAlphaConfig>,
    b: Seq<VolumeAlphaConfig>,
)
    requires
        curve_order(table, a, order),
        curve_order(other, b, order),
        forall|i: int| 0 <= i < order.len() ==> table@.contains_key(#[trigger] order[i]),
        curves_of(table@) == curves_of(other@),
    ensures
        alpha_facts(a) == alpha_facts(b),
{
    assert forall|i: int| 0 <= i < a.len() implies alpha_facts(a)[i] == alpha_facts(b)[i] by {
        assert(a[i].product == Some(order[i]));
        assert(b[i].product == Some(order[i]));
        assert(curves_of(table@).contains_key(order[i]));
        assert(curves_of(table@)[order[i]] == table@[order[i]]@);
        assert(curves_of(other@)[order[i]] == other@[order[i]]@);
    }
    assert(alpha_facts(a) =~= alpha_facts(b));
}

/// An order of a table's products holds only its products.
proof fn lemma_order_in_table<V>(
    table: Table<RadarProduct, V>,
    codes: ProductRanks,
    order: Seq<RadarProduct>,
)
    requires
        table.wf(),
        ranked(table.keys(), order, codes@),
    ensures
        forall|i: int| 0 <= i < order.len() ==> table@.contains_key(#[trigger] order[i]),
{
    table.law_keys();
    assert forall|i: int| 0 <= i < order.len() implies table@.contains_key(#[trigger] order[i]) by {
        assert(order.contains(order[i]));
        crate::scan::lemma_ranked_holds_same(table.keys(), order, codes@, order[i]);
        assert(table.keys().contains(order[i]));
    }
}

/// Two saves of one interface say the same, entry for entry and in one order: an
/// autosave that compares them never finds a change where there was none.
pub proof fn law_two_saves_agree(state: Gui, a: UiConfig, b: UiConfig)
    requires
        state.config_saved(a),
        state.config_saved(b),
    ensures
        a@ == b@,
{
    let curves = state.settings.volume_alpha;
    let first = choose|order: Seq<RadarProduct>| #[trigger]
        ranked(curves.keys(), order, state.codes@) && curve_order(
            curves,
            a.volume_alpha@,
            order,
        );
    let second = choose|order: Seq<RadarProduct>| #[trigger]
        ranked(curves.keys(), order, state.codes@) && curve_order(
            curves,
            b.volume_alpha@,
            order,
        );
    lemma_ranked_is_unique(curves.keys(), first, second, state.codes@);
    assert(alpha_facts(a.volume_alpha@) =~= alpha_facts(b.volume_alpha@)) by {
        assert forall|i: int| 0 <= i < first.len() implies alpha_facts(a.volume_alpha@)[i]
            == alpha_facts(b.volume_alpha@)[i] by {
            assert(a.volume_alpha@[i].product == Some(first[i]));
            assert(b.volume_alpha@[i].product == Some(first[i]));
        }
    }
    let thresholds = state.settings.volume_iso;
    let third = choose|order: Seq<RadarProduct>| #[trigger]
        ranked(thresholds.keys(), order, state.codes@) && threshold_order(
            thresholds,
            a.volume_iso@,
            order,
        );
    let fourth = choose|order: Seq<RadarProduct>| #[trigger]
        ranked(thresholds.keys(), order, state.codes@) && threshold_order(
            thresholds,
            b.volume_iso@,
            order,
        );
    lemma_ranked_is_unique(thresholds.keys(), third, fourth, state.codes@);
    assert(a.volume_iso@ =~= b.volume_iso@);
    assert(a@.panes =~= b@.panes) by {
        assert forall|i: int| 0 <= i < state.panes@.len() implies a@.panes[i] == b@.panes[i] by {
            let p: PaneConfig = a.panes@[i];
            let q: PaneConfig = b.panes@[i];
            assert(crate::config::pane_saved(state.panes@[i], p));
            assert(crate::config::pane_saved(state.panes@[i], q));
            assert(p@ == q@);
        }
    }
}

/// Curves are saved in one order, whatever order they were drawn in: two tables
/// that hold the same, of products with codes of their own, are saved alike.
pub proof fn law_saved_curves_ignore_order(
    table: Table<RadarProduct, Vec<u8>>,
    other: Table<RadarProduct, Vec<u8>>,
    codes: ProductRanks,
    a: Seq<VolumeAlphaConfig>,
    b: Seq<VolumeAlphaConfig>,
)
    requires
        table.wf(),
        other.wf(),
        curves_of(table@) == curves_of(other@),
        ranks_differ(table.keys(), codes@),
        ranks_differ(other.keys(), codes@),
        alpha_saved(table, codes, a),
        alpha_saved(other, codes, b),
    ensures
        alpha_facts(a) == alpha_facts(b),
{
    let first = choose|order: Seq<RadarProduct>| #[trigger]
        ranked(table.keys(), order, codes@) && curve_order(table, a, order);
    let second = choose|order: Seq<RadarProduct>| #[trigger]
        ranked(other.keys(), order, codes@) && curve_order(other, b, order);
    table.law_keys();
    other.law_keys();
    assert forall|p: RadarProduct| #[trigger]
        table.keys().contains(p) <==> other.keys().contains(p) by {
        assert(table@.contains_key(p) <==> curves_of(table@).contains_key(p));
        assert(other@.contains_key(p) <==> curves_of(other@).contains_key(p));
    }
    lemma_rank_decides_order(table.keys(), other.keys(), first, second, codes@);
    lemma_order_in_table(table, codes, first);
    lemma_same_curves(table, other, first, a, b);
}

/// Thresholds are saved in one order, whatever order they were set in: two tables
/// that hold the same, of products with codes of their own, are saved alike.
pub proof fn law_saved_thresholds_ignore_order(
    table: Table<RadarProduct, i64>,
    other: Table<RadarProduct, i64>,
    codes: ProductRanks,
    a: Seq<VolumeIsoConfig>,
    b: Seq<VolumeIsoConfig>,
)
    requires
        table.wf(),
        other.wf(),
        table@ == other@,
        ranks_differ(table.keys(), codes@),
        ranks_differ(other.keys(), codes@),
        iso_saved(table, codes, a),
        iso_saved(other, codes, b),
    ensures
        a == b,
{
    let first = choose|order: Seq<RadarProduct>| #[trigger]
        ranked(table.keys(), order, codes@) && threshold_order(table, a, order);
    let second = choose|order: Seq<RadarProduct>| #[trigger]
        ranked(other.keys(), order, codes@) && threshold_order(other, b, order);
    table.law_keys();
    other.law_keys();
    assert forall|p: RadarProduct| #[trigger]
        table.keys().contains(p) <==> other.keys().contains(p) by {
        assert(table@.contains_key(p) <==> other@.contains_key(p));
    }
    lemma_rank_decides_order(table.keys(), other.keys(), first, second, codes@);
    assert(a =~= b);
}

} // verus!
