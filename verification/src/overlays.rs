//! The layers drawn over a map.

use vstd::prelude::*;
use crate::table::{Key, Table};

verus! {

/// A layer over the map.
#[derive(Clone, Copy, Debug, PartialEq, Eq, Structural)]
pub enum OverlayKind {
    Radar,
    ModelData,
    SpcOutlook,
    SpcDiscussions,
    NwsAlerts,
    StormReports,
    Lightning,
    Metar,
    CityLabels,
    RadarSites,
    UserLocation,
    ColorScale,
}

impl Key for OverlayKind {
    fn same(self, other: Self) -> (r: bool) {
        self == other
    }
}

/// How many kinds of layer there are.
pub const OVERLAY_COUNT: usize = 12;

/// Every kind of layer, once.
#[verifier::opaque]
pub open spec fn all_overlays() -> Seq<OverlayKind> {
    seq![
        OverlayKind::Radar,
        OverlayKind::ModelData,
        OverlayKind::SpcOutlook,
        OverlayKind::SpcDiscussions,
        OverlayKind::NwsAlerts,
        OverlayKind::StormReports,
        OverlayKind::Lightning,
        OverlayKind::Metar,
        OverlayKind::CityLabels,
        OverlayKind::RadarSites,
        OverlayKind::UserLocation,
        OverlayKind::ColorScale,
    ]
}

impl OverlayKind {
    /// Where this kind stands in [`all_overlays`].
    pub open spec fn place(self) -> int {
        match self {
            OverlayKind::Radar => 0,
            OverlayKind::ModelData => 1,
            OverlayKind::SpcOutlook => 2,
            OverlayKind::SpcDiscussions => 3,
            OverlayKind::NwsAlerts => 4,
            OverlayKind::StormReports => 5,
            OverlayKind::Lightning => 6,
            OverlayKind::Metar => 7,
            OverlayKind::CityLabels => 8,
            OverlayKind::RadarSites => 9,
            OverlayKind::UserLocation => 10,
            OverlayKind::ColorScale => 11,
        }
    }

    /// Every kind of layer, in its canonical order.
    pub fn all() -> (r: Vec<OverlayKind>)
        ensures
            r@ == all_overlays(),
    {
        let r: Vec<OverlayKind> = vec![
            OverlayKind::Radar,
            OverlayKind::ModelData,
            OverlayKind::SpcOutlook,
            OverlayKind::SpcDiscussions,
            OverlayKind::NwsAlerts,
            OverlayKind::StormReports,
            OverlayKind::Lightning,
            OverlayKind::Metar,
            OverlayKind::CityLabels,
            OverlayKind::RadarSites,
            OverlayKind::UserLocation,
            OverlayKind::ColorScale,
        ];
        proof {
            reveal(all_overlays);
            assert(r@ =~= all_overlays());
        }
        r
    }

    /// The list of all kinds holds every kind, and none twice.
    pub proof fn law_all_is_complete(self)
        ensures
            all_overlays()[self.place()] == self,
            all_overlays().contains(self),
            all_overlays().no_duplicates(),
            all_overlays().len() == OVERLAY_COUNT,
    {
        reveal(all_overlays);
        assert(all_overlays()[self.place()] == self);
    }
}

/// A copy of a list of layers.
pub(crate) fn copy_kinds(from: &Vec<OverlayKind>) -> (r: Vec<OverlayKind>)
    ensures
        r@ == from@,
{
    let mut r: Vec<OverlayKind> = Vec::new();
    let mut i: usize = 0;
    while i < from.len()
        invariant
            i <= from@.len(),
            r@ == from@.take(i as int),
        decreases from@.len() - i,
    {
        r.push(from[i]);
        assert(r@ =~= from@.take(i + 1));
        i = i + 1;
    }
    assert(from@.take(i as int) =~= from@);
    r
}

/// Whether `kind` is among `kinds`.
pub fn holds_kind(kinds: &Vec<OverlayKind>, kind: OverlayKind) -> (r: bool)
    ensures
        r == kinds@.contains(kind),
{
    let mut i: usize = 0;
    while i < kinds.len()
        invariant
            i <= kinds@.len(),
            forall|k: int| 0 <= k < i ==> kinds@[k] != kind,
        decreases kinds@.len() - i,
    {
        if kinds[i] == kind {
            return true;
        }
        i = i + 1;
    }
    false
}

/// Which layers are on.
pub type EnabledMap = Table<OverlayKind, bool>;

/// A layer's settings as its handler holds them: the master switch, and the
/// handler's own options as the text it saved.
pub struct LayerSetting {
    pub enabled: bool,
    pub options: String,
}

impl Clone for LayerSetting {
    fn clone(&self) -> (r: Self)
        ensures
            r == *self,
    {
        LayerSetting { enabled: self.enabled, options: self.options.clone() }
    }
}

/// Each layer's settings.
pub type ConfigMap = Table<OverlayKind, LayerSetting>;


/// A copy of a table of switches.
pub fn copy_enabled(from: &EnabledMap) -> (r: EnabledMap)
    ensures
        r@ == from@,
{
    let mut r: EnabledMap = Table::new();
    let n: usize = from.len();
    let mut i: usize = 0;
    while i < n
        invariant
            i <= n,
            n == from.keys().len(),
            from.wf(),
            forall|k: OverlayKind| #[trigger]
                r@.contains_key(k) <==> from.keys().take(i as int).contains(k),
            forall|k: OverlayKind| #[trigger]
                r@.contains_key(k) ==> from@.contains_key(k) && r@[k] == from@[k],
        decreases n - i,
    {
        let key: OverlayKind = from.key_at(i);
        let value: bool = *from.value_at(i);
        r.insert(key, value);
        proof {
            lemma_take_contains(from.keys(), i as int);
        }
        i = i + 1;
    }
    proof {
        from.law_keys();
        assert(from.keys().take(n as int) =~= from.keys());
        assert(r@ =~= from@);
    }
    r
}

/// Taking one more element adds exactly that element.
pub proof fn lemma_take_contains<T>(s: Seq<T>, i: int)
    requires
        0 <= i < s.len(),
    ensures
        forall|x: T| #[trigger] s.take(i + 1).contains(x) <==> s.take(i).contains(x) || x == s[i],
{
    let short = s.take(i);
    let long = s.take(i + 1);
    assert(long =~= short.push(s[i]));
    assert forall|x: T| #[trigger] long.contains(x) <==> short.contains(x) || x == s[i] by {
        if short.contains(x) {
            let k = short.index_of(x);
            assert(long[k] == x);
        }
        if x == s[i] {
            assert(long[i] == x);
        }
        if long.contains(x) && x != s[i] {
            let k = long.index_of(x);
            assert(short[k] == x);
        }
    }
}

/// A copy of a table of settings.
pub fn copy_configs(from: &ConfigMap) -> (r: ConfigMap)
    ensures
        r@ == from@,
{
    let mut r: ConfigMap = Table::new();
    let n: usize = from.len();
    let mut i: usize = 0;
    while i < n
        invariant
            i <= n,
            n == from.keys().len(),
            from.wf(),
            forall|k: OverlayKind| #[trigger]
                r@.contains_key(k) <==> from.keys().take(i as int).contains(k),
            forall|k: OverlayKind| #[trigger]
                r@.contains_key(k) ==> from@.contains_key(k) && r@[k] == from@[k],
        decreases n - i,
    {
        let key: OverlayKind = from.key_at(i);
        let value: LayerSetting = from.value_at(i).clone();
        r.insert(key, value);
        proof {
            lemma_take_contains(from.keys(), i as int);
        }
        i = i + 1;
    }
    proof {
        from.law_keys();
        assert(from.keys().take(n as int) =~= from.keys());
        assert(r@ =~= from@);
    }
    r
}

/// What one layer's data feed is doing. Instants are milliseconds on the
/// monotonic clock.
#[derive(Clone, Copy, Debug, PartialEq, Eq, Structural)]
pub struct LayerFeed {
    /// How often the layer refreshes on its own, in seconds, if it does.
    pub auto_poll_interval: Option<u64>,
    /// Whether a refresh is in flight.
    pub fetching: bool,
    /// When the layer was last fetched.
    pub fetched_at: Option<u64>,
    /// Whether there is anything to draw.
    pub has_data: bool,
}

/// What is known of the layers outside any one pane: what their handlers hold
/// right now, and what their data feeds are doing.
pub struct LayerHandlers {
    pub settings: ConfigMap,
    pub feeds: Table<OverlayKind, LayerFeed>,
}

/// Which layers a set of settings turns on.
pub open spec fn switches(
    settings: Map<OverlayKind, LayerSetting>,
) -> Map<OverlayKind, bool> {
    settings.map_values(|s: LayerSetting| s.enabled)
}

/// Settings after a layer is turned on or off.
pub open spec fn switched(
    settings: Map<OverlayKind, LayerSetting>,
    kind: OverlayKind,
    on: bool,
    after: Map<OverlayKind, LayerSetting>,
) -> bool {
    &&& after.contains_key(kind)
    &&& after[kind].enabled == on
    &&& after[kind].options@ == if settings.contains_key(kind) {
        settings[kind].options@
    } else {
        Seq::<char>::empty()
    }
    &&& after.remove(kind) == settings.remove(kind)
}

impl LayerHandlers {
    /// Handlers that know of no layer.
    pub fn new() -> (r: Self)
        ensures
            r.settings@ == Map::<OverlayKind, LayerSetting>::empty(),
            r.feeds@ == Map::<OverlayKind, LayerFeed>::empty(),
    {
        LayerHandlers { settings: Table::new(), feeds: Table::new() }
    }

    /// Take over every setting that `configs` holds.
    pub fn load_pane_configs(&mut self, configs: &ConfigMap)
        ensures
            final(self).settings@ == old(self).settings@.union_prefer_right(configs@),
            *final(self) == (LayerHandlers { settings: final(self).settings, ..*old(self) }),
    {
        let n: usize = configs.len();
        let mut i: usize = 0;
        let ghost before = self.settings@;
        while i < n
            invariant
                i <= n,
                n == configs.keys().len(),
                configs.wf(),
                before == old(self).settings@,
                forall|k: OverlayKind| #[trigger]
                    self.settings@.contains_key(k) <==> before.contains_key(k)
                        || configs.keys().take(i as int).contains(k),
                forall|k: OverlayKind| #[trigger]
                    self.settings@.contains_key(k) ==> self.settings@[k]
                        == if configs.keys().take(i as int).contains(k) {
                        configs@[k]
                    } else {
                        before[k]
                    },
                *self == (LayerHandlers { settings: self.settings, ..*old(self) }),
            decreases n - i,
        {
            let key: OverlayKind = configs.key_at(i);
            let value: LayerSetting = configs.value_at(i).clone();
            self.settings.insert(key, value);
            proof {
                lemma_take_contains(configs.keys(), i as int);
            }
            i = i + 1;
        }
        proof {
            configs.law_keys();
            assert(configs.keys().take(n as int) =~= configs.keys());
            assert(self.settings@ =~= before.union_prefer_right(configs@));
        }
    }

    /// Turn a layer on or off.
    pub fn set_enabled(&mut self, kind: OverlayKind, on: bool)
        ensures
            switched(old(self).settings@, kind, on, final(self).settings@),
            *final(self) == (LayerHandlers { settings: final(self).settings, ..*old(self) }),
    {
        let options: String = match self.settings.get(kind) {
            Some(setting) => setting.options.clone(),
            None => String::new(),
        };
        assert(self.settings@.contains_key(kind) || options@ =~= Seq::<char>::empty());
        self.settings.insert(kind, LayerSetting { enabled: on, options });
        assert(self.settings@.remove(kind) =~= old(self).settings@.remove(kind));
    }

    /// The settings of every layer, to keep on a pane.
    pub fn save_pane_configs(&self) -> (r: ConfigMap)
        ensures
            r@ == self.settings@,
    {
        copy_configs(&self.settings)
    }

    /// Which layers are on, to keep on a pane.
    pub fn save_enabled_map(&self) -> (r: EnabledMap)
        ensures
            r@ == switches(self.settings@),
    {
        let mut r: EnabledMap = Table::new();
        let n: usize = self.settings.len();
        let mut i: usize = 0;
        while i < n
            invariant
                i <= n,
                n == self.settings.keys().len(),
                self.settings.wf(),
                forall|k: OverlayKind| #[trigger]
                    r@.contains_key(k) <==> self.settings.keys().take(i as int).contains(k),
                forall|k: OverlayKind| #[trigger]
                    r@.contains_key(k) ==> self.settings@.contains_key(k) && r@[k]
                        == self.settings@[k].enabled,
            decreases n - i,
        {
            let key: OverlayKind = self.settings.key_at(i);
            let value: bool = self.settings.value_at(i).enabled;
            r.insert(key, value);
            proof {
                lemma_take_contains(self.settings.keys(), i as int);
            }
            i = i + 1;
        }
        proof {
            self.settings.law_keys();
            assert(self.settings.keys().take(n as int) =~= self.settings.keys());
            assert(r@ =~= switches(self.settings@));
        }
        r
    }

    /// What a layer's feed is doing; a layer without an entry has none.
    pub open spec fn feed(self, kind: OverlayKind) -> LayerFeed {
        if self.feeds@.contains_key(kind) {
            self.feeds@[kind]
        } else {
            LayerFeed {
                auto_poll_interval: None,
                fetching: false,
                fetched_at: None,
                has_data: false,
            }
        }
    }

    /// What a layer's feed is doing.
    pub fn feed_of(&self, kind: OverlayKind) -> (r: LayerFeed)
        ensures
            r == self.feed(kind),
    {
        match self.feeds.get(kind) {
            Some(feed) => *feed,
            None => LayerFeed {
                auto_poll_interval: None,
                fetching: false,
                fetched_at: None,
                has_data: false,
            },
        }
    }
}

/// Every switch of `own`, and of `defaults` where `own` has none.
pub open spec fn with_defaults(
    own: Map<OverlayKind, bool>,
    defaults: Map<OverlayKind, bool>,
) -> Map<OverlayKind, bool> {
    defaults.union_prefer_right(own)
}

/// Give every layer that has no switch in `own` the one it has in `defaults`.
pub fn fill_enabled(own: &mut EnabledMap, defaults: &EnabledMap)
    ensures
        final(own)@ == with_defaults(old(own)@, defaults@),
{
    let n: usize = defaults.len();
    let mut i: usize = 0;
    let ghost before = own@;
    while i < n
        invariant
            i <= n,
            n == defaults.keys().len(),
            defaults.wf(),
            before == old(own)@,
            forall|k: OverlayKind| #[trigger]
                own@.contains_key(k) <==> before.contains_key(k) || defaults.keys().take(
                    i as int,
                ).contains(k),
            forall|k: OverlayKind| #[trigger]
                own@.contains_key(k) ==> own@[k] == if before.contains_key(k) {
                    before[k]
                } else {
                    defaults@[k]
                },
        decreases n - i,
    {
        let key: OverlayKind = defaults.key_at(i);
        let value: bool = *defaults.value_at(i);
        if !own.contains_key(key) {
            own.insert(key, value);
        }
        proof {
            lemma_take_contains(defaults.keys(), i as int);
        }
        i = i + 1;
    }
    proof {
        defaults.law_keys();
        assert(defaults.keys().take(n as int) =~= defaults.keys());
        assert(own@ =~= with_defaults(before, defaults@));
    }
}

/// A layer that a pane has a switch for keeps it, and one that it has none for takes
/// the default, if there is one.
pub proof fn law_own_switch_wins(
    own: Map<OverlayKind, bool>,
    defaults: Map<OverlayKind, bool>,
    kind: OverlayKind,
)
    ensures
        own.contains_key(kind) ==> with_defaults(own, defaults).contains_key(kind)
            && with_defaults(own, defaults)[kind] == own[kind],
        !own.contains_key(kind) && defaults.contains_key(kind) ==> with_defaults(
            own,
            defaults,
        ).contains_key(kind) && with_defaults(own, defaults)[kind] == defaults[kind],
        !own.contains_key(kind) && !defaults.contains_key(kind) ==> !with_defaults(
            own,
            defaults,
        ).contains_key(kind),
{
}

/// Turning a layer on or off sets its switch and keeps its options, and leaves every
/// other layer's settings as they are.
pub proof fn law_switching_touches_one_layer(
    settings: Map<OverlayKind, LayerSetting>,
    kind: OverlayKind,
    on: bool,
    after: Map<OverlayKind, LayerSetting>,
    other: OverlayKind,
)
    requires
        switched(settings, kind, on, after),
    ensures
        after.contains_key(kind),
        after[kind].enabled == on,
        settings.contains_key(kind) ==> after[kind].options@ == settings[kind].options@,
        other != kind ==> (after.contains_key(other) <==> settings.contains_key(other)),
        other != kind && settings.contains_key(other) ==> after[other] == settings[other],
{
    if other != kind {
        assert(after.remove(kind).contains_key(other) == settings.remove(kind).contains_key(other));
        if settings.contains_key(other) {
            assert(after.remove(kind)[other] == settings.remove(kind)[other]);
        }
    }
}

/// A layer's switch is the one its setting holds.
pub proof fn law_switches_are_the_settings(
    settings: Map<OverlayKind, LayerSetting>,
    kind: OverlayKind,
)
    ensures
        switches(settings).contains_key(kind) == settings.contains_key(kind),
        settings.contains_key(kind) ==> switches(settings)[kind] == settings[kind].enabled,
{
}

/// A layer with an entry does what the entry says; one without neither polls nor
/// fetches nor has anything to draw.
pub proof fn law_feed_is_the_entry(handlers: LayerHandlers, kind: OverlayKind)
    ensures
        handlers.feeds@.contains_key(kind) ==> handlers.feed(kind) == handlers.feeds@[kind],
        !handlers.feeds@.contains_key(kind) ==> {
            &&& handlers.feed(kind).auto_poll_interval is None
            &&& !handlers.feed(kind).fetching
            &&& handlers.feed(kind).fetched_at is None
            &&& !handlers.feed(kind).has_data
        },
{
}

} // verus!
