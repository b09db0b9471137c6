//! What the status bar says.

use vstd::prelude::*;
use crate::kinds::PaneKind;
use crate::pane::PaneState;
use crate::poll::AutoPollState;
use crate::scan::ScanInfo;
use crate::stamp::{age_at, nanos_between, Age, Stamp};
use crate::text::{decimal, decimal_text, joined};

verus! {

/// How fresh the tilt on screen is.
#[derive(Clone, Copy, Debug, PartialEq, Eq, Structural)]
pub struct TiltFreshness {
    /// The elevation being rendered, in millionths of a degree.
    pub elevation: i64,
    /// Seconds since the radar collected the newest radial in that sweep.
    pub data_age_secs: u64,
}

/// One site's current-volume stamp.
#[derive(Clone, Copy, Debug, PartialEq, Eq, Structural)]
pub struct CurrentVolumeStamp {
    /// When the newest data in the merged volume was collected.
    pub newest: Stamp,
    /// When the complete volume under the merge began, if one contributes.
    pub base_started: Option<Stamp>,
}

/// What the real-time chunk feed is doing for the pane on screen.
#[derive(Clone, Copy, Debug, PartialEq, Eq, Structural)]
pub struct ChunkFeedStatus {
    /// Some live site is being fed from the real-time bucket.
    pub feeding: bool,
    /// A live site had its feed retired and fell back to the archive.
    pub retired: bool,
    /// The feed's own poll cadence, in seconds.
    pub interval_secs: u64,
    /// Chunks are fetched on arrival rather than on the next tick.
    pub pushed: bool,
    /// The active pane's tilt, once the feed has delivered it.
    pub tilt: Option<TiltFreshness>,
}

impl Default for ChunkFeedStatus {
    fn default() -> (r: Self)
        ensures
            r == (ChunkFeedStatus {
                feeding: false,
                retired: false,
                interval_secs: 0,
                pushed: false,
                tilt: None,
            }),
    {
        ChunkFeedStatus {
            feeding: false,
            retired: false,
            interval_secs: 0,
            pushed: false,
            tilt: None,
        }
    }
}

/// How an age in seconds reads: just now, then seconds, then rounded minutes.
pub open spec fn age_words(secs: nat) -> Seq<char> {
    if secs <= 9 {
        "just now"@
    } else if secs < 90 {
        decimal(secs) + "s old"@
    } else {
        decimal(((secs + 30) / 60) as nat) + "m old"@
    }
}

/// How stale a tilt is, in words a status bar has room for.
pub fn describe_age(secs: u64) -> (r: String)
    ensures
        r@ == age_words(secs as nat),
{
    if secs <= 9 {
        String::from_str("just now")
    } else if secs < 90 {
        joined(decimal_text(secs).as_str(), "s old")
    } else {
        let minutes: u64 = secs / 60 + (if secs % 60 >= 30 { 1u64 } else { 0u64 });
        assert(minutes == (secs + 30) / 60);
        joined(decimal_text(minutes).as_str(), "m old")
    }
}

/// How an age reads: whole minutes below an hour, hours and minutes above, and
/// its own words for a moment still to come.
pub open spec fn product_age_words(age: Age) -> Seq<char> {
    if age.total() < 0 {
        "stamped ahead"@
    } else {
        let minutes = age.secs as int / 60;
        if minutes < 60 {
            decimal(minutes as nat) + " min old"@
        } else {
            decimal((minutes / 60) as nat) + "h "@ + decimal((minutes % 60) as nat) + "m old"@
        }
    }
}

/// How old the data behind a pane's image is, in words. A moment still to come
/// is not rounded to fresh: it is a clock that disagrees.
pub fn format_product_age(age: Age) -> (r: String)
    requires
        age.regular(),
    ensures
        r@ == product_age_words(age),
{
    if age.secs < 0 || age.nanos < 0 {
        return String::from_str("stamped ahead");
    }
    let minutes: u64 = (age.secs as u64) / 60;
    if minutes < 60 {
        joined(decimal_text(minutes).as_str(), " min old")
    } else {
        let mut r: String = decimal_text(minutes / 60);
        r.append("h ");
        r.append(decimal_text(minutes % 60).as_str());
        r.append("m old");
        r
    }
}

/// What the archive poll is doing, in words.
pub open spec fn archive_words(poll: AutoPollState, now: int) -> Seq<char> {
    if poll.enabled && poll.last_fetch_time is Some {
        let gone = crate::poll::elapsed_ms(poll.last_fetch_time->0 as int, now) / 1000;
        let left = if poll.interval_secs > gone { poll.interval_secs - gone } else { 0 };
        "archive "@ + decimal(left as nat) + "s"@
    } else {
        "archive off"@
    }
}

/// The label of the auto-poll control. It says which of the two transports is
/// running, since they differ by orders of magnitude in latency. `elevation` is
/// the tilt on screen as it is written.
pub open spec fn poll_words(
    poll: AutoPollState,
    chunks: ChunkFeedStatus,
    elevation: Seq<char>,
    now: int,
) -> Seq<char> {
    if chunks.feeding {
        match chunks.tilt {
            Some(tilt) => "\u{26a1} Live - "@ + elevation + "\u{b0} "@ + age_words(
                tilt.data_age_secs as nat,
            ),
            None => "\u{26a1} Live - waiting for this tilt"@,
        }
    } else if chunks.retired {
        "\u{26a0} Live - real-time unavailable, "@ + archive_words(poll, now)
    } else {
        "Auto-poll ("@ + archive_words(poll, now) + ")"@
    }
}

fn archive_label(poll: &AutoPollState, now: u64) -> (r: String)
    ensures
        r@ == archive_words(*poll, now as int),
{
    match poll.time_until_next(now) {
        Some(remaining) => if poll.enabled {
            let mut r: String = String::from_str("archive ");
            r.append(decimal_text(remaining).as_str());
            r.append("s");
            r
        } else {
            String::from_str("archive off")
        },
        None => String::from_str("archive off"),
    }
}

/// The label of the auto-poll control.
pub fn poll_label(
    poll: &AutoPollState,
    chunks: &ChunkFeedStatus,
    elevation: &str,
    now: u64,
) -> (r: String)
    ensures
        r@ == poll_words(*poll, *chunks, elevation@, now as int),
{
    if chunks.feeding {
        match chunks.tilt {
            Some(tilt) => {
                let mut r: String = joined("\u{26a1} Live - ", elevation);
                r.append("\u{b0} ");
                r.append(describe_age(tilt.data_age_secs).as_str());
                r
            },
            None => String::from_str("\u{26a1} Live - waiting for this tilt"),
        }
    } else if chunks.retired {
        joined(
            "\u{26a0} Live - real-time unavailable, ",
            archive_label(poll, now).as_str(),
        )
    } else {
        joined(joined("Auto-poll (", archive_label(poll, now).as_str()).as_str(), ")")
    }
}

/// What hovering over the auto-poll control explains, if anything.
pub open spec fn poll_hover_words(chunks: ChunkFeedStatus) -> Option<Seq<char>> {
    if chunks.feeding {
        Some(
            "Assembled from the real-time chunk feed"@ + (if chunks.pushed {
                ", fetched as each chunk is published"@
            } else {
                ", checked every "@ + decimal(chunks.interval_secs as nat) + "s"@
            })
                + ". The age is how long ago the radar collected this tilt; it climbs until the beam comes back round. The archive is polled only if the feed stops."@,
        )
    } else if chunks.retired {
        Some(
            "The real-time feed stopped responding for this site; falling back to completed archive volumes, which are several minutes old."@,
        )
    } else {
        None
    }
}

/// What hovering over the auto-poll control explains, if anything.
pub fn poll_hover(chunks: &ChunkFeedStatus) -> (r: Option<String>)
    ensures
        match r {
            Some(text) => poll_hover_words(*chunks) == Some(text@),
            None => poll_hover_words(*chunks) is None,
        },
{
    if chunks.feeding {
        let how: String = if chunks.pushed {
            String::from_str(", fetched as each chunk is published")
        } else {
            joined(
                joined(", checked every ", decimal_text(chunks.interval_secs).as_str()).as_str(),
                "s",
            )
        };
        let mut r: String = joined("Assembled from the real-time chunk feed", how.as_str());
        r.append(
            ". The age is how long ago the radar collected this tilt; it climbs until the beam comes back round. The archive is polled only if the feed stops.",
        );
        Some(r)
    } else if chunks.retired {
        Some(
            String::from_str(
                "The real-time feed stopped responding for this site; falling back to completed archive volumes, which are several minutes old.",
            ),
        )
    } else {
        None
    }
}

/// The scan summary. `when` is the scan's time as it is written, and a bar
/// without room has only the site and the time.
pub open spec fn scan_words(scan: Option<ScanInfo>, when: Seq<char>, roomy: bool) -> Seq<char> {
    match scan {
        Some(scan) => if roomy {
            "Scan: "@ + scan.site.name@ + " @ "@ + when + " ("@ + decimal(
                scan.available_products@.len(),
            ) + " products)"@
        } else {
            scan.site.name@ + " @ "@ + when
        },
        None => "No scan loaded"@,
    }
}

/// The scan summary.
pub fn scan_line(scan: Option<&ScanInfo>, when: &str, roomy: bool) -> (r: String)
    ensures
        r@ == scan_words(
            match scan {
                Some(s) => Some(*s),
                None => None,
            },
            when@,
            roomy,
        ),
{
    match scan {
        Some(scan) => {
            if roomy {
                let mut r: String = joined("Scan: ", scan.site.name.as_str());
                r.append(" @ ");
                r.append(when);
                r.append(" (");
                r.append(decimal_text(scan.available_products.len() as u64).as_str());
                r.append(" products)");
                r
            } else {
                let mut r: String = joined(scan.site.name.as_str(), " @ ");
                r.append(when);
                r
            }
        },
        None => String::from_str("No scan loaded"),
    }
}

/// The data line of an image collected at a moment written as `when`.
pub open spec fn data_words(age: Age, when: Seq<char>, roomy: bool) -> Seq<char> {
    if roomy {
        "Data: "@ + when + " ("@ + product_age_words(age) + ")"@
    } else {
        "Data "@ + when + " ("@ + product_age_words(age) + ")"@
    }
}

/// The data line: when the data behind the image on screen was collected, and
/// how long ago that is at `now`. `None` where nothing on screen has a time.
pub fn data_line(collected: Option<Stamp>, when: &str, now: Stamp, roomy: bool) -> (r: Option<
    String,
>)
    ensures
        r is Some <==> collected is Some,
        r matches Some(text) ==> exists|age: Age|
            {
                &&& age.regular()
                &&& #[trigger] age.total() == nanos_between(
                    collected->0.seconds() as int,
                    collected->0.nanoseconds() as int,
                    now.seconds() as int,
                    now.nanoseconds() as int,
                )
                &&& text@ == data_words(age, when@, roomy)
            },
{
    match collected {
        Some(stamp) => {
            let age: Age = age_at(now, stamp);
            let mut r: String = joined(
                if roomy {
                    "Data: "
                } else {
                    "Data "
                },
                when,
            );
            r.append(" (");
            r.append(format_product_age(age).as_str());
            r.append(")");
            assert(age.regular());
            Some(r)
        },
        None => None,
    }
}

/// The first text of a list, if it holds one.
pub open spec fn first_text(texts: Seq<Option<String>>) -> Option<Seq<char>>
    decreases texts.len(),
{
    if texts.len() == 0 {
        None
    } else {
        match first_text(texts.drop_last()) {
            Some(text) => Some(text),
            None => match texts.last() {
                Some(text) => Some(text@),
                None => None,
            },
        }
    }
}

/// What the pointer reads out: the first value under it, and the first layer
/// feature under it.
pub struct HoverInfo {
    pub value: Option<String>,
    pub overlay: Option<String>,
}

/// A text as its characters, if there is one.
pub open spec fn text_of(text: Option<String>) -> Option<Seq<char>> {
    match text {
        Some(text) => Some(text@),
        None => None,
    }
}

/// What the pointer reads out over these panes: the first pane with a value, and
/// the first with a layer feature, speak. Hidden panes are not to be handed in:
/// nothing clears what they read out.
pub fn hover_info(panes: &[PaneState]) -> (r: HoverInfo)
    ensures
        text_of(r.value) == first_text(panes@.map_values(|p: PaneState| p.hover_value)),
        text_of(r.overlay) == first_text(panes@.map_values(|p: PaneState| p.overlay_hover_value)),
{
    let mut value: Option<String> = None;
    let mut overlay: Option<String> = None;
    let ghost values = panes@.map_values(|p: PaneState| p.hover_value);
    let ghost overlays = panes@.map_values(|p: PaneState| p.overlay_hover_value);
    let mut i: usize = 0;
    while i < panes.len()
        invariant
            i <= panes@.len(),
            values == panes@.map_values(|p: PaneState| p.hover_value),
            overlays == panes@.map_values(|p: PaneState| p.overlay_hover_value),
            text_of(value) == first_text(values.take(i as int)),
            text_of(overlay) == first_text(overlays.take(i as int)),
        decreases panes@.len() - i,
    {
        assert(values.take(i + 1).drop_last() =~= values.take(i as int));
        assert(overlays.take(i + 1).drop_last() =~= overlays.take(i as int));
        if value.is_none() {
            value = panes[i].hover_value.clone();
        }
        if overlay.is_none() {
            overlay = panes[i].overlay_hover_value.clone();
        }
        i = i + 1;
    }
    assert(values.take(i as int) =~= values);
    assert(overlays.take(i as int) =~= overlays);
    HoverInfo { value, overlay }
}

/// The identity line of a pane: whose data it shows, and what it is.
pub open spec fn identity_words(pane: PaneState) -> Seq<char> {
    pane.site@ + " \u{b7} "@ + pane.kind_of().title()
}

/// The identity line of a pane: whose data it shows, and what it is.
pub fn pane_identity(pane: &PaneState) -> (r: String)
    ensures
        r@ == identity_words(*pane),
{
    let kind: &str = match pane.kind() {
        PaneKind::MapView => "Map",
        PaneKind::CrossSection => "Cross-section",
        PaneKind::Volume => "3D volume",
    };
    joined(joined(pane.site.as_str(), " \u{b7} ").as_str(), kind)
}

/// A tilt is just now for its first ten seconds, is counted in seconds up to a minute
/// and a half, and in whole minutes from then on, rounded to the nearest.
pub proof fn law_age_reads_by_its_length(secs: nat, minutes: nat)
    ensures
        secs < 10 ==> age_words(secs) == "just now"@,
        10 <= secs < 90 ==> age_words(secs) == decimal(secs) + "s old"@,
        secs >= 90 && minutes * 60 <= secs + 30 < (minutes + 1) * 60 ==> age_words(secs) == decimal(
            minutes,
        ) + "m old"@,
{
    if secs >= 90 && minutes * 60 <= secs + 30 < (minutes + 1) * 60 {
        assert((secs + 30) / 60 == minutes);
    }
}

/// The data behind a picture is so many minutes old below an hour, so many hours and
/// minutes above, and stamped ahead where its moment is still to come.
pub proof fn law_product_age_reads_in_minutes(age: Age, hours: nat, minutes: nat)
    requires
        age.regular(),
        minutes < 60,
    ensures
        age.secs < 0 || age.nanos < 0 ==> product_age_words(age) == "stamped ahead"@,
        age.secs >= 0 && age.nanos >= 0 && minutes * 60 <= age.secs < (minutes + 1) * 60
            ==> product_age_words(age) == decimal(minutes) + " min old"@,
        age.secs >= 0 && age.nanos >= 0 && hours >= 1 && hours * 3600 + minutes * 60 <= age.secs
            < hours * 3600 + (minutes + 1) * 60 ==> product_age_words(age) == decimal(hours)
            + "h "@ + decimal(minutes) + "m old"@,
{
    crate::stamp::law_age_is_seconds_and_parts(age);
    if age.secs >= 0 && age.nanos >= 0 {
        let whole = age.secs as int / 60;
        if minutes * 60 <= age.secs < (minutes + 1) * 60 {
            assert(whole == minutes);
        }
        if hours >= 1 && hours * 3600 + minutes * 60 <= age.secs < hours * 3600 + (minutes + 1)
            * 60 {
            assert(whole == hours * 60 + minutes);
            assert(whole / 60 == hours);
            assert(whole % 60 == minutes);
        }
    }
}

/// The archive poll is written with its countdown while it is on and has started, and as
/// off otherwise.
pub proof fn law_archive_poll_shows_its_countdown(poll: AutoPollState, now: int)
    ensures
        poll.enabled && poll.last_fetch_time is Some ==> archive_words(poll, now) == "archive "@
            + decimal(poll.countdown(now) as nat) + "s"@,
        !poll.enabled || poll.last_fetch_time is None ==> archive_words(poll, now)
            == "archive off"@,
{
}

/// The label names the transport that is running: the real-time feed with the age of its
/// tilt before everything, then that it has been given up, then the archive.
pub proof fn law_label_names_the_transport(
    poll: AutoPollState,
    chunks: ChunkFeedStatus,
    elevation: Seq<char>,
    now: int,
)
    ensures
        ({
            let words = poll_words(poll, chunks, elevation, now);
            &&& chunks.feeding && chunks.tilt is Some ==> words == "\u{26a1} Live - "@ + elevation
                + "\u{b0} "@ + age_words(chunks.tilt->0.data_age_secs as nat)
            &&& chunks.feeding && chunks.tilt is None ==> words
                == "\u{26a1} Live - waiting for this tilt"@
            &&& !chunks.feeding && chunks.retired ==> words
                == "\u{26a0} Live - real-time unavailable, "@ + archive_words(poll, now)
            &&& !chunks.feeding && !chunks.retired ==> words == "Auto-poll ("@ + archive_words(
                poll,
                now,
            ) + ")"@
        }),
        poll_hover_words(chunks) is Some <==> chunks.feeding || chunks.retired,
{
}

/// The pointer reads out what the first pane that has something to say says, and
/// nothing where none has.
pub proof fn law_first_to_speak_is_read_out(texts: Seq<Option<String>>, i: int)
    requires
        0 <= i <= texts.len(),
        forall|k: int| 0 <= k < i ==> (#[trigger] texts[k]) is None,
    ensures
        i < texts.len() && texts[i] is Some ==> first_text(texts) == Some(texts[i]->0@),
        i == texts.len() ==> first_text(texts) is None,
    decreases texts.len(),
{
    if texts.len() > 0 {
        let front = texts.drop_last();
        assert forall|k: int| 0 <= k < i && k < front.len() implies (#[trigger] front[k])
            is None by {
            assert(front[k] == texts[k]);
        }
        if i < texts.len() {
            law_first_to_speak_is_read_out(front, i);
            if i == front.len() {
                assert(first_text(front) is None);
            } else {
                assert(front[i] == texts[i]);
            }
        } else {
            law_first_to_speak_is_read_out(front, i - 1);
            assert(texts[texts.len() - 1] is None);
        }
    }
}

/// A scan is summed up by its site and its time, and where there is room by how many
/// products it has.
pub proof fn law_scan_is_summed_up(scan: ScanInfo, when: Seq<char>)
    ensures
        scan_words(Some(scan), when, false) == scan.site.name@ + " @ "@ + when,
        scan_words(Some(scan), when, true) == "Scan: "@ + scan.site.name@ + " @ "@ + when + " ("@
            + decimal(scan.available_products@.len()) + " products)"@,
        scan_words(None, when, true) == "No scan loaded"@,
        scan_words(None, when, false) == "No scan loaded"@,
{
}

/// A pane is known by its site and its kind.
pub proof fn law_pane_is_known_by_site_and_kind(pane: PaneState)
    ensures
        pane.content is MapView ==> identity_words(pane) == pane.site@ + " \u{b7} "@ + "Map"@,
        pane.content is CrossSection ==> identity_words(pane) == pane.site@ + " \u{b7} "@
            + "Cross-section"@,
        pane.content is Volume ==> identity_words(pane) == pane.site@ + " \u{b7} "@
            + "3D volume"@,
{
}

/// The data line gives the moment and how long ago that is, in brackets.
pub proof fn law_data_line_gives_moment_and_age(age: Age, when: Seq<char>)
    ensures
        data_words(age, when, true) == "Data: "@ + when + " ("@ + product_age_words(age) + ")"@,
        data_words(age, when, false) == "Data "@ + when + " ("@ + product_age_words(age) + ")"@,
{
}

} // verus!
