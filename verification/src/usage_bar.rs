//! The usage status bar: decides when rate-limit usage is urgent enough to
//! show, which window to report, and the footer text. Percentages are held
//! in hundredths of a percent, so `7050` is `70.5%`.

use vstd::prelude::*;

use crate::status::{format_window_duration, format_window_duration_model};
use crate::strutil::dec_digits;
use crate::strutil::u64_to_string;

verus! {

/// Usage is shown once some window reaches this percentage (in hundredths).
pub const THRESHOLD_CENTIPERCENT: u64 = 7000;

/// A dismissal survives changes smaller than this (in hundredths).
pub const SIGNIFICANT_CHANGE_CENTIPERCENT: u64 = 500;

/// One rate-limit window: how much of it is used (hundredths of a percent),
/// when it resets, and its length in minutes when known.
#[derive(Clone)]
pub struct RateLimitWindowDisplay {
    pub used_centipercent: u64,
    pub resets_at: Option<String>,
    pub window_minutes: Option<u64>,
}

/// The rate-limit snapshot shown by the bar: a short primary window and a
/// longer secondary one, each optional.
#[derive(Clone)]
pub struct RateLimitSnapshotDisplay {
    pub primary: Option<RateLimitWindowDisplay>,
    pub secondary: Option<RateLimitWindowDisplay>,
}

impl RateLimitWindowDisplay {
    pub open spec fn resets_view(&self) -> Option<Seq<char>> {
        match self.resets_at {
            Option::Some(s) => Option::Some(s@),
            Option::None => Option::None,
        }
    }

    fn duplicate(&self) -> (r: RateLimitWindowDisplay)
        ensures
            r.used_centipercent == self.used_centipercent,
            r.resets_view() == self.resets_view(),
            r.window_minutes == self.window_minutes,
    {
        RateLimitWindowDisplay {
            used_centipercent: self.used_centipercent,
            resets_at: match &self.resets_at {
                Option::Some(s) => Option::Some(s.clone()),
                Option::None => Option::None,
            },
            window_minutes: self.window_minutes,
        }
    }
}

/// The highest used percentage among the snapshot's windows, if any.
pub open spec fn max_percent_model(snapshot: RateLimitSnapshotDisplay) -> Option<u64> {
    let p = match snapshot.primary {
        Option::Some(w) => Option::Some(w.used_centipercent),
        Option::None => Option::None,
    };
    let s = match snapshot.secondary {
        Option::Some(w) => Option::Some(w.used_centipercent),
        Option::None => Option::None,
    };
    match (p, s) {
        (Option::Some(a), Option::Some(b)) => Option::Some(
            if a >= b {
                a
            } else {
                b
            },
        ),
        (Option::Some(a), Option::None) => Option::Some(a),
        (Option::None, Option::Some(b)) => Option::Some(b),
        (Option::None, Option::None) => Option::None,
    }
}

/// Whether two snapshots differ enough to undo a dismissal: the highest
/// window percentage moved by the significant-change threshold, or appeared
/// or disappeared.
pub open spec fn significant_change_model(
    old_snap: RateLimitSnapshotDisplay,
    new_snap: RateLimitSnapshotDisplay,
) -> bool {
    match (max_percent_model(old_snap), max_percent_model(new_snap)) {
        (Option::Some(a), Option::Some(b)) => {
            let diff = if b >= a {
                b - a
            } else {
                a - b
            };
            diff >= SIGNIFICANT_CHANGE_CENTIPERCENT
        },
        (Option::None, Option::Some(_)) => true,
        (Option::Some(_), Option::None) => true,
        (Option::None, Option::None) => false,
    }
}

/// Whether a snapshot crosses the display threshold in some window.
pub open spec fn should_show_snapshot(snapshot: RateLimitSnapshotDisplay) -> bool {
    (snapshot.primary matches Option::Some(w) && w.used_centipercent >= THRESHOLD_CENTIPERCENT)
        || (snapshot.secondary matches Option::Some(w) && w.used_centipercent
        >= THRESHOLD_CENTIPERCENT)
}

/// The urgency levels of a usage warning.
#[derive(Clone, Copy, PartialEq, Eq, Structural, Debug)]
pub enum UrgencyLevel {
    Warning,
    Elevated,
    Critical,
}

impl UrgencyLevel {
    /// The level for a used percentage, in hundredths.
    pub open spec fn spec_from_percent(centipercent: u64) -> UrgencyLevel {
        if centipercent >= 9000 {
            UrgencyLevel::Critical
        } else if centipercent >= 8000 {
            UrgencyLevel::Elevated
        } else {
            UrgencyLevel::Warning
        }
    }

    pub fn from_percent(centipercent: u64) -> (r: UrgencyLevel)
        ensures
            r == UrgencyLevel::spec_from_percent(centipercent),
    {
        if centipercent >= 9000 {
            UrgencyLevel::Critical
        } else if centipercent >= 8000 {
            UrgencyLevel::Elevated
        } else {
            UrgencyLevel::Warning
        }
    }

    /// The level's display label.
    pub open spec fn spec_label(self) -> Seq<char> {
        match self {
            UrgencyLevel::Warning => "WARNING"@,
            UrgencyLevel::Elevated => "ALERT"@,
            UrgencyLevel::Critical => "CRITICAL"@,
        }
    }

    pub fn label(self) -> (r: &'static str)
        ensures
            r@ == self.spec_label(),
    {
        match self {
            UrgencyLevel::Warning => "WARNING",
            UrgencyLevel::Elevated => "ALERT",
            UrgencyLevel::Critical => "CRITICAL",
        }
    }
}

/// The window the bar reports on: the most urgent one over the threshold.
pub struct UrgentWindowInfo {
    pub centipercent: u64,
    pub reset_at: Option<String>,
    pub window_label: String,
}

/// The footer text together with whether the limit is reached.
pub struct UsageStatusText {
    pub text: String,
    pub at_limit: bool,
}

/// The urgent-window choice, as (percent, reset text, label) views: each
/// window over the threshold is labelled (the primary defaulting to `5h`,
/// the secondary to `weekly`), and of two candidates the higher percentage
/// wins, the primary on ties.
pub open spec fn urgent_window_model(snapshot: RateLimitSnapshotDisplay) -> Option<
    (u64, Option<Seq<char>>, Seq<char>),
> {
    let p = match snapshot.primary {
        Option::Some(w) if w.used_centipercent >= THRESHOLD_CENTIPERCENT => Option::Some(
            (
                w.used_centipercent,
                w.resets_view(),
                format_window_duration_model(w.window_minutes, "5h"@),
            ),
        ),
        _ => Option::None,
    };
    let s = match snapshot.secondary {
        Option::Some(w) if w.used_centipercent >= THRESHOLD_CENTIPERCENT => Option::Some(
            (
                w.used_centipercent,
                w.resets_view(),
                format_window_duration_model(w.window_minutes, "weekly"@),
            ),
        ),
        _ => Option::None,
    };
    match (p, s) {
        (Option::Some(a), Option::Some(b)) => Option::Some(
            if a.0 >= b.0 {
                a
            } else {
                b
            },
        ),
        (Option::Some(a), Option::None) => Option::Some(a),
        (Option::None, Option::Some(b)) => Option::Some(b),
        (Option::None, Option::None) => Option::None,
    }
}

/// The percent figure shown: hundredths rounded to the nearest whole
/// percent, an exact half going to the even percent, as the fixed-point
/// display rounds.
pub open spec fn rounded_percent(centipercent: u64) -> int {
    let q = centipercent / 100;
    let r = centipercent % 100;
    if r > 50 || (r == 50 && q % 2 == 1) {
        q + 1
    } else {
        q as int
    }
}

/// Computes [`rounded_percent`] on machine integers.
fn rounded_percent_exec(centipercent: u64) -> (r: u64)
    ensures
        r == rounded_percent(centipercent),
{
    let q = centipercent / 100;
    let rem = centipercent % 100;
    if rem > 50 || (rem == 50 && q % 2 == 1) {
        q + 1
    } else {
        q
    }
}

/// The label text: named window lengths get `<label> limit`, anything else
/// a bare `limit`.
pub open spec fn label_text_model(window_label: Seq<char>) -> Seq<char> {
    if window_label == "weekly"@ || window_label == "monthly"@ || window_label == "annual"@ {
        window_label + " limit"@
    } else {
        "limit"@
    }
}

/// The reset suffix: ` (resets <when>)`, or nothing when unknown.
pub open spec fn reset_text_model(reset_at: Option<Seq<char>>) -> Seq<char> {
    match reset_at {
        Option::Some(r) => " (resets "@ + r + ")"@,
        Option::None => Seq::empty(),
    }
}

/// The footer text for an urgent window: `<label> reached<reset>` at or
/// over the limit, otherwise `<pct>% of <label><reset>`.
pub open spec fn footer_text_model(info: (u64, Option<Seq<char>>, Seq<char>)) -> Seq<char> {
    let label = label_text_model(info.2);
    let reset = reset_text_model(info.1);
    if info.0 >= 10000 {
        label + " reached"@ + reset
    } else {
        dec_digits(rounded_percent(info.0) as nat) + "% of "@ + label + reset
    }
}

impl UrgentWindowInfo {
    /// The window info as (percent, reset text, label) views.
    pub open spec fn model(&self) -> (u64, Option<Seq<char>>, Seq<char>) {
        (
            self.centipercent,
            match self.reset_at {
                Option::Some(s) => Option::Some(s@),
                Option::None => Option::None,
            },
            self.window_label@,
        )
    }
}

/// The one-line banner the bar draws: the urgency label, the rounded
/// percent, the window label, the reset suffix, and the dismissal hint.
pub open spec fn status_bar_line_model(info: (u64, Option<Seq<char>>, Seq<char>)) -> Seq<char> {
    UrgencyLevel::spec_from_percent(info.0).spec_label() + ": "@ + dec_digits(
        rounded_percent(info.0) as nat,
    ) + "% of "@ + info.2 + " limit used"@ + reset_text_model(info.1)
        + " [Press Esc to dismiss]"@
}

/// Composes the banner line for an urgent window; see
/// [`status_bar_line_model`].
pub fn status_bar_line(info: &UrgentWindowInfo) -> (r: String)
    ensures
        r@ == status_bar_line_model(info.model()),
{
    let urgency = UrgencyLevel::from_percent(info.centipercent);
    let mut r = String::from_str(urgency.label());
    r.append(": ");
    r.append(u64_to_string(rounded_percent_exec(info.centipercent)).as_str());
    r.append("% of ");
    r.append(info.window_label.as_str());
    r.append(" limit used");
    match &info.reset_at {
        Option::Some(rs) => {
            r.append(" (resets ");
            r.append(rs.as_str());
            r.append(")");
        },
        Option::None => {},
    }
    r.append(" [Press Esc to dismiss]");
    proof {
        assert(r@ =~= status_bar_line_model(info.model()));
    }
    r
}

/// The status bar's state: the latest snapshot and whether the user
/// dismissed the warning.
pub struct UsageStatusBar {
    pub snapshot: Option<RateLimitSnapshotDisplay>,
    pub dismissed: bool,
}

impl Default for UsageStatusBar {
    /// The empty bar.
    fn default() -> (r: UsageStatusBar)
        ensures
            r.snapshot is None,
            !r.dismissed,
    {
        UsageStatusBar::new()
    }
}

impl UsageStatusBar {
    /// An empty bar: no snapshot, not dismissed.
    pub fn new() -> (r: UsageStatusBar)
        ensures
            r.snapshot is None,
            !r.dismissed,
    {
        UsageStatusBar { snapshot: Option::None, dismissed: false }
    }

    /// Installs a new snapshot; a significant change, or a first snapshot,
    /// undoes a dismissal.
    pub fn update_snapshot(&mut self, snapshot: Option<RateLimitSnapshotDisplay>)
        ensures
            final(self).snapshot == snapshot,
            final(self).dismissed == (old(self).dismissed && !(match (
                old(self).snapshot,
                snapshot,
            ) {
                (Option::Some(o), Option::Some(n)) => significant_change_model(o, n),
                (Option::None, Option::Some(_)) => true,
                _ => false,
            })),
    {
        let should_reset_dismiss = match (&self.snapshot, &snapshot) {
            (Option::Some(o), Option::Some(n)) => self.has_significant_change(o, n),
            (Option::None, Option::Some(_)) => true,
            _ => false,
        };
        self.snapshot = snapshot;
        if should_reset_dismiss {
            self.dismissed = false;
        }
    }

    /// Whether two snapshots differ significantly; see
    /// [`significant_change_model`].
    pub fn has_significant_change(
        &self,
        old_snap: &RateLimitSnapshotDisplay,
        new_snap: &RateLimitSnapshotDisplay,
    ) -> (r: bool)
        ensures
            r == significant_change_model(*old_snap, *new_snap),
    {
        let old_max = self.max_percent_from_snapshot(old_snap);
        let new_max = self.max_percent_from_snapshot(new_snap);
        match (old_max, new_max) {
            (Option::Some(a), Option::Some(b)) => {
                let diff = if b >= a {
                    b - a
                } else {
                    a - b
                };
                diff >= SIGNIFICANT_CHANGE_CENTIPERCENT
            },
            (Option::None, Option::Some(_)) => true,
            (Option::Some(_), Option::None) => true,
            (Option::None, Option::None) => false,
        }
    }

    /// The highest used percentage in the snapshot; see
    /// [`max_percent_model`].
    pub fn max_percent_from_snapshot(&self, snapshot: &RateLimitSnapshotDisplay) -> (r: Option<
        u64,
    >)
        ensures
            r == max_percent_model(*snapshot),
    {
        let p = match &snapshot.primary {
            Option::Some(w) => Option::Some(w.used_centipercent),
            Option::None => Option::None,
        };
        let s = match &snapshot.secondary {
            Option::Some(w) => Option::Some(w.used_centipercent),
            Option::None => Option::None,
        };
        match (p, s) {
            (Option::Some(a), Option::Some(b)) => Option::Some(
                if a >= b {
                    a
                } else {
                    b
                },
            ),
            (Option::Some(a), Option::None) => Option::Some(a),
            (Option::None, Option::Some(b)) => Option::Some(b),
            (Option::None, Option::None) => Option::None,
        }
    }

    /// Marks the warning dismissed.
    pub fn dismiss(&mut self)
        ensures
            final(self).dismissed,
            final(self).snapshot == old(self).snapshot,
    {
        self.dismissed = true;
    }

    /// Whether the user has dismissed the warning.
    pub fn is_dismissed(&self) -> (r: bool)
        ensures
            r == self.dismissed,
    {
        self.dismissed
    }

    /// Whether the bar should be visible: not dismissed, and some window of
    /// the snapshot crosses the threshold.
    pub fn should_show(&self) -> (r: bool)
        ensures
            r == (!self.dismissed && (self.snapshot matches Option::Some(s)
                && should_show_snapshot(s))),
    {
        if self.dismissed {
            return false;
        }
        let snapshot = match &self.snapshot {
            Option::Some(s) => s,
            Option::None => { return false },
        };
        let primary_exceeds = match &snapshot.primary {
            Option::Some(w) => w.used_centipercent >= THRESHOLD_CENTIPERCENT,
            Option::None => false,
        };
        let secondary_exceeds = match &snapshot.secondary {
            Option::Some(w) => w.used_centipercent >= THRESHOLD_CENTIPERCENT,
            Option::None => false,
        };
        primary_exceeds || secondary_exceeds
    }

    /// The most urgent window over the threshold; see
    /// [`urgent_window_model`].
    pub fn get_urgent_window_info(&self) -> (r: Option<UrgentWindowInfo>)
        ensures
            match (r, self.snapshot) {
                (Option::Some(info), Option::Some(s)) => urgent_window_model(s)
                    matches Option::Some(m) && m.0 == info.centipercent && m.1 == (
                match info.reset_at {
                    Option::Some(t) => Option::Some(t@),
                    Option::None => Option::None::<Seq<char>>,
                }) && m.2 == info.window_label@,
                (Option::None, Option::Some(s)) => urgent_window_model(s) is None,
                (Option::None, Option::None) => true,
                (Option::Some(_), Option::None) => false,
            },
    {
        let snapshot = match &self.snapshot {
            Option::Some(s) => s,
            Option::None => { return Option::None },
        };
        let primary_data: Option<UrgentWindowInfo> = match &snapshot.primary {
            Option::Some(w) if w.used_centipercent >= THRESHOLD_CENTIPERCENT => {
                let c = w.duplicate();
                Option::Some(
                    UrgentWindowInfo {
                        centipercent: c.used_centipercent,
                        reset_at: c.resets_at,
                        window_label: format_window_duration(c.window_minutes, "5h"),
                    },
                )
            },
            _ => Option::None,
        };
        let secondary_data: Option<UrgentWindowInfo> = match &snapshot.secondary {
            Option::Some(w) if w.used_centipercent >= THRESHOLD_CENTIPERCENT => {
                let c = w.duplicate();
                Option::Some(
                    UrgentWindowInfo {
                        centipercent: c.used_centipercent,
                        reset_at: c.resets_at,
                        window_label: format_window_duration(c.window_minutes, "weekly"),
                    },
                )
            },
            _ => Option::None,
        };
        match (primary_data, secondary_data) {
            (Option::Some(p), Option::Some(s)) => Option::Some(
                if p.centipercent >= s.centipercent {
                    p
                } else {
                    s
                },
            ),
            (Option::Some(p), Option::None) => Option::Some(p),
            (Option::None, Option::Some(s)) => Option::Some(s),
            (Option::None, Option::None) => Option::None,
        }
    }

    /// The footer text, present exactly when the bar is visible and some
    /// window is urgent; see [`footer_text_model`].
    pub fn get_footer_text(&self) -> (r: Option<UsageStatusText>)
        ensures
            r is Some <==> (!self.dismissed && (self.snapshot matches Option::Some(s)
                && should_show_snapshot(s) && urgent_window_model(s) is Some)),
            r matches Option::Some(t) ==> (self.snapshot matches Option::Some(s)
                && urgent_window_model(s) matches Option::Some(m) && t.text@
                == footer_text_model(m) && t.at_limit == (m.0 >= 10000)),
    {
        if !self.should_show() {
            return Option::None;
        }
        let info = match self.get_urgent_window_info() {
            Option::Some(i) => i,
            Option::None => { return Option::None },
        };
        let reset_text: String = match &info.reset_at {
            Option::Some(rs) => {
                let mut t = String::from_str(" (resets ");
                t.append(rs.as_str());
                t.append(")");
                t
            },
            Option::None => String::new(),
        };
        let at_limit = info.centipercent >= 10000;
        let named = info.window_label.eq(&String::from_str("weekly"))
            || info.window_label.eq(&String::from_str("monthly")) || info.window_label.eq(
            &String::from_str("annual"),
        );
        let label_text: String = if named {
            let mut t = info.window_label.clone();
            t.append(" limit");
            t
        } else {
            String::from_str("limit")
        };
        let text: String = if at_limit {
            let mut t = label_text;
            t.append(" reached");
            t.append(reset_text.as_str());
            t
        } else {
            let mut t = u64_to_string(rounded_percent_exec(info.centipercent));
            t.append("% of ");
            t.append(label_text.as_str());
            t.append(reset_text.as_str());
            t
        };
        proof {
            let s = self.snapshot->Some_0;
            let m = urgent_window_model(s)->Some_0;
            assert(text@ =~= footer_text_model(m));
        }
        Option::Some(UsageStatusText { text, at_limit })
    }
}

} // verus!
