//! Status-line composition helpers: compact token counts, reset durations,
//! and the model, agents and account summaries shown by the status view.

use vstd::prelude::*;

use crate::pathshow::{agents_path_display, agents_path_display_exec};
use crate::policy::AbsPath;
use crate::strutil::{dec_digits, lower_seq, title_case_model, trim_model};
use crate::strutil::{ascii_lowercase, str_eq, title_case, trim_ascii, u64_to_string};

verus! {

/// How a reset delay is shown: the largest whole unit among days, hours and
/// minutes, or `in <1m` below a minute.
pub open spec fn format_reset_duration_model(resets_in_seconds: int) -> Seq<char> {
    let minutes = resets_in_seconds / 60;
    let hours = minutes / 60;
    let days = hours / 24;
    if days > 0 {
        "in "@ + dec_digits(days as nat) + "d"@
    } else if hours > 0 {
        "in "@ + dec_digits(hours as nat) + "h"@
    } else if minutes > 0 {
        "in "@ + dec_digits(minutes as nat) + "m"@
    } else {
        "in <1m"@
    }
}

/// Renders a reset delay, e.g. `in 2h`.
pub fn format_reset_duration(resets_in_seconds: u64) -> (r: String)
    ensures
        r@ == format_reset_duration_model(resets_in_seconds as int),
{
    let minutes = resets_in_seconds / 60;
    let hours = minutes / 60;
    let days = hours / 24;
    if days > 0 {
        let mut r = String::from_str("in ");
        r.append(u64_to_string(days).as_str());
        r.append("d");
        r
    } else if hours > 0 {
        let mut r = String::from_str("in ");
        r.append(u64_to_string(hours).as_str());
        r.append("h");
        r
    } else if minutes > 0 {
        let mut r = String::from_str("in ");
        r.append(u64_to_string(minutes).as_str());
        r.append("m");
        r
    } else {
        String::from_str("in <1m")
    }
}

/// How a rate-limit window length is labelled: hour counts below five days,
/// then the named calendar ranges.
pub open spec fn limits_duration_model(minutes: int) -> Seq<char> {
    let days = minutes / 1440;
    if days >= 360 {
        "annual"@
    } else if days >= 25 {
        "monthly"@
    } else if days >= 5 {
        "weekly"@
    } else {
        dec_digits((minutes / 60) as nat) + "h"@
    }
}

/// Labels a rate-limit window length, e.g. `5h` or `weekly`.
pub fn get_limits_duration(minutes: u64) -> (r: String)
    ensures
        r@ == limits_duration_model(minutes as int),
{
    let days = minutes / 1440;
    if days >= 360 {
        String::from_str("annual")
    } else if days >= 25 {
        String::from_str("monthly")
    } else if days >= 5 {
        String::from_str("weekly")
    } else {
        let mut r = u64_to_string(minutes / 60);
        r.append("h");
        r
    }
}

/// The window label: the window's labelled length, or the caller's default
/// when the window length is unknown.
pub open spec fn format_window_duration_model(
    window_minutes: Option<u64>,
    default: Seq<char>,
) -> Seq<char> {
    match window_minutes {
        Option::Some(m) => limits_duration_model(m as int),
        Option::None => default,
    }
}

/// Labels a window, falling back to `default` when its length is unknown.
pub fn format_window_duration(window_minutes: Option<u64>, default: &str) -> (r: String)
    ensures
        r@ == format_window_duration_model(window_minutes, default@),
{
    match window_minutes {
        Option::Some(m) => get_limits_duration(m),
        Option::None => String::from_str(default),
    }
}

/// `value * k / unit`, rounded half-up, computed as the whole multiple of
/// `unit` plus the rounded remainder share: exactly `(value*k + unit/2) / unit`.
pub open spec fn scaled_by(value: int, unit: int, k: int) -> int {
    (value / unit) * k + ((value % unit) * k + unit / 2) / unit
}

/// The digits of a scaled count, each branch rounded once from the exact
/// ratio: two decimals below ten units, one below a hundred, none above,
/// with trailing zeros (and a bare point) dropped.
pub open spec fn scaled_digits(value: int, unit: int) -> Seq<char> {
    if value < 10 * unit {
        let h = scaled_by(value, unit, 100);
        let whole = h / 100;
        let frac = h % 100;
        if frac == 0 {
            dec_digits(whole as nat)
        } else if frac % 10 == 0 {
            dec_digits(whole as nat) + "."@ + dec_digits((frac / 10) as nat)
        } else if frac < 10 {
            dec_digits(whole as nat) + ".0"@ + dec_digits(frac as nat)
        } else {
            dec_digits(whole as nat) + "."@ + dec_digits(frac as nat)
        }
    } else if value < 100 * unit {
        let t = scaled_by(value, unit, 10);
        let whole = t / 10;
        let frac = t % 10;
        if frac == 0 {
            dec_digits(whole as nat)
        } else {
            dec_digits(whole as nat) + "."@ + dec_digits(frac as nat)
        }
    } else {
        dec_digits(scaled_by(value, unit, 1) as nat)
    }
}

/// How a token count is shown: plain below a thousand, otherwise scaled to
/// the largest fitting unit with at most two significant decimals.
pub open spec fn format_tokens_compact_model(value: int) -> Seq<char> {
    if value < 1000 {
        dec_digits(value as nat)
    } else if value >= 1000000000000 {
        scaled_digits(value, 1000000000000) + "T"@
    } else if value >= 1000000000 {
        scaled_digits(value, 1000000000) + "B"@
    } else if value >= 1000000 {
        scaled_digits(value, 1000000) + "M"@
    } else {
        scaled_digits(value, 1000) + "K"@
    }
}

/// Computes [`scaled_by`] on machine integers.
fn scaled_by_exec(value: u64, unit: u64, k: u64) -> (r: u64)
    requires
        1000 <= unit <= 1000000000000,
        value >= unit,
        1 <= k <= 100,
    ensures
        r == scaled_by(value as int, unit as int, k as int),
{
    let whole = value / unit;
    let rem = value % unit;
    proof {
        assert(rem * k + unit / 2 <= u64::MAX as int) by (nonlinear_arith)
            requires
                rem < unit,
                1000 <= unit <= 1000000000000,
                k <= 100,
        ;
        assert(whole * k <= u64::MAX as int / 2) by (nonlinear_arith)
            requires
                whole == value as int / unit as int,
                1000 <= unit,
                value <= u64::MAX,
                k <= 100,
        ;
        assert((rem * k + unit / 2) as int / unit as int <= k) by (nonlinear_arith)
            requires
                rem < unit,
                1000 <= unit,
                k >= 1,
        ;
    }
    whole * k + (rem * k + unit / 2) / unit
}

/// Renders the scaled count, trailing zeros dropped; see [`scaled_digits`].
fn render_scaled(value: u64, unit: u64) -> (r: String)
    requires
        1000 <= unit <= 1000000000000,
        value >= unit,
    ensures
        r@ == scaled_digits(value as int, unit as int),
{
    if value < 10 * unit {
        let h = scaled_by_exec(value, unit, 100);
        let whole = h / 100;
        let frac = h % 100;
        if frac == 0 {
            u64_to_string(whole)
        } else if frac % 10 == 0 {
            let mut r = u64_to_string(whole);
            r.append(".");
            r.append(u64_to_string(frac / 10).as_str());
            r
        } else if frac < 10 {
            let mut r = u64_to_string(whole);
            r.append(".0");
            r.append(u64_to_string(frac).as_str());
            r
        } else {
            let mut r = u64_to_string(whole);
            r.append(".");
            r.append(u64_to_string(frac).as_str());
            r
        }
    } else if value < 100 * unit {
        let t = scaled_by_exec(value, unit, 10);
        let whole = t / 10;
        let frac = t % 10;
        if frac == 0 {
            u64_to_string(whole)
        } else {
            let mut r = u64_to_string(whole);
            r.append(".");
            r.append(u64_to_string(frac).as_str());
            r
        }
    } else {
        u64_to_string(scaled_by_exec(value, unit, 1))
    }
}

/// Renders a token count compactly, e.g. `999`, `1.5K`, `12.3M`, `1T`.
pub fn format_tokens_compact(value: u64) -> (r: String)
    ensures
        r@ == format_tokens_compact_model(value as int),
{
    if value == 0 {
        return u64_to_string(0);
    }
    if value < 1000 {
        return u64_to_string(value);
    }
    if value >= 1000000000000 {
        let mut r = render_scaled(value, 1000000000000);
        r.append("T");
        r
    } else if value >= 1000000000 {
        let mut r = render_scaled(value, 1000000000);
        r.append("B");
        r
    } else if value >= 1000000 {
        let mut r = render_scaled(value, 1000000);
        r.append("M");
        r
    } else {
        let mut r = render_scaled(value, 1000);
        r.append("K");
        r
    }
}

/// A sequence of strings as their character sequences.
pub open spec fn strings_model(v: Seq<String>) -> Seq<Seq<char>> {
    v.map_values(|s: String| s@)
}

/// The items joined by the separator: nothing for none, the item alone for
/// one, separators between neighbours otherwise.
pub open spec fn join_with(items: Seq<Seq<char>>, sep: Seq<char>) -> Seq<char>
    decreases items.len(),
{
    if items.len() == 0 {
        Seq::empty()
    } else if items.len() == 1 {
        items[0]
    } else {
        join_with(items.drop_last(), sep) + sep + items.last()
    }
}

/// Joins the strings with the separator.
fn join_strings(items: &Vec<String>, sep: &str) -> (r: String)
    ensures
        r@ == join_with(strings_model(items@), sep@),
{
    let mut r = String::new();
    let mut i: usize = 0;
    while i < items.len()
        invariant
            i <= items.len(),
            r@ == join_with(strings_model(items@).subrange(0, i as int), sep@),
        decreases items.len() - i,
    {
        if i > 0 {
            r.append(sep);
        }
        r.append(items[i].as_str());
        proof {
            let taken = strings_model(items@).subrange(0, i + 1);
            assert(taken.drop_last() =~~= strings_model(items@).subrange(0, i as int));
            assert(taken.last() == items@[i as int]@);
            if i == 0 {
                assert(r@ =~= join_with(taken, sep@));
            } else {
                assert(r@ =~= join_with(taken, sep@));
            }
        }
        i = i + 1;
    }
    proof {
        assert(strings_model(items@).subrange(0, items@.len() as int) =~~= strings_model(
            items@,
        ));
    }
    r
}

/// The discovered project-doc paths as the resolver of the summary sees
/// them: absent entirely when discovery failed.
pub open spec fn opt_paths_model(paths: Option<&Vec<AbsPath>>) -> Option<Seq<Seq<Seq<char>>>> {
    match paths {
        Option::Some(v) => Option::Some(crate::resolver::paths_model(v@)),
        Option::None => Option::None,
    }
}

/// The agents summary: `<none>` when discovery failed or found nothing,
/// otherwise the displayed paths joined by `, `.
pub open spec fn compose_agents_summary_model(
    paths: Option<Seq<Seq<Seq<char>>>>,
    cwd: Seq<Seq<char>>,
) -> Seq<char> {
    match paths {
        Option::None => "<none>"@,
        Option::Some(ps) => if ps.len() == 0 {
            "<none>"@
        } else {
            join_with(Seq::new(ps.len(), |i: int| agents_path_display(ps[i], cwd)), ", "@)
        },
    }
}

/// Composes the agents summary line from the discovered project-doc paths
/// (absent when discovery failed) and the working directory.
pub fn compose_agents_summary(paths: Option<&Vec<AbsPath>>, cwd: &AbsPath) -> (r: String)
    ensures
        r@ == compose_agents_summary_model(opt_paths_model(paths), cwd@),
{
    let ps = match paths {
        Option::Some(v) => v,
        Option::None => { return String::from_str("<none>") },
    };
    if ps.len() == 0 {
        return String::from_str("<none>");
    }
    let ghost displays = Seq::new(
        crate::resolver::paths_model(ps@).len(),
        |i: int| agents_path_display(crate::resolver::paths_model(ps@)[i], cwd@),
    );
    let mut rels: Vec<String> = Vec::new();
    let mut i: usize = 0;
    while i < ps.len()
        invariant
            i <= ps.len(),
            displays.len() == ps@.len(),
            forall|k: int|
                0 <= k < ps@.len() ==> displays[k] == agents_path_display(
                    #[trigger] crate::resolver::paths_model(ps@)[k],
                    cwd@,
                ),
            strings_model(rels@) =~= displays.subrange(0, i as int),
        decreases ps.len() - i,
    {
        let ghost prev = rels@;
        rels.push(agents_path_display_exec(&ps[i], cwd));
        proof {
            assert(crate::resolver::paths_model(ps@)[i as int] == ps@[i as int]@);
            assert(displays[i as int] == agents_path_display(ps@[i as int]@, cwd@));
            assert(strings_model(prev).len() == prev.len());
            assert(strings_model(prev).len() == i);
            assert(rels@ == prev.push(rels@[i as int]));
            assert(rels@.len() == i + 1);
            assert forall|k: int| 0 <= k < i + 1 implies strings_model(rels@)[k]
                == displays.subrange(0, i + 1)[k] by {
                assert(strings_model(rels@)[k] == rels@[k]@);
                if k < i {
                    assert(rels@[k] == prev[k]);
                    assert(strings_model(prev)[k] == prev[k]@);
                    assert(strings_model(prev)[k] == displays.subrange(0, i as int)[k]);
                } else {
                    assert(rels@[k]@ == displays[i as int]);
                }
            }
            assert(strings_model(rels@) =~= displays.subrange(0, i + 1));
        }
        i = i + 1;
    }
    proof {
        assert(displays.subrange(0, ps@.len() as int) =~= displays);
    }
    join_strings(&rels, ", ")
}

/// The value of the first entry with the given key, if any.
pub open spec fn find_entry(entries: Seq<(String, String)>, key: Seq<char>) -> Option<Seq<char>>
    decreases entries.len(),
{
    if entries.len() == 0 {
        Option::None
    } else if entries.first().0@ == key {
        Option::Some(entries.first().1@)
    } else {
        find_entry(entries.drop_first(), key)
    }
}

proof fn lemma_find_entry_hit(entries: Seq<(String, String)>, key: Seq<char>, i: int)
    requires
        0 <= i < entries.len(),
        entries[i].0@ == key,
        forall|j: int| 0 <= j < i ==> #[trigger] entries[j].0@ != key,
    ensures
        find_entry(entries, key) == Option::Some(entries[i].1@),
    decreases i,
{
    if i == 0 {
    } else {
        assert(entries[0].0@ != key);
        let rest = entries.drop_first();
        assert(rest[i - 1] == entries[i]);
        assert(forall|j: int| 0 <= j < i - 1 ==> #[trigger] rest[j].0@ != key);
        lemma_find_entry_hit(rest, key, i - 1);
    }
}

proof fn lemma_find_entry_miss(entries: Seq<(String, String)>, key: Seq<char>)
    requires
        forall|j: int| 0 <= j < entries.len() ==> #[trigger] entries[j].0@ != key,
    ensures
        find_entry(entries, key) is None,
    decreases entries.len(),
{
    if entries.len() > 0 {
        let rest = entries.drop_first();
        assert(forall|j: int| 0 <= j < rest.len() ==> #[trigger] rest[j].0@ != key);
        lemma_find_entry_miss(rest, key);
    }
}

/// Finds the value of the first entry with the given key.
fn find_entry_exec(entries: &Vec<(String, String)>, key: &str) -> (r: Option<String>)
    ensures
        match r {
            Option::Some(v) => find_entry(entries@, key@) == Option::Some(v@),
            Option::None => find_entry(entries@, key@) is None,
        },
{
    let mut i: usize = 0;
    while i < entries.len()
        invariant
            i <= entries.len(),
            forall|j: int| 0 <= j < i ==> #[trigger] entries@[j].0@ != key@,
        decreases entries.len() - i,
    {
        if str_eq(entries[i].0.as_str(), key) {
            proof {
                lemma_find_entry_hit(entries@, key@, i as int);
            }
            return Option::Some(entries[i].1.clone());
        }
        i = i + 1;
    }
    proof {
        lemma_find_entry_miss(entries@, key@);
    }
    Option::None
}

/// The detail lines of the model display: the reasoning effort, lowered,
/// and the reasoning-summaries setting — `summaries off` when it reads
/// `none` or `off` (ignoring case and surrounding space), nothing when
/// blank, its lowered text otherwise.
pub open spec fn model_details(entries: Seq<(String, String)>) -> Seq<Seq<char>> {
    (match find_entry(entries, "reasoning effort"@) {
        Option::Some(e) => seq!["reasoning "@ + lower_seq(e)],
        Option::None => Seq::empty(),
    }) + (match find_entry(entries, "reasoning summaries"@) {
        Option::Some(s0) => {
            let t = trim_model(s0);
            if lower_seq(t) == lower_seq("none"@) || lower_seq(t) == lower_seq("off"@) {
                seq!["summaries off"@]
            } else if t.len() > 0 {
                seq!["summaries "@ + lower_seq(t)]
            } else {
                Seq::empty()
            }
        },
        Option::None => Seq::empty(),
    })
}

/// Composes the model display: the model name, with detail lines derived
/// from the reasoning entries; see [`model_details`].
pub fn compose_model_display(model: &String, entries: &Vec<(String, String)>) -> (r: (
    String,
    Vec<String>,
))
    ensures
        r.0@ == model@,
        strings_model(r.1@) == model_details(entries@),
{
    let mut details: Vec<String> = Vec::new();
    if let Option::Some(effort) = find_entry_exec(entries, "reasoning effort") {
        let mut d = String::from_str("reasoning ");
        d.append(ascii_lowercase(effort.as_str()).as_str());
        details.push(d);
    }
    let ghost after_effort = strings_model(details@);
    if let Option::Some(summary0) = find_entry_exec(entries, "reasoning summaries") {
        let summary = trim_ascii(summary0.as_str());
        let lowered = ascii_lowercase(summary.as_str());
        let is_none = str_eq(lowered.as_str(), "none");
        let is_off = str_eq(lowered.as_str(), "off");
        proof {
            reveal_strlit("none");
            reveal_strlit("off");
            assert(lower_seq("none"@) =~= "none"@);
            assert(lower_seq("off"@) =~= "off"@);
        }
        if is_none || is_off {
            details.push(String::from_str("summaries off"));
        } else if summary.as_str().unicode_len() > 0 {
            let mut d = String::from_str("summaries ");
            d.append(lowered.as_str());
            details.push(d);
        }
    }
    proof {
        assert(strings_model(details@) =~~= model_details(entries@));
    }
    (model.clone(), details)
}

/// What the status view knows about the signed-in account's tokens.
pub struct AccountTokens {
    pub email: Option<String>,
    pub chatgpt_plan_type: Option<String>,
}

/// The stored credentials, as read from the auth store.
pub struct AuthAccountInfo {
    pub tokens: Option<AccountTokens>,
    pub openai_api_key: Option<String>,
}

/// How the account is shown: a signed-in account with its email and plan,
/// or a bare API key.
pub enum StatusAccountDisplay {
    ChatGpt { email: Option<String>, plan: Option<String> },
    ApiKey,
}

/// An optional string as an optional character sequence.
pub open spec fn opt_string_model(s: Option<String>) -> Option<Seq<char>> {
    match s {
        Option::Some(v) => Option::Some(v@),
        Option::None => Option::None,
    }
}

/// Composes the account display: tokens win over an API key; a missing or
/// unreadable auth store, or an empty key, shows nothing. The plan name is
/// title-cased.
pub fn compose_account_display(auth: Option<&AuthAccountInfo>) -> (r: Option<
    StatusAccountDisplay,
>)
    ensures
        match auth {
            Option::None => r is None,
            Option::Some(a) => match a.tokens {
                Option::Some(t) => r matches Option::Some(
                    StatusAccountDisplay::ChatGpt { email, plan },
                ) && opt_string_model(email) == opt_string_model(t.email) && (match (
                    plan,
                    t.chatgpt_plan_type,
                ) {
                    (Option::Some(p), Option::Some(orig)) => p@ == title_case_model(orig@),
                    (Option::None, Option::None) => true,
                    _ => false,
                }),
                Option::None => match a.openai_api_key {
                    Option::Some(k) => if k@.len() > 0 {
                        r == Option::Some(StatusAccountDisplay::ApiKey)
                    } else {
                        r is None
                    },
                    Option::None => r is None,
                },
            },
        },
{
    let a = match auth {
        Option::Some(a) => a,
        Option::None => { return Option::None },
    };
    if let Option::Some(t) = &a.tokens {
        let email = match &t.email {
            Option::Some(e) => Option::Some(e.clone()),
            Option::None => Option::None,
        };
        let plan = match &t.chatgpt_plan_type {
            Option::Some(p) => Option::Some(title_case(p.as_str())),
            Option::None => Option::None,
        };
        return Option::Some(StatusAccountDisplay::ChatGpt { email, plan });
    }
    match &a.openai_api_key {
        Option::Some(k) => {
            if k.as_str().unicode_len() > 0 {
                Option::Some(StatusAccountDisplay::ApiKey)
            } else {
                Option::None
            }
        },
        Option::None => Option::None,
    }
}

} // verus!
