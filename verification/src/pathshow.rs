//! Path display: rendering component paths as text, and the relative form
//! the agents summary uses for paths near the working directory.

use vstd::prelude::*;

use crate::policy::{is_path_prefix, AbsPath};
use crate::policy::path_starts_with;

verus! {

/// The components joined by separators, without a leading separator:
/// `a/b/c`; empty for no components.
pub open spec fn rel_path_display(parts: Seq<Seq<char>>) -> Seq<char>
    decreases parts.len(),
{
    if parts.len() == 0 {
        Seq::empty()
    } else if parts.len() == 1 {
        parts[0]
    } else {
        rel_path_display(parts.drop_last()) + "/"@ + parts.last()
    }
}

/// The absolute rendering: a separator before every component, `/` for the
/// root itself.
pub open spec fn abs_path_display(parts: Seq<Seq<char>>) -> Seq<char>
    decreases parts.len(),
{
    if parts.len() == 0 {
        "/"@
    } else if parts.len() == 1 {
        "/"@ + parts[0]
    } else {
        abs_path_display(parts.drop_last()) + "/"@ + parts.last()
    }
}

/// `n` repetitions of the parent-directory step `../`.
pub open spec fn ups_prefix(n: nat) -> Seq<char>
    decreases n,
{
    if n == 0 {
        Seq::empty()
    } else {
        ups_prefix((n - 1) as nat) + "../"@
    }
}

/// Relies on dunce::simplified: on non-Windows targets it returns its
/// argument unchanged, so the displayed text is the input text.
#[verifier::external_body]
fn simplified_display(s: &str) -> (r: String)
    ensures
        r@ == s@,
{
    dunce::simplified(std::path::Path::new(s)).to_string_lossy().into_owned()
}

/// Renders the path for the agents summary, relative (`a/b`) or rooted
/// (`/a/b`), passing the text through the platform path simplifier.
pub fn normalize_agents_display_path(path: &AbsPath, rooted: bool) -> (r: String)
    ensures
        rooted ==> r@ == abs_path_display(path@),
        !rooted ==> r@ == rel_path_display(path@),
{
    let mut s = String::new();
    let mut i: usize = 0;
    while i < path.parts.len()
        invariant
            i <= path.parts.len(),
            rooted ==> (i > 0 ==> s@ == abs_path_display(path@.subrange(0, i as int))) && (i == 0
                ==> s@ == Seq::<char>::empty()),
            !rooted ==> s@ == rel_path_display(path@.subrange(0, i as int)),
        decreases path.parts.len() - i,
    {
        if i > 0 || rooted {
            s.append("/");
        }
        s.append(path.parts[i].as_str());
        proof {
            let taken = path@.subrange(0, i + 1);
            assert(taken.drop_last() =~~= path@.subrange(0, i as int));
            assert(taken.last() == path@[i as int]);
            if rooted {
                assert(s@ =~= abs_path_display(taken));
            } else {
                assert(s@ =~= rel_path_display(taken));
            }
        }
        i = i + 1;
    }
    if rooted && path.parts.len() == 0 {
        s.append("/");
    }
    proof {
        assert(path@.subrange(0, path@.len() as int) =~~= path@);
        if rooted && path@.len() == 0 {
            assert(s@ =~= abs_path_display(path@));
        }
    }
    simplified_display(s.as_str())
}

/// How one project-doc path is shown: the bare file name directly in the
/// working directory, an `../` chain when its directory is an ancestor of
/// the working directory, the path relative to the working directory when
/// below it, and the absolute path otherwise.
pub open spec fn agents_path_display(p: Seq<Seq<char>>, cwd: Seq<Seq<char>>) -> Seq<char> {
    if p.len() == 0 {
        abs_path_display(p)
    } else {
        let parent = p.drop_last();
        let name = p.last();
        if parent == cwd {
            name
        } else if 1 <= parent.len() && parent.len() <= cwd.len() && parent == cwd.subrange(
            0,
            parent.len() as int,
        ) {
            ups_prefix((cwd.len() - parent.len()) as nat) + name
        } else if is_path_prefix(cwd, p) {
            rel_path_display(p.subrange(cwd.len() as int, p.len() as int))
        } else {
            abs_path_display(p)
        }
    }
}

/// Whether the first `m` components of the two paths agree.
fn components_match(p: &AbsPath, cwd: &AbsPath, m: usize) -> (r: bool)
    requires
        m <= p@.len(),
        m <= cwd@.len(),
    ensures
        r == (forall|k: int| 0 <= k < m ==> p@[k] == cwd@[k]),
{
    let mut j: usize = 0;
    while j < m
        invariant
            j <= m <= p@.len(),
            m <= cwd@.len(),
            forall|k: int| 0 <= k < j ==> p@[k] == cwd@[k],
        decreases m - j,
    {
        if !p.parts[j].eq(&cwd.parts[j]) {
            proof {
                assert(p@[j as int] == p.parts@[j as int]@);
                assert(cwd@[j as int] == cwd.parts@[j as int]@);
                assert(p@[j as int] != cwd@[j as int]);
            }
            return false;
        }
        j = j + 1;
    }
    true
}

/// Renders one project-doc path; see [`agents_path_display`].
pub fn agents_path_display_exec(p: &AbsPath, cwd: &AbsPath) -> (r: String)
    ensures
        r@ == agents_path_display(p@, cwd@),
{
    let n = p.parts.len();
    if n == 0 {
        return normalize_agents_display_path(p, true);
    }
    // Does the parent of `p` equal a prefix of the working directory?
    let parent_is_prefix_of_cwd = n - 1 <= cwd.parts.len() && components_match(p, cwd, n - 1);
    proof {
        if parent_is_prefix_of_cwd {
            assert forall|k: int| 0 <= k < n - 1 implies p@.drop_last()[k] == cwd@.subrange(
                0,
                (n - 1) as int,
            )[k] by {
                assert(p@.drop_last()[k] == p@[k]);
                assert(cwd@.subrange(0, (n - 1) as int)[k] == cwd@[k]);
            }
            assert(p@.drop_last() =~~= cwd@.subrange(0, (n - 1) as int));
        } else {
            if n - 1 <= cwd@.len() && p@.drop_last() == cwd@.subrange(0, (n - 1) as int) {
                let k = choose|k: int| 0 <= k < n - 1 && p@[k] != cwd@[k];
                assert(p@.drop_last()[k] == p@[k]);
                assert(cwd@.subrange(0, (n - 1) as int)[k] == cwd@[k]);
            }
        }
    }
    if parent_is_prefix_of_cwd && n - 1 == cwd.parts.len() {
        // Directly in the working directory: the bare file name.
        return p.parts[n - 1].clone();
    }
    if parent_is_prefix_of_cwd && n - 1 >= 1 {
        // The parent is a proper ancestor: climb with `../` steps.
        let ups = cwd.parts.len() - (n - 1);
        let mut s = String::new();
        let mut i: usize = 0;
        while i < ups
            invariant
                i <= ups,
                s@ == ups_prefix(i as nat),
            decreases ups - i,
        {
            s.append("../");
            i = i + 1;
        }
        s.append(p.parts[n - 1].as_str());
        proof {
            assert(p@.drop_last() == cwd@.subrange(0, (n - 1) as int));
            assert(s@ == ups_prefix((cwd@.len() - (n - 1)) as nat) + p@.last());
        }
        return s;
    }
    if path_starts_with(cwd, p) {
        // Below the working directory: show the remainder.
        let mut tail: Vec<String> = Vec::new();
        let mut i: usize = cwd.parts.len();
        while i < n
            invariant
                cwd@.len() <= i <= n,
                n == p@.len(),
                tail@.len() == i - cwd@.len(),
                forall|k: int| 0 <= k < tail@.len() ==> tail@[k]@ == p@[cwd@.len() + k],
            decreases n - i,
        {
            tail.push(p.parts[i].clone());
            i = i + 1;
        }
        let tail_path = AbsPath { parts: tail };
        proof {
            assert(tail_path@ =~~= p@.subrange(cwd@.len() as int, p@.len() as int));
        }
        return normalize_agents_display_path(&tail_path, false);
    }
    normalize_agents_display_path(p, true)
}

/// What UnicodeWidthChar::width returns for one character: its display
/// width in columns, or nothing for a control character.
pub uninterp spec fn char_width_of(c: char) -> Option<usize>;

/// What UnicodeWidthStr::width returns for a string: its display width in
/// columns, a function of its characters alone.
pub uninterp spec fn str_display_width(s: Seq<char>) -> usize;

/// Relies on UnicodeWidthChar::width: the display width of one character,
/// a function of the character alone. The horizontal ellipsis is East
/// Asian Ambiguous, which these non-CJK tables count as one column.
#[verifier::external_body]
fn char_width(c: char) -> (r: Option<usize>)
    ensures
        r == char_width_of(c),
        c == '\u{2026}' ==> r == Option::Some(1usize),
{
    unicode_width::UnicodeWidthChar::width(c)
}

/// Relies on UnicodeWidthStr::width: the display width of the string, a
/// function of its characters alone.
#[verifier::external_body]
fn str_width(s: &str) -> (r: usize)
    ensures
        r == str_display_width(s@),
{
    unicode_width::UnicodeWidthStr::width(s)
}

/// The columns one character occupies when counted on its own: its width,
/// control characters counting zero.
pub open spec fn char_cell_width(c: char) -> int {
    match char_width_of(c) {
        Option::Some(w) => w as int,
        Option::None => 0,
    }
}

/// The columns a character sequence occupies when counted character by
/// character.
pub open spec fn seq_cell_width(s: Seq<char>) -> int
    decreases s.len(),
{
    if s.len() == 0 {
        0
    } else {
        seq_cell_width(s.drop_last()) + char_cell_width(s.last())
    }
}

proof fn lemma_seq_cell_width_take(s: Seq<char>, i: int)
    requires
        0 <= i < s.len(),
    ensures
        seq_cell_width(s.subrange(0, i + 1)) == seq_cell_width(s.subrange(0, i))
            + char_cell_width(s[i]),
{
    let t = s.subrange(0, i + 1);
    assert(t.drop_last() =~= s.subrange(0, i));
    assert(t.last() == s[i]);
}

proof fn lemma_seq_cell_width_drop(s: Seq<char>, b: int)
    requires
        0 < b <= s.len(),
    ensures
        seq_cell_width(s.subrange(b - 1, s.len() as int)) == char_cell_width(s[b - 1])
            + (seq_cell_width(s.subrange(b, s.len() as int))),
    decreases s.len() - b,
{
    let t = s.subrange(b - 1, s.len() as int);
    if b == s.len() {
        assert(t.drop_last() =~= s.subrange(b, s.len() as int));
        assert(s.subrange(b, s.len() as int) =~= Seq::<char>::empty());
        assert(t =~= seq![s[b - 1]]);
        assert(t.drop_last() =~= Seq::<char>::empty());
        assert(t.drop_last().len() == 0);
        assert(seq_cell_width(t.drop_last()) == 0);
        assert(t.last() == s[b - 1]);
        assert(seq_cell_width(t) == seq_cell_width(t.drop_last()) + char_cell_width(t.last()));
        assert(seq_cell_width(t) == char_cell_width(s[b - 1]));
    } else {
        lemma_seq_cell_width_drop(s, b + 1);
        let u = s.subrange(b, s.len() as int);
        assert(t.drop_last() =~= s.subrange(b - 1, s.len() - 1));
        assert(u.drop_last() =~= s.subrange(b, s.len() - 1));
        lemma_seq_cell_width_drop(s.subrange(0, s.len() - 1), b);
        assert(s.subrange(0, s.len() - 1).subrange(b - 1, s.len() - 1) =~= s.subrange(
            b - 1,
            s.len() - 1,
        ));
        assert(s.subrange(0, s.len() - 1).subrange(b, s.len() - 1) =~= s.subrange(
            b,
            s.len() - 1,
        ));
        assert(t.last() == s.last());
        assert(u.last() == s.last());
        assert(seq_cell_width(t) == seq_cell_width(s.subrange(b - 1, s.len() - 1))
            + char_cell_width(s.last()));
        assert(seq_cell_width(u) == seq_cell_width(s.subrange(b, s.len() - 1))
            + char_cell_width(s.last()));
        assert(s.subrange(0, s.len() - 1)[b - 1] == s[b - 1]);
    }
}

/// Per-character widths add over concatenation.
proof fn lemma_seq_cell_width_concat(a: Seq<char>, b: Seq<char>)
    ensures
        seq_cell_width(a + b) == seq_cell_width(a) + seq_cell_width(b),
    decreases b.len(),
{
    if b.len() == 0 {
        assert(a + b =~= a);
    } else {
        lemma_seq_cell_width_concat(a, b.drop_last());
        assert((a + b).drop_last() =~= a + b.drop_last());
        assert((a + b).last() == b.last());
    }
}

/// Shortens a path for display by keeping its start and end around an
/// ellipsis: the longest prefix fitting half the remaining columns, then
/// the longest suffix fitting what is left of them.
pub fn center_truncate_path(s: &str, max_width: usize) -> (r: String)
    requires
        max_width >= 1,
    ensures
        seq_cell_width(r@) <= max_width,
        exists|a: int, b: int|
            #![trigger seq_cell_width(s@.subrange(0, a)), seq_cell_width(s@.subrange(b, s@.len() as int))]
            {
                let fb = (max_width - 1) / 2;
                let front = seq_cell_width(s@.subrange(0, a));
                let back = seq_cell_width(s@.subrange(b, s@.len() as int));
                &&& 0 <= a <= b <= s@.len()
                &&& r@ == s@.subrange(0, a) + "\u{2026}"@ + s@.subrange(b, s@.len() as int)
                &&& front + back <= max_width - 1
                &&& front <= fb
                &&& (a == s@.len() || seq_cell_width(s@.subrange(0, a + 1)) > fb)
                &&& (b == a || seq_cell_width(s@.subrange(b - 1, s@.len() as int)) > max_width
                    - 1 - front)
            },
{
    let n = s.unicode_len();
    let ellipsis_width = char_width('\u{2026}');
    proof {
        assert(ellipsis_width == Option::Some(1usize));
        assert(char_cell_width('\u{2026}') == 1);
    }
    let front_budget = (max_width - 1) / 2;
    let mut a: usize = 0;
    let mut front: usize = 0;
    let mut stopped = false;
    while !stopped && a < n
        invariant
            0 <= a <= n,
            n == s@.len(),
            front == seq_cell_width(s@.subrange(0, a as int)),
            front <= front_budget <= max_width,
            stopped ==> a < n && seq_cell_width(s@.subrange(0, a + 1)) > front_budget,
        decreases n - a + (if stopped {
            0int
        } else {
            1int
        }),
    {
        let cw = match char_width(s.get_char(a)) {
            Option::Some(w) => w,
            Option::None => 0,
        };
        if cw <= front_budget - front {
            proof {
                lemma_seq_cell_width_take(s@, a as int);
            }
            front = front + cw;
            a = a + 1;
        } else {
            proof {
                lemma_seq_cell_width_take(s@, a as int);
            }
            stopped = true;
        }
    }
    let back_budget = max_width - 1 - front;
    let mut b: usize = n;
    let mut back: usize = 0;
    let mut stopped_back = false;
    while !stopped_back && b > a
        invariant
            a <= b <= n,
            n == s@.len(),
            back == seq_cell_width(s@.subrange(b as int, n as int)),
            back <= back_budget <= max_width,
            stopped_back ==> b > a && seq_cell_width(s@.subrange(b - 1, n as int))
                > back_budget,
        decreases b - a + (if stopped_back {
            0int
        } else {
            1int
        }),
    {
        let cw = match char_width(s.get_char(b - 1)) {
            Option::Some(w) => w,
            Option::None => 0,
        };
        if cw <= back_budget - back {
            proof {
                lemma_seq_cell_width_drop(s@, b as int);
            }
            back = back + cw;
            b = b - 1;
        } else {
            proof {
                lemma_seq_cell_width_drop(s@, b as int);
            }
            stopped_back = true;
        }
    }
    let mut r = String::from_str(s.substring_char(0, a));
    r.append("\u{2026}");
    r.append(s.substring_char(b, n));
    proof {
        let fb = (max_width - 1) as int / 2;
        assert(front + back <= max_width - 1);
        assert(r@ == s@.subrange(0, a as int) + "\u{2026}"@ + s@.subrange(b as int, n as int));
        assert(a == s@.len() || seq_cell_width(s@.subrange(0, a + 1)) > fb) by {
            if !(a == n) {
                assert(stopped);
            }
        }
        assert(b == a || seq_cell_width(s@.subrange(b - 1, s@.len() as int)) > max_width - 1
            - front) by {
            if b != a {
                assert(stopped_back);
            }
        }
        // The whole result's per-character width: the two kept pieces plus
        // the ellipsis.
        lemma_seq_cell_width_concat(s@.subrange(0, a as int), "\u{2026}"@);
        lemma_seq_cell_width_concat(
            s@.subrange(0, a as int) + "\u{2026}"@,
            s@.subrange(b as int, n as int),
        );
        reveal_strlit("\u{2026}");
        assert("\u{2026}"@ =~= seq!['\u{2026}']);
        assert(seq!['\u{2026}'].len() == 1);
        assert(seq!['\u{2026}'].last() == '\u{2026}');
        assert(seq!['\u{2026}'].drop_last() =~= Seq::<char>::empty());
        assert(seq!['\u{2026}'].drop_last().len() == 0);
        assert(seq_cell_width(seq!['\u{2026}'].drop_last()) == 0);
        assert(seq_cell_width(seq!['\u{2026}']) == char_cell_width('\u{2026}'));
        assert(seq_cell_width("\u{2026}"@) == char_cell_width('\u{2026}'));
    }
    r
}

/// How a directory is shown: under the home directory as `~` or `~/rest`,
/// otherwise as the absolute path.
pub open spec fn dir_display_model(dir: Seq<Seq<char>>, home: Option<Seq<Seq<char>>>) -> Seq<
    char,
> {
    match home {
        Option::Some(h) => if is_path_prefix(h, dir) {
            if dir.len() == h.len() {
                "~"@
            } else {
                "~/"@ + rel_path_display(dir.subrange(h.len() as int, dir.len() as int))
            }
        } else {
            abs_path_display(dir)
        },
        Option::None => abs_path_display(dir),
    }
}

/// The home directory as the display sees it, when known.
pub open spec fn opt_home_model(home: Option<&AbsPath>) -> Option<Seq<Seq<char>>> {
    match home {
        Option::Some(h) => Option::Some(h@),
        Option::None => Option::None,
    }
}

/// Renders a directory for the status line: home-relative when possible,
/// cleared at width zero, and center-truncated with an ellipsis when wider
/// than the given limit.
pub fn format_directory_display(
    directory: &AbsPath,
    home: Option<&AbsPath>,
    max_width: Option<usize>,
) -> (r: String)
    ensures
        ({
            let shown = dir_display_model(directory@, opt_home_model(home));
            match max_width {
                Option::None => r@ == shown,
                Option::Some(w) => {
                    &&& (w == 0 ==> r@ == Seq::<char>::empty())
                    &&& (w > 0 && str_display_width(shown) <= w ==> r@ == shown)
                    &&& (w > 0 && str_display_width(shown) > w ==> seq_cell_width(r@) <= w)
                    &&& (w > 0 && str_display_width(shown) > w ==> (exists|a: int, b: int|
                        #![trigger seq_cell_width(shown.subrange(0, a)), seq_cell_width(shown.subrange(b, shown.len() as int))]
                        {
                            &&& 0 <= a <= b <= shown.len()
                            &&& r@ == shown.subrange(0, a) + "\u{2026}"@ + shown.subrange(
                                b,
                                shown.len() as int,
                            )
                            &&& seq_cell_width(shown.subrange(0, a)) + seq_cell_width(
                                shown.subrange(b, shown.len() as int),
                            ) <= w - 1
                        }))
                },
            }
        }),
{
    let formatted: String = match home {
        Option::Some(h) => {
            if crate::policy::path_starts_with(h, directory) {
                if directory.parts.len() == h.parts.len() {
                    String::from_str("~")
                } else {
                    let mut tail: Vec<String> = Vec::new();
                    let mut i: usize = h.parts.len();
                    while i < directory.parts.len()
                        invariant
                            h@.len() <= i <= directory@.len(),
                            tail@.len() == i - h@.len(),
                            forall|k: int|
                                0 <= k < tail@.len() ==> tail@[k]@ == directory@[h@.len() + k],
                        decreases directory.parts.len() - i,
                    {
                        tail.push(directory.parts[i].clone());
                        i = i + 1;
                    }
                    let tail_path = AbsPath { parts: tail };
                    proof {
                        assert(tail_path@ =~~= directory@.subrange(
                            h@.len() as int,
                            directory@.len() as int,
                        ));
                    }
                    let mut t = String::from_str("~/");
                    t.append(normalize_agents_display_path(&tail_path, false).as_str());
                    t
                }
            } else {
                normalize_agents_display_path(directory, true)
            }
        },
        Option::None => normalize_agents_display_path(directory, true),
    };
    match max_width {
        Option::Some(w) => {
            if w == 0 {
                let empty = String::new();
                proof {
                    assert(empty@ =~= Seq::<char>::empty());
                }
                empty
            } else if str_width(formatted.as_str()) > w {
                center_truncate_path(formatted.as_str(), w)
            } else {
                formatted
            }
        },
        Option::None => formatted,
    }
}

} // verus!
