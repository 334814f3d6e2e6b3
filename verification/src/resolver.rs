//! The rule resolver: a pure, deterministic translation of a policy and a
//! working directory into the concrete filesystem regions and the network
//! flag that the kernel appliers program.

use vstd::prelude::*;

use crate::policy::path_eq;
use crate::policy::{AbsPath, SandboxPolicy};

verus! {

/// The concrete, deterministic rule set derived from one policy.
pub struct ResolvedRules {
    /// Roots below which writes are permitted.
    pub writable: Vec<AbsPath>,
    /// Reserved subtrees that stay read-only although an ancestor is
    /// writable; a more specific deny overrides a broader allow.
    pub reserved_readonly: Vec<AbsPath>,
    pub network_allowed: bool,
}

/// The mathematical value of a rule set: each path a component sequence.
pub struct RulesModel {
    pub writable: Seq<Seq<Seq<char>>>,
    pub reserved_readonly: Seq<Seq<Seq<char>>>,
    pub network_allowed: bool,
}

impl View for ResolvedRules {
    type V = RulesModel;

    open spec fn view(&self) -> RulesModel {
        RulesModel {
            writable: paths_model(self.writable@),
            reserved_readonly: paths_model(self.reserved_readonly@),
            network_allowed: self.network_allowed,
        }
    }
}

/// The `.git` directory name.
pub open spec fn git_component() -> Seq<char> {
    ".git"@
}

/// The `.codex` directory name.
pub open spec fn codex_component() -> Seq<char> {
    ".codex"@
}

/// The system temp directory `/tmp`.
pub open spec fn slash_tmp_path() -> Seq<Seq<char>> {
    seq!["tmp"@]
}

/// The null device `/dev/null`.
pub open spec fn dev_null_path() -> Seq<Seq<char>> {
    seq!["dev"@, "null"@]
}

/// The writable roots named by the policy itself.
pub open spec fn policy_roots(policy: SandboxPolicy) -> Seq<Seq<Seq<char>>> {
    match policy {
        SandboxPolicy::ReadOnly => Seq::empty(),
        SandboxPolicy::WorkspaceWrite { writable_roots, .. } => writable_roots@.map_values(
            |p: AbsPath| p@,
        ),
    }
}

/// Every root granted before the tmp exclusions: the policy's roots, the
/// working directory, and the temp directories unless the policy excludes
/// them.
pub open spec fn granted_roots(
    policy: SandboxPolicy,
    cwd: Seq<Seq<char>>,
    tmpdir: Option<Seq<Seq<char>>>,
) -> Seq<Seq<Seq<char>>> {
    match policy {
        SandboxPolicy::ReadOnly => Seq::empty(),
        SandboxPolicy::WorkspaceWrite { exclude_tmpdir_env_var, exclude_slash_tmp, .. } => {
            policy_roots(policy) + seq![cwd] + (if !exclude_slash_tmp {
                seq![slash_tmp_path()]
            } else {
                Seq::empty()
            }) + (match tmpdir {
                Option::Some(t) if !exclude_tmpdir_env_var => seq![t],
                _ => Seq::empty(),
            })
        },
    }
}

/// The tmp paths that the policy orders removed from the writable set.
pub open spec fn excluded_tmp_paths(
    policy: SandboxPolicy,
    tmpdir: Option<Seq<Seq<char>>>,
) -> Seq<Seq<Seq<char>>> {
    match policy {
        SandboxPolicy::ReadOnly => Seq::empty(),
        SandboxPolicy::WorkspaceWrite { exclude_tmpdir_env_var, exclude_slash_tmp, .. } => {
            (if exclude_slash_tmp {
                seq![slash_tmp_path()]
            } else {
                Seq::empty()
            }) + (match tmpdir {
                Option::Some(t) if exclude_tmpdir_env_var => seq![t],
                _ => Seq::empty(),
            })
        },
    }
}

/// `paths` with every entry equal to a member of `removed` taken out,
/// keeping the order of the rest.
pub open spec fn remove_paths(
    paths: Seq<Seq<Seq<char>>>,
    removed: Seq<Seq<Seq<char>>>,
) -> Seq<Seq<Seq<char>>>
    decreases paths.len(),
{
    if paths.len() == 0 {
        Seq::empty()
    } else {
        remove_paths(paths.drop_last(), removed) + (if removed.contains(paths.last()) {
            Seq::empty()
        } else {
            seq![paths.last()]
        })
    }
}

/// The reserved read-only subtrees of a writable set: the `.git` and
/// `.codex` children of each writable root.
pub open spec fn reserved_of(writable: Seq<Seq<Seq<char>>>) -> Seq<Seq<Seq<char>>>
    decreases writable.len(),
{
    if writable.len() == 0 {
        Seq::empty()
    } else {
        reserved_of(writable.drop_last()) + seq![
            writable.last().push(git_component()),
            writable.last().push(codex_component()),
        ]
    }
}

/// A sequence of paths as their component sequences.
pub open spec fn paths_model(v: Seq<AbsPath>) -> Seq<Seq<Seq<char>>> {
    v.map_values(|p: AbsPath| p@)
}

/// The environment as the resolver reads it: the value of `TMPDIR`, if set.
pub open spec fn opt_path_model(t: Option<&AbsPath>) -> Option<Seq<Seq<char>>> {
    match t {
        Option::Some(p) => Option::Some(p@),
        Option::None => Option::None,
    }
}

/// What the resolver computes, as a function of its three inputs alone.
pub open spec fn resolved_rules_model(
    policy: SandboxPolicy,
    cwd: Seq<Seq<char>>,
    tmpdir: Option<Seq<Seq<char>>>,
) -> RulesModel {
    let granted = granted_roots(policy, cwd, tmpdir);
    let kept = remove_paths(granted, excluded_tmp_paths(policy, tmpdir));
    let reserved = reserved_of(kept);
    RulesModel {
        writable: remove_paths(kept, reserved),
        reserved_readonly: reserved,
        network_allowed: policy.spec_network_access(),
    }
}

/// Whether some entry of `v` names the same path as `p`.
pub fn contains_path(v: &Vec<AbsPath>, p: &AbsPath) -> (r: bool)
    ensures
        r == paths_model(v@).contains(p@),
{
    let mut i: usize = 0;
    while i < v.len()
        invariant
            i <= v.len(),
            forall|j: int| 0 <= j < i ==> paths_model(v@)[j] != p@,
        decreases v.len() - i,
    {
        if path_eq(&v[i], p) {
            proof {
                assert(paths_model(v@)[i as int] == p@);
            }
            return true;
        }
        i = i + 1;
    }
    proof {
        assert forall|j: int| 0 <= j < paths_model(v@).len() implies paths_model(v@)[j]
            != p@ by {}
    }
    false
}

proof fn lemma_remove_paths_push(
    paths: Seq<Seq<Seq<char>>>,
    removed: Seq<Seq<Seq<char>>>,
    x: Seq<Seq<char>>,
)
    ensures
        remove_paths(paths.push(x), removed) == remove_paths(paths, removed) + (
        if removed.contains(x) {
            Seq::<Seq<Seq<char>>>::empty()
        } else {
            seq![x]
        }),
{
    assert(paths.push(x).drop_last() =~~= paths);
    assert(paths.push(x).last() == x);
}

proof fn lemma_reserved_of_push(writable: Seq<Seq<Seq<char>>>, x: Seq<Seq<char>>)
    ensures
        reserved_of(writable.push(x)) == reserved_of(writable) + seq![
            x.push(git_component()),
            x.push(codex_component()),
        ],
{
    assert(writable.push(x).drop_last() =~~= writable);
    assert(writable.push(x).last() == x);
}

/// Membership in a concatenation is membership in either part.
pub proof fn lemma_concat_contains<T>(a: Seq<T>, b: Seq<T>, x: T)
    ensures
        (a + b).contains(x) <==> (a.contains(x) || b.contains(x)),
{
    if a.contains(x) {
        let i = choose|i: int| 0 <= i < a.len() && a[i] == x;
        assert((a + b)[i] == x);
    }
    if b.contains(x) {
        let i = choose|i: int| 0 <= i < b.len() && b[i] == x;
        assert((a + b)[a.len() + i] == x);
    }
    if (a + b).contains(x) {
        let i = choose|i: int| 0 <= i < (a + b).len() && (a + b)[i] == x;
        if i < a.len() {
            assert(a[i] == x);
        } else {
            assert(b[i - a.len()] == x);
        }
    }
}

/// A path survives the removal exactly when it was present and not removed.
pub proof fn lemma_remove_paths_contains(
    paths: Seq<Seq<Seq<char>>>,
    removed: Seq<Seq<Seq<char>>>,
    p: Seq<Seq<char>>,
)
    ensures
        remove_paths(paths, removed).contains(p) <==> (paths.contains(p) && !removed.contains(
            p,
        )),
    decreases paths.len(),
{
    if paths.len() == 0 {
    } else {
        lemma_remove_paths_contains(paths.drop_last(), removed, p);
        let tail = if removed.contains(paths.last()) {
            Seq::<Seq<Seq<char>>>::empty()
        } else {
            seq![paths.last()]
        };
        lemma_concat_contains(remove_paths(paths.drop_last(), removed), tail, p);
        assert(paths =~~= paths.drop_last() + seq![paths.last()]);
        lemma_concat_contains(paths.drop_last(), seq![paths.last()], p);
        if tail.contains(p) {
            assert(tail[0] == p);
        }
        if seq![paths.last()].contains(p) {
            assert(seq![paths.last()][0] == p);
        }
        if p == paths.last() {
            assert(seq![paths.last()].contains(p)) by {
                assert(seq![paths.last()][0] == p);
            }
        }
    }
}

/// The reserved set holds exactly the `.git` and `.codex` children of the
/// writable roots.
pub proof fn lemma_reserved_of_contains(writable: Seq<Seq<Seq<char>>>, q: Seq<Seq<char>>)
    ensures
        reserved_of(writable).contains(q) <==> (exists|i: int|
            0 <= i < writable.len() && (q == #[trigger] writable[i].push(git_component()) || q
                == writable[i].push(codex_component()))),
    decreases writable.len(),
{
    if writable.len() == 0 {
    } else {
        let prefix = writable.drop_last();
        let pair = seq![
            writable.last().push(git_component()),
            writable.last().push(codex_component()),
        ];
        lemma_reserved_of_contains(prefix, q);
        lemma_concat_contains(reserved_of(prefix), pair, q);
        assert(prefix == writable.subrange(0, writable.len() - 1));
        assert forall|i: int| 0 <= i < prefix.len() implies #[trigger] prefix[i]
            == writable[i] by {
            assert(writable.subrange(0, writable.len() - 1)[i] == writable[i]);
        }
        if reserved_of(writable).contains(q) {
            if reserved_of(prefix).contains(q) {
                let i = choose|i: int|
                    0 <= i < prefix.len() && (q == #[trigger] prefix[i].push(git_component())
                        || q == prefix[i].push(codex_component()));
                assert(writable[i] == prefix[i]);
                assert(q == writable[i].push(git_component()) || q == writable[i].push(
                    codex_component(),
                ));
            } else {
                assert(pair.contains(q));
                let i = choose|i: int| 0 <= i < pair.len() && pair[i] == q;
                let last: int = writable.len() - 1;
                assert(writable[last] == writable.last());
                assert(q == writable[last].push(git_component()) || q == writable[last].push(
                    codex_component(),
                ));
            }
        }
        if exists|i: int|
            0 <= i < writable.len() && (q == #[trigger] writable[i].push(git_component()) || q
                == writable[i].push(codex_component())) {
            let i = choose|i: int|
                0 <= i < writable.len() && (q == #[trigger] writable[i].push(git_component())
                    || q == writable[i].push(codex_component()));
            if i < writable.len() - 1 {
                assert(prefix[i] == writable[i]);
                assert(q == prefix[i].push(git_component()) || q == prefix[i].push(
                    codex_component(),
                ));
                assert(reserved_of(prefix).contains(q));
            } else {
                assert(writable[i] == writable.last());
                if q == writable.last().push(git_component()) {
                    assert(pair[0] == q);
                } else {
                    assert(pair[1] == q);
                }
                assert(pair.contains(q));
            }
            assert((reserved_of(prefix) + pair).contains(q));
        }
    }
}

/// Resolution is deterministic: any two rule sets resolved from the same
/// policy, working directory and environment are the same.
pub proof fn lemma_resolution_deterministic(
    policy: SandboxPolicy,
    cwd: Seq<Seq<char>>,
    tmpdir: Option<Seq<Seq<char>>>,
    r1: RulesModel,
    r2: RulesModel,
)
    requires
        r1 == resolved_rules_model(policy, cwd, tmpdir),
        r2 == resolved_rules_model(policy, cwd, tmpdir),
    ensures
        r1 == r2,
{
}

/// Removes from `paths` every entry equal to a member of `removed`.
fn remove_listed(paths: &Vec<AbsPath>, removed: &Vec<AbsPath>) -> (r: Vec<AbsPath>)
    ensures
        paths_model(r@) == remove_paths(paths_model(paths@), paths_model(removed@)),
{
    let mut r: Vec<AbsPath> = Vec::new();
    let mut i: usize = 0;
    proof {
        assert(paths_model(paths@).take(0) =~~= Seq::empty());
        assert(paths_model(r@) =~~= Seq::<Seq<Seq<char>>>::empty());
    }
    while i < paths.len()
        invariant
            i <= paths.len(),
            paths_model(r@) == remove_paths(
                paths_model(paths@).take(i as int),
                paths_model(removed@),
            ),
        decreases paths.len() - i,
    {
        proof {
            assert(paths_model(paths@).take(i + 1) =~~= paths_model(paths@).take(i as int).push(
                paths_model(paths@)[i as int],
            ));
            lemma_remove_paths_push(
                paths_model(paths@).take(i as int),
                paths_model(removed@),
                paths_model(paths@)[i as int],
            );
        }
        if !contains_path(removed, &paths[i]) {
            let ghost prev = paths_model(r@);
            r.push(paths[i].duplicate());
            proof {
                assert(paths_model(r@) =~~= prev.push(paths@[i as int]@));
                assert(prev.push(paths@[i as int]@) =~~= prev + seq![paths@[i as int]@]);
            }
        }
        i = i + 1;
    }
    proof {
        assert(paths_model(paths@).take(paths@.len() as int) =~~= paths_model(paths@));
    }
    r
}

/// Computes the reserved read-only subtrees of a writable set.
fn reserved_subtrees(writable: &Vec<AbsPath>) -> (r: Vec<AbsPath>)
    ensures
        paths_model(r@) == reserved_of(paths_model(writable@)),
{
    let mut r: Vec<AbsPath> = Vec::new();
    let mut i: usize = 0;
    proof {
        assert(paths_model(writable@).take(0) =~~= Seq::empty());
        assert(paths_model(r@) =~~= Seq::<Seq<Seq<char>>>::empty());
    }
    while i < writable.len()
        invariant
            i <= writable.len(),
            paths_model(r@) == reserved_of(paths_model(writable@).take(i as int)),
        decreases writable.len() - i,
    {
        proof {
            assert(paths_model(writable@).take(i + 1) =~~= paths_model(writable@).take(
                i as int,
            ).push(paths_model(writable@)[i as int]));
            lemma_reserved_of_push(
                paths_model(writable@).take(i as int),
                paths_model(writable@)[i as int],
            );
        }
        let ghost prev = paths_model(r@);
        r.push(writable[i].child(String::from_str(".git")));
        r.push(writable[i].child(String::from_str(".codex")));
        proof {
            assert(paths_model(r@) =~~= prev + seq![
                writable@[i as int]@.push(git_component()),
                writable@[i as int]@.push(codex_component()),
            ]);
        }
        i = i + 1;
    }
    proof {
        assert(paths_model(writable@).take(writable@.len() as int) =~~= paths_model(writable@));
    }
    r
}

/// Turns a policy, the working directory and the `TMPDIR` value into the
/// concrete rule set; total, side-effect-free, and a function of those three
/// inputs alone.
pub fn resolve(policy: &SandboxPolicy, cwd: &AbsPath, tmpdir: Option<&AbsPath>) -> (r:
    ResolvedRules)
    ensures
        r@ == resolved_rules_model(*policy, cwd@, opt_path_model(tmpdir)),
{
    match policy {
        SandboxPolicy::ReadOnly => {
            let r = ResolvedRules {
                writable: Vec::new(),
                reserved_readonly: Vec::new(),
                network_allowed: false,
            };
            proof {
                let m = resolved_rules_model(*policy, cwd@, opt_path_model(tmpdir));
                assert(r@.writable =~~= m.writable);
                assert(r@.reserved_readonly =~~= m.reserved_readonly);
            }
            r
        },
        SandboxPolicy::WorkspaceWrite {
            writable_roots,
            network_access,
            exclude_tmpdir_env_var,
            exclude_slash_tmp,
        } => {
            let ghost tm = opt_path_model(tmpdir);
            // The roots granted before the tmp exclusions.
            let mut granted: Vec<AbsPath> = Vec::new();
            let mut i: usize = 0;
            while i < writable_roots.len()
                invariant
                    i <= writable_roots.len(),
                    paths_model(granted@) == paths_model(writable_roots@).take(i as int),
                decreases writable_roots.len() - i,
            {
                let ghost prev = paths_model(granted@);
                granted.push(writable_roots[i].duplicate());
                proof {
                    assert(paths_model(granted@) =~~= prev.push(writable_roots@[i as int]@));
                    assert(paths_model(writable_roots@).take(i + 1) =~~= paths_model(
                        writable_roots@,
                    ).take(i as int).push(paths_model(writable_roots@)[i as int]));
                }
                i = i + 1;
            }
            proof {
                assert(paths_model(writable_roots@).take(writable_roots@.len() as int)
                    =~~= paths_model(writable_roots@));
            }
            let ghost after_roots = paths_model(granted@);
            granted.push(cwd.duplicate());
            proof {
                assert(paths_model(granted@) =~~= after_roots + seq![cwd@]);
            }
            if !*exclude_slash_tmp {
                let ghost prev = paths_model(granted@);
                granted.push(AbsPath { parts: vec![String::from_str("tmp")] });
                proof {
                    assert(paths_model(granted@) =~~= prev + seq![slash_tmp_path()]);
                }
            }
            if let Option::Some(t) = tmpdir {
                if !*exclude_tmpdir_env_var {
                    let ghost prev = paths_model(granted@);
                    granted.push(t.duplicate());
                    proof {
                        assert(paths_model(granted@) =~~= prev + seq![t@]);
                    }
                }
            }
            proof {
                assert(paths_model(granted@) =~~= granted_roots(*policy, cwd@, tm));
            }
            // The tmp paths the policy removes.
            let mut excluded: Vec<AbsPath> = Vec::new();
            if *exclude_slash_tmp {
                excluded.push(AbsPath { parts: vec![String::from_str("tmp")] });
            }
            if let Option::Some(t) = tmpdir {
                if *exclude_tmpdir_env_var {
                    excluded.push(t.duplicate());
                }
            }
            proof {
                assert(paths_model(excluded@) =~~= excluded_tmp_paths(*policy, tm));
            }
            let kept = remove_listed(&granted, &excluded);
            let reserved = reserved_subtrees(&kept);
            let writable = remove_listed(&kept, &reserved);
            let r = ResolvedRules {
                writable,
                reserved_readonly: reserved,
                network_allowed: *network_access,
            };
            r
        },
    }
}

} // verus!
