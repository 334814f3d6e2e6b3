//! The filesystem rule set as an access decision: which reads and writes the
//! kernel rules derived from a [`ResolvedRules`] permit. Read access is
//! granted broadly; write access is scoped to the writable roots minus the
//! reserved read-only subtrees, with the null device always writable.

use vstd::prelude::*;

use crate::policy::{is_path_prefix, AbsPath, SandboxPolicy};
use crate::policy::path_starts_with;
use crate::resolver::{
    codex_component, dev_null_path, excluded_tmp_paths, git_component, granted_roots,
    lemma_remove_paths_contains, lemma_reserved_of_contains, paths_model, remove_paths, reserved_of,
    resolved_rules_model, ResolvedRules, RulesModel,
};

verus! {

/// The two classes of filesystem access the rules distinguish.
pub enum AccessKind {
    Read,
    Write,
}

/// Whether the rules permit a write to `path`: the null device is always
/// writable; anything else must lie under a writable root and under no
/// reserved read-only subtree.
pub open spec fn write_allowed_model(rules: RulesModel, path: Seq<Seq<char>>) -> bool {
    path == dev_null_path() || ((exists|i: int|
        0 <= i < rules.writable.len() && is_path_prefix(#[trigger] rules.writable[i], path))
        && !(exists|i: int|
        0 <= i < rules.reserved_readonly.len() && is_path_prefix(
            #[trigger] rules.reserved_readonly[i],
            path,
        )))
}

/// Whether the rules permit the given access: reads are granted on the whole
/// filesystem, writes only as [`write_allowed_model`] says.
pub open spec fn access_allowed_model(
    rules: RulesModel,
    path: Seq<Seq<char>>,
    kind: AccessKind,
) -> bool {
    match kind {
        AccessKind::Read => true,
        AccessKind::Write => write_allowed_model(rules, path),
    }
}

/// The null device path, `/dev/null`.
pub fn dev_null_device() -> (r: AbsPath)
    ensures
        r@ == dev_null_path(),
{
    let mut parts: Vec<String> = Vec::new();
    parts.push(String::from_str("dev"));
    parts.push(String::from_str("null"));
    let r = AbsPath { parts };
    proof {
        assert(r@ =~~= dev_null_path());
    }
    r
}

/// Whether some entry of `v` is a prefix of `path`.
fn any_prefix_of(v: &Vec<AbsPath>, path: &AbsPath) -> (r: bool)
    ensures
        r == (exists|i: int|
            0 <= i < v@.len() && is_path_prefix(#[trigger] paths_model(v@)[i], path@)),
{
    let mut i: usize = 0;
    while i < v.len()
        invariant
            i <= v.len(),
            forall|j: int| 0 <= j < i ==> !is_path_prefix(#[trigger] paths_model(v@)[j], path@),
        decreases v.len() - i,
    {
        if path_starts_with(&v[i], path) {
            proof {
                assert(is_path_prefix(paths_model(v@)[i as int], path@));
            }
            return true;
        }
        i = i + 1;
    }
    false
}

/// Decides a write request against the resolved rules.
pub fn write_allowed(rules: &ResolvedRules, path: &AbsPath) -> (r: bool)
    ensures
        r == write_allowed_model(rules@, path@),
{
    if crate::policy::path_eq(path, &dev_null_device()) {
        return true;
    }
    let under_writable = any_prefix_of(&rules.writable, path);
    let under_reserved = any_prefix_of(&rules.reserved_readonly, path);
    proof {
        assert(rules@.writable == paths_model(rules.writable@));
        assert(rules@.reserved_readonly == paths_model(rules.reserved_readonly@));
        assert(under_writable == (exists|i: int|
            0 <= i < rules@.writable.len() && is_path_prefix(
                #[trigger] rules@.writable[i],
                path@,
            )));
        assert(under_reserved == (exists|i: int|
            0 <= i < rules@.reserved_readonly.len() && is_path_prefix(
                #[trigger] rules@.reserved_readonly[i],
                path@,
            )));
    }
    under_writable && !under_reserved
}

/// Decides any access request against the resolved rules.
pub fn access_allowed(rules: &ResolvedRules, path: &AbsPath, kind: AccessKind) -> (r: bool)
    ensures
        r == access_allowed_model(rules@, path@, kind),
{
    match kind {
        AccessKind::Read => true,
        AccessKind::Write => write_allowed(rules, path),
    }
}

/// Writes to the null device succeed under every policy.
pub proof fn lemma_dev_null_always_writable(
    policy: SandboxPolicy,
    cwd: Seq<Seq<char>>,
    tmpdir: Option<Seq<Seq<char>>>,
)
    ensures
        write_allowed_model(resolved_rules_model(policy, cwd, tmpdir), dev_null_path()),
{
}

/// No component of `path` is one of the reserved directory names.
pub open spec fn avoids_reserved_names(path: Seq<Seq<char>>) -> bool {
    forall|j: int|
        0 <= j < path.len() ==> #[trigger] path[j] != git_component() && path[j]
            != codex_component()
}

/// Writing under a granted root succeeds: if `root` is one of the granted
/// writable roots, survives the tmp exclusions, and the path below it passes
/// through no reserved directory name, the resolved rules allow the write.
pub proof fn lemma_write_inside_writable_root(
    policy: SandboxPolicy,
    cwd: Seq<Seq<char>>,
    tmpdir: Option<Seq<Seq<char>>>,
    root: Seq<Seq<char>>,
    path: Seq<Seq<char>>,
)
    requires
        granted_roots(policy, cwd, tmpdir).contains(root),
        !excluded_tmp_paths(policy, tmpdir).contains(root),
        is_path_prefix(root, path),
        avoids_reserved_names(path),
    ensures
        write_allowed_model(resolved_rules_model(policy, cwd, tmpdir), path),
{
    let granted = granted_roots(policy, cwd, tmpdir);
    let excluded = excluded_tmp_paths(policy, tmpdir);
    let kept = remove_paths(granted, excluded);
    let reserved = reserved_of(kept);
    let rules = resolved_rules_model(policy, cwd, tmpdir);
    lemma_remove_paths_contains(granted, excluded, root);
    assert(kept.contains(root));
    // `root` itself is not a reserved subtree: a reserved path ends in a
    // reserved directory name, and `root` is a prefix of a path that avoids
    // those names.
    assert(!reserved.contains(root)) by {
        lemma_reserved_of_contains(kept, root);
        if reserved.contains(root) {
            let i = choose|i: int|
                0 <= i < kept.len() && (root == #[trigger] kept[i].push(git_component())
                    || root == kept[i].push(codex_component()));
            assert(root.len() >= 1);
            assert(root[root.len() - 1] == git_component() || root[root.len() - 1]
                == codex_component());
            assert(path.subrange(0, root.len() as int)[root.len() - 1] == path[root.len() - 1]);
        }
    }
    lemma_remove_paths_contains(kept, reserved, root);
    assert(rules.writable.contains(root));
    let i = choose|i: int| 0 <= i < rules.writable.len() && rules.writable[i] == root;
    assert(is_path_prefix(rules.writable[i], path));
    // No reserved subtree is a prefix of `path`: each ends in a reserved
    // directory name, which `path` avoids.
    assert forall|j: int| 0 <= j < rules.reserved_readonly.len() implies !is_path_prefix(
        #[trigger] rules.reserved_readonly[j],
        path,
    ) by {
        let q = rules.reserved_readonly[j];
        assert(reserved.contains(q));
        lemma_reserved_of_contains(kept, q);
        let k = choose|k: int|
            0 <= k < kept.len() && (q == #[trigger] kept[k].push(git_component()) || q
                == kept[k].push(codex_component()));
        assert(q.len() >= 1);
        assert(q[q.len() - 1] == git_component() || q[q.len() - 1] == codex_component());
        if is_path_prefix(q, path) {
            assert(path.subrange(0, q.len() as int)[q.len() - 1] == path[q.len() - 1]);
        }
    }
}

/// Writing outside every granted root fails, unless the target is the null
/// device: no writable region of the resolved rules covers the path.
pub proof fn lemma_write_outside_roots_denied(
    policy: SandboxPolicy,
    cwd: Seq<Seq<char>>,
    tmpdir: Option<Seq<Seq<char>>>,
    path: Seq<Seq<char>>,
)
    requires
        path != dev_null_path(),
        forall|i: int|
            0 <= i < granted_roots(policy, cwd, tmpdir).len() ==> !is_path_prefix(
                #[trigger] granted_roots(policy, cwd, tmpdir)[i],
                path,
            ),
    ensures
        !write_allowed_model(resolved_rules_model(policy, cwd, tmpdir), path),
{
    let granted = granted_roots(policy, cwd, tmpdir);
    let excluded = excluded_tmp_paths(policy, tmpdir);
    let kept = remove_paths(granted, excluded);
    let rules = resolved_rules_model(policy, cwd, tmpdir);
    assert forall|i: int| 0 <= i < rules.writable.len() implies !is_path_prefix(
        #[trigger] rules.writable[i],
        path,
    ) by {
        let w = rules.writable[i];
        assert(rules.writable.contains(w));
        lemma_remove_paths_contains(kept, reserved_of(kept), w);
        assert(kept.contains(w));
        lemma_remove_paths_contains(granted, excluded, w);
        assert(granted.contains(w));
        let j = choose|j: int| 0 <= j < granted.len() && granted[j] == w;
    }
}

/// A reserved subtree stays read-only: under a granted root that survives
/// the exclusions, a write anywhere below the root's `.git` or `.codex`
/// child is denied, while a read there is still allowed.
pub proof fn lemma_reserved_subtree_read_only(
    policy: SandboxPolicy,
    cwd: Seq<Seq<char>>,
    tmpdir: Option<Seq<Seq<char>>>,
    root: Seq<Seq<char>>,
    sub: Seq<Seq<char>>,
    path: Seq<Seq<char>>,
)
    requires
        granted_roots(policy, cwd, tmpdir).contains(root),
        !excluded_tmp_paths(policy, tmpdir).contains(root),
        sub == root.push(git_component()) || sub == root.push(codex_component()),
        is_path_prefix(sub, path),
    ensures
        !write_allowed_model(resolved_rules_model(policy, cwd, tmpdir), path),
        access_allowed_model(resolved_rules_model(policy, cwd, tmpdir), path, AccessKind::Read),
{
    let granted = granted_roots(policy, cwd, tmpdir);
    let excluded = excluded_tmp_paths(policy, tmpdir);
    let kept = remove_paths(granted, excluded);
    let reserved = reserved_of(kept);
    let rules = resolved_rules_model(policy, cwd, tmpdir);
    lemma_remove_paths_contains(granted, excluded, root);
    assert(kept.contains(root));
    let i = choose|i: int| 0 <= i < kept.len() && kept[i] == root;
    lemma_reserved_of_contains(kept, sub);
    assert(reserved.contains(sub));
    let j = choose|j: int| 0 <= j < reserved.len() && reserved[j] == sub;
    assert(is_path_prefix(rules.reserved_readonly[j], path));
    // The path is not the null device: the component after `root` is a
    // reserved directory name, and no component of `/dev/null` is one.
    assert(path != dev_null_path()) by {
        assert(sub == path.subrange(0, sub.len() as int));
        assert(path[root.len() as int] == sub[root.len() as int]) by {
            assert(path.subrange(0, sub.len() as int)[root.len() as int] == path[
                root.len() as int
            ]);
        }
        assert(sub[root.len() as int] == git_component() || sub[root.len() as int]
            == codex_component());
        reveal_strlit(".git");
        reveal_strlit(".codex");
        reveal_strlit("dev");
        reveal_strlit("null");
        assert(".git"@.len() == 4 && ".codex"@.len() == 6 && "dev"@.len() == 3 && "null"@.len()
            == 4);
        assert(".git"@ != "null"@) by {
            assert(".git"@[0] == '.');
            assert("null"@[0] == 'n');
        }
        if path == dev_null_path() {
            assert(path.len() == 2);
            assert(path[0] == "dev"@ && path[1] == "null"@);
            assert(root.len() == 0 || root.len() == 1);
        }
    }
}

} // verus!
