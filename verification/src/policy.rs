//! The immutable policy model: what a sandboxed command may touch.

use vstd::prelude::*;

verus! {

/// An absolute filesystem path, held as its components below the root.
/// The root itself is the empty component list; `/tmp/foo` is
/// `["tmp", "foo"]`. Holding paths this way keeps the prefix relation that
/// the rule resolver reasons about a plain relation on sequences.
pub struct AbsPath {
    pub parts: Vec<String>,
}

impl View for AbsPath {
    type V = Seq<Seq<char>>;

    open spec fn view(&self) -> Seq<Seq<char>> {
        self.parts@.map_values(|p: String| p@)
    }
}

impl AbsPath {
    /// A deep copy with the same components.
    pub fn duplicate(&self) -> (r: AbsPath)
        ensures
            r@ == self@,
    {
        let mut parts: Vec<String> = Vec::new();
        let mut i: usize = 0;
        while i < self.parts.len()
            invariant
                i <= self.parts.len(),
                parts@.len() == i,
                forall|j: int| 0 <= j < i ==> parts@[j] == self.parts@[j],
            decreases self.parts.len() - i,
        {
            parts.push(self.parts[i].clone());
            i = i + 1;
        }
        let r = AbsPath { parts };
        proof {
            assert(r@ =~= self@);
        }
        r
    }

    /// The same path with one more component below it.
    pub fn child(&self, name: String) -> (r: AbsPath)
        ensures
            r@ == self@.push(name@),
    {
        let mut r = self.duplicate();
        r.parts.push(name);
        proof {
            assert(r@ =~= self@.push(name@));
        }
        r
    }
}

/// Whether two paths name the same location.
pub fn path_eq(a: &AbsPath, b: &AbsPath) -> (r: bool)
    ensures
        r == (a@ == b@),
{
    if a.parts.len() != b.parts.len() {
        proof {
            assert(a@.len() != b@.len());
        }
        return false;
    }
    let mut i: usize = 0;
    while i < a.parts.len()
        invariant
            i <= a.parts.len(),
            a.parts.len() == b.parts.len(),
            forall|j: int| 0 <= j < i ==> a@[j] == b@[j],
        decreases a.parts.len() - i,
    {
        if !a.parts[i].eq(&b.parts[i]) {
            proof {
                assert(a@[i as int] != b@[i as int]);
            }
            return false;
        }
        i = i + 1;
    }
    proof {
        assert(a@ =~= b@);
    }
    true
}

/// Whether `prefix` names `path` itself or one of its ancestors.
pub fn path_starts_with(prefix: &AbsPath, path: &AbsPath) -> (r: bool)
    ensures
        r == is_path_prefix(prefix@, path@),
{
    if prefix.parts.len() > path.parts.len() {
        return false;
    }
    let mut i: usize = 0;
    while i < prefix.parts.len()
        invariant
            i <= prefix.parts.len() <= path.parts.len(),
            forall|j: int| 0 <= j < i ==> prefix@[j] == path@[j],
        decreases prefix.parts.len() - i,
    {
        if !prefix.parts[i].eq(&path.parts[i]) {
            proof {
                assert(path@.subrange(0, prefix@.len() as int)[i as int] == path@[i as int]);
            }
            return false;
        }
        i = i + 1;
    }
    proof {
        assert(prefix@ =~= path@.subrange(0, prefix@.len() as int));
    }
    true
}

/// `p` names `q` itself or an ancestor of `q`: every component of `p` is a
/// component of `q`, in order, from the root down.
pub open spec fn is_path_prefix(p: Seq<Seq<char>>, q: Seq<Seq<char>>) -> bool {
    p.len() <= q.len() && p =~= q.subrange(0, p.len() as int)
}

/// What a sandboxed command is permitted to do, fixed per invocation.
pub enum SandboxPolicy {
    /// Deny all filesystem writes and all network access.
    ReadOnly,
    /// Allow writes below the listed roots (and the working directory and the
    /// temp directories, unless excluded); allow network access only when
    /// `network_access` is set.
    WorkspaceWrite {
        writable_roots: Vec<AbsPath>,
        network_access: bool,
        exclude_tmpdir_env_var: bool,
        exclude_slash_tmp: bool,
    },
}

impl SandboxPolicy {
    /// Whether this policy grants network access.
    pub open spec fn spec_network_access(&self) -> bool {
        match self {
            SandboxPolicy::ReadOnly => false,
            SandboxPolicy::WorkspaceWrite { network_access, .. } => *network_access,
        }
    }

    pub fn network_access(&self) -> (b: bool)
        ensures
            b == self.spec_network_access(),
    {
        match self {
            SandboxPolicy::ReadOnly => false,
            SandboxPolicy::WorkspaceWrite { network_access, .. } => *network_access,
        }
    }

    /// The policy used for read-only commands: no writes, no network.
    pub fn new_read_only_policy() -> (p: SandboxPolicy)
        ensures
            p is ReadOnly,
    {
        SandboxPolicy::ReadOnly
    }
}

/// Everything the executor needs to launch one command.
pub struct ExecParams {
    pub command: Vec<String>,
    pub cwd: AbsPath,
    pub timeout_ms: Option<u64>,
    /// Environment handed to the child, opaque to the core.
    pub env: Vec<(String, String)>,
    /// Pass-through escalation flag; its semantics are owned by the caller.
    pub with_escalated_permissions: Option<bool>,
    pub justification: Option<String>,
}

} // verus!
