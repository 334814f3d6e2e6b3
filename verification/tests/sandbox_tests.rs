use codex_sandbox::executor::ChildEvent;
use codex_sandbox::executor::ExecAction;
use codex_sandbox::executor::SetupProbe;
use codex_sandbox::executor::conclude;
use codex_sandbox::executor::setup_decision;
use codex_sandbox::executor::timer_fires;
use codex_sandbox::fsrules::AccessKind;
use codex_sandbox::fsrules::access_allowed;
use codex_sandbox::fsrules::dev_null_device;
use codex_sandbox::fsrules::write_allowed;
use codex_sandbox::netfilter::AddressFamily;
use codex_sandbox::netfilter::FilterVerdict;
use codex_sandbox::netfilter::SyscallClass;
use codex_sandbox::netfilter::filter_verdict;
use codex_sandbox::outcome::ExecOutput;
use codex_sandbox::outcome::RawExitStatus;
use codex_sandbox::outcome::SandboxExecError;
use codex_sandbox::outcome::SetupFailureKind;
use codex_sandbox::outcome::classify;
use codex_sandbox::outcome::DENIAL_SIGNAL;
use codex_sandbox::policy::AbsPath;
use codex_sandbox::policy::SandboxPolicy;
use codex_sandbox::resolver::resolve;

fn path(parts: &[&str]) -> AbsPath {
    AbsPath {
        parts: parts.iter().map(|p| p.to_string()).collect(),
    }
}

fn workspace_policy(roots: &[&[&str]], network: bool) -> SandboxPolicy {
    SandboxPolicy::WorkspaceWrite {
        writable_roots: roots.iter().map(|r| path(r)).collect(),
        network_access: network,
        exclude_tmpdir_env_var: true,
        exclude_slash_tmp: true,
    }
}

fn output(exit_code: i32) -> ExecOutput {
    ExecOutput {
        exit_code,
        stdout: String::new(),
        stderr: String::new(),
    }
}

#[test]
fn resolver_is_deterministic() {
    let policy = workspace_policy(&[&["home", "user", "repo"]], false);
    let cwd = path(&["home", "user", "repo"]);
    let tmpdir = path(&["tmp", "scratch"]);
    let r1 = resolve(&policy, &cwd, Some(&tmpdir));
    let r2 = resolve(&policy, &cwd, Some(&tmpdir));
    assert_eq!(
        r1.writable.iter().map(|p| p.parts.clone()).collect::<Vec<_>>(),
        r2.writable.iter().map(|p| p.parts.clone()).collect::<Vec<_>>()
    );
    assert_eq!(
        r1.reserved_readonly
            .iter()
            .map(|p| p.parts.clone())
            .collect::<Vec<_>>(),
        r2.reserved_readonly
            .iter()
            .map(|p| p.parts.clone())
            .collect::<Vec<_>>()
    );
    assert_eq!(r1.network_allowed, r2.network_allowed);
}

#[test]
fn writable_root_write_allowed() {
    let policy = workspace_policy(&[&["work", "repo"]], false);
    let cwd = path(&["home", "user"]);
    let rules = resolve(&policy, &cwd, None);
    assert!(write_allowed(&rules, &path(&["work", "repo", "file.txt"])));
    assert!(write_allowed(&rules, &path(&["home", "user", "notes.txt"])));
}

#[test]
fn write_outside_roots_denied() {
    let policy = workspace_policy(&[&["work", "repo"]], false);
    let cwd = path(&["home", "user"]);
    let rules = resolve(&policy, &cwd, None);
    assert!(!write_allowed(&rules, &path(&["etc", "passwd"])));
    assert!(!write_allowed(&rules, &path(&["work", "other", "file"])));
}

#[test]
fn read_only_policy_denies_all_writes() {
    let rules = resolve(
        &SandboxPolicy::new_read_only_policy(),
        &path(&["home", "user"]),
        None,
    );
    assert!(!write_allowed(&rules, &path(&["home", "user", "f"])));
    assert!(!rules.network_allowed);
}

#[test]
fn read_only_policy_allows_reads() {
    // `ls -l /bin` under the read-only policy: every read goes through, and
    // a clean exit classifies as an ordinary success.
    let rules = resolve(
        &SandboxPolicy::new_read_only_policy(),
        &path(&["home", "user"]),
        None,
    );
    assert!(access_allowed(&rules, &path(&["bin"]), AccessKind::Read));
    assert!(access_allowed(&rules, &path(&["bin", "ls"]), AccessKind::Read));
    let res = classify(RawExitStatus::Exited { code: 0 }, output(0), false);
    match res {
        Ok(out) => assert_eq!(out.exit_code, 0),
        Err(_) => panic!("expected an ordinary completion"),
    }
}

#[test]
fn git_folder_is_read_only() {
    let repo: &[&str] = &["work", "repo"];
    let policy = workspace_policy(&[repo], false);
    let cwd = path(&["home", "user"]);
    let rules = resolve(&policy, &cwd, None);
    let inside_git = path(&["work", "repo", ".git", "test.txt"]);
    assert!(!write_allowed(&rules, &inside_git));
    assert!(access_allowed(&rules, &inside_git, AccessKind::Read));
    // The parent itself stays writable.
    assert!(write_allowed(&rules, &path(&["work", "repo", "test.txt"])));
}

#[test]
fn codex_folder_is_read_only() {
    let project: &[&str] = &["work", "project"];
    let policy = workspace_policy(&[project], false);
    let cwd = path(&["home", "user"]);
    let rules = resolve(&policy, &cwd, None);
    let inside = path(&["work", "project", ".codex", "config.toml"]);
    assert!(!write_allowed(&rules, &inside));
    assert!(access_allowed(&rules, &inside, AccessKind::Read));
}

#[test]
fn dev_null_write_always_allowed() {
    let cwd = path(&["home", "user"]);
    let read_only = resolve(&SandboxPolicy::new_read_only_policy(), &cwd, None);
    assert!(write_allowed(&read_only, &dev_null_device()));
    let workspace = resolve(&workspace_policy(&[&["work"]], false), &cwd, None);
    assert!(write_allowed(&workspace, &dev_null_device()));
}

#[test]
fn excluded_tmp_paths_not_writable() {
    // The workspace policy excludes both tmp grants, so a write under the
    // system temp directory that is not below the explicit root fails.
    let policy = workspace_policy(&[&["work", "repo"]], false);
    let cwd = path(&["home", "user"]);
    let tmpdir = path(&["var", "tmpdir"]);
    let rules = resolve(&policy, &cwd, Some(&tmpdir));
    assert!(!write_allowed(&rules, &path(&["tmp", "evil.txt"])));
    assert!(!write_allowed(&rules, &path(&["var", "tmpdir", "evil.txt"])));
    // Without the exclusions the same writes are granted.
    let lax = SandboxPolicy::WorkspaceWrite {
        writable_roots: vec![path(&["work", "repo"])],
        network_access: false,
        exclude_tmpdir_env_var: false,
        exclude_slash_tmp: false,
    };
    let lax_rules = resolve(&lax, &cwd, Some(&tmpdir));
    assert!(write_allowed(&lax_rules, &path(&["tmp", "evil.txt"])));
    assert!(write_allowed(&lax_rules, &path(&["var", "tmpdir", "evil.txt"])));
}

#[test]
fn network_filter_blocks_every_origin() {
    // The syscalls behind an HTTP fetch, a ping, a TCP probe, SSH, a DNS
    // lookup, and a shell /dev/tcp redirection.
    let attempts = [
        SyscallClass::SocketCreate {
            family: AddressFamily::Inet,
        },
        SyscallClass::SocketCreate {
            family: AddressFamily::Inet6,
        },
        SyscallClass::SocketCreate {
            family: AddressFamily::Packet,
        },
        SyscallClass::Connect,
    ];
    let rules = resolve(
        &SandboxPolicy::new_read_only_policy(),
        &path(&["home"]),
        None,
    );
    assert!(!rules.network_allowed);
    for class in attempts {
        assert!(matches!(
            filter_verdict(rules.network_allowed, class),
            FilterVerdict::DenyPermission
        ));
    }
    // Local sockets and unrelated syscalls pass.
    assert!(matches!(
        filter_verdict(
            false,
            SyscallClass::SocketCreate {
                family: AddressFamily::Unix
            }
        ),
        FilterVerdict::Allow
    ));
    assert!(matches!(
        filter_verdict(false, SyscallClass::Other),
        FilterVerdict::Allow
    ));
    // With network access granted the filter is transparent.
    assert!(matches!(
        filter_verdict(true, SyscallClass::Connect),
        FilterVerdict::Allow
    ));
}

#[test]
fn network_denial_never_classifies_as_success() {
    // A blocked fetch surfaces either as the denial signal or as an
    // ordinary non-zero exit; neither is an Ok result with exit code 0.
    let denied = classify(
        RawExitStatus::Signaled {
            signal: DENIAL_SIGNAL,
        },
        output(0),
        false,
    );
    assert!(matches!(denied, Err(SandboxExecError::Denied { .. })));

    let failed = classify(RawExitStatus::Exited { code: 7 }, output(7), false);
    match failed {
        Ok(out) => assert_ne!(out.exit_code, 0),
        Err(_) => panic!("an ordinary failure is not an error"),
    }
}

#[test]
fn timeout_reported_as_timeout() {
    // A 50 ms deadline against a command that would run for 2 seconds: the
    // timer wins the race, the whole process group is killed, and the
    // result is the Timeout kind, not an ordinary non-zero exit.
    assert!(!timer_fires(Some(50), 49));
    assert!(timer_fires(Some(50), 50));
    assert!(timer_fires(Some(50), 2000));
    assert!(!timer_fires(None, 2000));

    let (action, result) = conclude(ChildEvent::TimerExpired { output: output(0) });
    assert_eq!(action, ExecAction::KillProcessGroup);
    assert!(matches!(result, Err(SandboxExecError::Timeout { .. })));
}

#[test]
fn completed_child_is_classified() {
    let (action, result) = conclude(ChildEvent::Finished {
        status: RawExitStatus::Exited { code: 3 },
        output: output(3),
    });
    assert_eq!(action, ExecAction::Report);
    match result {
        Ok(out) => assert_eq!(out.exit_code, 3),
        Err(_) => panic!("expected an ordinary completion"),
    }
}

#[test]
fn setup_fails_closed() {
    let ok = SetupProbe {
        helper_found: true,
        fs_rules_applied: true,
        net_filter_required: true,
        net_filter_applied: true,
    };
    assert!(setup_decision(ok).is_ok());

    let missing_helper = SetupProbe {
        helper_found: false,
        ..ok
    };
    assert!(matches!(
        setup_decision(missing_helper),
        Err(SandboxExecError::SetupFailure {
            kind: SetupFailureKind::HelperMissing
        })
    ));

    let no_landlock = SetupProbe {
        fs_rules_applied: false,
        ..ok
    };
    assert!(matches!(
        setup_decision(no_landlock),
        Err(SandboxExecError::SetupFailure {
            kind: SetupFailureKind::FilesystemRulesUnavailable
        })
    ));

    let no_filter = SetupProbe {
        net_filter_applied: false,
        ..ok
    };
    assert!(matches!(
        setup_decision(no_filter),
        Err(SandboxExecError::SetupFailure {
            kind: SetupFailureKind::SyscallFilterUnavailable
        })
    ));

    let filter_not_needed = SetupProbe {
        net_filter_required: false,
        net_filter_applied: false,
        ..ok
    };
    assert!(setup_decision(filter_not_needed).is_ok());
}

#[test]
fn signal_death_folds_into_exit_code() {
    let status = RawExitStatus::Signaled { signal: 9 };
    assert_eq!(status.exit_code(), 137);
    let res = classify(status, output(137), false);
    match res {
        Ok(out) => assert_eq!(out.exit_code, 137),
        Err(_) => panic!("an unrelated signal death is not a denial"),
    }
}
