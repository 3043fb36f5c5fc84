use refine::worktree_cleanup::{
    automatic_cleanup_delay_seconds, BranchFacts, BranchIntegration, BranchRemoval,
    CleanupOutcomes, FileWorktreeCleanupService, WorktreeCleanupOptions, WorktreeCleanupReport,
    WorktreeFacts, WorktreeRemoval,
};

const NOTHING_DELETED: BranchRemoval =
    BranchRemoval { local_deleted: false, remote_deleted: false };

/// A project in memory: its ignored patterns, its goals and its worktrees.
struct Fixture {
    name: String,
    ignored: Vec<String>,
    generated_roots: Vec<String>,
    goals: Vec<(String, bool)>,
    worktrees: Vec<WorktreeFacts>,
    branches: Vec<BranchFacts>,
    /// The branches that were pushed.
    published: Vec<String>,
}

impl Fixture {
    fn new(name: &str) -> Self {
        Fixture {
            name: name.to_string(),
            ignored: Vec::new(),
            generated_roots: Vec::new(),
            goals: Vec::new(),
            worktrees: Vec::new(),
            branches: Vec::new(),
            published: Vec::new(),
        }
    }

    fn commit_files(&mut self, files: &[(&str, &str)]) {
        for (relative, contents) in files {
            if *relative == ".gitignore" {
                for line in contents.lines() {
                    self.ignored.push(line.trim_matches('/').to_string());
                }
            }
            if *relative == "Cargo.toml" {
                self.generated_roots.push("target".to_string());
            }
        }
    }

    fn create_goal(&mut self, id: &str, _branch: &str, terminal: bool) {
        self.goals.push((id.to_string(), terminal));
    }

    fn add_worktree(&mut self, branch: &str) -> usize {
        let goal = branch.split('/').nth(1).unwrap();
        let known = self.goals.iter().any(|(id, _)| id == goal);
        self.worktrees.push(WorktreeFacts {
            path: format!("{}/.git/refine-worktrees/{}", self.name, branch.replace('/', "-")),
            branch: branch.to_string(),
            goal_id: if known { Some(goal.to_string()) } else { None },
            active_process: false,
            active_owner: false,
            age_seconds: 0,
            changed_paths: Vec::new(),
            ignored_paths: Vec::new(),
            integration: None,
        });
        self.worktrees.len() - 1
    }

    fn write(&mut self, worktree: usize, path: &str, _contents: &str) {
        let rule = self
            .ignored
            .iter()
            .find(|rule| path == rule.as_str() || path.starts_with(&format!("{rule}/")))
            .cloned();
        match rule {
            Some(rule) => self.worktrees[worktree].ignored_paths.push(rule),
            None => self.worktrees[worktree].changed_paths.push(path.to_string()),
        }
    }

    fn integrate(&mut self, worktree: usize, candidate: &str, head: &str) {
        self.worktrees[worktree].integration = Some(BranchIntegration {
            candidate_commit: candidate.to_string(),
            branch_head: head.to_string(),
            candidate_in_target: true,
        });
    }

    fn deleted(&self, branch: &str) -> BranchRemoval {
        BranchRemoval {
            local_deleted: true,
            remote_deleted: self.published.iter().any(|published| published == branch),
        }
    }

    fn run_with(
        &self,
        apply: bool,
        older_than_seconds: u64,
        outcomes: &CleanupOutcomes,
    ) -> WorktreeCleanupReport {
        FileWorktreeCleanupService::new(&self.name, "runtime").run(
            &self.worktrees,
            &self.branches,
            &self.generated_roots,
            WorktreeCleanupOptions { apply, older_than_seconds },
            outcomes,
        )
    }

    /// Runs a cleanup whose removals all succeed.
    fn run(&self, apply: bool, older_than_seconds: u64) -> WorktreeCleanupReport {
        let mut outcomes = CleanupOutcomes { worktrees: Vec::new(), branches: Vec::new() };
        let plan = self.run_with(false, older_than_seconds, &outcomes);
        for (entry, facts) in plan.entries.iter().zip(&self.worktrees) {
            outcomes.worktrees.push(WorktreeRemoval {
                removed: true,
                generated_paths_removed: entry.generated_paths.len(),
                branch: self.deleted(&facts.branch),
            });
        }
        for entry in &plan.branch_entries {
            outcomes.branches.push(self.deleted(&entry.branch));
        }
        self.run_with(apply, older_than_seconds, &outcomes)
    }
}

#[test]
fn cleanup_hibernates_all_clean_inactive_round_worktrees_and_preserves_branches() {
    let mut fixture = Fixture::new("inactive-rounds");
    fixture.create_goal("GOAL1", "refine/GOAL1/round-2", true);
    fixture.add_worktree("refine/GOAL1/round-1");
    fixture.add_worktree("refine/GOAL1/round-2");

    let defaults = WorktreeCleanupOptions::default();
    let preview = fixture.run(defaults.apply, defaults.older_than_seconds);
    assert_eq!(preview.inspected, 2);
    assert_eq!(preview.eligible, 2);
    assert_eq!(preview.removed, 0);

    let applied = fixture.run(true, 0);
    assert_eq!(applied.removed, 2);
    assert_eq!(applied.failed, 0);
    assert_eq!(applied.branches_deleted, 0);
    assert_eq!(applied.branch_eligible, 0);
    assert!(applied.entries.iter().all(|entry| entry.branch_cleanup_reason.is_none()));
}

#[test]
fn cleanup_retires_exact_integrated_candidate_refs_locally_and_upstream() {
    let mut fixture = Fixture::new("integrated-refs");
    fixture.create_goal("MERGED", "refine/MERGED/round-1", false);
    let worktree = fixture.add_worktree("refine/MERGED/round-1");
    fixture.integrate(worktree, "candidate", "candidate");
    fixture.published.push("refine/MERGED/round-1".to_string());

    let report = fixture.run(true, 0);
    assert_eq!(report.removed, 1);
    assert_eq!(report.branches_deleted, 1);
    assert_eq!(report.local_branches_deleted, 1);
    assert_eq!(report.remote_branches_deleted, 1);
    assert_eq!(
        report.entries[0].branch_cleanup_reason.as_deref(),
        Some("integrated_branch_retired")
    );
}

#[test]
fn cleanup_discovers_and_retires_an_integrated_branch_after_its_worktree_is_gone() {
    let mut fixture = Fixture::new("orphaned-integrated-ref");
    fixture.create_goal("ORPHANED", "refine/ORPHANED/round-1", false);
    fixture.branches.push(BranchFacts {
        branch: "refine/ORPHANED/round-1".to_string(),
        integration: Some(BranchIntegration {
            candidate_commit: "candidate".to_string(),
            branch_head: "candidate".to_string(),
            candidate_in_target: true,
        }),
    });

    let preview = fixture.run(false, 0);
    assert_eq!(preview.inspected, 0);
    assert_eq!(preview.branch_inspected, 1);
    assert_eq!(preview.branch_eligible, 1);
    assert_eq!(preview.branch_entries[0].reason, "integrated_branch_eligible");

    let report = fixture.run(true, 0);
    assert_eq!(report.removed, 0);
    assert_eq!(report.branches_deleted, 1);
    assert_eq!(report.local_branches_deleted, 1);
    assert_eq!(report.remote_branches_deleted, 0);
    assert_eq!(report.branch_eligible, 1);
    assert_eq!(report.branch_entries[0].branch, "refine/ORPHANED/round-1");
    assert_eq!(report.branch_entries[0].reason, "integrated_branch_retired");
}

#[test]
fn cleanup_keeps_an_integrated_branch_that_advanced_beyond_recorded_candidate() {
    let mut fixture = Fixture::new("advanced-integrated-ref");
    fixture.create_goal("ADVANCED", "refine/ADVANCED/round-1", false);
    let worktree = fixture.add_worktree("refine/ADVANCED/round-1");
    fixture.integrate(worktree, "candidate", "later candidate work");

    let report = fixture.run(true, 0);
    assert_eq!(report.removed, 1);
    assert_eq!(report.branches_deleted, 0);
    assert_eq!(report.branch_eligible, 0);
    assert_eq!(
        report.entries[0].branch_cleanup_reason.as_deref(),
        Some("candidate_not_integrated")
    );
}

#[test]
fn cleanup_preserves_dirty_missing_and_owned_worktrees_but_hibernates_inactive_statuses() {
    let mut fixture = Fixture::new("safety");
    fixture.create_goal("DIRTY", "refine/DIRTY/round-1", true);
    fixture.create_goal("ACTIVE", "refine/ACTIVE/round-1", true);
    fixture.create_goal("REVIEW", "refine/REVIEW/round-1", false);
    fixture.create_goal("OPERATION", "refine/OPERATION/round-1", false);
    let dirty = fixture.add_worktree("refine/DIRTY/round-1");
    let active = fixture.add_worktree("refine/ACTIVE/round-1");
    fixture.add_worktree("refine/REVIEW/round-1");
    let operation = fixture.add_worktree("refine/OPERATION/round-1");
    fixture.add_worktree("refine/MISSING/round-1");
    fixture.write(dirty, "untracked.txt", "preserve me\n");
    fixture.worktrees[active].active_process = true;
    fixture.worktrees[operation].active_owner = true;

    let report = fixture.run(true, 0);
    assert_eq!(report.removed, 1);
    let reasons = report
        .entries
        .iter()
        .map(|entry| (entry.goal_id.as_deref(), entry.reason.as_str()))
        .collect::<Vec<_>>();
    assert!(reasons.contains(&(Some("DIRTY"), "dirty_worktree")));
    assert!(reasons.contains(&(Some("ACTIVE"), "active_process")));
    assert!(reasons.contains(&(Some("REVIEW"), "eligible")));
    assert!(reasons.contains(&(Some("OPERATION"), "active_owner")));
    assert!(reasons.contains(&(None, "goal_not_found")));
}

#[test]
fn cleanup_preserves_a_worktree_owned_by_an_active_workflow_claim() {
    let mut fixture = Fixture::new("active-claim");
    fixture.create_goal("CLAIMED", "refine/CLAIMED/round-1", false);
    let worktree = fixture.add_worktree("refine/CLAIMED/round-1");
    fixture.worktrees[worktree].active_owner = true;

    let report = fixture.run(true, 0);
    assert_eq!(report.removed, 0);
    assert_eq!(report.entries[0].reason, "active_owner");
}

#[test]
fn cleanup_retention_window_and_disable_setting_fail_closed() {
    let mut fixture = Fixture::new("retention");
    fixture.create_goal("GOAL1", "refine/GOAL1/round-1", true);
    fixture.add_worktree("refine/GOAL1/round-1");
    let report = fixture.run(true, 3600);
    assert_eq!(report.removed, 0);
    assert_eq!(report.entries[0].reason, "retention_window");

    assert_eq!(automatic_cleanup_delay_seconds(None), Some(0));
    assert_eq!(automatic_cleanup_delay_seconds(Some("-1")), None);
    assert_eq!(automatic_cleanup_delay_seconds(Some("3600")), Some(3600));
}

#[test]
fn cleanup_preserves_inactive_worktree_with_unrecognized_ignored_content() {
    let mut fixture = Fixture::new("ignored-user-content");
    fixture.commit_files(&[(".gitignore", ".env\n")]);
    fixture.create_goal("GOAL1", "refine/GOAL1/round-1", true);
    let worktree = fixture.add_worktree("refine/GOAL1/round-1");
    fixture.write(worktree, ".env", "SECRET=preserve-me\n");

    let report = fixture.run(true, 0);

    assert_eq!(report.removed, 0);
    assert_eq!(report.entries[0].reason, "ignored_worktree");
    assert!(fixture.worktrees[worktree].ignored_paths.contains(&".env".to_string()));
}

#[test]
fn cleanup_removes_detected_generated_cache_before_inactive_worktree() {
    let mut fixture = Fixture::new("generated-cache");
    fixture.commit_files(&[
        (".gitignore", "/target/\n"),
        ("Cargo.toml", "[package]\nname = \"fixture\"\nversion = \"0.1.0\"\n"),
    ]);
    fixture.create_goal("GOAL1", "refine/GOAL1/round-1", true);
    let worktree = fixture.add_worktree("refine/GOAL1/round-1");
    fixture.write(worktree, "target/debug/cache", "generated\n");

    let preview = fixture.run(false, 0);
    assert_eq!(preview.eligible, 1);
    assert_eq!(preview.entries[0].generated_paths, vec!["target"]);

    let report = fixture.run(true, 0);
    assert_eq!(report.removed, 1);
    assert_eq!(report.entries[0].generated_paths_removed, 1);
}

#[test]
fn cleanup_removes_only_ignored_descendants_of_a_configured_generated_root() {
    let mut fixture = Fixture::new("configured-generated-descendant");
    fixture.commit_files(&[(".gitignore", "/build/cache/\n"), ("build/keep.txt", "tracked\n")]);
    fixture.generated_roots.push("build".to_string());
    fixture.create_goal("GOAL1", "refine/GOAL1/round-1", true);
    let worktree = fixture.add_worktree("refine/GOAL1/round-1");
    fixture.write(worktree, "build/cache/generated", "generated\n");

    let preview = fixture.run(false, 0);
    assert_eq!(preview.entries[0].generated_paths, vec!["build/cache"]);

    let report = fixture.run(true, 0);
    assert_eq!(report.removed, 1);
    assert_eq!(report.entries[0].generated_paths_removed, 1);
}

#[test]
fn delays_are_whole_numbers_of_seconds() {
    assert_eq!(automatic_cleanup_delay_seconds(Some("")), None);
    assert_eq!(automatic_cleanup_delay_seconds(Some("12s")), None);
    assert_eq!(automatic_cleanup_delay_seconds(Some("007")), Some(7));
    assert_eq!(
        automatic_cleanup_delay_seconds(Some("18446744073709551615")),
        Some(18446744073709551615)
    );
    assert_eq!(automatic_cleanup_delay_seconds(Some("18446744073709551616")), None);
}

#[test]
fn a_generated_root_covers_whole_path_segments_only() {
    let mut fixture = Fixture::new("segments");
    fixture.commit_files(&[(".gitignore", "/targets/\n")]);
    fixture.generated_roots.push("target".to_string());
    fixture.create_goal("GOAL1", "refine/GOAL1/round-1", true);
    let worktree = fixture.add_worktree("refine/GOAL1/round-1");
    fixture.write(worktree, "targets/notes.txt", "mine\n");

    let report = fixture.run(true, 0);
    assert_eq!(report.entries[0].reason, "ignored_worktree");
    assert!(report.entries[0].generated_paths.is_empty());
}

#[test]
fn removals_that_fail_are_counted_as_such() {
    let mut fixture = Fixture::new("failures");
    fixture.create_goal("MERGED", "refine/MERGED/round-1", false);
    fixture.create_goal("DIRTY", "refine/DIRTY/round-1", false);
    let merged = fixture.add_worktree("refine/MERGED/round-1");
    fixture.integrate(merged, "candidate", "candidate");
    let dirty = fixture.add_worktree("refine/DIRTY/round-1");
    fixture.integrate(dirty, "candidate", "candidate");
    fixture.write(dirty, "untracked.txt", "preserve me\n");
    let removal = |removed: bool, branch: BranchRemoval| WorktreeRemoval {
        removed,
        generated_paths_removed: 0,
        branch,
    };

    let gone = BranchRemoval { local_deleted: true, remote_deleted: true };
    let refused = CleanupOutcomes {
        worktrees: vec![removal(false, gone), removal(true, gone)],
        branches: Vec::new(),
    };
    let report = fixture.run_with(true, 0, &refused);
    assert_eq!(report.eligible, 1);
    assert_eq!(report.removed, 0);
    assert_eq!(report.failed, 1);
    assert_eq!(report.branches_deleted, 0);
    assert!(report.entries[0].failed);
    assert!(!report.entries[1].removed);
    assert_eq!(
        report.entries[1].branch_cleanup_reason.as_deref(),
        Some("integrated_branch_eligible")
    );

    let kept = CleanupOutcomes {
        worktrees: vec![removal(true, NOTHING_DELETED)],
        branches: Vec::new(),
    };
    let report = fixture.run_with(true, 0, &kept);
    assert_eq!(report.removed, 1);
    assert_eq!(report.failed, 0);
    assert_eq!(report.local_branches_deleted, 0);
    assert_eq!(
        report.entries[0].branch_cleanup_reason.as_deref(),
        Some("integrated_branch_eligible")
    );

    let nothing = CleanupOutcomes { worktrees: Vec::new(), branches: Vec::new() };
    assert_eq!(fixture.run_with(true, 0, &nothing).failed, 1);
    assert_eq!(fixture.run_with(false, 0, &refused).failed, 0);
}
