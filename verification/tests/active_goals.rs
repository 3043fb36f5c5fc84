use refine::model::{GoalIndexProjection, GoalPriority, GoalStatus};
use refine::project_state::active_goals::{ActiveGoalIndex, ActiveGoalRecord, IndexLine};

fn goal(id: &str, status: &str) -> GoalIndexProjection {
    GoalIndexProjection {
        id: id.to_string(),
        name: id.to_string(),
        status: GoalStatus::parse_wire(status).unwrap(),
        priority: GoalPriority::Low,
        reporter: None,
        assignee: None,
        round_count: 0,
        created: String::new(),
        updated: String::new(),
        branch_name: None,
        node_id: None,
        feature_id: None,
        feature_order: None,
        json_path: format!("goals/{}/{}/goal.json", &id[..2], &id[2..]),
    }
}

fn line(record: ActiveGoalRecord) -> IndexLine {
    IndexLine { text: format!("{{\"id\":\"{}\"}}", record.id), record: Some(record) }
}

fn ids(index: &ActiveGoalIndex) -> Vec<String> {
    (0..index.len()).map(|i| index.goals().value_at(i).id.clone()).collect()
}

#[test]
fn the_index_holds_only_goals_that_still_affect_scheduling() {
    let goals = [
        ("GOALBACKLOG", "backlog"),
        ("GOALTODO000", "todo"),
        ("GOALPROGRES", "in-progress"),
        ("GOALREADYME", "ready-merge"),
        ("GOALFAILED0", "failed"),
        ("GOALREVIEW0", "review"),
        ("GOALDONE000", "done"),
        ("GOALCANCEL0", "cancelled"),
    ]
    .iter()
    .map(|(id, status)| goal(id, status))
    .collect::<Vec<_>>();

    let (index, persist) = ActiveGoalIndex::load_or_rebuild(None, &goals);

    assert!(persist);
    let mut found = ids(&index);
    found.sort();
    assert_eq!(
        found,
        vec!["GOALBACKLOG", "GOALFAILED0", "GOALPROGRES", "GOALREADYME", "GOALTODO000"]
    );
}

#[test]
fn resident_size_tracks_live_work_rather_than_project_size() {
    const TOTAL: usize = 4_000;
    const LIVE: usize = 20;
    let goals = (0..TOTAL)
        .map(|index| {
            let status = if index < LIVE { "todo" } else { "done" };
            goal(&format!("GOAL{index:07}"), status)
        })
        .collect::<Vec<_>>();

    let (index, _) = ActiveGoalIndex::load_or_rebuild(None, &goals);

    assert_eq!(index.len(), LIVE);
    let reloaded = ActiveGoalIndex::load(index.persist().into_iter().map(line).collect());
    assert!(!reloaded.compact);
    assert_eq!(reloaded.index.unwrap().len(), LIVE);
}

#[test]
fn recording_a_transition_moves_a_goal_in_or_out() {
    let (index, _) = ActiveGoalIndex::load_or_rebuild(None, &vec![goal("GOALMOVING0", "todo")]);
    let mut log = index.persist();

    log.push(ActiveGoalIndex::record_goal(Some(goal("GOALMOVING0", "done"))).unwrap());
    let replay = |log: &Vec<ActiveGoalRecord>| {
        let lines = log
            .iter()
            .map(|record| {
                line(ActiveGoalRecord {
                    id: record.id.clone(),
                    goal: record.goal.clone(),
                    removed: record.removed,
                })
            })
            .collect();
        ActiveGoalIndex::load(lines).index.unwrap()
    };
    assert!(replay(&log).is_empty());

    log.push(ActiveGoalIndex::record_goal(Some(goal("GOALMOVING0", "todo"))).unwrap());
    assert_eq!(replay(&log).len(), 1);

    log.push(ActiveGoalIndex::forget_goal("GOALMOVING0"));
    assert!(replay(&log).is_empty());
}

#[test]
fn a_corrupt_index_is_reconstructed_from_goal_records() {
    let goals = vec![goal("GOALINTACT0", "todo")];
    let damaged = ActiveGoalIndex::load(vec![IndexLine {
        text: "{not json\n".to_string(),
        record: None,
    }]);
    assert!(damaged.index.is_none());

    let (index, persist) = ActiveGoalIndex::load_or_rebuild(damaged.index, &goals);

    assert!(persist);
    assert_eq!(index.len(), 1);
    assert_eq!(index.goals().value_at(0).id, "GOALINTACT0");
}

#[test]
fn blank_lines_are_no_damage() {
    let loaded = ActiveGoalIndex::load(vec![
        IndexLine { text: "  ".to_string(), record: None },
        line(ActiveGoalIndex::record_goal(Some(goal("GOALA", "todo"))).unwrap()),
    ]);
    assert_eq!(ids(&loaded.index.unwrap()), vec!["GOALA"]);
}

#[test]
fn a_long_log_of_few_goals_is_rewritten() {
    let log = |lines: usize| {
        (0..lines)
            .map(|_| line(ActiveGoalIndex::record_goal(Some(goal("GOALA", "todo"))).unwrap()))
            .collect::<Vec<_>>()
    };
    assert!(!ActiveGoalIndex::load(log(512)).compact);
    assert!(ActiveGoalIndex::load(log(513)).compact);
}

#[test]
fn the_index_has_one_place_and_is_built_once() {
    assert_eq!(ActiveGoalIndex::path("app/.refine"), "app/.refine/runtime/active-goals.jsonl");
    let goals = vec![goal("GOALA", "todo")];
    assert!(ActiveGoalIndex::ensure_built(true, &goals).is_none());
    assert_eq!(ActiveGoalIndex::ensure_built(false, &goals).unwrap().len(), 1);
    assert!(ActiveGoalIndex::record_goal(None).is_none());
    assert!(!ActiveGoalIndex::holds_scheduler_attention(&GoalStatus::Review));
    assert!(ActiveGoalIndex::holds_scheduler_attention(&GoalStatus::Failed));
}

#[test]
fn a_stored_index_is_loaded_as_it_was() {
    let goals = vec![goal("GOALA", "todo"), goal("GOALB", "failed"), goal("GOALC", "done")];
    let (index, _) = ActiveGoalIndex::load_or_rebuild(None, &goals);
    let mut log = index.persist().into_iter().map(line).collect::<Vec<_>>();
    assert_eq!(log.len(), index.len());
    log.push(line(ActiveGoalIndex::forget_goal("GOALA")));
    log.push(line(ActiveGoalIndex::forget_goal("GOALA")));
    log.push(line(ActiveGoalIndex::forget_goal("GOALZ")));
    let loaded = ActiveGoalIndex::load(log).index.unwrap();
    assert_eq!(ids(&loaded), vec!["GOALB"]);
}
