use pi_coding::workflow::supervisor::WorkflowSupervisorContract;

fn contract(objective: &str) -> WorkflowSupervisorContract {
    WorkflowSupervisorContract {
        workflow_id: "wf-concise".to_owned(),
        generation: 1,
        worktree_label: "worktrees/wf-concise".to_owned(),
        objective: objective.to_owned(),
        supervisor_agent_id: "supervisor".to_owned(),
        max_concurrency: 2,
    }
}

#[test]
fn initial_prompt_requires_concise_task_titles() {
    let prompt = contract("Ship the release").initial_prompt();
    for needle in [
        "single concise line",
        "~60 characters",
        "terse imperative title",
        "Bootstrap pi-zig sources",
        "longer titles are truncated",
    ] {
        assert!(prompt.contains(needle), "missing {needle:?}\n{prompt}");
    }
}

#[test]
fn replan_prompt_requires_concise_task_titles() {
    let prompt = contract("Ship the release").replan_prompt();
    for needle in [
        "concise title",
        "~60 characters",
        "terse imperative phrase",
        "Bootstrap pi-zig sources",
        "longer titles are truncated",
    ] {
        assert!(prompt.contains(needle), "missing {needle:?}\n{prompt}");
    }
}

#[test]
fn initial_prompt_requires_parallel_width_guidance() {
    let prompt = contract("Ship the release").initial_prompt();
    for needle in [
        "WIDE, parallel DAG",
        "independent work",
        "runs every ready task concurrently",
        "genuine data",
        "several ready tasks per execution wave",
    ] {
        assert!(prompt.contains(needle), "missing {needle:?}\n{prompt}");
    }
}

#[test]
fn replan_prompt_requires_parallel_width_guidance() {
    let prompt = contract("Ship the release").replan_prompt();
    for needle in [
        "WIDE, parallel DAG",
        "runs every ready task concurrently",
        "genuine data",
        "several ready tasks per execution wave",
    ] {
        assert!(prompt.contains(needle), "missing {needle:?}\n{prompt}");
    }
}

#[test]
fn prompts_name_the_workflow_and_its_objective() {
    let contract = contract("Ship the release");
    assert!(contract
        .initial_prompt()
        .starts_with("You plan workflow wf-concise. Objective: Ship the release"));
    assert!(contract
        .replan_prompt()
        .starts_with("The planning turn for workflow wf-concise"));
}
