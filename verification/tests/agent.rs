use sag_desktop::agent::{get_agent_state, run_agent, stop_agent, AgentState, StateField};

#[test]
fn run_agent_reports_running() {
    let record = run_agent("alpha".to_string()).unwrap();
    assert_eq!(
        record,
        AgentState {
            id: "alpha".to_string(),
            name: "Agent-alpha".to_string(),
            status: "running".to_string(),
            state: vec![],
        }
    );
}

#[test]
fn stop_agent_reports_stopped() {
    let record = stop_agent("alpha".to_string()).unwrap();
    assert_eq!(
        record,
        AgentState {
            id: "alpha".to_string(),
            name: "Agent-alpha".to_string(),
            status: "stopped".to_string(),
            state: vec![],
        }
    );
}

#[test]
fn get_agent_state_reports_idle_with_state() {
    let record = get_agent_state("42".to_string()).unwrap();
    assert_eq!(
        record,
        AgentState {
            id: "42".to_string(),
            name: "Agent-42".to_string(),
            status: "idle".to_string(),
            state: vec![StateField {
                key: "lastCity".to_string(),
                value: "San Francisco".to_string(),
            }],
        }
    );
}

#[test]
fn empty_identifier_is_accepted() {
    let record = run_agent(String::new()).unwrap();
    assert_eq!(record.id, "");
    assert_eq!(record.name, "Agent-");
    let record = get_agent_state(String::new()).unwrap();
    assert_eq!(record.name, "Agent-");
    assert_eq!(record.state.len(), 1);
}

#[test]
fn identifier_is_kept_as_given() {
    let record = stop_agent("a b/\u{e9}".to_string()).unwrap();
    assert_eq!(record.id, "a b/\u{e9}");
    assert_eq!(record.name, "Agent-a b/\u{e9}");
}

#[test]
fn state_members_have_distinct_names() {
    for record in [
        run_agent("a".to_string()).unwrap(),
        stop_agent("a".to_string()).unwrap(),
        get_agent_state("a".to_string()).unwrap(),
    ] {
        for (i, first) in record.state.iter().enumerate() {
            for second in record.state.iter().skip(i + 1) {
                assert_ne!(first.key, second.key);
            }
        }
    }
}
