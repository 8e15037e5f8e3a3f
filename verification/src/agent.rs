//! Status records for agents. No runtime stands behind them yet: each
//! operation answers with the record that the front-end expects for it.

use vstd::prelude::*;
use vstd::string::*;

verus! {

/// One member of an agent's state object: a name and its text value.
#[derive(Debug, Clone, PartialEq, Eq)]
pub struct StateField {
    pub key: String,
    pub value: String,
}

/// The status record of one agent. `state` holds the members of the agent's
/// state object in the order in which they are listed.
#[derive(Debug, Clone, PartialEq, Eq)]
pub struct AgentState {
    pub id: String,
    pub name: String,
    pub status: String,
    pub state: Vec<StateField>,
}

/// The mathematical content of an [`AgentState`].
pub ghost struct AgentStateView {
    pub id: Seq<char>,
    pub name: Seq<char>,
    pub status: Seq<char>,
    pub state: Seq<(Seq<char>, Seq<char>)>,
}

impl View for StateField {
    type V = (Seq<char>, Seq<char>);

    open spec fn view(&self) -> (Seq<char>, Seq<char>) {
        (self.key@, self.value@)
    }
}

impl View for AgentState {
    type V = AgentStateView;

    open spec fn view(&self) -> AgentStateView {
        AgentStateView {
            id: self.id@,
            name: self.name@,
            status: self.status@,
            state: self.state@.map_values(|f: StateField| f@),
        }
    }
}

/// Whether no two members of a state object share a name, as a state object
/// requires.
pub open spec fn distinct_keys(state: Seq<(Seq<char>, Seq<char>)>) -> bool {
    forall|i: int, j: int|
        0 <= i < j < state.len() ==> (#[trigger] state[i]).0 != (#[trigger] state[j]).0
}

impl AgentStateView {
    /// A record is well-formed when its state is a proper object.
    pub open spec fn well_formed(self) -> bool {
        distinct_keys(self.state)
    }
}

/// The display name of the agent with the given identifier.
pub open spec fn agent_name(agent_id: Seq<char>) -> Seq<char> {
    "Agent-"@ + agent_id
}

/// The record of an agent in the given status whose state object is empty.
pub open spec fn bare_record(agent_id: Seq<char>, status: Seq<char>) -> AgentStateView {
    AgentStateView { id: agent_id, name: agent_name(agent_id), status, state: Seq::empty() }
}

/// The record of an idle agent, whose state remembers the last city.
pub open spec fn idle_record(agent_id: Seq<char>) -> AgentStateView {
    AgentStateView {
        id: agent_id,
        name: agent_name(agent_id),
        status: "idle"@,
        state: seq![("lastCity"@, "San Francisco"@)],
    }
}

/// Every record that the operations answer with is well-formed, is named
/// after its agent, and keeps the identifier as it was given.
pub proof fn lemma_records_well_formed(agent_id: Seq<char>, status: Seq<char>)
    ensures
        bare_record(agent_id, status).well_formed(),
        idle_record(agent_id).well_formed(),
        bare_record(agent_id, status).id == agent_id,
        idle_record(agent_id).id == agent_id,
        bare_record(agent_id, status).name == idle_record(agent_id).name,
        agent_name(agent_id).len() == "Agent-"@.len() + agent_id.len(),
        agent_name(agent_id).subrange("Agent-"@.len() as int, agent_name(agent_id).len() as int)
            == agent_id,
{
    let name = agent_name(agent_id);
    assert(name.subrange("Agent-"@.len() as int, name.len() as int) =~= agent_id);
}

/// Builds the display name of an agent.
fn display_name(agent_id: &str) -> (name: String)
    ensures
        name@ == agent_name(agent_id@),
{
    String::from_str("Agent-").concat(agent_id)
}

/// Builds a record with an empty state object.
fn record_without_state(agent_id: String, status: &str) -> (record: AgentState)
    ensures
        record@ == bare_record(agent_id@, status@),
{
    let name = display_name(agent_id.as_str());
    let record = AgentState {
        id: agent_id,
        name,
        status: String::from_str(status),
        state: Vec::new(),
    };
    assert(record@.state =~= Seq::empty());
    record
}

/// Starts an agent and answers with its record, in status `running`.
pub fn run_agent(agent_id: String) -> (answer: Result<AgentState, String>)
    ensures
        answer is Ok,
        answer->Ok_0@ == bare_record(agent_id@, "running"@),
        answer->Ok_0@.well_formed(),
{
    Ok(record_without_state(agent_id, "running"))
}

/// Stops an agent and answers with its record, in status `stopped`.
pub fn stop_agent(agent_id: String) -> (answer: Result<AgentState, String>)
    ensures
        answer is Ok,
        answer->Ok_0@ == bare_record(agent_id@, "stopped"@),
        answer->Ok_0@.well_formed(),
{
    Ok(record_without_state(agent_id, "stopped"))
}

/// Answers with the current record of an agent: idle, with its state.
pub fn get_agent_state(agent_id: String) -> (answer: Result<AgentState, String>)
    ensures
        answer is Ok,
        answer->Ok_0@ == idle_record(agent_id@),
        answer->Ok_0@.well_formed(),
{
    let name = display_name(agent_id.as_str());
    let mut state: Vec<StateField> = Vec::new();
    state.push(
        StateField { key: String::from_str("lastCity"), value: String::from_str("San Francisco") },
    );
    let record = AgentState { id: agent_id, name, status: String::from_str("idle"), state };
    assert(record@.state =~= seq![("lastCity"@, "San Francisco"@)]);
    Ok(record)
}

} // verus!
