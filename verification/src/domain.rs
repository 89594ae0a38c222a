//! Plain data types of the task-management domain: spaces (projects),
//! tasks, subtasks, agents and settings rows as the storage layer returns
//! them.

use vstd::prelude::*;

verus! {

/// A project (also called a space): a container of tasks.
#[derive(Debug)]
pub struct Project {
    pub id: i64,
    pub title: String,
    pub description: Option<String>,
    pub color: String,
    pub created_at: String,
    pub updated_at: String,
}

/// The fields needed to create a project.
#[derive(Debug)]
pub struct NewProject {
    pub title: String,
    pub description: Option<String>,
    pub color: Option<String>,
}

/// A task of a project.
#[derive(Debug)]
pub struct Task {
    pub id: i64,
    pub project_id: i64,
    pub title: String,
    pub description: Option<String>,
    pub status: String,
    pub priority: String,
    pub due_date: Option<String>,
    pub scheduled_date: Option<String>,
    pub created_at: String,
    pub updated_at: String,
}

/// The fields needed to create a task.
#[derive(Debug)]
pub struct NewTask {
    pub project_id: i64,
    pub title: String,
    pub description: Option<String>,
    pub status: Option<String>,
    pub priority: Option<String>,
    pub due_date: Option<String>,
}

/// A subtask of a task. Subtasks are created by the planning workflow and
/// never mutated by it afterwards.
#[derive(Debug)]
pub struct SubTask {
    pub id: i64,
    pub task_id: i64,
    pub title: String,
    pub description: Option<String>,
    pub completed: bool,
    pub created_at: String,
    pub updated_at: String,
}

/// The fields needed to create a subtask.
#[derive(Debug)]
pub struct NewSubTask {
    pub task_id: i64,
    pub title: String,
    pub description: Option<String>,
}

/// A task together with its subtasks.
#[derive(Debug)]
pub struct TaskWithSubTasks {
    pub task: Task,
    pub subtasks: Vec<SubTask>,
}

/// A project together with its tasks.
#[derive(Debug)]
pub struct ProjectWithTasks {
    pub project: Project,
    pub tasks: Vec<TaskWithSubTasks>,
}

/// A configured agent persona. `system_role` is `Some("planning")` for the
/// single orchestrator agent; worker agents carry no system role.
#[derive(Debug)]
pub struct Agent {
    pub id: i32,
    pub name: String,
    pub model_name: String,
    pub agent_prompt: String,
    pub system_role: Option<String>,
}

/// The mathematical content of an agent.
#[verifier::ext_equal]
pub struct AgentV {
    pub id: i32,
    pub name: Seq<char>,
    pub model_name: Seq<char>,
    pub agent_prompt: Seq<char>,
    pub system_role: Option<Seq<char>>,
}

impl View for Agent {
    type V = AgentV;

    open spec fn view(&self) -> AgentV {
        AgentV {
            id: self.id,
            name: self.name@,
            model_name: self.model_name@,
            agent_prompt: self.agent_prompt@,
            system_role: self.system_role.deep_view(),
        }
    }
}

/// The views of an agent sequence.
pub open spec fn agents_view(v: Seq<Agent>) -> Seq<AgentV> {
    v.map_values(|a: Agent| a@)
}

/// Copy an agent; the copy carries the same content.
pub fn clone_agent(a: &Agent) -> (r: Agent)
    ensures
        r@ == a@,
{
    Agent {
        id: a.id,
        name: a.name.clone(),
        model_name: a.model_name.clone(),
        agent_prompt: a.agent_prompt.clone(),
        system_role: match &a.system_role {
            Some(s) => Some(s.clone()),
            None => None,
        },
    }
}

/// Copy an agent list; the copy carries the same agents.
pub fn clone_agents(v: &Vec<Agent>) -> (r: Vec<Agent>)
    ensures
        agents_view(r@) == agents_view(v@),
{
    let mut out: Vec<Agent> = Vec::new();
    let mut i: usize = 0;
    while i < v.len()
        invariant
            0 <= i <= v@.len(),
            out@.len() == i,
            forall|k: int| 0 <= k < i ==> (#[trigger] out@[k])@ == v@[k]@,
        decreases v@.len() - i,
    {
        out.push(clone_agent(&v[i]));
        i += 1;
    }
    proof {
        assert(agents_view(out@) =~= agents_view(v@));
    }
    out
}

/// One planned subtask before insertion.
#[derive(Debug)]
pub struct SubtaskPlan {
    pub title: String,
    pub description: String,
    pub agent_id: Option<i32>,
}

/// One key/value settings row.
#[derive(Debug)]
pub struct Setting {
    pub key: String,
    pub value: String,
}

} // verus!
