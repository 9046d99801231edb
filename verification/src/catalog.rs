//! Listing the agents and commands that a caller may use.

use crate::api::ApiError;
use crate::errors::ToolError;
use crate::request::AgentPolicyDecision;
use crate::request::CommandPolicyDecision;
use crate::text::cat2;
use crate::tools::ListAgentsTool;
use crate::tools::ListCommandsTool;
use crate::types::AgentInfo;
use crate::types::CommandInfo;
use crate::types::ListAgentsOutput;
use crate::types::ListCommandsOutput;
use vstd::prelude::*;

verus! {

/// An agent that the server offers, with the decision of the policy about it.
#[derive(Debug, Clone)]
pub struct OfferedAgent {
    pub name: String,
    pub description: Option<String>,
    pub hidden: Option<bool>,
    pub decision: AgentPolicyDecision,
}

/// A command that the server offers, with the decision of the policy about it.
#[derive(Debug, Clone)]
pub struct OfferedCommand {
    pub name: String,
    pub description: Option<String>,
    pub decision: CommandPolicyDecision,
}

/// The agents that are neither hidden nor denied, in order.
pub open spec fn visible_agents(agents: Seq<OfferedAgent>) -> Seq<AgentInfo>
    decreases agents.len(),
{
    if agents.len() == 0 {
        Seq::empty()
    } else {
        let rest = visible_agents(agents.drop_last());
        let agent = agents.last();
        if agent.hidden != Some(true) && agent.decision == AgentPolicyDecision::Allowed {
            rest.push(AgentInfo { name: agent.name, description: agent.description })
        } else {
            rest
        }
    }
}

/// The commands that are not denied, in order.
pub open spec fn allowed_commands(commands: Seq<OfferedCommand>) -> Seq<CommandInfo>
    decreases commands.len(),
{
    if commands.len() == 0 {
        Seq::empty()
    } else {
        let rest = allowed_commands(commands.drop_last());
        let command = commands.last();
        if command.decision == CommandPolicyDecision::Allowed {
            rest.push(CommandInfo { name: command.name, description: command.description })
        } else {
            rest
        }
    }
}

/// What becomes of the server's answer about its agents.
pub open spec fn agents_taken(
    reply: Result<Vec<OfferedAgent>, ApiError>,
    r: Result<ListAgentsOutput, ToolError>,
) -> bool {
    match reply {
        Ok(agents) => r is Ok && r->Ok_0.agents@ == visible_agents(agents@),
        Err(error) => r is Err && r->Err_0.is_internal("Failed to list agents: "@ + error.text@),
    }
}

/// What becomes of the server's answer about its commands.
pub open spec fn commands_taken(
    reply: Result<Vec<OfferedCommand>, ApiError>,
    r: Result<ListCommandsOutput, ToolError>,
) -> bool {
    match reply {
        Ok(commands) => r is Ok && r->Ok_0.commands@ == allowed_commands(commands@),
        Err(error) => r is Err && r->Err_0.is_internal("Failed to list commands: "@ + error.text@),
    }
}

impl ListAgentsTool {
    /// The agents that may be selected.
    pub fn list(reply: Result<Vec<OfferedAgent>, ApiError>) -> (r: Result<
        ListAgentsOutput,
        ToolError,
    >)
        ensures
            agents_taken(reply, r),
    {
        let agents = match reply {
            Ok(agents) => agents,
            Err(error) => {
                return Err(
                    ToolError::Internal(cat2("Failed to list agents: ", error.text.as_str())),
                );
            },
        };
        let mut infos: Vec<AgentInfo> = Vec::new();
        for agent in it: agents
            invariant
                it.seq() == agents@,
                infos@ == visible_agents(agents@.take(it.index() as int)),
        {
            proof {
                let done = agents@.take(it.index() + 1);
                assert(done.drop_last() == agents@.take(it.index() as int));
                assert(done.last() == agent);
            }
            let hidden = match agent.hidden {
                Some(hidden) => hidden,
                None => false,
            };
            if !hidden && agent.decision.is_allowed() {
                infos.push(AgentInfo { name: agent.name, description: agent.description });
            }
        }
        assert(agents@.take(agents@.len() as int) == agents@);
        Ok(ListAgentsOutput { agents: infos })
    }
}

impl ListCommandsTool {
    /// The commands that may be run.
    pub fn list(reply: Result<Vec<OfferedCommand>, ApiError>) -> (r: Result<
        ListCommandsOutput,
        ToolError,
    >)
        ensures
            commands_taken(reply, r),
    {
        let commands = match reply {
            Ok(commands) => commands,
            Err(error) => {
                return Err(
                    ToolError::Internal(cat2("Failed to list commands: ", error.text.as_str())),
                );
            },
        };
        let mut infos: Vec<CommandInfo> = Vec::new();
        for command in it: commands
            invariant
                it.seq() == commands@,
                infos@ == allowed_commands(commands@.take(it.index() as int)),
        {
            proof {
                let done = commands@.take(it.index() + 1);
                assert(done.drop_last() == commands@.take(it.index() as int));
                assert(done.last() == command);
            }
            if command.decision.is_allowed() {
                infos.push(CommandInfo { name: command.name, description: command.description });
            }
        }
        assert(commands@.take(commands@.len() as int) == commands@);
        Ok(ListCommandsOutput { commands: infos })
    }
}

/// Every listed agent is one that the server offers, not hidden and allowed.
pub proof fn law_listed_agents_are_usable(agents: Seq<OfferedAgent>, i: int) -> (j: int)
    requires
        0 <= i < visible_agents(agents).len(),
    ensures
        0 <= j < agents.len(),
        visible_agents(agents)[i].name == agents[j].name,
        visible_agents(agents)[i].description == agents[j].description,
        agents[j].hidden != Some(true),
        agents[j].decision == AgentPolicyDecision::Allowed,
    decreases agents.len(),
{
    let rest = visible_agents(agents.drop_last());
    if i < rest.len() {
        law_listed_agents_are_usable(agents.drop_last(), i)
    } else {
        agents.len() - 1
    }
}

/// Every listed command is one that the server offers and that may be run.
pub proof fn law_listed_commands_are_allowed(commands: Seq<OfferedCommand>, i: int) -> (j: int)
    requires
        0 <= i < allowed_commands(commands).len(),
    ensures
        0 <= j < commands.len(),
        allowed_commands(commands)[i].name == commands[j].name,
        allowed_commands(commands)[i].description == commands[j].description,
        commands[j].decision == CommandPolicyDecision::Allowed,
    decreases commands.len(),
{
    let rest = allowed_commands(commands.drop_last());
    if i < rest.len() {
        law_listed_commands_are_allowed(commands.drop_last(), i)
    } else {
        commands.len() - 1
    }
}

/// The list of agents is complete and in order: it is what is left of the offered agents without the hidden
/// and the denied ones, each with its own name and description.
pub proof fn law_agents_are_listed_in_full(agents: Seq<OfferedAgent>)
    ensures
        visible_agents(agents) == agents.filter(
            |agent: OfferedAgent|
                agent.hidden != Some(true) && agent.decision == AgentPolicyDecision::Allowed,
        ).map_values(
            |agent: OfferedAgent| AgentInfo { name: agent.name, description: agent.description },
        ),
    decreases agents.len(),
{
    reveal(Seq::filter);
    let usable = |agent: OfferedAgent|
        agent.hidden != Some(true) && agent.decision == AgentPolicyDecision::Allowed;
    let shown = |agent: OfferedAgent|
        AgentInfo { name: agent.name, description: agent.description };
    if agents.len() > 0 {
        law_agents_are_listed_in_full(agents.drop_last());
        let rest = agents.drop_last().filter(usable);
        if usable(agents.last()) {
            assert(rest.push(agents.last()).map_values(shown) =~= rest.map_values(shown).push(
                shown(agents.last()),
            ));
        }
    } else {
        assert(agents.filter(usable).map_values(shown) =~= Seq::<AgentInfo>::empty());
    }
}

/// What agents are offered later changes nothing of what is listed of those offered earlier, and comes
/// behind it.
pub proof fn law_agents_keep_their_order(earlier: Seq<OfferedAgent>, later: Seq<OfferedAgent>)
    ensures
        visible_agents(earlier + later) == visible_agents(earlier) + visible_agents(later),
    decreases later.len(),
{
    if later.len() == 0 {
        assert(earlier + later == earlier);
        assert(visible_agents(earlier) + visible_agents(later) == visible_agents(earlier));
    } else {
        law_agents_keep_their_order(earlier, later.drop_last());
        assert((earlier + later).drop_last() == earlier + later.drop_last());
        assert((earlier + later).last() == later.last());
        assert(visible_agents(earlier + later) =~= visible_agents(earlier) + visible_agents(later));
    }
}

/// Every offered agent that is neither hidden nor denied is listed, with its name and description.
pub proof fn law_usable_agents_are_listed(agents: Seq<OfferedAgent>, j: int) -> (i: int)
    requires
        0 <= j < agents.len(),
        agents[j].hidden != Some(true),
        agents[j].decision == AgentPolicyDecision::Allowed,
    ensures
        0 <= i < visible_agents(agents).len(),
        visible_agents(agents)[i].name == agents[j].name,
        visible_agents(agents)[i].description == agents[j].description,
    decreases agents.len(),
{
    if j < agents.len() - 1 {
        law_usable_agents_are_listed(agents.drop_last(), j)
    } else {
        visible_agents(agents.drop_last()).len() as int
    }
}

/// The list of commands is complete and in order: it is what is left of the offered commands without the
/// denied ones, each with its own name and description.
pub proof fn law_commands_are_listed_in_full(commands: Seq<OfferedCommand>)
    ensures
        allowed_commands(commands) == commands.filter(
            |command: OfferedCommand| command.decision == CommandPolicyDecision::Allowed,
        ).map_values(
            |command: OfferedCommand|
                CommandInfo { name: command.name, description: command.description },
        ),
    decreases commands.len(),
{
    reveal(Seq::filter);
    let usable = |command: OfferedCommand| command.decision == CommandPolicyDecision::Allowed;
    let shown = |command: OfferedCommand|
        CommandInfo { name: command.name, description: command.description };
    if commands.len() > 0 {
        law_commands_are_listed_in_full(commands.drop_last());
        let rest = commands.drop_last().filter(usable);
        if usable(commands.last()) {
            assert(rest.push(commands.last()).map_values(shown) =~= rest.map_values(shown).push(
                shown(commands.last()),
            ));
        }
    } else {
        assert(commands.filter(usable).map_values(shown) =~= Seq::<CommandInfo>::empty());
    }
}

/// What commands are offered later changes nothing of what is listed of those offered earlier, and comes
/// behind it.
pub proof fn law_commands_keep_their_order(
    earlier: Seq<OfferedCommand>,
    later: Seq<OfferedCommand>,
)
    ensures
        allowed_commands(earlier + later) == allowed_commands(earlier) + allowed_commands(later),
    decreases later.len(),
{
    if later.len() == 0 {
        assert(earlier + later == earlier);
        assert(allowed_commands(earlier) + allowed_commands(later) == allowed_commands(earlier));
    } else {
        law_commands_keep_their_order(earlier, later.drop_last());
        assert((earlier + later).drop_last() == earlier + later.drop_last());
        assert((earlier + later).last() == later.last());
        assert(allowed_commands(earlier + later) =~= allowed_commands(earlier) + allowed_commands(
            later,
        ));
    }
}

/// Every offered command that is allowed is listed, with its name and description.
pub proof fn law_allowed_commands_are_listed(commands: Seq<OfferedCommand>, j: int) -> (i: int)
    requires
        0 <= j < commands.len(),
        commands[j].decision == CommandPolicyDecision::Allowed,
    ensures
        0 <= i < allowed_commands(commands).len(),
        allowed_commands(commands)[i].name == commands[j].name,
        allowed_commands(commands)[i].description == commands[j].description,
    decreases commands.len(),
{
    if j < commands.len() - 1 {
        law_allowed_commands_are_listed(commands.drop_last(), j)
    } else {
        allowed_commands(commands.drop_last()).len() as int
    }
}

/// A list comes back for every answer of the server, and holds what is usable of it; a failure to list is passed
/// on with what the server said.
pub proof fn law_answers_are_listed(
    agents: Result<Vec<OfferedAgent>, ApiError>,
    listed_agents: Result<ListAgentsOutput, ToolError>,
    commands: Result<Vec<OfferedCommand>, ApiError>,
    listed_commands: Result<ListCommandsOutput, ToolError>,
)
    requires
        agents_taken(agents, listed_agents),
        commands_taken(commands, listed_commands),
    ensures
        agents is Ok == listed_agents is Ok,
        commands is Ok == listed_commands is Ok,
        agents is Ok ==> listed_agents->Ok_0.agents@ == agents->Ok_0@.filter(
            |agent: OfferedAgent|
                agent.hidden != Some(true) && agent.decision == AgentPolicyDecision::Allowed,
        ).map_values(
            |agent: OfferedAgent| AgentInfo { name: agent.name, description: agent.description },
        ),
        commands is Ok ==> listed_commands->Ok_0.commands@ == commands->Ok_0@.filter(
            |command: OfferedCommand| command.decision == CommandPolicyDecision::Allowed,
        ).map_values(
            |command: OfferedCommand|
                CommandInfo { name: command.name, description: command.description },
        ),
        agents is Err ==> listed_agents->Err_0 is Internal && listed_agents->Err_0->Internal_0@
            == "Failed to list agents: "@ + agents->Err_0.text@,
        commands is Err ==> listed_commands->Err_0 is Internal
            && listed_commands->Err_0->Internal_0@ == "Failed to list commands: "@
            + commands->Err_0.text@,
{
    if let Ok(offered) = agents {
        law_agents_are_listed_in_full(offered@);
    }
    if let Ok(offered) = commands {
        law_commands_are_listed_in_full(offered@);
    }
}

} // verus!
