//! What a caller may ask of the `run` tool.

use crate::errors::ToolError;
use crate::text::cat5;
use crate::text::is_white_space;
use crate::text::law_trimmed_is_the_core;
use crate::text::lemma_occurs_between;
use crate::text::occurs_in;
use crate::text::trim;
use crate::text::trimmed;
use crate::types::OrchestratorRunInput;
use vstd::prelude::*;

verus! {

/// Whether a command may be run.
#[derive(Debug, Clone, Copy, PartialEq, Eq, Structural)]
pub enum CommandPolicyDecision {
    Allowed,
    DeniedByAllowlist,
    DeniedByDenylist,
}

/// Whether an agent may be used.
#[derive(Debug, Clone, Copy, PartialEq, Eq, Structural)]
pub enum AgentPolicyDecision {
    Allowed,
    DeniedByAllowlist,
    DeniedByDenylist,
}

impl CommandPolicyDecision {
    /// Whether the command may be run.
    pub fn is_allowed(self) -> (r: bool)
        ensures
            r == (self == CommandPolicyDecision::Allowed),
    {
        self == CommandPolicyDecision::Allowed
    }
}

impl AgentPolicyDecision {
    /// Whether the agent may be used.
    pub fn is_allowed(self) -> (r: bool)
        ensures
            r == (self == AgentPolicyDecision::Allowed),
    {
        self == AgentPolicyDecision::Allowed
    }
}

/// Whether an error says why a command cannot be run.
pub open spec fn explains_command(
    error: ToolError,
    command: Seq<char>,
    decision: CommandPolicyDecision,
) -> bool {
    match decision {
        CommandPolicyDecision::Allowed => error.is_internal("command unexpectedly allowed"@),
        CommandPolicyDecision::DeniedByAllowlist => error.is_invalid_input(
            "Command '"@ + command + "' cannot be run because "@
                + "it is not present in orchestrator.commands.allow"@ + "."@,
        ),
        CommandPolicyDecision::DeniedByDenylist => error.is_invalid_input(
            "Command '"@ + command + "' cannot be run because "@
                + "it is blocked by orchestrator.commands.deny"@ + "."@,
        ),
    }
}

/// Whether an error says why an agent cannot be used.
pub open spec fn explains_agent(
    error: ToolError,
    agent: Seq<char>,
    decision: AgentPolicyDecision,
) -> bool {
    match decision {
        AgentPolicyDecision::Allowed => error.is_internal("agent unexpectedly allowed"@),
        AgentPolicyDecision::DeniedByAllowlist => error.is_invalid_input(
            "Agent '"@ + agent + "' cannot be used because "@
                + "it is not present in orchestrator.agents.allow"@ + "."@,
        ),
        AgentPolicyDecision::DeniedByDenylist => error.is_invalid_input(
            "Agent '"@ + agent + "' cannot be used because "@
                + "it is blocked by orchestrator.agents.deny"@ + "."@,
        ),
    }
}

/// The error for a command that may not be run.
pub fn blocked_command_error(command: &str, decision: CommandPolicyDecision) -> (r: ToolError)
    ensures
        explains_command(r, command@, decision),
{
    let reason = match decision {
        CommandPolicyDecision::Allowed => {
            return ToolError::Internal("command unexpectedly allowed".to_string());
        },
        CommandPolicyDecision::DeniedByAllowlist => {
            "it is not present in orchestrator.commands.allow"
        },
        CommandPolicyDecision::DeniedByDenylist => "it is blocked by orchestrator.commands.deny",
    };
    ToolError::InvalidInput(cat5("Command '", command, "' cannot be run because ", reason, "."))
}

/// The error for an agent that may not be used.
pub fn blocked_agent_error(agent: &str, decision: AgentPolicyDecision) -> (r: ToolError)
    ensures
        explains_agent(r, agent@, decision),
{
    let reason = match decision {
        AgentPolicyDecision::Allowed => {
            return ToolError::Internal("agent unexpectedly allowed".to_string());
        },
        AgentPolicyDecision::DeniedByAllowlist => "it is not present in orchestrator.agents.allow",
        AgentPolicyDecision::DeniedByDenylist => "it is blocked by orchestrator.agents.deny",
    };
    ToolError::InvalidInput(cat5("Agent '", agent, "' cannot be used because ", reason, "."))
}

/// A checked request to run something or to watch a session.
#[derive(Debug, Clone)]
pub struct RunRequest {
    pub session_id: Option<String>,
    pub command: Option<String>,
    pub agent: Option<String>,
    pub message: Option<String>,
    pub wait_for_activity: bool,
}

/// Whether an optional text is there and holds only white space.
pub open spec fn blank(text: Option<String>) -> bool {
    text is Some && trimmed(text->Some_0@).len() == 0
}

/// What is wrong with an input, the first thing found.
pub open spec fn input_fault(input: OrchestratorRunInput) -> Option<Seq<char>> {
    if input.session_id is None && input.message is None && input.command is None {
        Some(
            "Either session_id (to resume/check status) or message/command (to start work) is required"@,
        )
    } else if input.command is Some && input.message is None {
        Some(
            "message is required when command is specified (becomes $ARGUMENTS for template expansion)"@,
        )
    } else if input.command is Some && input.agent is Some {
        Some("agent cannot be provided when command is specified"@)
    } else if blank(input.message) {
        Some("message cannot be empty or whitespace-only"@)
    } else if blank(input.agent) {
        Some("agent cannot be empty or whitespace-only"@)
    } else {
        None
    }
}

/// Whether one optional text is the other without leading and trailing white space.
pub open spec fn trims(result: Option<String>, text: Option<String>) -> bool {
    match text {
        Some(t) => result is Some && result->Some_0@ == trimmed(t@),
        None => result is None,
    }
}

fn trim_optional(text: &Option<String>) -> (r: Option<String>)
    ensures
        trims(r, *text),
{
    match text {
        Some(t) => Some(trim(t.as_str())),
        None => None,
    }
}

/// Whether a request is an accepted input, with its texts trimmed.
pub open spec fn accepts_as(input: OrchestratorRunInput, request: RunRequest) -> bool {
    &&& request.session_id == input.session_id
    &&& request.command == input.command
    &&& trims(request.agent, input.agent)
    &&& trims(request.message, input.message)
    &&& request.wait_for_activity == (input.wait_for_activity == Some(true))
}

/// Check an input before anything is done about it.
pub fn check_run_input(input: OrchestratorRunInput) -> (r: Result<RunRequest, ToolError>)
    ensures
        match input_fault(input) {
            Some(fault) => r is Err && r->Err_0.is_invalid_input(fault),
            None => {
                &&& r is Ok
                &&& accepts_as(input, r->Ok_0)
                &&& r->Ok_0.session_id == input.session_id
                &&& r->Ok_0.command == input.command
                &&& trims(r->Ok_0.agent, input.agent)
                &&& trims(r->Ok_0.message, input.message)
                &&& r->Ok_0.wait_for_activity == (input.wait_for_activity == Some(true))
            },
        },
{
    if input.session_id.is_none() && input.message.is_none() && input.command.is_none() {
        return Err(
            ToolError::InvalidInput(
                "Either session_id (to resume/check status) or message/command (to start work) is required".to_string(),
            ),
        );
    }
    if input.command.is_some() && input.message.is_none() {
        return Err(
            ToolError::InvalidInput(
                "message is required when command is specified (becomes $ARGUMENTS for template expansion)".to_string(),
            ),
        );
    }
    if input.command.is_some() && input.agent.is_some() {
        return Err(
            ToolError::InvalidInput(
                "agent cannot be provided when command is specified".to_string(),
            ),
        );
    }
    let message = trim_optional(&input.message);
    if let Some(m) = &message {
        if m.as_str().is_empty() {
            return Err(
                ToolError::InvalidInput("message cannot be empty or whitespace-only".to_string()),
            );
        }
    }
    let agent = trim_optional(&input.agent);
    if let Some(a) = &agent {
        if a.as_str().is_empty() {
            return Err(
                ToolError::InvalidInput("agent cannot be empty or whitespace-only".to_string()),
            );
        }
    }
    let wait_for_activity = match input.wait_for_activity {
        Some(wait) => wait,
        None => false,
    };
    Ok(
        RunRequest {
            session_id: input.session_id,
            command: input.command,
            agent,
            message,
            wait_for_activity,
        },
    )
}

/// What becomes of a request whose command and agent were decided on: the first of the two that is denied is
/// explained.
pub open spec fn policies_taken(
    request: RunRequest,
    command_decision: CommandPolicyDecision,
    agent_decision: AgentPolicyDecision,
    r: Result<(), ToolError>,
) -> bool {
    if request.command is Some && command_decision != CommandPolicyDecision::Allowed {
        r is Err && explains_command(r->Err_0, request.command->Some_0@, command_decision)
    } else if request.agent is Some && agent_decision != AgentPolicyDecision::Allowed {
        r is Err && explains_agent(r->Err_0, request.agent->Some_0@, agent_decision)
    } else {
        r is Ok
    }
}

/// Hold a request against the policies. The decisions are those for the command and the agent that
/// the request names.
pub fn check_run_policies(
    request: &RunRequest,
    command_decision: CommandPolicyDecision,
    agent_decision: AgentPolicyDecision,
) -> (r: Result<(), ToolError>)
    ensures
        policies_taken(*request, command_decision, agent_decision, r),
{
    if let Some(command) = &request.command {
        if !command_decision.is_allowed() {
            return Err(blocked_command_error(command.as_str(), command_decision));
        }
    }
    if let Some(agent) = &request.agent {
        if !agent_decision.is_allowed() {
            return Err(blocked_agent_error(agent.as_str(), agent_decision));
        }
    }
    Ok(())
}

/// An accepted request names a session or carries a message, a command comes with a message and
/// without an agent, and neither message nor agent is blank.
pub proof fn law_accepted_requests(input: OrchestratorRunInput)
    requires
        input_fault(input) is None,
    ensures
        input.session_id is Some || input.message is Some,
        input.command is Some ==> input.message is Some && input.agent is None,
        !blank(input.message),
        !blank(input.agent),
{
}

/// An input is accepted exactly if it names a session or carries a message, has a message and no agent with
/// a command, and has neither a blank message nor a blank agent.
pub proof fn law_inputs_are_accepted(input: OrchestratorRunInput)
    ensures
        input_fault(input) is None <==> {
            &&& input.session_id is Some || input.message is Some
            &&& input.command is Some ==> input.message is Some && input.agent is None
            &&& input.message is Some ==> exists|i: int|
                0 <= i < input.message->Some_0@.len() && !is_white_space(
                    #[trigger] input.message->Some_0@[i],
                )
            &&& input.agent is Some ==> exists|i: int|
                0 <= i < input.agent->Some_0@.len() && !is_white_space(
                    #[trigger] input.agent->Some_0@[i],
                )
        },
{
    if input.message is Some {
        lemma_blank_is_white_space(input.message->Some_0@);
    }
    if input.agent is Some {
        lemma_blank_is_white_space(input.agent->Some_0@);
    }
}

proof fn lemma_blank_is_white_space(s: Seq<char>)
    ensures
        trimmed(s).len() == 0 <==> forall|i: int|
            0 <= i < s.len() ==> is_white_space(#[trigger] s[i]),
{
    let (front, back) = law_trimmed_is_the_core(s);
    if trimmed(s).len() == 0 {
        assert forall|i: int| 0 <= i < s.len() implies is_white_space(#[trigger] s[i]) by {
            if i < front.len() {
                assert(s[i] == front[i]);
            } else {
                assert(s[i] == back[i - front.len()]);
            }
        }
    } else {
        assert(s[front.len() as int] == trimmed(s)[0]);
    }
}

/// An accepted input is taken as it is, but for white space around its message and its agent: the session,
/// the command and whether to wait are its own.
pub proof fn law_accepted_inputs_are_kept(input: OrchestratorRunInput, request: RunRequest)
    requires
        accepts_as(input, request),
    ensures
        request.session_id == input.session_id,
        request.command == input.command,
        request.wait_for_activity <==> input.wait_for_activity == Some(true),
        request.message is Some == input.message is Some,
        request.agent is Some == input.agent is Some,
        input.message is Some ==> occurs_in(request.message->Some_0@, input.message->Some_0@),
        input.agent is Some ==> occurs_in(request.agent->Some_0@, input.agent->Some_0@),
        input.message is Some && input.message->Some_0@.len() > 0 && !is_white_space(
            input.message->Some_0@[0],
        ) && !is_white_space(input.message->Some_0@.last()) ==> request.message->Some_0@
            == input.message->Some_0@,
        input.agent is Some && input.agent->Some_0@.len() > 0 && !is_white_space(
            input.agent->Some_0@[0],
        ) && !is_white_space(input.agent->Some_0@.last()) ==> request.agent->Some_0@
            == input.agent->Some_0@,
{
    if input.message is Some {
        lemma_trimmed_within(input.message->Some_0@);
    }
    if input.agent is Some {
        lemma_trimmed_within(input.agent->Some_0@);
    }
}

proof fn lemma_trimmed_within(s: Seq<char>)
    ensures
        occurs_in(trimmed(s), s),
        s.len() > 0 && !is_white_space(s[0]) && !is_white_space(s.last()) ==> trimmed(s) == s,
{
    let (front, back) = law_trimmed_is_the_core(s);
    lemma_occurs_between(front, trimmed(s), back);
    if s.len() > 0 && !is_white_space(s[0]) && !is_white_space(s.last()) {
        if front.len() > 0 {
            assert(s[0] == front[0]);
        }
        if back.len() > 0 {
            assert(s.last() == back.last());
        }
        assert(front.len() == 0 && back.len() == 0);
        assert(s =~= trimmed(s));
    }
}

/// The refusal of a command or an agent names it and the list that denies it, and is a fault of the input.
pub proof fn law_refusals_name_what_is_denied(
    error: ToolError,
    name: Seq<char>,
    command: CommandPolicyDecision,
    agent: AgentPolicyDecision,
)
    ensures
        command != CommandPolicyDecision::Allowed && explains_command(error, name, command)
            ==> error is InvalidInput && occurs_in(name, error->InvalidInput_0@),
        agent != AgentPolicyDecision::Allowed && explains_agent(error, name, agent) ==> error is InvalidInput
            && occurs_in(name, error->InvalidInput_0@),
        command != CommandPolicyDecision::Allowed && explains_command(error, name, command)
            ==> error->InvalidInput_0@ == "Command '"@ + name + "' cannot be run because "@ + (
        if command == CommandPolicyDecision::DeniedByDenylist {
            "it is blocked by orchestrator.commands.deny"@
        } else {
            "it is not present in orchestrator.commands.allow"@
        }) + "."@,
        agent != AgentPolicyDecision::Allowed && explains_agent(error, name, agent)
            ==> error->InvalidInput_0@ == "Agent '"@ + name + "' cannot be used because "@ + (
        if agent == AgentPolicyDecision::DeniedByDenylist {
            "it is blocked by orchestrator.agents.deny"@
        } else {
            "it is not present in orchestrator.agents.allow"@
        }) + "."@,
{
    if command != CommandPolicyDecision::Allowed && explains_command(error, name, command) {
        let rest = error->InvalidInput_0@.skip(("Command '"@ + name).len() as int);
        lemma_occurs_between("Command '"@, name, rest);
        assert(error->InvalidInput_0@ =~= "Command '"@ + name + rest);
    }
    if agent != AgentPolicyDecision::Allowed && explains_agent(error, name, agent) {
        let rest = error->InvalidInput_0@.skip(("Agent '"@ + name).len() as int);
        lemma_occurs_between("Agent '"@, name, rest);
        assert(error->InvalidInput_0@ =~= "Agent '"@ + name + rest);
    }
}

/// A request passes exactly if the command it names and the agent it names are both allowed. A refusal names
/// what was denied.
pub proof fn law_policies_decide(
    request: RunRequest,
    command: CommandPolicyDecision,
    agent: AgentPolicyDecision,
    r: Result<(), ToolError>,
)
    requires
        policies_taken(request, command, agent, r),
    ensures
        r is Ok <==> (request.command is Some ==> command == CommandPolicyDecision::Allowed) && (
        request.agent is Some ==> agent == AgentPolicyDecision::Allowed),
        r is Err ==> r->Err_0 is InvalidInput,
        r is Err && request.command is Some && command != CommandPolicyDecision::Allowed
            ==> occurs_in(request.command->Some_0@, r->Err_0->InvalidInput_0@),
        r is Err && request.agent is Some && (request.command is None || command
            == CommandPolicyDecision::Allowed) ==> occurs_in(
            request.agent->Some_0@,
            r->Err_0->InvalidInput_0@,
        ),
{
    if r is Err && request.command is Some {
        law_refusals_name_what_is_denied(r->Err_0, request.command->Some_0@, command, agent);
    }
    if r is Err && request.agent is Some {
        law_refusals_name_what_is_denied(r->Err_0, request.agent->Some_0@, command, agent);
    }
}

/// Each fault is told by its own text, and the first that an input has is told: nothing to do at all, a command
/// without a message, a command with an agent, a blank message, a blank agent.
pub proof fn law_first_fault_is_told(input: OrchestratorRunInput, fault: Seq<char>)
    requires
        input_fault(input) == Some(fault),
    ensures
        input.command is Some && input.message is None ==> fault
            == "message is required when command is specified (becomes $ARGUMENTS for template expansion)"@,
        input.command is Some && input.message is Some && input.agent is Some ==> fault
            == "agent cannot be provided when command is specified"@,
        input.command is None && input.message is None && input.session_id is None ==> fault
            == "Either session_id (to resume/check status) or message/command (to start work) is required"@,
        input.command is None && input.message is Some && (forall|i: int|
            0 <= i < input.message->Some_0@.len() ==> is_white_space(
                #[trigger] input.message->Some_0@[i],
            )) ==> fault == "message cannot be empty or whitespace-only"@,
        input.command is Some && input.message is Some && input.agent is None ==> fault
            == "message cannot be empty or whitespace-only"@,
        input.command is None && (input.session_id is Some || input.message is Some) && (
        input.message is None || exists|i: int|
            0 <= i < input.message->Some_0@.len() && !is_white_space(
                #[trigger] input.message->Some_0@[i],
            )) ==> fault == "agent cannot be empty or whitespace-only"@,
{
    if input.message is Some {
        lemma_blank_is_white_space(input.message->Some_0@);
    }
}

} // verus!
