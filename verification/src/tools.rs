//! The tools and what they know of the server.

use std::sync::Arc;
use vstd::prelude::*;

verus! {

/// Time limits of a supervised run, in nanoseconds.
#[derive(Debug, Clone, Copy)]
pub struct RunLimits {
    /// Longest that one call may take.
    pub session_deadline: u64,
    /// Longest time without any activity.
    pub inactivity_timeout: u64,
    /// How long work that was just handed over may take to show activity.
    pub idle_grace: u64,
}

/// What the tools read of the shared server.
#[derive(Debug, Clone, Copy)]
pub struct OrchestratorServerHandle {
    pub limits: RunLimits,
}

/// Tool for starting or resuming sessions.
///
/// Creates the session, hands over a prompt or a command, and watches the session until it completes
/// or needs its caller.
#[derive(Clone)]
pub struct OrchestratorRunTool {
    server: Arc<OrchestratorServerHandle>,
}

/// Tool for listing the sessions of the current directory.
#[derive(Clone)]
pub struct ListSessionsTool {
    server: Arc<OrchestratorServerHandle>,
}

/// Tool for the detailed state of one session.
#[derive(Clone)]
pub struct GetSessionStateTool {
    server: Arc<OrchestratorServerHandle>,
}

/// Tool for listing the agents that can be selected.
#[derive(Clone)]
pub struct ListAgentsTool {
    server: Arc<OrchestratorServerHandle>,
}

/// Tool for listing the commands that can be run.
#[derive(Clone)]
pub struct ListCommandsTool {
    server: Arc<OrchestratorServerHandle>,
}

/// Tool for responding to permission requests.
///
/// After the reply it watches the session until it completes or needs its caller again.
#[derive(Clone)]
pub struct RespondPermissionTool {
    server: Arc<OrchestratorServerHandle>,
}

/// Tool for responding to question requests.
///
/// After the reply it watches the session until it completes or needs its caller again.
#[derive(Clone)]
pub struct RespondQuestionTool {
    server: Arc<OrchestratorServerHandle>,
}

impl OrchestratorRunTool {
    /// The name of the tool.
    pub const NAME: &'static str = "run";

    /// The server that the tool was made with.
    pub closed spec fn handle(&self) -> OrchestratorServerHandle {
        *self.server
    }

    /// A tool on the shared server.
    pub fn new(server: Arc<OrchestratorServerHandle>) -> (r: Self)
        ensures
            r.handle() == *server,
    {
        OrchestratorRunTool { server }
    }

    /// The server that the tool was made with.
    pub fn server(&self) -> (r: &Arc<OrchestratorServerHandle>)
        ensures
            **r == self.handle(),
    {
        &self.server
    }
}

impl ListSessionsTool {
    /// The name of the tool.
    pub const NAME: &'static str = "list_sessions";

    /// The server that the tool was made with.
    pub closed spec fn handle(&self) -> OrchestratorServerHandle {
        *self.server
    }

    /// A tool on the shared server.
    pub fn new(server: Arc<OrchestratorServerHandle>) -> (r: Self)
        ensures
            r.handle() == *server,
    {
        ListSessionsTool { server }
    }

    /// The server that the tool was made with.
    pub fn server(&self) -> (r: &Arc<OrchestratorServerHandle>)
        ensures
            **r == self.handle(),
    {
        &self.server
    }
}

impl GetSessionStateTool {
    /// The name of the tool.
    pub const NAME: &'static str = "get_session_state";

    /// The server that the tool was made with.
    pub closed spec fn handle(&self) -> OrchestratorServerHandle {
        *self.server
    }

    /// A tool on the shared server.
    pub fn new(server: Arc<OrchestratorServerHandle>) -> (r: Self)
        ensures
            r.handle() == *server,
    {
        GetSessionStateTool { server }
    }

    /// The server that the tool was made with.
    pub fn server(&self) -> (r: &Arc<OrchestratorServerHandle>)
        ensures
            **r == self.handle(),
    {
        &self.server
    }
}

impl ListAgentsTool {
    /// The name of the tool.
    pub const NAME: &'static str = "list_agents";

    /// The server that the tool was made with.
    pub closed spec fn handle(&self) -> OrchestratorServerHandle {
        *self.server
    }

    /// A tool on the shared server.
    pub fn new(server: Arc<OrchestratorServerHandle>) -> (r: Self)
        ensures
            r.handle() == *server,
    {
        ListAgentsTool { server }
    }

    /// The server that the tool was made with.
    pub fn server(&self) -> (r: &Arc<OrchestratorServerHandle>)
        ensures
            **r == self.handle(),
    {
        &self.server
    }
}

impl ListCommandsTool {
    /// The name of the tool.
    pub const NAME: &'static str = "list_commands";

    /// The server that the tool was made with.
    pub closed spec fn handle(&self) -> OrchestratorServerHandle {
        *self.server
    }

    /// A tool on the shared server.
    pub fn new(server: Arc<OrchestratorServerHandle>) -> (r: Self)
        ensures
            r.handle() == *server,
    {
        ListCommandsTool { server }
    }

    /// The server that the tool was made with.
    pub fn server(&self) -> (r: &Arc<OrchestratorServerHandle>)
        ensures
            **r == self.handle(),
    {
        &self.server
    }
}

impl RespondPermissionTool {
    /// The name of the tool.
    pub const NAME: &'static str = "respond_permission";

    /// The server that the tool was made with.
    pub closed spec fn handle(&self) -> OrchestratorServerHandle {
        *self.server
    }

    /// A tool on the shared server.
    pub fn new(server: Arc<OrchestratorServerHandle>) -> (r: Self)
        ensures
            r.handle() == *server,
    {
        RespondPermissionTool { server }
    }

    /// The server that the tool was made with.
    pub fn server(&self) -> (r: &Arc<OrchestratorServerHandle>)
        ensures
            **r == self.handle(),
    {
        &self.server
    }
}

impl RespondQuestionTool {
    /// The name of the tool.
    pub const NAME: &'static str = "respond_question";

    /// The server that the tool was made with.
    pub closed spec fn handle(&self) -> OrchestratorServerHandle {
        *self.server
    }

    /// A tool on the shared server.
    pub fn new(server: Arc<OrchestratorServerHandle>) -> (r: Self)
        ensures
            r.handle() == *server,
    {
        RespondQuestionTool { server }
    }

    /// The server that the tool was made with.
    pub fn server(&self) -> (r: &Arc<OrchestratorServerHandle>)
        ensures
            **r == self.handle(),
    {
        &self.server
    }
}

} // verus!
