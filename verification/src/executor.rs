//! What can be run: the coding-agent backends, and the descriptor of one
//! process to launch.
use crate::text::same_text;
use vstd::prelude::*;

verus! {

/// A coding-agent backend. Its name is what an execution process stores as
/// its executor type, and what a task attempt stores as its executor.
#[derive(Clone, Copy, Debug, PartialEq, Eq, Structural)]
pub enum ExecutorConfig {
    /// The backend that runs nothing and repeats its prompt.
    Echo,
    Amp,
    Gemini,
}

impl ExecutorConfig {
    /// The stored name of a backend.
    pub open spec fn spec_name(self) -> Seq<char> {
        match self {
            ExecutorConfig::Echo => "echo"@,
            ExecutorConfig::Amp => "amp"@,
            ExecutorConfig::Gemini => "gemini"@,
        }
    }

    /// The backend that a stored name stands for, if it stands for one.
    pub open spec fn spec_parse(s: Seq<char>) -> Option<ExecutorConfig> {
        if s == "echo"@ {
            Some(ExecutorConfig::Echo)
        } else if s == "amp"@ {
            Some(ExecutorConfig::Amp)
        } else if s == "gemini"@ {
            Some(ExecutorConfig::Gemini)
        } else {
            None
        }
    }

    /// The stored name of this backend.
    pub fn name(&self) -> (r: &'static str)
        ensures
            r@ == self.spec_name(),
    {
        match self {
            ExecutorConfig::Echo => "echo",
            ExecutorConfig::Amp => "amp",
            ExecutorConfig::Gemini => "gemini",
        }
    }

    /// Reads a stored name. `None` when it names no backend.
    pub fn parse(s: &str) -> (r: Option<ExecutorConfig>)
        ensures
            r == Self::spec_parse(s@),
    {
        if same_text(s, "echo") {
            Some(ExecutorConfig::Echo)
        } else if same_text(s, "amp") {
            Some(ExecutorConfig::Amp)
        } else if same_text(s, "gemini") {
            Some(ExecutorConfig::Gemini)
        } else {
            None
        }
    }

    /// A backend's name reads back as that backend.
    pub proof fn lemma_name_round_trip(self)
        ensures
            Self::spec_parse(self.spec_name()) == Some(self),
    {
        reveal_strlit("echo");
        reveal_strlit("amp");
        reveal_strlit("gemini");
        assert("echo"@.len() == 4);
        assert("amp"@.len() == 3);
        assert("gemini"@.len() == 6);
    }

    /// A name that reads as a backend is that backend's name.
    pub proof fn lemma_parse_is_name(s: Seq<char>)
        ensures
            Self::spec_parse(s) matches Some(c) ==> c.spec_name() == s,
    {
    }
}

/// What a follow-up resumes: the backend's session, and the new prompt.
#[derive(Clone, Debug, PartialEq, Eq)]
pub struct FollowUpInfo {
    pub session_id: String,
    pub prompt: String,
}

pub struct FollowUpInfoView {
    pub session_id: Seq<char>,
    pub prompt: Seq<char>,
}

impl View for FollowUpInfo {
    type V = FollowUpInfoView;

    open spec fn view(&self) -> FollowUpInfoView {
        FollowUpInfoView { session_id: self.session_id@, prompt: self.prompt@ }
    }
}

/// The descriptor of one process to launch.
#[derive(Clone, Debug, PartialEq, Eq)]
pub enum ExecutorType {
    SetupScript(String),
    CleanupScript(String),
    DevServer(String),
    CodingAgent { config: ExecutorConfig, follow_up: Option<FollowUpInfo> },
}

pub enum ExecutorTypeView {
    SetupScript(Seq<char>),
    CleanupScript(Seq<char>),
    DevServer(Seq<char>),
    CodingAgent { config: ExecutorConfig, follow_up: Option<FollowUpInfoView> },
}

impl View for ExecutorType {
    type V = ExecutorTypeView;

    open spec fn view(&self) -> ExecutorTypeView {
        match self {
            ExecutorType::SetupScript(s) => ExecutorTypeView::SetupScript(s@),
            ExecutorType::CleanupScript(s) => ExecutorTypeView::CleanupScript(s@),
            ExecutorType::DevServer(s) => ExecutorTypeView::DevServer(s@),
            ExecutorType::CodingAgent { config, follow_up } => ExecutorTypeView::CodingAgent {
                config: *config,
                follow_up: match follow_up {
                    Some(info) => Some(info@),
                    None => None,
                },
            },
        }
    }
}

/// The kind of an execution process, as its record stores it.
#[derive(Clone, Copy, Debug, PartialEq, Eq, Structural)]
pub enum ExecutionProcessType {
    SetupScript,
    CleanupScript,
    CodingAgent,
    DevServer,
}

/// The kind of a running execution, as the monitoring registry files it.
#[derive(Clone, Copy, Debug, PartialEq, Eq, Structural)]
pub enum ExecutionType {
    SetupScript,
    CleanupScript,
    CodingAgent,
    DevServer,
}

} // verus!
