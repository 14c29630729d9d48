//! The tool vocabulary that the sidebar's activity labels are written in.

use vstd::prelude::*;

verus! {

/// A tool of the shared PascalCase vocabulary.
#[derive(Debug, Clone, Copy, PartialEq, Eq, Structural)]
pub enum CanonicalTool {
    Bash,
    Read,
    Write,
    Edit,
    Grep,
    Glob,
    WebFetch,
    WebSearch,
    ToolSearch,
    Skill,
    NotebookEdit,
    AskUserQuestion,
    TodoWrite,
    TaskCreate,
    TaskUpdate,
    TaskGet,
    TaskStop,
    TaskOutput,
}

impl CanonicalTool {
    /// The tool's name in the shared vocabulary.
    pub open spec fn name(self) -> Seq<char> {
        match self {
            CanonicalTool::Bash => "Bash"@,
            CanonicalTool::Read => "Read"@,
            CanonicalTool::Write => "Write"@,
            CanonicalTool::Edit => "Edit"@,
            CanonicalTool::Grep => "Grep"@,
            CanonicalTool::Glob => "Glob"@,
            CanonicalTool::WebFetch => "WebFetch"@,
            CanonicalTool::WebSearch => "WebSearch"@,
            CanonicalTool::ToolSearch => "ToolSearch"@,
            CanonicalTool::Skill => "Skill"@,
            CanonicalTool::NotebookEdit => "NotebookEdit"@,
            CanonicalTool::AskUserQuestion => "AskUserQuestion"@,
            CanonicalTool::TodoWrite => "TodoWrite"@,
            CanonicalTool::TaskCreate => "TaskCreate"@,
            CanonicalTool::TaskUpdate => "TaskUpdate"@,
            CanonicalTool::TaskGet => "TaskGet"@,
            CanonicalTool::TaskStop => "TaskStop"@,
            CanonicalTool::TaskOutput => "TaskOutput"@,
        }
    }

    /// Every name of the shared vocabulary starts with a capital letter.
    pub proof fn lemma_name_capitalized(self)
        ensures
            self.name().len() > 0,
            'A' <= self.name()[0] <= 'Z',
    {
        reveal_strlit("Bash");
        reveal_strlit("Read");
        reveal_strlit("Write");
        reveal_strlit("Edit");
        reveal_strlit("Grep");
        reveal_strlit("Glob");
        reveal_strlit("WebFetch");
        reveal_strlit("WebSearch");
        reveal_strlit("ToolSearch");
        reveal_strlit("Skill");
        reveal_strlit("NotebookEdit");
        reveal_strlit("AskUserQuestion");
        reveal_strlit("TodoWrite");
        reveal_strlit("TaskCreate");
        reveal_strlit("TaskUpdate");
        reveal_strlit("TaskGet");
        reveal_strlit("TaskStop");
        reveal_strlit("TaskOutput");
    }

    /// The tool's name in the shared vocabulary.
    pub fn as_str(&self) -> (name: &'static str)
        ensures
            name@ == self.name(),
    {
        match self {
            CanonicalTool::Bash => "Bash",
            CanonicalTool::Read => "Read",
            CanonicalTool::Write => "Write",
            CanonicalTool::Edit => "Edit",
            CanonicalTool::Grep => "Grep",
            CanonicalTool::Glob => "Glob",
            CanonicalTool::WebFetch => "WebFetch",
            CanonicalTool::WebSearch => "WebSearch",
            CanonicalTool::ToolSearch => "ToolSearch",
            CanonicalTool::Skill => "Skill",
            CanonicalTool::NotebookEdit => "NotebookEdit",
            CanonicalTool::AskUserQuestion => "AskUserQuestion",
            CanonicalTool::TodoWrite => "TodoWrite",
            CanonicalTool::TaskCreate => "TaskCreate",
            CanonicalTool::TaskUpdate => "TaskUpdate",
            CanonicalTool::TaskGet => "TaskGet",
            CanonicalTool::TaskStop => "TaskStop",
            CanonicalTool::TaskOutput => "TaskOutput",
        }
    }
}

} // verus!
