//! The hook-event domain: contexts and data inputs for matching tool-use
//! hook events, plus a small declarative rule language compiled onto the
//! engine.

use vstd::prelude::*;

verus! {

use crate::config::ConfigValue;
use crate::data_input::DataInput;
use crate::errors::ErrorView;
use crate::errors::MatcherError;
use crate::kvmap::KvMap;
use crate::matching_data::MatchingData;
use crate::registry::IntoDataInput;
use crate::registry::RegistryBuilder;
use crate::registry::register_core_matchers;
use crate::input_matcher::InputMatcher;
use crate::input_matcher::CoreMatcher;
use crate::predicate::Predicate;
use crate::predicate::SinglePredicate;
use vstd::string::StringExecFns;

/// All hook event types.
#[derive(Debug, Clone, Copy, PartialEq, Eq, Structural)]
pub enum HookEvent {
    /// Before a tool executes.
    PreToolUse,
    /// After a tool completes.
    PostToolUse,
    /// The main agent considers stopping.
    Stop,
    /// A subagent considers stopping.
    SubagentStop,
    /// The user submits a prompt.
    UserPromptSubmit,
    /// A session begins.
    SessionStart,
    /// A session ends.
    SessionEnd,
    /// Before context compaction.
    PreCompact,
    /// A notification is sent to the user.
    Notification,
}

impl HookEvent {
    /// The stable name of this event.
    pub open spec fn spec_name(&self) -> Seq<char> {
        match self {
            HookEvent::PreToolUse => "PreToolUse"@,
            HookEvent::PostToolUse => "PostToolUse"@,
            HookEvent::Stop => "Stop"@,
            HookEvent::SubagentStop => "SubagentStop"@,
            HookEvent::UserPromptSubmit => "UserPromptSubmit"@,
            HookEvent::SessionStart => "SessionStart"@,
            HookEvent::SessionEnd => "SessionEnd"@,
            HookEvent::PreCompact => "PreCompact"@,
            HookEvent::Notification => "Notification"@,
        }
    }

    /// Convert to the stable string representation.
    pub fn as_str(&self) -> (r: &'static str)
        ensures
            r@ == self.spec_name(),
    {
        match self {
            HookEvent::PreToolUse => "PreToolUse",
            HookEvent::PostToolUse => "PostToolUse",
            HookEvent::Stop => "Stop",
            HookEvent::SubagentStop => "SubagentStop",
            HookEvent::UserPromptSubmit => "UserPromptSubmit",
            HookEvent::SessionStart => "SessionStart",
            HookEvent::SessionEnd => "SessionEnd",
            HookEvent::PreCompact => "PreCompact",
            HookEvent::Notification => "Notification",
        }
    }
}

/// A hook context: everything available at the hook enforcement point.
pub struct HookContext {
    /// The hook event type.
    pub event: HookEvent,
    /// The rendering of the event name, kept in step with `event`.
    pub event_name: String,
    /// The tool name; empty for non-tool events.
    pub tool_name: String,
    /// The tool arguments.
    pub arguments: KvMap,
    /// The session identifier; empty when not set.
    pub session_id: String,
    /// The working directory; empty when not set.
    pub cwd: String,
    /// The git branch, when inside a repository.
    pub git_branch: Option<String>,
}

impl HookContext {
    /// The context is well formed: the cached event name renders the event
    /// and the argument keys are unique.
    pub open spec fn wf(&self) -> bool {
        self.event_name@ == self.event.spec_name() && self.arguments.wf()
    }

    /// What the context binds the given argument name to.
    pub open spec fn spec_argument(&self, name: Seq<char>) -> Option<String> {
        self.arguments.spec_get(name)
    }

    /// Create a context for the given event with the given tool name.
    fn with_event(event: HookEvent, tool_name: String) -> (r: Self)
        ensures
            r.wf(),
            r.event == event,
            r.tool_name == tool_name,
            forall|k: Seq<char>| #[trigger] r.spec_argument(k) is None,
            r.session_id@.len() == 0,
            r.cwd@.len() == 0,
            r.git_branch is None,
    {
        HookContext {
            event,
            event_name: event.as_str().to_owned(),
            tool_name,
            arguments: KvMap::new(),
            session_id: String::new(),
            cwd: String::new(),
            git_branch: None,
        }
    }

    /// Create a context for the moment before a tool executes.
    pub fn pre_tool_use(tool_name: &str) -> (r: Self)
        ensures
            r.wf(),
            r.event == HookEvent::PreToolUse,
            r.tool_name@ == tool_name@,
            forall|k: Seq<char>| #[trigger] r.spec_argument(k) is None,
            r.git_branch is None,
    {
        Self::with_event(HookEvent::PreToolUse, tool_name.to_owned())
    }

    /// Create a context for the moment after a tool completes.
    pub fn post_tool_use(tool_name: &str) -> (r: Self)
        ensures
            r.wf(),
            r.event == HookEvent::PostToolUse,
            r.tool_name@ == tool_name@,
            forall|k: Seq<char>| #[trigger] r.spec_argument(k) is None,
            r.git_branch is None,
    {
        Self::with_event(HookEvent::PostToolUse, tool_name.to_owned())
    }

    /// Create a context for the main agent considering stopping.
    pub fn stop() -> (r: Self)
        ensures
            r.wf(),
            r.event == HookEvent::Stop,
            r.tool_name@.len() == 0,
            forall|k: Seq<char>| #[trigger] r.spec_argument(k) is None,
            r.git_branch is None,
    {
        Self::with_event(HookEvent::Stop, String::new())
    }

    /// Create a context for a subagent considering stopping.
    pub fn subagent_stop() -> (r: Self)
        ensures
            r.wf(),
            r.event == HookEvent::SubagentStop,
            r.tool_name@.len() == 0,
            forall|k: Seq<char>| #[trigger] r.spec_argument(k) is None,
            r.git_branch is None,
    {
        Self::with_event(HookEvent::SubagentStop, String::new())
    }

    /// Create a context for a submitted user prompt.
    pub fn user_prompt_submit() -> (r: Self)
        ensures
            r.wf(),
            r.event == HookEvent::UserPromptSubmit,
            r.tool_name@.len() == 0,
            forall|k: Seq<char>| #[trigger] r.spec_argument(k) is None,
            r.git_branch is None,
    {
        Self::with_event(HookEvent::UserPromptSubmit, String::new())
    }

    /// Create a context for a session beginning.
    pub fn session_start() -> (r: Self)
        ensures
            r.wf(),
            r.event == HookEvent::SessionStart,
            r.tool_name@.len() == 0,
            forall|k: Seq<char>| #[trigger] r.spec_argument(k) is None,
            r.git_branch is None,
    {
        Self::with_event(HookEvent::SessionStart, String::new())
    }

    /// Create a context for a session ending.
    pub fn session_end() -> (r: Self)
        ensures
            r.wf(),
            r.event == HookEvent::SessionEnd,
            r.tool_name@.len() == 0,
            forall|k: Seq<char>| #[trigger] r.spec_argument(k) is None,
            r.git_branch is None,
    {
        Self::with_event(HookEvent::SessionEnd, String::new())
    }

    /// Create a context for the moment before context compaction.
    pub fn pre_compact() -> (r: Self)
        ensures
            r.wf(),
            r.event == HookEvent::PreCompact,
            r.tool_name@.len() == 0,
            forall|k: Seq<char>| #[trigger] r.spec_argument(k) is None,
            r.git_branch is None,
    {
        Self::with_event(HookEvent::PreCompact, String::new())
    }

    /// Create a context for a notification being sent.
    pub fn notification() -> (r: Self)
        ensures
            r.wf(),
            r.event == HookEvent::Notification,
            r.tool_name@.len() == 0,
            forall|k: Seq<char>| #[trigger] r.spec_argument(k) is None,
            r.git_branch is None,
    {
        Self::with_event(HookEvent::Notification, String::new())
    }

    /// Add a tool argument (builder pattern).
    pub fn with_arg(self, name: &str, value: &str) -> (r: Self)
        requires
            self.wf(),
        ensures
            r.wf(),
            r.spec_argument(name@) matches Some(v) && v@ == value@,
            forall|k: Seq<char>|
                k != name@ ==> #[trigger] r.spec_argument(k) == self.spec_argument(k),
            r.event == self.event,
            r.tool_name == self.tool_name,
            r.session_id == self.session_id,
            r.cwd == self.cwd,
            r.git_branch == self.git_branch,
    {
        let mut this = self;
        this.arguments.insert(name.to_owned(), value.to_owned());
        this
    }

    /// Set the session identifier (builder pattern).
    pub fn with_session_id(self, id: &str) -> (r: Self)
        requires
            self.wf(),
        ensures
            r.wf(),
            r.session_id@ == id@,
            r.event == self.event,
            r.tool_name == self.tool_name,
            r.arguments == self.arguments,
            r.cwd == self.cwd,
            r.git_branch == self.git_branch,
    {
        let mut this = self;
        this.session_id = id.to_owned();
        this
    }

    /// Set the working directory (builder pattern).
    pub fn with_cwd(self, cwd: &str) -> (r: Self)
        requires
            self.wf(),
        ensures
            r.wf(),
            r.cwd@ == cwd@,
            r.event == self.event,
            r.tool_name == self.tool_name,
            r.arguments == self.arguments,
            r.session_id == self.session_id,
            r.git_branch == self.git_branch,
    {
        let mut this = self;
        this.cwd = cwd.to_owned();
        this
    }

    /// Set the git branch (builder pattern).
    pub fn with_git_branch(self, branch: &str) -> (r: Self)
        requires
            self.wf(),
        ensures
            r.wf(),
            r.git_branch matches Some(b) && b@ == branch@,
            r.event == self.event,
            r.tool_name == self.tool_name,
            r.arguments == self.arguments,
            r.session_id == self.session_id,
            r.cwd == self.cwd,
    {
        let mut this = self;
        this.git_branch = Some(branch.to_owned());
        this
    }

    /// Get the hook event type.
    pub fn event(&self) -> (r: HookEvent)
        ensures
            r == self.event,
    {
        self.event
    }

    /// Get the tool name (empty for non-tool events).
    pub fn tool_name(&self) -> (r: &str)
        ensures
            r@ == self.tool_name@,
    {
        self.tool_name.as_str()
    }

    /// Get a tool argument by name.
    pub fn argument(&self, name: &str) -> (r: Option<&str>)
        ensures
            match r {
                Some(v) => self.spec_argument(name@) matches Some(w) && v@ == w@,
                None => self.spec_argument(name@) is None,
            },
    {
        match self.arguments.get(name) {
            Some(v) => Some(v.as_str()),
            None => None,
        }
    }

    /// Get the session identifier.
    pub fn session_id(&self) -> (r: &str)
        ensures
            r@ == self.session_id@,
    {
        self.session_id.as_str()
    }

    /// Get the working directory.
    pub fn cwd(&self) -> (r: &str)
        ensures
            r@ == self.cwd@,
    {
        self.cwd.as_str()
    }

    /// Get the git branch, when inside a repository.
    pub fn git_branch(&self) -> (r: Option<&str>)
        ensures
            match r {
                Some(b) => self.git_branch matches Some(c) && b@ == c@,
                None => self.git_branch is None,
            },
    {
        match &self.git_branch {
            Some(b) => Some(b.as_str()),
            None => None,
        }
    }
}

/// Extracts the hook event name.
#[derive(Debug, Clone, Copy)]
pub struct EventInput;

/// Extracts the tool name.
#[derive(Debug, Clone, Copy)]
pub struct ToolNameInput;

/// Extracts a tool argument by name; a missing argument extracts absent
/// data.
#[derive(Debug, Clone)]
pub struct ArgumentInput {
    /// The argument name to extract.
    pub name: String,
}

impl ArgumentInput {
    /// Create a new argument input extractor.
    pub fn new(name: &str) -> (r: Self)
        ensures
            r.name@ == name@,
    {
        ArgumentInput { name: name.to_owned() }
    }
}

/// Extracts the session identifier.
#[derive(Debug, Clone, Copy)]
pub struct SessionIdInput;

/// Extracts the working directory.
#[derive(Debug, Clone, Copy)]
pub struct CwdInput;

/// Extracts the git branch; outside a repository it extracts absent data.
#[derive(Debug, Clone, Copy)]
pub struct GitBranchInput;

/// The sum of the hook-domain inputs, usable inside one predicate tree.
#[derive(Debug, Clone)]
pub enum HookInput {
    /// An [`EventInput`].
    Event(EventInput),
    /// A [`ToolNameInput`].
    ToolName(ToolNameInput),
    /// An [`ArgumentInput`].
    Argument(ArgumentInput),
    /// A [`SessionIdInput`].
    SessionId(SessionIdInput),
    /// A [`CwdInput`].
    Cwd(CwdInput),
    /// A [`GitBranchInput`].
    GitBranch(GitBranchInput),
}

impl DataInput for EventInput {
    type Ctx = HookContext;

    open spec fn spec_get(&self, ctx: &HookContext) -> MatchingData {
        MatchingData::String(ctx.event_name)
    }

    open spec fn spec_data_type(&self) -> Seq<char> {
        "string"@
    }

    open spec fn spec_describe(&self) -> Seq<char> {
        "EventInput"@
    }

    fn get(&self, ctx: &HookContext) -> (r: MatchingData) {
        MatchingData::String(ctx.event_name.clone())
    }

    fn data_type(&self) -> (r: &'static str) {
        "string"
    }

    fn describe(&self) -> (r: String) {
        "EventInput".to_owned()
    }
}

impl DataInput for ToolNameInput {
    type Ctx = HookContext;

    open spec fn spec_get(&self, ctx: &HookContext) -> MatchingData {
        MatchingData::String(ctx.tool_name)
    }

    open spec fn spec_data_type(&self) -> Seq<char> {
        "string"@
    }

    open spec fn spec_describe(&self) -> Seq<char> {
        "ToolNameInput"@
    }

    fn get(&self, ctx: &HookContext) -> (r: MatchingData) {
        MatchingData::String(ctx.tool_name.clone())
    }

    fn data_type(&self) -> (r: &'static str) {
        "string"
    }

    fn describe(&self) -> (r: String) {
        "ToolNameInput".to_owned()
    }
}

impl DataInput for ArgumentInput {
    type Ctx = HookContext;

    open spec fn spec_get(&self, ctx: &HookContext) -> MatchingData {
        match ctx.spec_argument(self.name@) {
            Some(v) => MatchingData::String(v),
            None => MatchingData::Absent,
        }
    }

    open spec fn spec_data_type(&self) -> Seq<char> {
        "string"@
    }

    open spec fn spec_describe(&self) -> Seq<char> {
        "ArgumentInput"@
    }

    fn get(&self, ctx: &HookContext) -> (r: MatchingData) {
        match ctx.arguments.get(self.name.as_str()) {
            Some(v) => MatchingData::String(v.clone()),
            None => MatchingData::Absent,
        }
    }

    fn data_type(&self) -> (r: &'static str) {
        "string"
    }

    fn describe(&self) -> (r: String) {
        "ArgumentInput".to_owned()
    }
}

impl DataInput for SessionIdInput {
    type Ctx = HookContext;

    open spec fn spec_get(&self, ctx: &HookContext) -> MatchingData {
        MatchingData::String(ctx.session_id)
    }

    open spec fn spec_data_type(&self) -> Seq<char> {
        "string"@
    }

    open spec fn spec_describe(&self) -> Seq<char> {
        "SessionIdInput"@
    }

    fn get(&self, ctx: &HookContext) -> (r: MatchingData) {
        MatchingData::String(ctx.session_id.clone())
    }

    fn data_type(&self) -> (r: &'static str) {
        "string"
    }

    fn describe(&self) -> (r: String) {
        "SessionIdInput".to_owned()
    }
}

impl DataInput for CwdInput {
    type Ctx = HookContext;

    open spec fn spec_get(&self, ctx: &HookContext) -> MatchingData {
        MatchingData::String(ctx.cwd)
    }

    open spec fn spec_data_type(&self) -> Seq<char> {
        "string"@
    }

    open spec fn spec_describe(&self) -> Seq<char> {
        "CwdInput"@
    }

    fn get(&self, ctx: &HookContext) -> (r: MatchingData) {
        MatchingData::String(ctx.cwd.clone())
    }

    fn data_type(&self) -> (r: &'static str) {
        "string"
    }

    fn describe(&self) -> (r: String) {
        "CwdInput".to_owned()
    }
}

impl DataInput for GitBranchInput {
    type Ctx = HookContext;

    open spec fn spec_get(&self, ctx: &HookContext) -> MatchingData {
        match ctx.git_branch {
            Some(b) => MatchingData::String(b),
            None => MatchingData::Absent,
        }
    }

    open spec fn spec_data_type(&self) -> Seq<char> {
        "string"@
    }

    open spec fn spec_describe(&self) -> Seq<char> {
        "GitBranchInput"@
    }

    fn get(&self, ctx: &HookContext) -> (r: MatchingData) {
        match &ctx.git_branch {
            Some(b) => MatchingData::String(b.clone()),
            None => MatchingData::Absent,
        }
    }

    fn data_type(&self) -> (r: &'static str) {
        "string"
    }

    fn describe(&self) -> (r: String) {
        "GitBranchInput".to_owned()
    }
}

impl DataInput for HookInput {
    type Ctx = HookContext;

    open spec fn spec_get(&self, ctx: &HookContext) -> MatchingData {
        match self {
            HookInput::Event(i) => i.spec_get(ctx),
            HookInput::ToolName(i) => i.spec_get(ctx),
            HookInput::Argument(i) => i.spec_get(ctx),
            HookInput::SessionId(i) => i.spec_get(ctx),
            HookInput::Cwd(i) => i.spec_get(ctx),
            HookInput::GitBranch(i) => i.spec_get(ctx),
        }
    }

    open spec fn spec_data_type(&self) -> Seq<char> {
        "string"@
    }

    open spec fn spec_describe(&self) -> Seq<char> {
        match self {
            HookInput::Event(i) => i.spec_describe(),
            HookInput::ToolName(i) => i.spec_describe(),
            HookInput::Argument(i) => i.spec_describe(),
            HookInput::SessionId(i) => i.spec_describe(),
            HookInput::Cwd(i) => i.spec_describe(),
            HookInput::GitBranch(i) => i.spec_describe(),
        }
    }

    fn get(&self, ctx: &HookContext) -> (r: MatchingData) {
        match self {
            HookInput::Event(i) => i.get(ctx),
            HookInput::ToolName(i) => i.get(ctx),
            HookInput::Argument(i) => i.get(ctx),
            HookInput::SessionId(i) => i.get(ctx),
            HookInput::Cwd(i) => i.get(ctx),
            HookInput::GitBranch(i) => i.get(ctx),
        }
    }

    fn data_type(&self) -> (r: &'static str) {
        "string"
    }

    fn describe(&self) -> (r: String) {
        match self {
            HookInput::Event(i) => i.describe(),
            HookInput::ToolName(i) => i.describe(),
            HookInput::Argument(i) => i.describe(),
            HookInput::SessionId(i) => i.describe(),
            HookInput::Cwd(i) => i.describe(),
            HookInput::GitBranch(i) => i.describe(),
        }
    }
}

/// Configuration shape for [`ArgumentInput`].
#[derive(Debug, Clone)]
pub struct ArgumentInputConfig {
    /// The argument name to extract.
    pub name: String,
}

/// The factory for the hook domain's inputs.
#[derive(Debug, Clone, Copy)]
pub enum HookInputFactory {
    /// Builds an [`EventInput`].
    Event,
    /// Builds a [`ToolNameInput`].
    ToolName,
    /// Builds an [`ArgumentInput`]; the payload names the argument.
    Argument,
    /// Builds a [`SessionIdInput`].
    SessionId,
    /// Builds a [`CwdInput`].
    Cwd,
    /// Builds a [`GitBranchInput`].
    GitBranch,
}

/// The error rejecting an argument-input payload without a string `name`
/// field.
pub open spec fn argument_config_error() -> Seq<char> {
    "argument input config needs a string field \"name\""@
}

impl IntoDataInput for HookInputFactory {
    type Input = HookInput;

    open spec fn spec_from_config(&self, config: &ConfigValue) -> Result<HookInput, ErrorView> {
        match self {
            HookInputFactory::Event => Ok(HookInput::Event(EventInput)),
            HookInputFactory::ToolName => Ok(HookInput::ToolName(ToolNameInput)),
            HookInputFactory::Argument => match config.spec_get("name"@) {
                Some(v) => match v {
                    ConfigValue::Str(name) => Ok(HookInput::Argument(ArgumentInput { name })),
                    _ => Err(ErrorView::InvalidConfig { source: argument_config_error() }),
                },
                None => Err(ErrorView::InvalidConfig { source: argument_config_error() }),
            },
            HookInputFactory::SessionId => Ok(HookInput::SessionId(SessionIdInput)),
            HookInputFactory::Cwd => Ok(HookInput::Cwd(CwdInput)),
            HookInputFactory::GitBranch => Ok(HookInput::GitBranch(GitBranchInput)),
        }
    }

    fn from_config(&self, config: &ConfigValue) -> (r: Result<HookInput, MatcherError>) {
        match self {
            HookInputFactory::Event => Ok(HookInput::Event(EventInput)),
            HookInputFactory::ToolName => Ok(HookInput::ToolName(ToolNameInput)),
            HookInputFactory::Argument => match config.get("name") {
                Some(v) => match v.as_string() {
                    Some(name) => Ok(HookInput::Argument(ArgumentInput { name: name.clone() })),
                    None => Err(
                        MatcherError::InvalidConfig {
                            source: "argument input config needs a string field \"name\""
                                .to_owned(),
                        },
                    ),
                },
                None => Err(
                    MatcherError::InvalidConfig {
                        source: "argument input config needs a string field \"name\"".to_owned(),
                    },
                ),
            },
            HookInputFactory::SessionId => Ok(HookInput::SessionId(SessionIdInput)),
            HookInputFactory::Cwd => Ok(HookInput::Cwd(CwdInput)),
            HookInputFactory::GitBranch => Ok(HookInput::GitBranch(GitBranchInput)),
        }
    }
}

/// Register the hook domain: the core matchers and the six hook inputs
/// under their stable type URLs.
pub fn register(builder: RegistryBuilder<HookInputFactory>) -> (r: RegistryBuilder<
    HookInputFactory,
>)
    requires
        builder.wf(),
    ensures
        r.wf(),
{
    register_core_matchers(builder).input("xuma.hooks.v1.EventInput", HookInputFactory::Event)
        .input("xuma.hooks.v1.ToolNameInput", HookInputFactory::ToolName)
        .input("xuma.hooks.v1.ArgumentInput", HookInputFactory::Argument)
        .input("xuma.hooks.v1.SessionIdInput", HookInputFactory::SessionId)
        .input("xuma.hooks.v1.CwdInput", HookInputFactory::Cwd)
        .input("xuma.hooks.v1.GitBranchInput", HookInputFactory::GitBranch)
}


// ═══════════════════════════════════════════════════════════════════════
// Declarative hook rules
// ═══════════════════════════════════════════════════════════════════════

/// How to match a string value in a hook rule.
#[derive(Debug, Clone)]
pub enum StringMatch {
    /// Exact equality.
    Exact(String),
    /// Starts with prefix.
    Prefix(String),
    /// Ends with suffix.
    Suffix(String),
    /// Contains substring.
    Contains(String),
    /// Matches a regular expression (linear time).
    Regex(String),
}

/// Error when compiling a hook rule into a matcher.
#[derive(Debug, Clone)]
pub struct CompileError(pub String);

impl CompileError {
    /// Renders this error as a message.
    pub fn message(&self) -> (r: String)
        ensures
            r@ == "hook match compile error: "@ + self.0@,
    {
        let mut out = "hook match compile error: ".to_owned();
        out.append(self.0.as_str());
        out
    }
}

impl StringMatch {
    /// The pattern carried by this match.
    pub open spec fn spec_pattern(&self) -> Seq<char> {
        match self {
            StringMatch::Exact(v) => v@,
            StringMatch::Prefix(v) => v@,
            StringMatch::Suffix(v) => v@,
            StringMatch::Contains(v) => v@,
            StringMatch::Regex(v) => v@,
        }
    }

    /// This match compiles: it is not a regex the engine rejects.
    pub open spec fn spec_ok(&self) -> bool {
        self is Regex ==> crate::compiled_regex::valid_pattern(self.spec_pattern())
    }

    /// What this match accepts, over the matched characters.
    pub open spec fn spec_accepts(&self, s: Seq<char>) -> bool {
        match self {
            StringMatch::Exact(v) => s == v@,
            StringMatch::Prefix(v) => v@.is_prefix_of(s),
            StringMatch::Suffix(v) => v@.is_suffix_of(s),
            StringMatch::Contains(v) => crate::strings::contains_seq(s, v@),
            StringMatch::Regex(v) => crate::compiled_regex::pattern_accepts(v@, s),
        }
    }

    /// Compile this match into a runtime input matcher.
    pub fn to_input_matcher(&self) -> (r: Result<crate::input_matcher::CoreMatcher, CompileError>)
        ensures
            r is Ok <==> self.spec_ok(),
            r matches Ok(m) ==> forall|d: MatchingData|
                #[trigger] m.spec_matches(&d) == (d matches MatchingData::String(s)
                    && self.spec_accepts(s@)),
    {
        match self {
            StringMatch::Exact(v) => Ok(
                crate::input_matcher::CoreMatcher::Exact(
                    crate::input_matcher::ExactMatcher::new(v.as_str()),
                ),
            ),
            StringMatch::Prefix(v) => Ok(
                crate::input_matcher::CoreMatcher::Prefix(
                    crate::input_matcher::PrefixMatcher::new(v.as_str()),
                ),
            ),
            StringMatch::Suffix(v) => Ok(
                crate::input_matcher::CoreMatcher::Suffix(
                    crate::input_matcher::SuffixMatcher::new(v.as_str()),
                ),
            ),
            StringMatch::Contains(v) => Ok(
                crate::input_matcher::CoreMatcher::Contains(
                    crate::input_matcher::ContainsMatcher::new(v.as_str()),
                ),
            ),
            StringMatch::Regex(v) => match crate::input_matcher::StringMatcher::regex(v.as_str()) {
                Ok(m) => Ok(crate::input_matcher::CoreMatcher::Str(m)),
                Err(e) => {
                    let mut out = "invalid regex pattern: ".to_owned();
                    out.append(e.message().as_str());
                    Err(CompileError(out))
                },
            },
        }
    }

    /// The rendering of this match, naming the strategy and the pattern.
    pub open spec fn spec_display(&self) -> Seq<char> {
        match self {
            StringMatch::Exact(v) => crate::input_matcher::spec_quoted("Exact"@, v@),
            StringMatch::Prefix(v) => crate::input_matcher::spec_quoted("Prefix"@, v@),
            StringMatch::Suffix(v) => crate::input_matcher::spec_quoted("Suffix"@, v@),
            StringMatch::Contains(v) => crate::input_matcher::spec_quoted("Contains"@, v@),
            StringMatch::Regex(v) => crate::input_matcher::spec_quoted("Regex"@, v@),
        }
    }

    /// Renders this match for diagnostics.
    pub fn display_string(&self) -> (r: String)
        ensures
            r@ == self.spec_display(),
    {
        match self {
            StringMatch::Exact(v) => crate::input_matcher::render_quoted("Exact", v.as_str()),
            StringMatch::Prefix(v) => crate::input_matcher::render_quoted("Prefix", v.as_str()),
            StringMatch::Suffix(v) => crate::input_matcher::render_quoted("Suffix", v.as_str()),
            StringMatch::Contains(v) => crate::input_matcher::render_quoted(
                "Contains",
                v.as_str(),
            ),
            StringMatch::Regex(v) => crate::input_matcher::render_quoted("Regex", v.as_str()),
        }
    }
}

/// Match a specific tool argument by name.
#[derive(Debug, Clone)]
pub struct ArgumentMatch {
    /// The argument name to look up.
    pub name: String,
    /// How to match the argument's value.
    pub value: StringMatch,
}

/// A declarative rule over hook contexts. All present fields must match;
/// omitted fields match anything.
#[derive(Debug, Clone)]
pub struct HookMatch {
    /// Match on the hook event type (exact).
    pub event: Option<HookEvent>,
    /// Match on the tool name.
    pub tool_name: Option<StringMatch>,
    /// Match on specific tool arguments (all must match).
    pub arguments: Option<Vec<ArgumentMatch>>,
    /// Match on the working directory.
    pub cwd: Option<StringMatch>,
    /// Match on the git branch.
    pub git_branch: Option<StringMatch>,
}

impl Default for HookMatch {
    /// The empty rule, which matches every context.
    fn default() -> (r: Self)
        ensures
            r.event is None,
            r.tool_name is None,
            r.arguments is None,
            r.cwd is None,
            r.git_branch is None,
    {
        HookMatch { event: None, tool_name: None, arguments: None, cwd: None, git_branch: None }
    }
}

/// Every argument match in the list compiles.
pub open spec fn spec_args_ok(ams: Seq<ArgumentMatch>) -> bool {
    forall|i: int| 0 <= i < ams.len() ==> (#[trigger] ams[i]).value.spec_ok()
}

impl HookMatch {
    /// Every match in this rule compiles: no regex the engine rejects.
    pub open spec fn spec_ok(&self) -> bool {
        &&& match &self.tool_name {
            Some(sm) => sm.spec_ok(),
            None => true,
        }
        &&& match &self.arguments {
            Some(ams) => spec_args_ok(ams@),
            None => true,
        }
        &&& match &self.cwd {
            Some(sm) => sm.spec_ok(),
            None => true,
        }
        &&& match &self.git_branch {
            Some(sm) => sm.spec_ok(),
            None => true,
        }
    }

    /// The event condition of this rule.
    pub open spec fn cond_event(&self, ctx: &HookContext) -> bool {
        match self.event {
            Some(ev) => ctx.event_name@ == ev.spec_name(),
            None => true,
        }
    }

    /// The tool-name condition of this rule.
    pub open spec fn cond_tool(&self, ctx: &HookContext) -> bool {
        match &self.tool_name {
            Some(sm) => sm.spec_ok() && sm.spec_accepts(ctx.tool_name@),
            None => true,
        }
    }

    /// The condition of the first `i` argument matches of this rule.
    pub open spec fn cond_args_upto(&self, ctx: &HookContext, i: int) -> bool {
        match &self.arguments {
            Some(ams) => forall|j: int|
                0 <= j < i ==> match ctx.spec_argument((#[trigger] ams@[j]).name@) {
                    Some(v) => ams@[j].value.spec_ok() && ams@[j].value.spec_accepts(v@),
                    None => false,
                },
            None => true,
        }
    }

    /// The arguments condition of this rule.
    pub open spec fn cond_args(&self, ctx: &HookContext) -> bool {
        match &self.arguments {
            Some(ams) => self.cond_args_upto(ctx, ams@.len() as int),
            None => true,
        }
    }

    /// The working-directory condition of this rule.
    pub open spec fn cond_cwd(&self, ctx: &HookContext) -> bool {
        match &self.cwd {
            Some(sm) => sm.spec_ok() && sm.spec_accepts(ctx.cwd@),
            None => true,
        }
    }

    /// The git-branch condition of this rule.
    pub open spec fn cond_branch(&self, ctx: &HookContext) -> bool {
        match &self.git_branch {
            Some(sm) => match ctx.git_branch {
                Some(b) => sm.spec_ok() && sm.spec_accepts(b@),
                None => false,
            },
            None => true,
        }
    }

    /// Whether this rule selects the given context: every present field's
    /// condition holds; a match that does not compile selects nothing.
    pub open spec fn spec_selects(&self, ctx: &HookContext) -> bool {
        self.cond_event(ctx) && self.cond_tool(ctx) && self.cond_args(ctx) && self.cond_cwd(ctx)
            && self.cond_branch(ctx)
    }
}

/// Evaluates a string match against a concrete value, for tracing; an
/// invalid regex matches nothing.
fn trace_string_match(sm: &StringMatch, value: &str) -> (r: bool)
    ensures
        r == (sm.spec_ok() && sm.spec_accepts(value@)),
{
    match sm.to_input_matcher() {
        Ok(m) => {
            let d = MatchingData::String(value.to_owned());
            m.matches(&d)
        },
        Err(_) => false,
    }
}

/// Result of tracing a hook rule against a context: the overall result and
/// one step per checked field.
#[derive(Debug)]
pub struct HookMatchTrace {
    /// Whether the rule selected the context: every step matched.
    pub matched: bool,
    /// Per-field trace steps.
    pub steps: Vec<TraceStep>,
}

/// One field's evaluation in a hook rule trace.
#[derive(Debug)]
pub struct TraceStep {
    /// The checked field.
    pub field: String,
    /// What the rule expected.
    pub expected: String,
    /// What the context held.
    pub actual: String,
    /// Whether this step matched.
    pub matched: bool,
}

/// The number of steps a rule traces: one per present field, one per
/// argument match.
pub open spec fn spec_trace_steps(m: &HookMatch) -> int {
    (if m.event is Some {
        1int
    } else {
        0int
    }) + (if m.tool_name is Some {
        1int
    } else {
        0int
    }) + (match &m.arguments {
        Some(ams) => ams@.len() as int,
        None => 0int,
    }) + (if m.cwd is Some {
        1int
    } else {
        0int
    }) + (if m.git_branch is Some {
        1int
    } else {
        0int
    })
}

impl HookMatch {
    /// Trace this rule against a context, reporting one step per present
    /// field; the overall result equals whether the rule selects the
    /// context.
    pub fn trace(&self, ctx: &HookContext) -> (r: HookMatchTrace)
        ensures
            r.matched == self.spec_selects(ctx),
            r.steps@.len() == spec_trace_steps(self),
    {
        let mut steps: Vec<TraceStep> = Vec::new();
        let mut overall = true;

        if let Some(ev) = &self.event {
            let actual = ctx.event_name.clone();
            let expected = ev.as_str().to_owned();
            let matched = crate::strings::str_eq(actual.as_str(), expected.as_str());
            if !matched {
                overall = false;
            }
            steps.push(TraceStep { field: "event".to_owned(), expected, actual, matched });
        }

        if let Some(tool_match) = &self.tool_name {
            let actual = ctx.tool_name.clone();
            let matched = trace_string_match(tool_match, actual.as_str());
            if !matched {
                overall = false;
            }
            steps.push(
                TraceStep {
                    field: "tool_name".to_owned(),
                    expected: tool_match.display_string(),
                    actual,
                    matched,
                },
            );
        }

        if let Some(ams) = &self.arguments {
            let ghost steps_before = steps@.len() as int;
            let mut i: usize = 0;
            let mut args_all = true;
            while i < ams.len()
                invariant
                    i <= ams@.len(),
                    steps@.len() == steps_before + i,
                    args_all == (forall|j: int|
                        0 <= j < i ==> match ctx.spec_argument((#[trigger] ams@[j]).name@) {
                            Some(v) => ams@[j].value.spec_ok() && ams@[j].value.spec_accepts(v@),
                            None => false,
                        }),
                decreases ams@.len() - i,
            {
                let am = &ams[i];
                let mut matched: bool = false;
                let mut actual: String = "<missing>".to_owned();
                match ctx.arguments.get(am.name.as_str()) {
                    Some(v) => {
                        actual = v.clone();
                        matched = trace_string_match(&am.value, v.as_str());
                    },
                    None => {},
                }
                let ghost old_all = args_all;
                if !matched {
                    args_all = false;
                }
                let mut field = "argument[".to_owned();
                field.append(am.name.as_str());
                field.append("]");
                steps.push(
                    TraceStep { field, expected: am.value.display_string(), actual, matched },
                );
                i += 1;
                proof {
                    let cond = |j: int|
                        match ctx.spec_argument(ams@[j].name@) {
                            Some(v) => ams@[j].value.spec_ok() && ams@[j].value.spec_accepts(v@),
                            None => false,
                        };
                    assert(matched == cond(i - 1));
                    assert(args_all == (forall|j: int|
                        0 <= j < i ==> match ctx.spec_argument((#[trigger] ams@[j]).name@) {
                            Some(v) => ams@[j].value.spec_ok() && ams@[j].value.spec_accepts(v@),
                            None => false,
                        })) by {
                        if args_all {
                            assert(old_all && matched);
                            assert forall|j: int| 0 <= j < i implies match ctx.spec_argument(
                                (#[trigger] ams@[j]).name@,
                            ) {
                                Some(v) => ams@[j].value.spec_ok() && ams@[j].value.spec_accepts(
                                    v@,
                                ),
                                None => false,
                            } by {
                                if j == i - 1 {
                                    assert(cond(j));
                                }
                            }
                        } else {
                            if !old_all {
                                let w = choose|j: int|
                                    0 <= j < i - 1 && !(match ctx.spec_argument(
                                        (#[trigger] ams@[j]).name@,
                                    ) {
                                        Some(v) => ams@[j].value.spec_ok()
                                            && ams@[j].value.spec_accepts(v@),
                                        None => false,
                                    });
                            } else {
                                assert(!cond(i - 1));
                            }
                        }
                    }
                }
            }
            if !args_all {
                overall = false;
            }
        }

        if let Some(cwd_match) = &self.cwd {
            let actual = ctx.cwd.clone();
            let matched = trace_string_match(cwd_match, actual.as_str());
            if !matched {
                overall = false;
            }
            steps.push(
                TraceStep {
                    field: "cwd".to_owned(),
                    expected: cwd_match.display_string(),
                    actual,
                    matched,
                },
            );
        }

        if let Some(branch_match) = &self.git_branch {
            let mut matched: bool = false;
            let mut actual: String = "<none>".to_owned();
            match &ctx.git_branch {
                Some(b) => {
                    actual = b.clone();
                    matched = trace_string_match(branch_match, b.as_str());
                },
                None => {},
            }
            if !matched {
                overall = false;
            }
            steps.push(
                TraceStep {
                    field: "git_branch".to_owned(),
                    expected: branch_match.display_string(),
                    actual,
                    matched,
                },
            );
        }

        HookMatchTrace { matched: overall, steps }
    }
}


/// The catch-all predicate: matches every hook context.
fn catch_all_predicate() -> (r: Predicate<HookInput, CoreMatcher>)
    ensures
        forall|ctx: HookContext| #[trigger] r.spec_evaluate(&ctx),
{
    let pm = crate::input_matcher::PrefixMatcher::new("");
    let pred = Predicate::Single(
        SinglePredicate::new(HookInput::Event(EventInput), CoreMatcher::Prefix(pm)),
    );
    proof {
        reveal_strlit("");
        assert forall|ctx: HookContext| #[trigger] pred.spec_evaluate(&ctx) by {
            let d = MatchingData::String(ctx.event_name);
            assert(!(d is Absent));
            assert(""@.is_prefix_of(ctx.event_name@)) by {
                assert(""@.len() == 0);
                assert(""@ =~= ctx.event_name@.subrange(0, 0));
            }
        }
    }
    pred
}

impl HookMatch {
    /// Compile this rule into a predicate over hook contexts: all present
    /// fields are conjoined, and an empty rule matches everything.
    /// Compilation fails exactly when some regex in the rule is invalid,
    /// and the compiled predicate evaluates exactly to whether the rule
    /// selects the context.
    pub fn to_predicate(&self) -> (r: Result<Predicate<HookInput, CoreMatcher>, CompileError>)
        ensures
            r is Ok <==> self.spec_ok(),
            r matches Ok(p) ==> forall|ctx: HookContext|
                #[trigger] p.spec_evaluate(&ctx) == self.spec_selects(&ctx),
    {
        let mut preds: Vec<Predicate<HookInput, CoreMatcher>> = Vec::new();

        if let Some(ev) = &self.event {
            let em = crate::input_matcher::ExactMatcher::new(ev.as_str());
            let pred = Predicate::Single(
                SinglePredicate::new(HookInput::Event(EventInput), CoreMatcher::Exact(em)),
            );
            let ghost gp = pred;
            let ghost prev = preds@;
            preds.push(pred);
            proof {
                assert forall|ctx: HookContext|
                    #[trigger] crate::predicate::spec_eval_all(preds@, &ctx) == self.cond_event(
                    &ctx,
                ) by {
                    reveal_with_fuel(crate::predicate::spec_eval_all, 2);
                    crate::predicate::lemma_eval_all_push(prev, gp, &ctx);
                }
            }
        } else {
            proof {
                assert forall|ctx: HookContext|
                    #[trigger] crate::predicate::spec_eval_all(preds@, &ctx) == self.cond_event(
                    &ctx,
                ) by {
                    reveal_with_fuel(crate::predicate::spec_eval_all, 2);
                }
            }
        }

        if let Some(tool_match) = &self.tool_name {
            let m = match tool_match.to_input_matcher() {
                Ok(m) => m,
                Err(e) => {
                    return Err(e);
                },
            };
            let pred = Predicate::Single(
                SinglePredicate::new(HookInput::ToolName(ToolNameInput), m),
            );
            let ghost gp = pred;
            let ghost prev = preds@;
            preds.push(pred);
            proof {
                assert forall|ctx: HookContext|
                    #[trigger] crate::predicate::spec_eval_all(preds@, &ctx) == (self.cond_event(
                    &ctx,
                ) && self.cond_tool(&ctx)) by {
                    crate::predicate::lemma_eval_all_push(prev, gp, &ctx);
                    assert(crate::predicate::spec_eval_all(prev, &ctx) == self.cond_event(&ctx));
                    let d = MatchingData::String(ctx.tool_name);
                    assert(gp.spec_evaluate(&ctx) == self.cond_tool(&ctx)) by {
                        assert(!(d is Absent));
                    }
                }
            }
        }

        if let Some(ams) = &self.arguments {
            let mut i: usize = 0;
            while i < ams.len()
                invariant
                    self.arguments == Some(*ams),
                    i <= ams@.len(),
                    forall|j: int| 0 <= j < i ==> (#[trigger] ams@[j]).value.spec_ok(),
                    forall|ctx: HookContext|
                        #[trigger] crate::predicate::spec_eval_all(preds@, &ctx) == (
                        self.cond_event(&ctx) && self.cond_tool(&ctx) && self.cond_args_upto(
                            &ctx,
                            i as int,
                        )),
                decreases ams@.len() - i,
            {
                let am = &ams[i];
                let m = match am.value.to_input_matcher() {
                    Ok(m) => m,
                    Err(e) => {
                        proof {
                            assert(!ams@[i as int].value.spec_ok());
                        }
                        return Err(e);
                    },
                };
                let pred = Predicate::Single(
                    SinglePredicate::new(
                        HookInput::Argument(ArgumentInput { name: am.name.clone() }),
                        m,
                    ),
                );
                let ghost gp = pred;
                let ghost prev = preds@;
                preds.push(pred);
                i += 1;
                proof {
                    assert forall|ctx: HookContext|
                        #[trigger] crate::predicate::spec_eval_all(preds@, &ctx) == (
                        self.cond_event(&ctx) && self.cond_tool(&ctx) && self.cond_args_upto(
                            &ctx,
                            i as int,
                        )) by {
                        crate::predicate::lemma_eval_all_push(prev, gp, &ctx);
                        let cond_i = match ctx.spec_argument(ams@[i - 1].name@) {
                            Some(v) => ams@[i - 1].value.spec_ok() && ams@[i - 1].value.spec_accepts(
                                v@,
                            ),
                            None => false,
                        };
                        assert(gp.spec_evaluate(&ctx) == cond_i) by {
                            match ctx.spec_argument(ams@[i - 1].name@) {
                                Some(v) => {
                                    assert(!(MatchingData::String(v) is Absent));
                                },
                                None => {},
                            }
                        }
                        assert(self.cond_args_upto(&ctx, i as int) == (self.cond_args_upto(
                            &ctx,
                            i - 1,
                        ) && cond_i)) by {
                            if self.cond_args_upto(&ctx, i - 1) && cond_i {
                                assert forall|j: int| 0 <= j < i implies match ctx.spec_argument(
                                    (#[trigger] ams@[j]).name@,
                                ) {
                                    Some(v) => ams@[j].value.spec_ok()
                                        && ams@[j].value.spec_accepts(v@),
                                    None => false,
                                } by {
                                    if j < i - 1 {
                                    } else {
                                        assert(cond_i);
                                    }
                                }
                            }
                        }
                    }
                }
            }
        }

        if let Some(cwd_match) = &self.cwd {
            let m = match cwd_match.to_input_matcher() {
                Ok(m) => m,
                Err(e) => {
                    return Err(e);
                },
            };
            let pred = Predicate::Single(SinglePredicate::new(HookInput::Cwd(CwdInput), m));
            let ghost gp = pred;
            let ghost prev = preds@;
            preds.push(pred);
            proof {
                assert forall|ctx: HookContext|
                    #[trigger] crate::predicate::spec_eval_all(preds@, &ctx) == (self.cond_event(
                    &ctx,
                ) && self.cond_tool(&ctx) && self.cond_args(&ctx) && self.cond_cwd(&ctx)) by {
                    crate::predicate::lemma_eval_all_push(prev, gp, &ctx);
                    let d = MatchingData::String(ctx.cwd);
                    assert(gp.spec_evaluate(&ctx) == self.cond_cwd(&ctx)) by {
                        assert(!(d is Absent));
                    }
                }
            }
        }

        if let Some(branch_match) = &self.git_branch {
            let m = match branch_match.to_input_matcher() {
                Ok(m) => m,
                Err(e) => {
                    return Err(e);
                },
            };
            let pred = Predicate::Single(
                SinglePredicate::new(HookInput::GitBranch(GitBranchInput), m),
            );
            let ghost gp = pred;
            let ghost prev = preds@;
            preds.push(pred);
            proof {
                assert forall|ctx: HookContext|
                    #[trigger] crate::predicate::spec_eval_all(preds@, &ctx)
                        == self.spec_selects(&ctx) by {
                    crate::predicate::lemma_eval_all_push(prev, gp, &ctx);
                    assert(gp.spec_evaluate(&ctx) == self.cond_branch(&ctx)) by {
                        match ctx.git_branch {
                            Some(b) => {
                                assert(!(MatchingData::String(b) is Absent));
                            },
                            None => {},
                        }
                    }
                }
            }
        } else {
            proof {
                assert forall|ctx: HookContext|
                    #[trigger] crate::predicate::spec_eval_all(preds@, &ctx)
                        == self.spec_selects(&ctx) by {}
            }
        }

        let ghost final_preds = preds@;
        let n = preds.len();
        let p = Predicate::from_all(preds, catch_all_predicate());
        proof {
            assert forall|ctx: HookContext|
                #[trigger] p.spec_evaluate(&ctx) == self.spec_selects(&ctx) by {
                reveal_with_fuel(crate::predicate::spec_eval_all, 2);
                assert(crate::predicate::spec_eval_all(final_preds, &ctx) == self.spec_selects(
                    &ctx,
                ));
                if n == 0 {
                    assert(p.spec_evaluate(&ctx));
                } else if n == 1 {
                    assert(p == final_preds[0]);
                    assert(final_preds.skip(1) =~= Seq::<Predicate<HookInput, CoreMatcher>>::empty());
                } else {
                }
            }
        }
        Ok(p)
    }

    /// Compile this rule into a matcher that yields the given action when
    /// the rule selects the context, and nothing otherwise.
    pub fn compile<A>(&self, action: A) -> (r: Result<
        crate::matcher::Matcher<HookInput, CoreMatcher, A>,
        CompileError,
    >)
        ensures
            r is Ok <==> self.spec_ok(),
            r matches Ok(m) ==> m.matcher_list@.len() == 1 && m.on_no_match is None && (forall|
                ctx: HookContext,
            |
                #[trigger] m.spec_evaluate(&ctx) == if self.spec_selects(&ctx) {
                    Some(action)
                } else {
                    None::<A>
                }),
    {
        let predicate = match self.to_predicate() {
            Ok(p) => p,
            Err(e) => {
                return Err(e);
            },
        };
        let fm = crate::field_matcher::FieldMatcher::new(
            predicate,
            crate::on_match::OnMatch::Action(action),
        );
        let ghost gfm = fm;
        let mut fms: Vec<crate::field_matcher::FieldMatcher<HookInput, CoreMatcher, A>> =
            Vec::new();
        fms.push(fm);
        let m = crate::matcher::Matcher::new(fms, None);
        proof {
            assert forall|ctx: HookContext|
                #[trigger] m.spec_evaluate(&ctx) == if self.spec_selects(&ctx) {
                    Some(action)
                } else {
                    None::<A>
                } by {
                reveal_with_fuel(crate::matcher::spec_eval_list, 2);
                reveal_with_fuel(crate::matcher::Matcher::spec_evaluate, 2);
                assert(m.matcher_list@[0] == gfm);
                assert(m.matcher_list@.skip(1) =~= Seq::<
                    crate::field_matcher::FieldMatcher<HookInput, CoreMatcher, A>,
                >::empty());
                assert(gfm.predicate.spec_evaluate(&ctx) == self.spec_selects(&ctx));
                assert(gfm.spec_resolution(&ctx) == if self.spec_selects(&ctx) {
                    Some(action)
                } else {
                    None::<A>
                });
            }
        }
        Ok(m)
    }
}

/// Every rule in the list compiles./// Every rule in the list compiles.
pub open spec fn spec_rules_ok(rules: Seq<HookMatch>) -> bool {
    forall|i: int| 0 <= i < rules.len() ==> (#[trigger] rules[i]).spec_ok()
}

/// Some rule in the list selects the context.
pub open spec fn spec_any_rule_selects(
    rules: Seq<HookMatch>,
    ctx: &HookContext,
    i: int,
) -> bool {
    exists|j: int| 0 <= j < i && (#[trigger] rules[j]).spec_selects(ctx)
}

/// Compile several rules into a single matcher: the rules are disjoined,
/// so the action is produced when any rule selects the context; an empty
/// rule list matches everything. The optional fallback action is produced
/// when no rule selects.
pub fn compile_hook_matches<A>(
    rules: &Vec<HookMatch>,
    action: A,
    on_no_match: Option<A>,
) -> (r: Result<crate::matcher::Matcher<HookInput, CoreMatcher, A>, CompileError>)
    ensures
        r is Ok <==> spec_rules_ok(rules@),
        r matches Ok(m) ==> m.matcher_list@.len() == 1 && (m.on_no_match is Some <==> on_no_match
            is Some) && (forall|ctx: HookContext|
            #[trigger] m.spec_evaluate(&ctx) == if rules@.len() == 0 || spec_any_rule_selects(
                rules@,
                &ctx,
                rules@.len() as int,
            ) {
                Some(action)
            } else {
                on_no_match
            }),
{
    let fallback = match on_no_match {
        Some(a) => Some(crate::on_match::OnMatch::Action(a)),
        None => None,
    };
    let ghost gfallback = fallback;
    let predicate: Predicate<HookInput, CoreMatcher> = if rules.len() == 0 {
        catch_all_predicate()
    } else {
        let mut preds: Vec<Predicate<HookInput, CoreMatcher>> = Vec::new();
        let mut i: usize = 0;
        proof {
            assert forall|ctx: HookContext|
                #[trigger] crate::predicate::spec_eval_any(preds@, &ctx) == spec_any_rule_selects(
                rules@,
                &ctx,
                0,
            ) by {
                reveal_with_fuel(crate::predicate::spec_eval_any, 1);
                if spec_any_rule_selects(rules@, &ctx, 0) {
                    let j = choose|j: int| 0 <= j < 0 && rules@[j].spec_selects(&ctx);
                }
            }
        }
        while i < rules.len()
            invariant
                i <= rules@.len(),
                rules@.len() > 0,
                preds@.len() == i,
                forall|j: int| 0 <= j < i ==> (#[trigger] rules@[j]).spec_ok(),
                forall|ctx: HookContext|
                    #[trigger] crate::predicate::spec_eval_any(preds@, &ctx)
                        == spec_any_rule_selects(rules@, &ctx, i as int),
            decreases rules@.len() - i,
        {
            match rules[i].to_predicate() {
                Ok(p) => {
                    let ghost gp = p;
                    let ghost prev = preds@;
                    preds.push(p);
                    i += 1;
                    proof {
                        assert forall|ctx: HookContext|
                            #[trigger] crate::predicate::spec_eval_any(preds@, &ctx)
                                == spec_any_rule_selects(rules@, &ctx, i as int) by {
                            crate::predicate::lemma_eval_any_push(prev, gp, &ctx);
                            assert(gp.spec_evaluate(&ctx) == rules@[i - 1].spec_selects(&ctx));
                            assert(spec_any_rule_selects(rules@, &ctx, i as int) == (
                            spec_any_rule_selects(rules@, &ctx, i - 1) || rules@[
                                i - 1
                            ].spec_selects(&ctx))) by {
                                if spec_any_rule_selects(rules@, &ctx, i as int) {
                                    let j = choose|j: int|
                                        0 <= j < i && (#[trigger] rules@[j]).spec_selects(&ctx);
                                    if j < i - 1 {
                                        assert(spec_any_rule_selects(rules@, &ctx, i - 1));
                                    }
                                }
                                if spec_any_rule_selects(rules@, &ctx, i - 1) {
                                    let j = choose|j: int|
                                        0 <= j < i - 1 && (#[trigger] rules@[j]).spec_selects(
                                            &ctx,
                                        );
                                    assert(0 <= j < i && rules@[j].spec_selects(&ctx));
                                }
                            }
                        }
                    }
                },
                Err(e) => {
                    proof {
                        assert(!rules@[i as int].spec_ok());
                    }
                    return Err(e);
                },
            }
        }
        let ghost gpreds = preds@;
        let p = Predicate::from_any(preds, catch_all_predicate());
        proof {
            assert forall|ctx: HookContext|
                #[trigger] p.spec_evaluate(&ctx) == spec_any_rule_selects(
                rules@,
                &ctx,
                rules@.len() as int,
            ) by {
                reveal_with_fuel(crate::predicate::spec_eval_any, 2);
                reveal_with_fuel(Predicate::spec_evaluate, 2);
                assert(crate::predicate::spec_eval_any(gpreds, &ctx) == spec_any_rule_selects(
                    rules@,
                    &ctx,
                    rules@.len() as int,
                ));
                if gpreds.len() == 1 {
                    assert(p == gpreds[0]);
                    assert(gpreds.skip(1) =~= Seq::<Predicate<HookInput, CoreMatcher>>::empty());
                }
            }
        }
        p
    };
    let ghost gpred = predicate;
    let fm = crate::field_matcher::FieldMatcher::new(
        predicate,
        crate::on_match::OnMatch::Action(action),
    );
    let ghost gfm = fm;
    let mut fms: Vec<crate::field_matcher::FieldMatcher<HookInput, CoreMatcher, A>> = Vec::new();
    fms.push(fm);
    let m = crate::matcher::Matcher::new(fms, fallback);
    proof {
        assert forall|ctx: HookContext|
            #[trigger] m.spec_evaluate(&ctx) == if rules@.len() == 0 || spec_any_rule_selects(
                rules@,
                &ctx,
                rules@.len() as int,
            ) {
                Some(action)
            } else {
                on_no_match
            } by {
            reveal_with_fuel(crate::matcher::spec_eval_list, 2);
            reveal_with_fuel(crate::matcher::Matcher::spec_evaluate, 2);
            reveal_with_fuel(crate::predicate::spec_eval_any, 2);
            assert(m.matcher_list@[0] == gfm);
            assert(m.matcher_list@.skip(1) =~= Seq::<
                crate::field_matcher::FieldMatcher<HookInput, CoreMatcher, A>,
            >::empty());
            if rules@.len() == 0 {
                assert(gpred.spec_evaluate(&ctx));
            } else {
                assert(gpred.spec_evaluate(&ctx) == spec_any_rule_selects(
                    rules@,
                    &ctx,
                    rules@.len() as int,
                ));
            }
            assert(gfm.spec_resolution(&ctx) == if gpred.spec_evaluate(&ctx) {
                Some(action)
            } else {
                None::<A>
            });
            match gfallback {
                Some(om) => {
                    assert(om.spec_resolve(&ctx) == on_no_match);
                },
                None => {},
            }
        }
    }
    Ok(m)
}

} // verus!
