//! The tool registry: wire names, announcements, definitions, argument maps,
//! and binding a model's raw tool call to a [`ToolType`].

use vstd::prelude::*;
use crate::chat_format::{ParamSchema, ParamSpec, ToolDefFunction, ToolDefinition};
use crate::conversation::{kind_of, ToolKind, ToolType, ToolTypeView};

verus! {

/// The name a tool has on the wire.
pub open spec fn wire_name_of(k: ToolKind) -> Seq<char> {
    match k {
        ToolKind::WebSearch => "web_search"@,
        ToolKind::VisitUrl => "visit_url"@,
        ToolKind::RunBashCommand => "run_bash_command"@,
        ToolKind::ResetBashContainer => "reset_bash_container"@,
        ToolKind::ViewImage => "view_image"@,
        ToolKind::ReadFile => "read_file"@,
        ToolKind::EditFile => "edit_file"@,
        ToolKind::UseSkill => "use_skill"@,
        ToolKind::SetReminder => "set_reminder"@,
        ToolKind::MetaNoOpExtraTurn => "meta_no_op_extra_turn"@,
        ToolKind::MetaMalformed => "meta_malformed_tool_call"@,
    }
}

/// What the user is told when the tool runs: its wire name, except for the
/// internal meta tools, which are never announced.
pub open spec fn announcement_of(k: ToolKind) -> Option<Seq<char>> {
    match k {
        ToolKind::MetaNoOpExtraTurn | ToolKind::MetaMalformed => None,
        _ => Some(wire_name_of(k)),
    }
}

impl ToolKind {
    /// The name this tool has on the wire.
    pub fn wire_name(&self) -> (r: &'static str)
        ensures
            r@ == wire_name_of(*self),
    {
        match self {
            ToolKind::WebSearch => "web_search",
            ToolKind::VisitUrl => "visit_url",
            ToolKind::RunBashCommand => "run_bash_command",
            ToolKind::ResetBashContainer => "reset_bash_container",
            ToolKind::ViewImage => "view_image",
            ToolKind::ReadFile => "read_file",
            ToolKind::EditFile => "edit_file",
            ToolKind::UseSkill => "use_skill",
            ToolKind::SetReminder => "set_reminder",
            ToolKind::MetaNoOpExtraTurn => "meta_no_op_extra_turn",
            ToolKind::MetaMalformed => "meta_malformed_tool_call",
        }
    }

    /// The announcement made when this tool runs, if it is announced at all.
    pub fn announcement(&self) -> (r: Option<&'static str>)
        ensures
            match announcement_of(*self) {
                Some(a) => r matches Some(s) && s@ == a,
                None => r is None,
            },
    {
        match self {
            ToolKind::MetaNoOpExtraTurn | ToolKind::MetaMalformed => None,
            _ => Some(self.wire_name()),
        }
    }
}

impl ToolType {
    /// The wire name of this call's tool.
    pub fn wire_name(&self) -> (r: &'static str)
        ensures
            r@ == wire_name_of(kind_of(self.deep_view())),
    {
        self.kind().wire_name()
    }

    /// The announcement made when this call runs, if any.
    pub fn announcement(&self) -> (r: Option<&'static str>)
        ensures
            match announcement_of(kind_of(self.deep_view())) {
                Some(a) => r matches Some(s) && s@ == a,
                None => r is None,
            },
    {
        self.kind().announcement()
    }
}


// ---------------------------------------------------------------------------
// Tool definitions
/// What the model is told `WebSearch` does.
pub const WEB_SEARCH_DESCRIPTION: &'static str = "Search the web — ONE focused topic per query; search one fact at a time, never pile attributes into a single query. Snippets only, usually not enough for specifics (dates, numbers, names, quotes) — open the best result with visit_url and read it before answering. For several facts, fire several single-topic searches in the same turn (parallel is fine).";
/// What the model is told the `query` argument of `WebSearch` is.
pub const WEB_SEARCH_QUERY_DESCRIPTION: &'static str = "A few keywords for a single focused question, e.g. \"rust async runtime comparison\" or \"Stark Frieren hair color\". Don't pile unrelated attributes into one query — search one fact at a time.";
/// What the model is told `VisitUrl` does.
pub const VISIT_URL_DESCRIPTION: &'static str = "Read a web page in full (its readable text). The normal next step after web_search — open the best result and read it before answering anything detailed or factual; the snippet alone is rarely enough. Also works on a URL the user gave you.";
/// What the model is told the `url` argument of `VisitUrl` is.
pub const VISIT_URL_URL_DESCRIPTION: &'static str = "The full URL to fetch, e.g. \"https://example.com/article\" (typically taken from a web_search result)";
/// What the model is told `RunBashCommand` does.
pub const RUN_BASH_COMMAND_DESCRIPTION: &'static str = "Run a bash command in your own private Linux sandbox (persistent across calls within this conversation; has python3, pip, curl, git, and internet access). Use it to compute, write and run scripts, fetch and process data, install packages — anything a shell can do. The filesystem and installed packages persist between calls, so you can build up state. Not connected to the user's machine.";
/// What the model is told the `command` argument of `RunBashCommand` is.
pub const RUN_BASH_COMMAND_COMMAND_DESCRIPTION: &'static str = "The bash command to run, e.g. \"python3 -c 'print(2**10)'\" or \"pip install requests && python3 script.py\". Multi-line scripts are fine.";
/// What the model is told `ResetBashContainer` does.
pub const RESET_BASH_CONTAINER_DESCRIPTION: &'static str = "Wipe your sandbox and start fresh — destroys the current Linux environment (files, installed packages, processes) and the next run_bash_command boots a clean one. Use if it's in a broken state or you want a clean slate.";
/// What the model is told `ViewImage` does.
pub const VIEW_IMAGE_DESCRIPTION: &'static str = "Privately inspect an image yourself — the user does NOT see it. To show an image to the user, don't use this tool: write the marker `[[attach_image:PATH]]` in your reply instead. The path points to a file in the SAME private Linux environment as run_bash_command — create, download, or generate the image there first (e.g. with matplotlib, imagemagick, or curl). The file must be a valid image (PNG, JPEG, GIF, or WebP). Use it to inspect plots, screenshots, or downloaded images before deciding what to do next.";
/// What the model is told the `path` argument of `ViewImage` is.
pub const VIEW_IMAGE_PATH_DESCRIPTION: &'static str = "Path to the image file inside your bash sandbox, e.g. \"/tmp/plot.png\" or \"chart.png\" (relative to the sandbox working directory).";
/// What the model is told `ReadFile` does.
pub const READ_FILE_DESCRIPTION: &'static str = "Read a text file from your bash sandbox — the SAME private Linux environment as run_bash_command. Returns the file's contents with line numbers. Reads the whole file by default; for a large file, pass offset and/or limit to read a slice.";
/// What the model is told the `path` argument of `ReadFile` is.
pub const READ_FILE_PATH_DESCRIPTION: &'static str = "Path to the file inside your bash sandbox, e.g. \"/home/user/app/main.py\" or \"notes.txt\" (relative to the sandbox working directory).";
/// What the model is told the `offset` argument of `ReadFile` is.
pub const READ_FILE_OFFSET_DESCRIPTION: &'static str = "1-based line number to start reading from. Defaults to the first line.";
/// What the model is told the `limit` argument of `ReadFile` is.
pub const READ_FILE_LIMIT_DESCRIPTION: &'static str = "Maximum number of lines to read, starting at offset. Defaults to the rest of the file.";
/// What the model is told `EditFile` does.
pub const EDIT_FILE_DESCRIPTION: &'static str = "Edit a text file in your bash sandbox by replacing an exact string. `old_string` must appear EXACTLY ONCE in the current file — include enough surrounding context to make it unique — and is replaced with `new_string`. Returns a diff of the change.";
/// What the model is told the `path` argument of `EditFile` is.
pub const EDIT_FILE_PATH_DESCRIPTION: &'static str = "Path to the file inside your bash sandbox (the same one you read_file'd).";
/// What the model is told the `old_string` argument of `EditFile` is.
pub const EDIT_FILE_OLD_STRING_DESCRIPTION: &'static str = "The exact text to replace, copied from read_file output WITHOUT the line-number prefixes. Must match the file exactly (whitespace included) and be unique.";
/// What the model is told the `new_string` argument of `EditFile` is.
pub const EDIT_FILE_NEW_STRING_DESCRIPTION: &'static str = "The text to put in its place. Use an empty string to delete the matched text.";
/// What the model is told `UseSkill` does.
pub const USE_SKILL_DESCRIPTION: &'static str = "Consult your skill library — short reference guides for specific tasks. Available skills: `document_conversion` (converting between document/ebook formats — MOBI, EPUB, PDF, DOCX and more, with the right tool for each). Call it with a skill's name to read that skill in full and follow it, or with NO arguments to list every skill. Use the relevant skill before attempting a task it covers.";
/// What the model is told the `skill` argument of `UseSkill` is.
pub const USE_SKILL_SKILL_DESCRIPTION: &'static str = "The name of the skill to read, exactly as shown in the no-argument listing, e.g. \"document_conversion\". The .md extension, surrounding quotes, and extra spaces are all optional. Omit this field entirely to list all available skills instead of reading one.";
/// What the model is told `SetReminder` does.
pub const SET_REMINDER_DESCRIPTION: &'static str = "Set a reminder to message a user in the future. When the delay elapses, the conversation wakes on its own and you are prompted to send the reminder — so you do NOT keep this turn open waiting; call it, tell the user you've set it, and finish. Compute delay_seconds yourself from the current time in the metadata footer. Note: reminders are lost on a redeploy (they do survive a normal restart).";
/// What the model is told the `delay_seconds` argument of `SetReminder` is.
pub const SET_REMINDER_DELAY_SECONDS_DESCRIPTION: &'static str = "How far in the future to fire, in seconds from now, e.g. 7200 for two hours. Compute it from the current time shown in the footer.";
/// What the model is told the `note` argument of `SetReminder` is.
pub const SET_REMINDER_NOTE_DESCRIPTION: &'static str = "What to remind the user about, in your own words — this is handed back to you when the reminder fires, e.g. \"take your meds\" or \"the meeting with Alex starts in 10 minutes\".";
/// What the model is told the `addressee` argument of `SetReminder` is.
pub const SET_REMINDER_ADDRESSEE_DESCRIPTION: &'static str = "Who the reminder is for — the display name of the user it should be delivered to, as shown in the \"(id) Name:\" tag. In a one-to-one chat this is that user; in a group, whoever asked for it.";
/// What the model is told `MetaNoOpExtraTurn` does.
pub const META_NO_OP_EXTRA_TURN_DESCRIPTION: &'static str = "Give yourself another turn after this reply — use it to say something to the user across multiple steps. Put the first part in this reply's message, call this tool, and you'll be prompted again to continue with the next part. Pointless to call with no message (nothing is sent to the user), and pointless to call alongside other tools (a tool call already earns you another turn).";
/// What the model is told a tool does (`None` for the internal tool).
pub open spec fn tool_description(k: ToolKind) -> Option<Seq<char>> {
    match k {
        ToolKind::WebSearch => Some(WEB_SEARCH_DESCRIPTION@),
        ToolKind::VisitUrl => Some(VISIT_URL_DESCRIPTION@),
        ToolKind::RunBashCommand => Some(RUN_BASH_COMMAND_DESCRIPTION@),
        ToolKind::ResetBashContainer => Some(RESET_BASH_CONTAINER_DESCRIPTION@),
        ToolKind::ViewImage => Some(VIEW_IMAGE_DESCRIPTION@),
        ToolKind::ReadFile => Some(READ_FILE_DESCRIPTION@),
        ToolKind::EditFile => Some(EDIT_FILE_DESCRIPTION@),
        ToolKind::UseSkill => Some(USE_SKILL_DESCRIPTION@),
        ToolKind::SetReminder => Some(SET_REMINDER_DESCRIPTION@),
        ToolKind::MetaNoOpExtraTurn => Some(META_NO_OP_EXTRA_TURN_DESCRIPTION@),
        ToolKind::MetaMalformed => None,
    }
}

/// A tool's parameters as (name, JSON type, description), and which are required.
pub open spec fn tool_parameters(k: ToolKind) -> (Seq<(Seq<char>, Seq<char>, Seq<char>)>, Seq<Seq<char>>) {
    match k {
        ToolKind::WebSearch => (seq![("query"@, "string"@, WEB_SEARCH_QUERY_DESCRIPTION@)], seq!["query"@]),
        ToolKind::VisitUrl => (seq![("url"@, "string"@, VISIT_URL_URL_DESCRIPTION@)], seq!["url"@]),
        ToolKind::RunBashCommand => (seq![("command"@, "string"@, RUN_BASH_COMMAND_COMMAND_DESCRIPTION@)], seq!["command"@]),
        ToolKind::ResetBashContainer => (seq![], seq![]),
        ToolKind::ViewImage => (seq![("path"@, "string"@, VIEW_IMAGE_PATH_DESCRIPTION@)], seq!["path"@]),
        ToolKind::ReadFile => (seq![("path"@, "string"@, READ_FILE_PATH_DESCRIPTION@), ("offset"@, "integer"@, READ_FILE_OFFSET_DESCRIPTION@), ("limit"@, "integer"@, READ_FILE_LIMIT_DESCRIPTION@)], seq!["path"@]),
        ToolKind::EditFile => (seq![("path"@, "string"@, EDIT_FILE_PATH_DESCRIPTION@), ("old_string"@, "string"@, EDIT_FILE_OLD_STRING_DESCRIPTION@), ("new_string"@, "string"@, EDIT_FILE_NEW_STRING_DESCRIPTION@)], seq!["path"@, "old_string"@, "new_string"@]),
        ToolKind::UseSkill => (seq![("skill"@, "string"@, USE_SKILL_SKILL_DESCRIPTION@)], seq![]),
        ToolKind::SetReminder => (seq![("delay_seconds"@, "integer"@, SET_REMINDER_DELAY_SECONDS_DESCRIPTION@), ("note"@, "string"@, SET_REMINDER_NOTE_DESCRIPTION@), ("addressee"@, "string"@, SET_REMINDER_ADDRESSEE_DESCRIPTION@)], seq!["delay_seconds"@, "note"@, "addressee"@]),
        ToolKind::MetaNoOpExtraTurn => (seq![], seq![]),
        ToolKind::MetaMalformed => (Seq::empty(), Seq::empty()),
    }
}

/// Model of a parameter schema: (name, JSON type, description) per property, and the required names.
pub open spec fn schema_view(p: ParamSchema) -> (Seq<(Seq<char>, Seq<char>, Seq<char>)>, Seq<Seq<char>>) {
    (
        p.properties@.map_values(|q: ParamSpec| (q.name@, q.ty@, q.description@)),
        p.required@.map_values(|r: &'static str| r@),
    )
}

fn param(name: &'static str, ty: &'static str, description: &'static str) -> (r: ParamSpec)
    ensures
        r.name == name && r.ty == ty && r.description == description,
{
    ParamSpec { name, ty, description }
}

impl ToolKind {
    /// The definition the model is given of this tool; the internal
    /// malformed-call tool has none and is never advertised.
    pub fn definition(&self) -> (r: Option<ToolDefinition>)
        ensures
            match tool_description(*self) {
                None => r is None,
                Some(desc) => r matches Some(d) && d.kind@ == "function"@ && d.function.name@ == wire_name_of(*self)
                    && d.function.description@ == desc && schema_view(d.function.parameters) == tool_parameters(*self),
            },
    {
        let (description, properties, required): (&'static str, Vec<ParamSpec>, Vec<&'static str>) = match self {
            ToolKind::WebSearch => (WEB_SEARCH_DESCRIPTION, vec![param("query", "string", WEB_SEARCH_QUERY_DESCRIPTION)], vec!["query"]),
            ToolKind::VisitUrl => (VISIT_URL_DESCRIPTION, vec![param("url", "string", VISIT_URL_URL_DESCRIPTION)], vec!["url"]),
            ToolKind::RunBashCommand => (RUN_BASH_COMMAND_DESCRIPTION, vec![param("command", "string", RUN_BASH_COMMAND_COMMAND_DESCRIPTION)], vec!["command"]),
            ToolKind::ResetBashContainer => (RESET_BASH_CONTAINER_DESCRIPTION, vec![], vec![]),
            ToolKind::ViewImage => (VIEW_IMAGE_DESCRIPTION, vec![param("path", "string", VIEW_IMAGE_PATH_DESCRIPTION)], vec!["path"]),
            ToolKind::ReadFile => (READ_FILE_DESCRIPTION, vec![param("path", "string", READ_FILE_PATH_DESCRIPTION), param("offset", "integer", READ_FILE_OFFSET_DESCRIPTION), param("limit", "integer", READ_FILE_LIMIT_DESCRIPTION)], vec!["path"]),
            ToolKind::EditFile => (EDIT_FILE_DESCRIPTION, vec![param("path", "string", EDIT_FILE_PATH_DESCRIPTION), param("old_string", "string", EDIT_FILE_OLD_STRING_DESCRIPTION), param("new_string", "string", EDIT_FILE_NEW_STRING_DESCRIPTION)], vec!["path", "old_string", "new_string"]),
            ToolKind::UseSkill => (USE_SKILL_DESCRIPTION, vec![param("skill", "string", USE_SKILL_SKILL_DESCRIPTION)], vec![]),
            ToolKind::SetReminder => (SET_REMINDER_DESCRIPTION, vec![param("delay_seconds", "integer", SET_REMINDER_DELAY_SECONDS_DESCRIPTION), param("note", "string", SET_REMINDER_NOTE_DESCRIPTION), param("addressee", "string", SET_REMINDER_ADDRESSEE_DESCRIPTION)], vec!["delay_seconds", "note", "addressee"]),
            ToolKind::MetaNoOpExtraTurn => (META_NO_OP_EXTRA_TURN_DESCRIPTION, vec![], vec![]),
            ToolKind::MetaMalformed => return None,
        };
        let parameters = ParamSchema { properties, required };
        assert(schema_view(parameters) =~= tool_parameters(*self));
        Some(ToolDefinition {
            kind: "function",
            function: ToolDefFunction { name: self.wire_name(), description, parameters },
        })
    }
}

/// Every tool kind, in declaration order.
pub open spec fn all_kinds() -> Seq<ToolKind> {
    seq![
        ToolKind::WebSearch, ToolKind::VisitUrl, ToolKind::RunBashCommand, ToolKind::ResetBashContainer,
        ToolKind::ViewImage, ToolKind::ReadFile, ToolKind::EditFile, ToolKind::UseSkill,
        ToolKind::SetReminder, ToolKind::MetaNoOpExtraTurn, ToolKind::MetaMalformed,
    ]
}

/// Every tool kind, in declaration order.
pub fn kinds() -> (r: Vec<ToolKind>)
    ensures
        r@ == all_kinds(),
{
    let r = vec![
        ToolKind::WebSearch, ToolKind::VisitUrl, ToolKind::RunBashCommand, ToolKind::ResetBashContainer,
        ToolKind::ViewImage, ToolKind::ReadFile, ToolKind::EditFile, ToolKind::UseSkill,
        ToolKind::SetReminder, ToolKind::MetaNoOpExtraTurn, ToolKind::MetaMalformed,
    ];
    assert(r@ =~= all_kinds());
    r
}

/// The kinds that are advertised to the model: all but the internal one.
pub open spec fn advertised_kinds() -> Seq<ToolKind> {
    all_kinds().take(10)
}

impl ToolType {
    /// The definitions advertised to the model: one per tool, in declaration
    /// order, the internal malformed-call tool left out.
    pub fn tool_definitions() -> (r: Vec<ToolDefinition>)
        ensures
            r@.len() == advertised_kinds().len(),
            forall|i: int| 0 <= i < r@.len() ==> (#[trigger] r@[i]).function.name@ == wire_name_of(advertised_kinds()[i])
                && Some(r@[i].function.description@) == tool_description(advertised_kinds()[i])
                && r@[i].kind@ == "function"@
                && schema_view(r@[i].function.parameters) == tool_parameters(advertised_kinds()[i]),
    {
        let ks = kinds();
        let mut r: Vec<ToolDefinition> = Vec::new();
        let mut i: usize = 0;
        while i < ks.len()
            invariant
                i <= ks.len(),
                ks@ == all_kinds(),
                i <= 10 ==> r@.len() == i,
                i > 10 ==> r@.len() == 10,
                forall|j: int| 0 <= j < r@.len() ==> (#[trigger] r@[j]).function.name@ == wire_name_of(advertised_kinds()[j])
                    && Some(r@[j].function.description@) == tool_description(advertised_kinds()[j])
                    && r@[j].kind@ == "function"@
                    && schema_view(r@[j].function.parameters) == tool_parameters(advertised_kinds()[j]),
            decreases ks.len() - i,
        {
            match ks[i].definition() {
                Some(d) => r.push(d),
                None => {},
            }
            i += 1;
        }
        r
    }
}

} // verus!
