//! Conversation data: messages, tool calls, LLM responses, history and the
//! state a conversation moves through.

use vstd::prelude::*;
use crate::media::{
    attachment_dehydrated, dehydrate_all, Attachment, AttachmentView, MessageImage, MessageImageView,
};
use crate::text::{clone_pairs, str_eq, concat2, concat3, decimal, join, owned, push_decimal, push_str, seq_join, views};

verus! {

/// Longest description kept of a search result, in bytes.
pub const MAX_SEARCH_DESCRIPTION_LENGTH: usize = 2000;

/// Tool-call rounds the model may make in one user turn.
pub const MAX_TOOL_ROUNDS: usize = 10;

/// Entries a recent conversation keeps (the oldest are dropped first).
pub const RECENT_WINDOW: usize = 30;

/// The chat platform a conversation lives on.
#[derive(PartialEq, Eq, Structural, Clone, Copy, Debug)]
pub enum Platform {
    Telegram,
    Discord,
}

/// What the model is told about a platform's formatting.
pub open spec fn formatting_note_view(p: Platform) -> Seq<char> {
    match p {
        Platform::Discord => "Platform: Discord — renders basic markdown but NOT tables. For tabular data use an aligned monospace table inside a ```code block```, never bare `| ... |` (it won't align)."@,
        Platform::Telegram => "Platform: Telegram — supports a limited markdown subset (bold, italic, `code`, links); no tables, headers, or bullet lists. For tabular data use a ```code block```."@,
    }
}

/// The platform's display name.
pub open spec fn platform_name(p: Platform) -> Seq<char> {
    match p {
        Platform::Telegram => "Telegram"@,
        Platform::Discord => "Discord"@,
    }
}

impl Platform {
    /// The platform's display name.
    pub fn as_str(&self) -> (r: &'static str)
        ensures
            r@ == platform_name(*self),
    {
        match self {
            Platform::Telegram => "Telegram",
            Platform::Discord => "Discord",
        }
    }

    /// What the model is told about the platform's formatting.
    pub fn formatting_note(&self) -> (r: &'static str)
        ensures
            r@ == formatting_note_view(*self),
    {
        match self {
            Platform::Discord => "Platform: Discord — renders basic markdown but NOT tables. For tabular data use an aligned monospace table inside a ```code block```, never bare `| ... |` (it won't align).",
            Platform::Telegram => "Platform: Telegram — supports a limited markdown subset (bold, italic, `code`, links); no tables, headers, or bullet lists. For tabular data use a ```code block```.",
        }
    }

    /// `text` in the platform's small-print style.
    pub fn subtext(&self, text: &str) -> (r: String)
        ensures
            r@ == subtext_view(*self, text@),
    {
        match self {
            Platform::Discord => concat3("-# *", text, "*"),
            Platform::Telegram => concat3("_", text, "_"),
        }
    }
}

/// `text` in the platform's small-print style.
pub open spec fn subtext_view(p: Platform, text: Seq<char>) -> Seq<char> {
    match p {
        Platform::Discord => "-# *"@ + text + "*"@,
        Platform::Telegram => "_"@ + text + "_"@,
    }
}

/// A conversation: a channel on a platform.
pub struct ConversationId(pub Platform, pub String);

impl DeepView for ConversationId {
    type V = (Platform, Seq<char>);

    open spec fn deep_view(&self) -> (Platform, Seq<char>) {
        (self.0, self.1@)
    }
}

impl Clone for ConversationId {
    fn clone(&self) -> (r: Self)
        ensures
            r.deep_view() == self.deep_view(),
    {
        ConversationId(self.0, self.1.clone())
    }
}

/// The textual key of a conversation: `<platform>_<channel>`.
pub open spec fn id_string(id: (Platform, Seq<char>)) -> Seq<char> {
    platform_name(id.0) + "_"@ + id.1
}

impl ConversationId {
    /// The textual key of the conversation: `<platform>_<channel>`.
    pub fn get_id_string(&self) -> (r: String)
        ensures
            r@ == id_string(self.deep_view()),
    {
        concat3(self.0.as_str(), "_", self.1.as_str())
    }
}

/// A message from a user, as it is queued and shown to the model.
pub struct ConversationMessage {
    pub text: String,
    pub queued: bool,
    pub user_id: String,
    pub name: String,
    pub attachments: Vec<Attachment>,
}

/// Model of a [`ConversationMessage`].
pub struct ConversationMessageView {
    pub text: Seq<char>,
    pub queued: bool,
    pub user_id: Seq<char>,
    pub name: Seq<char>,
    pub attachments: Seq<AttachmentView>,
}

impl DeepView for ConversationMessage {
    type V = ConversationMessageView;

    open spec fn deep_view(&self) -> ConversationMessageView {
        ConversationMessageView {
            text: self.text@,
            queued: self.queued,
            user_id: self.user_id@,
            name: self.name@,
            attachments: self.attachments.deep_view(),
        }
    }
}

/// A copy of a vector of attachments.
pub fn clone_attachments(v: &Vec<Attachment>) -> (r: Vec<Attachment>)
    ensures
        r.deep_view() == v.deep_view(),
{
    let r = v.clone();
    assert(r.deep_view() =~= v.deep_view());
    r
}

impl Clone for ConversationMessage {
    fn clone(&self) -> (r: Self)
        ensures
            r.deep_view() == self.deep_view(),
    {
        ConversationMessage {
            text: self.text.clone(),
            queued: self.queued,
            user_id: self.user_id.clone(),
            name: self.name.clone(),
            attachments: clone_attachments(&self.attachments),
        }
    }
}

/// The text a message shows the model: marked as a follow-up when it was queued.
pub open spec fn message_content(m: ConversationMessageView) -> Seq<char> {
    if m.queued {
        "[Followup] "@ + m.text
    } else {
        m.text
    }
}

/// The parts, in order, that a message's attachments add to its content.
pub open spec fn attachment_parts(atts: Seq<AttachmentView>, marker: Seq<char>) -> Seq<Seq<char>>
    decreases atts.len(),
{
    if atts.len() == 0 {
        Seq::empty()
    } else {
        let before = attachment_parts(atts.drop_last(), marker);
        match atts.last() {
            AttachmentView::Image { image, url, .. } => match image {
                MessageImageView::Hydrated(_) => before.push("url: "@ + url).push(marker),
                MessageImageView::Dehydrated { .. } => before,
            },
            AttachmentView::File { filename, content_type, url } => before.push(
                "file "@ + filename + " ("@ + (match content_type {
                    Some(t) => t,
                    None => "unknown type"@,
                }) + ") url: "@ + url,
            ),
        }
    }
}

/// The image bytes, in order, that a message's hydrated attachments carry.
pub open spec fn attachment_bytes(atts: Seq<AttachmentView>) -> Seq<Seq<u8>>
    decreases atts.len(),
{
    if atts.len() == 0 {
        Seq::empty()
    } else {
        let before = attachment_bytes(atts.drop_last());
        match atts.last() {
            AttachmentView::Image { image: MessageImageView::Hydrated(i), .. } => before.push(i.bytes),
            _ => before,
        }
    }
}

/// How many image attachments have lost their bytes.
pub open spec fn dehydrated_count(atts: Seq<AttachmentView>) -> nat
    decreases atts.len(),
{
    if atts.len() == 0 {
        0
    } else {
        dehydrated_count(atts.drop_last()) + match atts.last() {
            AttachmentView::Image { image: MessageImageView::Dehydrated { .. }, .. } => 1nat,
            _ => 0nat,
        }
    }
}

/// The note standing in for `d` images no longer attached.
pub open spec fn dehydrated_note(d: nat) -> Seq<char> {
    "["@ + decimal(d) + " image"@ + (if d == 1 { ""@ } else { "s"@ })
        + " from earlier in the conversation — you saw "@ + (if d == 1 { "it"@ } else { "them"@ })
        + " at the time, not re-attached here]"@
}

/// The lines of a message's content: its text (if any), its attachments' parts,
/// and a note on images no longer attached.
pub open spec fn content_parts(m: ConversationMessageView, marker: Seq<char>) -> Seq<Seq<char>> {
    let base = message_content(m);
    let first: Seq<Seq<char>> = if base.len() == 0 { Seq::empty() } else { seq![base] };
    let d = dehydrated_count(m.attachments);
    let with_atts = first + attachment_parts(m.attachments, marker);
    if d > 0 {
        with_atts.push(dehydrated_note(d))
    } else {
        with_atts
    }
}

/// The deep views of a vector of byte buffers.
pub open spec fn byte_views(v: Seq<Vec<u8>>) -> Seq<Seq<u8>> {
    v.map_values(|b: Vec<u8>| b@)
}

impl ConversationMessage {
    /// The text shown to the model: prefixed `[Followup] ` when queued.
    pub fn to_content(&self) -> (r: String)
        ensures
            r@ == message_content(self.deep_view()),
    {
        if self.queued {
            concat2("[Followup] ", self.text.as_str())
        } else {
            self.text.clone()
        }
    }

    /// The message with every image attachment dehydrated.
    pub fn redacted(&self) -> (r: ConversationMessage)
        ensures
            r.deep_view() == (ConversationMessageView {
                attachments: self.deep_view().attachments.map_values(|a: AttachmentView| attachment_dehydrated(a)),
                ..self.deep_view()
            }),
    {
        ConversationMessage {
            text: self.text.clone(),
            queued: self.queued,
            user_id: self.user_id.clone(),
            name: self.name.clone(),
            attachments: dehydrate_all(&self.attachments),
        }
    }

    /// The message's content lines joined by newlines, with the image bytes to
    /// feed alongside (one `marker` per image, in order).
    pub fn content_and_media(&self, marker: &str) -> (r: (String, Vec<Vec<u8>>))
        ensures
            r.0@ == seq_join(content_parts(self.deep_view(), marker@), "\n"@),
            byte_views(r.1@) == attachment_bytes(self.deep_view().attachments),
    {
        let mut parts: Vec<String> = Vec::new();
        let base = self.to_content();
        if !base.as_str().is_empty() {
            parts.push(base);
        }
        let ghost first = views(parts@);
        assert(first =~= (if message_content(self.deep_view()).len() == 0 {
            Seq::<Seq<char>>::empty()
        } else {
            seq![message_content(self.deep_view())]
        }));
        let ghost atts = self.deep_view().attachments;
        let mut bytes: Vec<Vec<u8>> = Vec::new();
        let mut dehydrated: usize = 0;
        let mut i: usize = 0;
        while i < self.attachments.len()
            invariant
                i <= self.attachments.len(),
                atts == self.deep_view().attachments,
                views(parts@) == first + attachment_parts(atts.take(i as int), marker@),
                byte_views(bytes@) == attachment_bytes(atts.take(i as int)),
                dehydrated == dehydrated_count(atts.take(i as int)),
                dehydrated <= i,
            decreases self.attachments.len() - i,
        {
            assert(atts.take(i + 1).drop_last() =~= atts.take(i as int));
            assert(atts.take(i + 1).last() == self.attachments@[i as int].deep_view());
            match &self.attachments[i] {
                Attachment::Image { image, url, .. } => match image.hydrated_bytes() {
                    Some(b) => {
                        let ghost old_parts = parts@;
                        assert(attachment_parts(atts.take(i + 1), marker@) == attachment_parts(atts.take(i as int), marker@).push("url: "@ + url@).push(marker@));
                        assert(attachment_bytes(atts.take(i + 1)) == attachment_bytes(atts.take(i as int)).push(b@));
                        parts.push(concat2("url: ", url.as_str()));
                        parts.push(owned(marker));
                        bytes.push(b);
                        assert(views(parts@) =~= views(old_parts).push("url: "@ + url@).push(marker@));
                        assert(views(parts@) =~= first + attachment_parts(atts.take(i + 1), marker@));
                        assert(byte_views(bytes@) =~= attachment_bytes(atts.take(i + 1)));
                    },
                    None => {
                        dehydrated += 1;
                    },
                },
                Attachment::File { filename, content_type, url } => {
                    let kind: &str = match content_type {
                        Some(t) => t.as_str(),
                        None => "unknown type",
                    };
                    let mut line = concat2("file ", filename.as_str());
                    push_str(&mut line, " (");
                    push_str(&mut line, kind);
                    push_str(&mut line, ") url: ");
                    push_str(&mut line, url.as_str());
                    let ghost old_parts = parts@;
                    let ghost kind_view = match content_type.deep_view() { Some(t) => t, None => "unknown type"@ };
                    assert(kind@ == kind_view);
                    assert(line@ == "file "@ + filename@ + " ("@ + kind_view + ") url: "@ + url@);
                    parts.push(line);
                    assert(attachment_parts(atts.take(i + 1), marker@) == attachment_parts(atts.take(i as int), marker@).push("file "@ + filename@ + " ("@ + kind_view + ") url: "@ + url@));
                    assert(views(parts@) =~= views(old_parts).push(line@));
                    assert(views(parts@) =~= first + attachment_parts(atts.take(i + 1), marker@));
                },
            }
            i += 1;
        }
        assert(atts.take(self.attachments.len() as int) =~= atts);
        let ghost with_atts = views(parts@);
        if dehydrated > 0 {
            let mut note = String::new();
            push_str(&mut note, "[");
            push_decimal(&mut note, dehydrated as u64);
            push_str(&mut note, " image");
            push_str(&mut note, if dehydrated == 1 { "" } else { "s" });
            push_str(&mut note, " from earlier in the conversation — you saw ");
            push_str(&mut note, if dehydrated == 1 { "it" } else { "them" });
            push_str(&mut note, " at the time, not re-attached here]");
            parts.push(note);
            assert(views(parts@) =~= with_atts.push(dehydrated_note(dehydrated as nat)));
        }
        assert(views(parts@) == content_parts(self.deep_view(), marker@));
        (join(&parts, "\n"), bytes)
    }
}

/// A note the system hands the model, such as a fired reminder.
pub struct SystemMessage {
    pub note: String,
    pub addressee: String,
}

impl DeepView for SystemMessage {
    type V = (Seq<char>, Seq<char>);

    open spec fn deep_view(&self) -> (Seq<char>, Seq<char>) {
        (self.note@, self.addressee@)
    }
}

impl Clone for SystemMessage {
    fn clone(&self) -> (r: Self)
        ensures
            r.deep_view() == self.deep_view(),
    {
        SystemMessage { note: self.note.clone(), addressee: self.addressee.clone() }
    }
}

/// How a system message reads to the model.
pub open spec fn system_content(m: (Seq<char>, Seq<char>)) -> Seq<char> {
    "[Reminder — IMPORTANT] For "@ + m.1 + ": "@ + m.0
}

impl SystemMessage {
    /// How the note reads to the model.
    pub fn to_content(&self) -> (r: String)
        ensures
            r@ == system_content(self.deep_view()),
    {
        let mut r = concat3("[Reminder — IMPORTANT] For ", self.addressee.as_str(), ": ");
        push_str(&mut r, self.note.as_str());
        r
    }
}

/// What a conversation entity is created with.
pub struct ConversationConstructor {
    pub id: ConversationId,
    pub is_group: bool,
    pub bot_identity: String,
}

impl ConversationConstructor {
    /// The id of the conversation to create.
    pub fn get_id(&self) -> (r: &ConversationId)
        ensures
            r == &self.id,
    {
        &self.id
    }
}

/// Something waiting for the model's next turn.
pub enum Pending {
    Message(ConversationMessage),
    System(SystemMessage),
}


/// A tool the model may call, with its arguments.
#[derive(Debug)]
pub enum ToolType {
    WebSearch { query: String },
    VisitUrl { url: String },
    RunBashCommand { command: String },
    ResetBashContainer,
    ViewImage { path: String },
    ReadFile { path: String, offset: Option<usize>, limit: Option<usize> },
    EditFile { path: String, old_string: String, new_string: String },
    UseSkill { skill: Option<String> },
    SetReminder { delay_seconds: i64, note: String, addressee: String },
    MetaNoOpExtraTurn,
    MetaMalformed { report: String },
}

/// Model of a [`ToolType`].
pub enum ToolTypeView {
    WebSearch { query: Seq<char> },
    VisitUrl { url: Seq<char> },
    RunBashCommand { command: Seq<char> },
    ResetBashContainer,
    ViewImage { path: Seq<char> },
    ReadFile { path: Seq<char>, offset: Option<usize>, limit: Option<usize> },
    EditFile { path: Seq<char>, old_string: Seq<char>, new_string: Seq<char> },
    UseSkill { skill: Option<Seq<char>> },
    SetReminder { delay_seconds: i64, note: Seq<char>, addressee: Seq<char> },
    MetaNoOpExtraTurn,
    MetaMalformed { report: Seq<char> },
}

impl DeepView for ToolType {
    type V = ToolTypeView;

    open spec fn deep_view(&self) -> ToolTypeView {
        match self {
            ToolType::WebSearch { query } => ToolTypeView::WebSearch { query: query@ },
            ToolType::VisitUrl { url } => ToolTypeView::VisitUrl { url: url@ },
            ToolType::RunBashCommand { command } => ToolTypeView::RunBashCommand { command: command@ },
            ToolType::ResetBashContainer => ToolTypeView::ResetBashContainer,
            ToolType::ViewImage { path } => ToolTypeView::ViewImage { path: path@ },
            ToolType::ReadFile { path, offset, limit } => ToolTypeView::ReadFile {
                path: path@,
                offset: *offset,
                limit: *limit,
            },
            ToolType::EditFile { path, old_string, new_string } => ToolTypeView::EditFile {
                path: path@,
                old_string: old_string@,
                new_string: new_string@,
            },
            ToolType::UseSkill { skill } => ToolTypeView::UseSkill { skill: skill.deep_view() },
            ToolType::SetReminder { delay_seconds, note, addressee } => ToolTypeView::SetReminder {
                delay_seconds: *delay_seconds,
                note: note@,
                addressee: addressee@,
            },
            ToolType::MetaNoOpExtraTurn => ToolTypeView::MetaNoOpExtraTurn,
            ToolType::MetaMalformed { report } => ToolTypeView::MetaMalformed { report: report@ },
        }
    }
}

impl Clone for ToolType {
    fn clone(&self) -> (r: Self)
        ensures
            r.deep_view() == self.deep_view(),
    {
        match self {
            ToolType::WebSearch { query } => ToolType::WebSearch { query: query.clone() },
            ToolType::VisitUrl { url } => ToolType::VisitUrl { url: url.clone() },
            ToolType::RunBashCommand { command } => ToolType::RunBashCommand { command: command.clone() },
            ToolType::ResetBashContainer => ToolType::ResetBashContainer,
            ToolType::ViewImage { path } => ToolType::ViewImage { path: path.clone() },
            ToolType::ReadFile { path, offset, limit } => ToolType::ReadFile {
                path: path.clone(),
                offset: *offset,
                limit: *limit,
            },
            ToolType::EditFile { path, old_string, new_string } => ToolType::EditFile {
                path: path.clone(),
                old_string: old_string.clone(),
                new_string: new_string.clone(),
            },
            ToolType::UseSkill { skill } => ToolType::UseSkill { skill: skill.clone() },
            ToolType::SetReminder { delay_seconds, note, addressee } => ToolType::SetReminder {
                delay_seconds: *delay_seconds,
                note: note.clone(),
                addressee: addressee.clone(),
            },
            ToolType::MetaNoOpExtraTurn => ToolType::MetaNoOpExtraTurn,
            ToolType::MetaMalformed { report } => ToolType::MetaMalformed { report: report.clone() },
        }
    }
}

/// The kind of a tool, without its arguments.
#[derive(PartialEq, Eq, Structural, Clone, Copy, Debug)]
pub enum ToolKind {
    WebSearch,
    VisitUrl,
    RunBashCommand,
    ResetBashContainer,
    ViewImage,
    ReadFile,
    EditFile,
    UseSkill,
    SetReminder,
    MetaNoOpExtraTurn,
    MetaMalformed,
}

/// The kind of a tool call.
pub open spec fn kind_of(t: ToolTypeView) -> ToolKind {
    match t {
        ToolTypeView::WebSearch { .. } => ToolKind::WebSearch,
        ToolTypeView::VisitUrl { .. } => ToolKind::VisitUrl,
        ToolTypeView::RunBashCommand { .. } => ToolKind::RunBashCommand,
        ToolTypeView::ResetBashContainer => ToolKind::ResetBashContainer,
        ToolTypeView::ViewImage { .. } => ToolKind::ViewImage,
        ToolTypeView::ReadFile { .. } => ToolKind::ReadFile,
        ToolTypeView::EditFile { .. } => ToolKind::EditFile,
        ToolTypeView::UseSkill { .. } => ToolKind::UseSkill,
        ToolTypeView::SetReminder { .. } => ToolKind::SetReminder,
        ToolTypeView::MetaNoOpExtraTurn => ToolKind::MetaNoOpExtraTurn,
        ToolTypeView::MetaMalformed { .. } => ToolKind::MetaMalformed,
    }
}

/// How long a tool may run before its call is rescued as timed out, in milliseconds.
pub open spec fn rescue_timeout_ms(k: ToolKind) -> i64 {
    match k {
        ToolKind::RunBashCommand => 300_000,
        ToolKind::VisitUrl => 90_000,
        ToolKind::WebSearch | ToolKind::ResetBashContainer => 60_000,
        _ => 30_000,
    }
}

impl ToolType {
    /// The kind of this call.
    pub fn kind(&self) -> (k: ToolKind)
        ensures
            k == kind_of(self.deep_view()),
    {
        match self {
            ToolType::WebSearch { .. } => ToolKind::WebSearch,
            ToolType::VisitUrl { .. } => ToolKind::VisitUrl,
            ToolType::RunBashCommand { .. } => ToolKind::RunBashCommand,
            ToolType::ResetBashContainer => ToolKind::ResetBashContainer,
            ToolType::ViewImage { .. } => ToolKind::ViewImage,
            ToolType::ReadFile { .. } => ToolKind::ReadFile,
            ToolType::EditFile { .. } => ToolKind::EditFile,
            ToolType::UseSkill { .. } => ToolKind::UseSkill,
            ToolType::SetReminder { .. } => ToolKind::SetReminder,
            ToolType::MetaNoOpExtraTurn => ToolKind::MetaNoOpExtraTurn,
            ToolType::MetaMalformed { .. } => ToolKind::MetaMalformed,
        }
    }

    /// How long the tool may run before it is rescued as timed out, in milliseconds.
    pub fn rescue_timeout(&self) -> (ms: i64)
        ensures
            ms == rescue_timeout_ms(kind_of(self.deep_view())),
    {
        match self.kind() {
            ToolKind::RunBashCommand => 300_000,
            ToolKind::VisitUrl => 90_000,
            ToolKind::WebSearch | ToolKind::ResetBashContainer => 60_000,
            _ => 30_000,
        }
    }
}

/// A concrete tool invocation: a [`ToolType`] tagged with the id the parser assigned.
#[derive(Debug)]
pub struct ToolCall {
    pub id: String,
    pub tool_type: ToolType,
}

/// Model of a [`ToolCall`].
pub struct ToolCallView {
    pub id: Seq<char>,
    pub tool_type: ToolTypeView,
}

impl DeepView for ToolCall {
    type V = ToolCallView;

    open spec fn deep_view(&self) -> ToolCallView {
        ToolCallView { id: self.id@, tool_type: self.tool_type.deep_view() }
    }
}

impl Clone for ToolCall {
    fn clone(&self) -> (r: Self)
        ensures
            r.deep_view() == self.deep_view(),
    {
        ToolCall { id: self.id.clone(), tool_type: self.tool_type.clone() }
    }
}

/// A copy of a vector of tool calls.
pub fn clone_calls(v: &Vec<ToolCall>) -> (r: Vec<ToolCall>)
    ensures
        r.deep_view() == v.deep_view(),
{
    let r = v.clone();
    assert(r.deep_view() =~= v.deep_view());
    r
}

/// What a tool returned: full text for the live turn, a shorter text for
/// history, an image for the model, and metadata.
pub struct ToolResultData {
    pub actual: String,
    pub simplified: String,
    pub image_for_assistant: Option<MessageImage>,
    pub metadata: Vec<(String, String)>,
}

/// Model of a [`ToolResultData`].
pub struct ToolResultDataView {
    pub actual: Seq<char>,
    pub simplified: Seq<char>,
    pub image_for_assistant: Option<MessageImageView>,
    pub metadata: Seq<(Seq<char>, Seq<char>)>,
}

impl DeepView for ToolResultData {
    type V = ToolResultDataView;

    open spec fn deep_view(&self) -> ToolResultDataView {
        ToolResultDataView {
            actual: self.actual@,
            simplified: self.simplified@,
            image_for_assistant: self.image_for_assistant.deep_view(),
            metadata: self.metadata.deep_view(),
        }
    }
}

impl Clone for ToolResultData {
    fn clone(&self) -> (r: Self)
        ensures
            r.deep_view() == self.deep_view(),
    {
        let metadata = clone_pairs(&self.metadata);
        ToolResultData {
            actual: self.actual.clone(),
            simplified: self.simplified.clone(),
            image_for_assistant: self.image_for_assistant.clone(),
            metadata,
        }
    }
}

/// A text-only tool result.
pub open spec fn text_result(actual: Seq<char>, simplified: Seq<char>) -> ToolResultDataView {
    ToolResultDataView { actual, simplified, image_for_assistant: None, metadata: Seq::empty() }
}

impl ToolResultData {
    /// A text-only result with no image and no metadata.
    pub fn text(actual: String, simplified: String) -> (r: Self)
        ensures
            r.deep_view() == text_result(actual@, simplified@),
    {
        let r = ToolResultData { actual, simplified, image_for_assistant: None, metadata: Vec::new() };
        assert(r.deep_view().metadata =~= Seq::<(Seq<char>, Seq<char>)>::empty());
        r
    }
}

/// The value stored under `key` in an association list (the first binding).
pub open spec fn assoc_get(m: Seq<(Seq<char>, Seq<char>)>, key: Seq<char>) -> Option<Seq<char>>
    decreases m.len(),
{
    if m.len() == 0 {
        None
    } else if m[0].0 == key {
        Some(m[0].1)
    } else {
        assoc_get(m.drop_first(), key)
    }
}

/// A tool result: the data tagged with the call it answers.
pub struct ToolResult {
    pub call: ToolCall,
    pub data: ToolResultData,
}

/// Model of a [`ToolResult`].
pub struct ToolResultView {
    pub call: ToolCallView,
    pub data: ToolResultDataView,
}

impl DeepView for ToolResult {
    type V = ToolResultView;

    open spec fn deep_view(&self) -> ToolResultView {
        ToolResultView { call: self.call.deep_view(), data: self.data.deep_view() }
    }
}

impl Clone for ToolResult {
    fn clone(&self) -> (r: Self)
        ensures
            r.deep_view() == self.deep_view(),
    {
        ToolResult { call: self.call.clone(), data: self.data.clone() }
    }
}

/// What the model said in a turn.
pub enum Reply {
    Said(String),
    Empty,
    Malformed,
}

/// Model of a [`Reply`].
pub enum ReplyView {
    Said(Seq<char>),
    Empty,
    Malformed,
}

impl DeepView for Reply {
    type V = ReplyView;

    open spec fn deep_view(&self) -> ReplyView {
        match self {
            Reply::Said(t) => ReplyView::Said(t@),
            Reply::Empty => ReplyView::Empty,
            Reply::Malformed => ReplyView::Malformed,
        }
    }
}

impl Clone for Reply {
    fn clone(&self) -> (r: Self)
        ensures
            r.deep_view() == self.deep_view(),
    {
        match self {
            Reply::Said(t) => Reply::Said(t.clone()),
            Reply::Empty => Reply::Empty,
            Reply::Malformed => Reply::Malformed,
        }
    }
}

/// One model turn: its reasoning, its reply and its tool calls.
pub struct LLMResponse {
    pub thoughts: String,
    pub reply: Reply,
    pub tool_calls: Vec<ToolCall>,
}

/// Model of an [`LLMResponse`].
pub struct LLMResponseView {
    pub thoughts: Seq<char>,
    pub reply: ReplyView,
    pub tool_calls: Seq<ToolCallView>,
}

impl DeepView for LLMResponse {
    type V = LLMResponseView;

    open spec fn deep_view(&self) -> LLMResponseView {
        LLMResponseView {
            thoughts: self.thoughts@,
            reply: self.reply.deep_view(),
            tool_calls: self.tool_calls.deep_view(),
        }
    }
}

impl Clone for LLMResponse {
    fn clone(&self) -> (r: Self)
        ensures
            r.deep_view() == self.deep_view(),
    {
        LLMResponse {
            thoughts: self.thoughts.clone(),
            reply: self.reply.clone(),
            tool_calls: clone_calls(&self.tool_calls),
        }
    }
}

/// The message a response sends the user, if it said something.
pub open spec fn response_message(r: LLMResponseView) -> Option<Seq<char>> {
    match r.reply {
        ReplyView::Said(t) => Some(t),
        _ => None,
    }
}

impl LLMResponse {
    /// The message this response sends the user, if it said something.
    pub fn message(&self) -> (r: Option<String>)
        ensures
            r.deep_view() == response_message(self.deep_view()),
    {
        match &self.reply {
            Reply::Said(text) => Some(text.clone()),
            _ => None,
        }
    }
}

/// Why a model turn did not complete.
#[derive(PartialEq, Eq, Structural, Clone, Copy, Debug)]
pub enum InterruptionReason {
    TimedOut,
    Failed,
    MalformedToolCall,
}

impl DeepView for InterruptionReason {
    type V = InterruptionReason;

    open spec fn deep_view(&self) -> InterruptionReason {
        *self
    }
}

/// What the model is told about an interrupted turn.
pub open spec fn interruption_note(r: InterruptionReason) -> Seq<char> {
    match r {
        InterruptionReason::TimedOut => "[Your previous turn timed out before it completed.]"@,
        InterruptionReason::Failed => "[Your previous turn failed with an internal error and did not complete.]"@,
        InterruptionReason::MalformedToolCall => "[Your previous tool call could not be parsed, so the turn was dropped — check your tool-call format.]"@,
    }
}

impl InterruptionReason {
    /// What the model is told about the interrupted turn.
    pub fn note(&self) -> (r: &'static str)
        ensures
            r@ == interruption_note(*self),
    {
        match self {
            InterruptionReason::TimedOut => "[Your previous turn timed out before it completed.]",
            InterruptionReason::Failed => "[Your previous turn failed with an internal error and did not complete.]",
            InterruptionReason::MalformedToolCall => "[Your previous tool call could not be parsed, so the turn was dropped — check your tool-call format.]",
        }
    }
}

/// Identity of a history entry (a random UUID, as its 128 bits).
#[derive(PartialEq, Eq, Structural, Clone, Copy, Debug)]
pub struct HistoryId(pub u128);

/// Whether the 128 bits of a UUID (big-endian, as `Uuid::as_u128` gives
/// them) carry the layout of a version-4 UUID: version nibble 4 and the
/// RFC 4122 variant bits `10`.
pub open spec fn is_v4_uuid(n: u128) -> bool {
    (n >> 76u128) & 0xfu128 == 4u128 && (n >> 62u128) & 0x3u128 == 2u128
}

/// A random version-4 UUID as its 128 bits (`uuid::Uuid::new_v4`, then
/// `as_u128`). `new_v4` masks a random `u128` and sets the version and variant
/// bits, so every outcome has the version-4 layout; the other 122 bits are
/// random and nothing is stated of them.
#[verifier::external_body]
pub(crate) fn random_uuid() -> (r: u128)
    ensures
        is_v4_uuid(r),
{
    uuid::Uuid::new_v4().as_u128()
}

impl HistoryId {
    /// A fresh random id: a version-4 UUID.
    pub fn new() -> (r: HistoryId)
        ensures
            is_v4_uuid(r.0),
    {
        HistoryId(random_uuid())
    }
}

/// The model's input for one turn.
pub enum LLMInput {
    ConversationMessage(ConversationMessage),
    SystemMessage(Vec<SystemMessage>),
    ToolResults(Vec<ToolResult>, Option<ConversationMessage>),
}

/// Model of an [`LLMInput`].
pub enum LLMInputView {
    ConversationMessage(ConversationMessageView),
    SystemMessage(Seq<(Seq<char>, Seq<char>)>),
    ToolResults(Seq<ToolResultView>, Option<ConversationMessageView>),
}

impl DeepView for LLMInput {
    type V = LLMInputView;

    open spec fn deep_view(&self) -> LLMInputView {
        match self {
            LLMInput::ConversationMessage(m) => LLMInputView::ConversationMessage(m.deep_view()),
            LLMInput::SystemMessage(b) => LLMInputView::SystemMessage(b.deep_view()),
            LLMInput::ToolResults(r, f) => LLMInputView::ToolResults(r.deep_view(), f.deep_view()),
        }
    }
}

impl Clone for LLMInput {
    fn clone(&self) -> (r: Self)
        ensures
            r.deep_view() == self.deep_view(),
    {
        match self {
            LLMInput::ConversationMessage(m) => LLMInput::ConversationMessage(m.clone()),
            LLMInput::SystemMessage(b) => {
                let c = b.clone();
                assert(c.deep_view() =~= b.deep_view());
                LLMInput::SystemMessage(c)
            },
            LLMInput::ToolResults(r, f) => {
                let c = r.clone();
                assert(c.deep_view() =~= r.deep_view());
                LLMInput::ToolResults(c, f.clone())
            },
        }
    }
}

/// What a history entry records.
pub enum HistoryEntryKind {
    Input(LLMInput),
    Output(LLMResponse),
    OutputInterrupted(InterruptionReason),
    Summary(String),
}

/// Model of a [`HistoryEntryKind`].
pub enum HistoryEntryKindView {
    Input(LLMInputView),
    Output(LLMResponseView),
    OutputInterrupted(InterruptionReason),
    Summary(Seq<char>),
}

/// One entry of a conversation's history.
pub struct HistoryEntry {
    pub id: HistoryId,
    pub kind: HistoryEntryKind,
}

/// Model of a [`HistoryEntry`].
pub struct HistoryEntryView {
    pub id: HistoryId,
    pub kind: HistoryEntryKindView,
}

impl DeepView for HistoryEntryKind {
    type V = HistoryEntryKindView;

    open spec fn deep_view(&self) -> HistoryEntryKindView {
        match self {
            HistoryEntryKind::Input(i) => HistoryEntryKindView::Input(i.deep_view()),
            HistoryEntryKind::Output(o) => HistoryEntryKindView::Output(o.deep_view()),
            HistoryEntryKind::OutputInterrupted(r) => HistoryEntryKindView::OutputInterrupted(*r),
            HistoryEntryKind::Summary(s) => HistoryEntryKindView::Summary(s@),
        }
    }
}

impl DeepView for HistoryEntry {
    type V = HistoryEntryView;

    open spec fn deep_view(&self) -> HistoryEntryView {
        HistoryEntryView { id: self.id, kind: self.kind.deep_view() }
    }
}

impl Clone for HistoryEntryKind {
    fn clone(&self) -> (r: Self)
        ensures
            r.deep_view() == self.deep_view(),
    {
        match self {
            HistoryEntryKind::Input(i) => HistoryEntryKind::Input(i.clone()),
            HistoryEntryKind::Output(o) => HistoryEntryKind::Output(o.clone()),
            HistoryEntryKind::OutputInterrupted(r) => HistoryEntryKind::OutputInterrupted(*r),
            HistoryEntryKind::Summary(s) => HistoryEntryKind::Summary(s.clone()),
        }
    }
}

impl Clone for HistoryEntry {
    fn clone(&self) -> (r: Self)
        ensures
            r.deep_view() == self.deep_view(),
    {
        HistoryEntry { id: self.id, kind: self.kind.clone() }
    }
}

/// A copy of a history.
pub fn clone_history(v: &Vec<HistoryEntry>) -> (r: Vec<HistoryEntry>)
    ensures
        r.deep_view() == v.deep_view(),
{
    let r = v.clone();
    assert(r.deep_view() =~= v.deep_view());
    r
}

impl HistoryEntry {
    /// An entry of `kind` under a fresh random id.
    pub fn with_kind(kind: HistoryEntryKind) -> (r: Self)
        ensures
            r.kind.deep_view() == kind.deep_view(),
    {
        HistoryEntry { id: HistoryId::new(), kind }
    }

    /// An entry recording a model input.
    pub fn input(input: LLMInput) -> (r: Self)
        ensures
            r.deep_view().kind == HistoryEntryKindView::Input(input.deep_view()),
    {
        Self::with_kind(HistoryEntryKind::Input(input))
    }

    /// An entry recording a model response.
    pub fn output(response: LLMResponse) -> (r: Self)
        ensures
            r.deep_view().kind == HistoryEntryKindView::Output(response.deep_view()),
    {
        Self::with_kind(HistoryEntryKind::Output(response))
    }

    /// An entry recording an interrupted turn.
    pub fn interrupted(reason: InterruptionReason) -> (r: Self)
        ensures
            r.deep_view().kind == HistoryEntryKindView::OutputInterrupted(reason),
    {
        Self::with_kind(HistoryEntryKind::OutputInterrupted(reason))
    }

    /// An entry holding a summary of earlier history.
    pub fn summary(summary: String) -> (r: Self)
        ensures
            r.deep_view().kind == HistoryEntryKindView::Summary(summary@),
    {
        Self::with_kind(HistoryEntryKind::Summary(summary))
    }
}

/// What a compaction produced: a summary of every entry up to and including `through`.
pub struct CompactionOutput {
    pub summary: String,
    pub through: HistoryId,
}

impl DeepView for CompactionOutput {
    type V = (Seq<char>, HistoryId);

    open spec fn deep_view(&self) -> (Seq<char>, HistoryId) {
        (self.summary@, self.through)
    }
}

impl Clone for CompactionOutput {
    fn clone(&self) -> (r: Self)
        ensures
            r.deep_view() == self.deep_view(),
    {
        CompactionOutput { summary: self.summary.clone(), through: self.through }
    }
}

/// The hash recorded by the latest read or edit of `path` among `results`.
pub open spec fn results_file_hash(results: Seq<ToolResultView>, path: Seq<char>) -> Option<Seq<char>>
    decreases results.len(),
{
    if results.len() == 0 {
        None
    } else {
        let r = results.last();
        let touches = match r.call.tool_type {
            ToolTypeView::ReadFile { path: p, .. } => p == path,
            ToolTypeView::EditFile { path: p, .. } => p == path,
            _ => false,
        };
        if touches && assoc_get(r.data.metadata, "file_hash"@) is Some {
            assoc_get(r.data.metadata, "file_hash"@)
        } else {
            results_file_hash(results.drop_last(), path)
        }
    }
}

/// The hash recorded by the latest read or edit of `path` in `history`.
pub open spec fn history_file_hash(history: Seq<HistoryEntryView>, path: Seq<char>) -> Option<Seq<char>>
    decreases history.len(),
{
    if history.len() == 0 {
        None
    } else {
        let found = match history.last().kind {
            HistoryEntryKindView::Input(LLMInputView::ToolResults(results, _)) => results_file_hash(results, path),
            _ => None,
        };
        if found is Some {
            found
        } else {
            history_file_hash(history.drop_last(), path)
        }
    }
}

/// The value under `key` in an association list.
pub fn assoc_lookup(m: &Vec<(String, String)>, key: &str) -> (r: Option<String>)
    ensures
        r.deep_view() == assoc_get(m.deep_view(), key@),
{
    let mut i: usize = 0;
    assert(m.deep_view().skip(0) =~= m.deep_view());
    while i < m.len()
        invariant
            i <= m.len(),
            assoc_get(m.deep_view(), key@) == assoc_get(m.deep_view().skip(i as int), key@),
        decreases m.len() - i,
    {
        assert(m.deep_view().skip(i as int).drop_first() =~= m.deep_view().skip(i + 1));
        assert(m.deep_view().skip(i as int)[0] == m@[i as int].deep_view());
        if str_eq(m[i].0.as_str(), key) {
            return Some(m[i].1.clone());
        }
        i += 1;
    }
    None
}

/// The hash of `path` as the latest read or edit of it in `history` recorded it.
#[verifier::loop_isolation(false)]
pub fn latest_file_hash(history: &Vec<HistoryEntry>, path: &str) -> (r: Option<String>)
    ensures
        r.deep_view() == history_file_hash(history.deep_view(), path@),
{
    let mut i = history.len();
    assert(history.deep_view().take(i as int) =~= history.deep_view());
    while i > 0
        invariant
            i <= history.len(),
            history_file_hash(history.deep_view(), path@) == history_file_hash(history.deep_view().take(i as int), path@),
        decreases i,
    {
        assert(history.deep_view().take(i as int).drop_last() =~= history.deep_view().take(i - 1));
        assert(history.deep_view().take(i as int).last() == history@[i - 1].deep_view());
        if let HistoryEntryKind::Input(LLMInput::ToolResults(results, _)) = &history[i - 1].kind {
            let mut j = results.len();
            assert(results.deep_view().take(j as int) =~= results.deep_view());
            while j > 0
                invariant
                    j <= results.len(),
                    results_file_hash(results.deep_view(), path@) == results_file_hash(results.deep_view().take(j as int), path@),
                decreases j,
            {
                assert(results.deep_view().take(j as int).drop_last() =~= results.deep_view().take(j - 1));
                let r = &results[j - 1];
                assert(results.deep_view().take(j as int).last() == r.deep_view());
                let touches = match &r.call.tool_type {
                    ToolType::ReadFile { path: p, .. } => str_eq(p.as_str(), path),
                    ToolType::EditFile { path: p, .. } => str_eq(p.as_str(), path),
                    _ => false,
                };
                if touches {
                    let h = assoc_lookup(&r.data.metadata, "file_hash");
                    if h.is_some() {
                        return h;
                    }
                }
                j -= 1;
            }
            assert(results.deep_view().take(0) =~= Seq::<ToolResultView>::empty());
        }
        i -= 1;
    }
    None
}


/// The last turns of a conversation and the model's latest reasoning.
pub struct RecentConversation {
    pub thoughts: String,
    pub history: Vec<HistoryEntry>,
}

/// Model of a [`RecentConversation`].
pub struct RecentConversationView {
    pub thoughts: Seq<char>,
    pub history: Seq<HistoryEntryView>,
}

impl DeepView for RecentConversation {
    type V = RecentConversationView;

    open spec fn deep_view(&self) -> RecentConversationView {
        RecentConversationView { thoughts: self.thoughts@, history: self.history.deep_view() }
    }
}

impl Clone for RecentConversation {
    fn clone(&self) -> (r: Self)
        ensures
            r.deep_view() == self.deep_view(),
    {
        RecentConversation { thoughts: self.thoughts.clone(), history: clone_history(&self.history) }
    }
}

/// The last [`RECENT_WINDOW`] entries of `h` (all of them when there are no more).
pub open spec fn window(h: Seq<HistoryEntryView>) -> Seq<HistoryEntryView> {
    if h.len() > RECENT_WINDOW {
        h.subrange(h.len() - RECENT_WINDOW, h.len() as int)
    } else {
        h
    }
}

/// A recent conversation holding the window of `history`.
pub open spec fn recent_view(thoughts: Seq<char>, history: Seq<HistoryEntryView>) -> RecentConversationView {
    RecentConversationView { thoughts, history: window(history) }
}

impl RecentConversation {
    /// An empty recent conversation.
    pub fn empty() -> (r: Self)
        ensures
            r.deep_view() == recent_view(Seq::empty(), Seq::empty()),
    {
        let r = RecentConversation { thoughts: String::new(), history: Vec::new() };
        assert(r.deep_view().history =~= Seq::<HistoryEntryView>::empty());
        r
    }

    /// A recent conversation keeping the last [`RECENT_WINDOW`] entries of `history`.
    pub fn new(thoughts: String, history: Vec<HistoryEntry>) -> (r: Self)
        ensures
            r.deep_view() == recent_view(thoughts@, history.deep_view()),
            r.history@.len() <= RECENT_WINDOW,
    {
        let mut history = history;
        let ghost all = history.deep_view();
        if history.len() > RECENT_WINDOW {
            let at = history.len() - RECENT_WINDOW;
            let ghost before = history@;
            let tail = history.split_off(at);
            assert(tail.deep_view() =~= all.subrange(all.len() - RECENT_WINDOW, all.len() as int));
            RecentConversation { thoughts, history: tail }
        } else {
            RecentConversation { thoughts, history }
        }
    }

    /// A copy of the history.
    pub fn history(&self) -> (r: Vec<HistoryEntry>)
        ensures
            r.deep_view() == self.history.deep_view(),
    {
        clone_history(&self.history)
    }
}

/// What to do once a message has been sent.
pub enum PostSend {
    Nothing,
    CallTools { tool_rounds: usize, tool_calls: Vec<ToolCall> },
    SendToolResponse {
        tool_rounds: usize,
        results: Vec<ToolResult>,
        followup: Option<ConversationMessage>,
    },
}

/// Model of a [`PostSend`].
pub enum PostSendView {
    Nothing,
    CallTools { tool_rounds: usize, tool_calls: Seq<ToolCallView> },
    SendToolResponse {
        tool_rounds: usize,
        results: Seq<ToolResultView>,
        followup: Option<ConversationMessageView>,
    },
}

impl DeepView for PostSend {
    type V = PostSendView;

    open spec fn deep_view(&self) -> PostSendView {
        match self {
            PostSend::Nothing => PostSendView::Nothing,
            PostSend::CallTools { tool_rounds, tool_calls } => PostSendView::CallTools {
                tool_rounds: *tool_rounds,
                tool_calls: tool_calls.deep_view(),
            },
            PostSend::SendToolResponse { tool_rounds, results, followup } => PostSendView::SendToolResponse {
                tool_rounds: *tool_rounds,
                results: results.deep_view(),
                followup: followup.deep_view(),
            },
        }
    }
}

/// Where a conversation is in its cycle of model turns, messages and tools.
pub enum ConversationState {
    Idle { recent_conversation: RecentConversation },
    AwaitingLLMDecision { history: Vec<HistoryEntry>, current_input: LLMInput, tool_rounds: usize },
    SendingMessage { recent_conversation: RecentConversation, post_send: PostSend },
    RunningTools {
        recent_conversation: RecentConversation,
        tool_rounds: usize,
        /// Calls still in flight, at most one per id.
        pending_tools: Vec<ToolCall>,
        /// Calls that have returned, with their (error-folded) result.
        completed_tools: Vec<(ToolCall, ToolResultData)>,
    },
}

/// Model of a [`ConversationState`].
pub enum ConversationStateView {
    Idle { recent_conversation: RecentConversationView },
    AwaitingLLMDecision { history: Seq<HistoryEntryView>, current_input: LLMInputView, tool_rounds: usize },
    SendingMessage { recent_conversation: RecentConversationView, post_send: PostSendView },
    RunningTools {
        recent_conversation: RecentConversationView,
        tool_rounds: usize,
        pending_tools: Seq<ToolCallView>,
        completed_tools: Seq<(ToolCallView, ToolResultDataView)>,
    },
}

impl DeepView for ConversationState {
    type V = ConversationStateView;

    open spec fn deep_view(&self) -> ConversationStateView {
        match self {
            ConversationState::Idle { recent_conversation } => ConversationStateView::Idle {
                recent_conversation: recent_conversation.deep_view(),
            },
            ConversationState::AwaitingLLMDecision { history, current_input, tool_rounds } =>
                ConversationStateView::AwaitingLLMDecision {
                    history: history.deep_view(),
                    current_input: current_input.deep_view(),
                    tool_rounds: *tool_rounds,
                },
            ConversationState::SendingMessage { recent_conversation, post_send } =>
                ConversationStateView::SendingMessage {
                    recent_conversation: recent_conversation.deep_view(),
                    post_send: post_send.deep_view(),
                },
            ConversationState::RunningTools { recent_conversation, tool_rounds, pending_tools, completed_tools } =>
                ConversationStateView::RunningTools {
                    recent_conversation: recent_conversation.deep_view(),
                    tool_rounds: *tool_rounds,
                    pending_tools: pending_tools.deep_view(),
                    completed_tools: completed_tools.deep_view(),
                },
        }
    }
}

impl Clone for PostSend {
    fn clone(&self) -> (r: Self)
        ensures
            r.deep_view() == self.deep_view(),
    {
        match self {
            PostSend::Nothing => PostSend::Nothing,
            PostSend::CallTools { tool_rounds, tool_calls } => PostSend::CallTools {
                tool_rounds: *tool_rounds,
                tool_calls: clone_calls(tool_calls),
            },
            PostSend::SendToolResponse { tool_rounds, results, followup } => {
                let c = results.clone();
                assert(c.deep_view() =~= results.deep_view());
                PostSend::SendToolResponse { tool_rounds: *tool_rounds, results: c, followup: followup.clone() }
            },
        }
    }
}

/// A copy of a list of completed calls.
pub fn clone_completed(v: &Vec<(ToolCall, ToolResultData)>) -> (r: Vec<(ToolCall, ToolResultData)>)
    ensures
        r.deep_view() == v.deep_view(),
{
    let mut r: Vec<(ToolCall, ToolResultData)> = Vec::new();
    for i in 0..v.len()
        invariant
            r@.len() == i,
            forall|j: int| 0 <= j < i ==> #[trigger] r@[j].deep_view() == v@[j].deep_view(),
    {
        r.push((v[i].0.clone(), v[i].1.clone()));
    }
    assert(r.deep_view() =~= v.deep_view());
    r
}

impl Clone for ConversationState {
    fn clone(&self) -> (r: Self)
        ensures
            r.deep_view() == self.deep_view(),
    {
        match self {
            ConversationState::Idle { recent_conversation } => ConversationState::Idle {
                recent_conversation: recent_conversation.clone(),
            },
            ConversationState::AwaitingLLMDecision { history, current_input, tool_rounds } =>
                ConversationState::AwaitingLLMDecision {
                    history: clone_history(history),
                    current_input: current_input.clone(),
                    tool_rounds: *tool_rounds,
                },
            ConversationState::SendingMessage { recent_conversation, post_send } => ConversationState::SendingMessage {
                recent_conversation: recent_conversation.clone(),
                post_send: post_send.clone(),
            },
            ConversationState::RunningTools { recent_conversation, tool_rounds, pending_tools, completed_tools } =>
                ConversationState::RunningTools {
                    recent_conversation: recent_conversation.clone(),
                    tool_rounds: *tool_rounds,
                    pending_tools: clone_calls(pending_tools),
                    completed_tools: clone_completed(completed_tools),
                },
        }
    }
}

impl ConversationState {
    /// The state a new conversation starts in: idle, with nothing recent.
    pub fn default() -> (r: Self)
        ensures
            r.deep_view() == (ConversationStateView::Idle {
                recent_conversation: recent_view(Seq::empty(), Seq::empty()),
            }),
    {
        ConversationState::Idle { recent_conversation: RecentConversation::empty() }
    }
}

/// A conversation entity: its state, the messages and system notes waiting
/// for the model, and when it last moved (milliseconds since the Unix epoch).
pub struct Conversation {
    pub pending: Vec<ConversationMessage>,
    pub pending_system: Vec<SystemMessage>,
    pub state: ConversationState,
    pub last_transition: i64,
    pub is_group: bool,
    pub bot_identity: String,
    pub compaction_in_flight: bool,
}

/// Model of a [`Conversation`].
pub struct ConversationView {
    pub pending: Seq<ConversationMessageView>,
    pub pending_system: Seq<(Seq<char>, Seq<char>)>,
    pub state: ConversationStateView,
    pub last_transition: i64,
    pub is_group: bool,
    pub bot_identity: Seq<char>,
    pub compaction_in_flight: bool,
}

impl DeepView for Conversation {
    type V = ConversationView;

    open spec fn deep_view(&self) -> ConversationView {
        ConversationView {
            pending: self.pending.deep_view(),
            pending_system: self.pending_system.deep_view(),
            state: self.state.deep_view(),
            last_transition: self.last_transition,
            is_group: self.is_group,
            bot_identity: self.bot_identity@,
            compaction_in_flight: self.compaction_in_flight,
        }
    }
}

impl Clone for Conversation {
    fn clone(&self) -> (r: Self)
        ensures
            r.deep_view() == self.deep_view(),
    {
        let pending = self.pending.clone();
        assert(pending.deep_view() =~= self.pending.deep_view());
        let pending_system = self.pending_system.clone();
        assert(pending_system.deep_view() =~= self.pending_system.deep_view());
        Conversation {
            pending,
            pending_system,
            state: self.state.clone(),
            last_transition: self.last_transition,
            is_group: self.is_group,
            bot_identity: self.bot_identity.clone(),
            compaction_in_flight: self.compaction_in_flight,
        }
    }
}

/// What happens to a conversation.
pub enum ConversationAction {
    NewMessage { msg: String, user_id: String, name: String, attachments: Vec<Attachment> },
    LLMDecisionResult(Result<LLMResponse, InterruptionReason>),
    MessageSent(Result<(), String>),
    ToolResult { id: String, result: Result<ToolResultData, String> },
    CompactionResult(Result<CompactionOutput, InterruptionReason>),
    ReminderFired { note: String, addressee: String },
}

/// Model of a [`ConversationAction`].
pub enum ConversationActionView {
    NewMessage { msg: Seq<char>, user_id: Seq<char>, name: Seq<char>, attachments: Seq<AttachmentView> },
    LLMDecisionResult(Result<LLMResponseView, InterruptionReason>),
    MessageSent(Result<(), Seq<char>>),
    ToolResult { id: Seq<char>, result: Result<ToolResultDataView, Seq<char>> },
    CompactionResult(Result<(Seq<char>, HistoryId), InterruptionReason>),
    ReminderFired { note: Seq<char>, addressee: Seq<char> },
}

impl DeepView for ConversationAction {
    type V = ConversationActionView;

    open spec fn deep_view(&self) -> ConversationActionView {
        match self {
            ConversationAction::NewMessage { msg, user_id, name, attachments } => ConversationActionView::NewMessage {
                msg: msg@,
                user_id: user_id@,
                name: name@,
                attachments: attachments.deep_view(),
            },
            ConversationAction::LLMDecisionResult(r) => ConversationActionView::LLMDecisionResult(match r {
                Ok(resp) => Ok(resp.deep_view()),
                Err(e) => Err(*e),
            }),
            ConversationAction::MessageSent(r) => ConversationActionView::MessageSent(match r {
                Ok(()) => Ok(()),
                Err(e) => Err(e@),
            }),
            ConversationAction::ToolResult { id, result } => ConversationActionView::ToolResult {
                id: id@,
                result: match result {
                    Ok(d) => Ok(d.deep_view()),
                    Err(e) => Err(e@),
                },
            },
            ConversationAction::CompactionResult(r) => ConversationActionView::CompactionResult(match r {
                Ok(o) => Ok(o.deep_view()),
                Err(e) => Err(*e),
            }),
            ConversationAction::ReminderFired { note, addressee } => ConversationActionView::ReminderFired {
                note: note@,
                addressee: addressee@,
            },
        }
    }
}

/// The action's name, as it is logged.
pub open spec fn action_label(a: ConversationActionView) -> Seq<char> {
    match a {
        ConversationActionView::NewMessage { .. } => "NewMessage"@,
        ConversationActionView::LLMDecisionResult(_) => "LLMDecisionResult"@,
        ConversationActionView::MessageSent(_) => "MessageSent"@,
        ConversationActionView::ToolResult { .. } => "ToolResult"@,
        ConversationActionView::CompactionResult(_) => "CompactionResult"@,
        ConversationActionView::ReminderFired { .. } => "ReminderFired"@,
    }
}

impl ConversationAction {
    /// The action's name, as it is logged.
    pub fn label(&self) -> (r: &'static str)
        ensures
            r@ == action_label(self.deep_view()),
    {
        match self {
            ConversationAction::NewMessage { .. } => "NewMessage",
            ConversationAction::LLMDecisionResult(_) => "LLMDecisionResult",
            ConversationAction::MessageSent(_) => "MessageSent",
            ConversationAction::ToolResult { .. } => "ToolResult",
            ConversationAction::CompactionResult(_) => "CompactionResult",
            ConversationAction::ReminderFired { .. } => "ReminderFired",
        }
    }
}

} // verus!
