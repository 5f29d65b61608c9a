//! Rendering a prompt with a model's chat template: the tools as the template
//! prints them (spaced JSON), the messages behind a system message, and the
//! template itself run by minijinja.

use vstd::prelude::*;
use minijinja::value::Value;
use minijinja::{Environment, Error, ErrorKind};
use minijinja_contrib::pycompat::unknown_method_callback;
use crate::chat_format::{ArgValue, ChatMessage, ChatMessageView, ChatRole, MessageToolCall, MessageToolCallView, ParamSpec, ToolDefinition, bare_view};
use crate::text::{join, owned, push_str, seq_join, seq_le, str_le, views};
use crate::tools::schema_view;

verus! {

// ---------------------------------------------------------------------------
// Tools as JSON text

/// How serde_json writes one character inside a JSON string: `"` and `\`
/// behind a backslash; backspace, tab, line feed, form feed and carriage
/// return as `\b`, `\t`, `\n`, `\f`, `\r`; any other character below U+0020
/// as `\u00` and two lowercase hexadecimal digits; every other character as
/// itself.
pub open spec fn json_escape(c: char) -> Seq<char> {
    if c == '"' {
        seq!['\\', '"']
    } else if c == '\\' {
        seq!['\\', '\\']
    } else if c == '\u{8}' {
        seq!['\\', 'b']
    } else if c == '\t' {
        seq!['\\', 't']
    } else if c == '\n' {
        seq!['\\', 'n']
    } else if c == '\u{c}' {
        seq!['\\', 'f']
    } else if c == '\r' {
        seq!['\\', 'r']
    } else if (c as u32) < 0x20 {
        seq!['\\', 'u', '0', '0'] + crate::text::hex_fixed(c as u32 as nat, 2)
    } else {
        seq![c]
    }
}

/// The characters of `s`, each as [`json_escape`] writes it.
pub open spec fn json_escaped(s: Seq<char>) -> Seq<char>
    decreases s.len(),
{
    if s.len() == 0 { Seq::empty() } else { json_escaped(s.drop_last()) + json_escape(s.last()) }
}

/// How serde_json writes a string as JSON: its escaped characters between
/// double quotes.
pub open spec fn json_quoted(s: Seq<char>) -> Seq<char> {
    seq!['"'] + json_escaped(s) + seq!['"']
}

/// `serde_json::Value::String` written with `to_string`. Trusted: the text is
/// the string between double quotes with the escapes of serde_json's `ESCAPE`
/// table ([`json_quoted`]).
#[verifier::external_body]
fn json_quote(s: &str) -> (r: String)
    ensures
        r@ == json_quoted(s@),
{
    serde_json::Value::from(s).to_string()
}

/// A schema property: (name, JSON type, description).
pub type Prop = (Seq<char>, Seq<char>, Seq<char>);

/// `s` (in name order) with `p` put under its name, as a map ordered by its
/// keys does it: a property of the same name is replaced.
pub open spec fn put_prop(s: Seq<Prop>, p: Prop) -> Seq<Prop>
    decreases s.len(),
{
    if s.len() == 0 {
        seq![p]
    } else if s.last().0 == p.0 {
        s.drop_last().push(p)
    } else if seq_le(s.last().0, p.0) {
        s.push(p)
    } else {
        put_prop(s.drop_last(), p).push(s.last())
    }
}

/// The properties as a map keyed by name holds them: one per name (the last
/// given), in name order.
pub open spec fn props_by_name(ps: Seq<Prop>) -> Seq<Prop>
    decreases ps.len(),
{
    if ps.len() == 0 { Seq::empty() } else { put_prop(props_by_name(ps.drop_last()), ps.last()) }
}

/// One property as the template prints it.
pub open spec fn prop_json(p: Prop) -> Seq<char> {
    json_quoted(p.0) + ": {\"description\": "@ + json_quoted(p.2) + ", \"type\": "@ + json_quoted(p.1) + "}"@
}

/// A parameter schema as the template prints it: an object type with its
/// properties by name and the required names, in order.
pub open spec fn schema_json(s: (Seq<Prop>, Seq<Seq<char>>)) -> Seq<char> {
    "{\"properties\": {"@ + seq_join(props_by_name(s.0).map_values(|p: Prop| prop_json(p)), ", "@)
        + "}, \"required\": ["@ + seq_join(s.1.map_values(|r: Seq<char>| json_quoted(r)), ", "@)
        + "], \"type\": \"object\"}"@
}

/// A tool definition as the template prints it: JSON with a space after every
/// `,` and `:`, object keys in key order.
pub open spec fn tool_json(d: ToolDefinition) -> Seq<char> {
    "{\"type\": "@ + json_quoted(d.kind@) + ", \"function\": {\"name\": "@
        + json_quoted(d.function.name@) + ", \"description\": "@ + json_quoted(d.function.description@)
        + ", \"parameters\": "@ + schema_json(schema_view(d.function.parameters)) + "}}"@
}

/// Two strings each `<=` the other are the same string.
pub proof fn lemma_seq_le_antisym(a: Seq<char>, b: Seq<char>)
    requires
        seq_le(a, b),
        seq_le(b, a),
    ensures
        a == b,
    decreases a.len(),
{
    if a.len() > 0 && b.len() > 0 {
        if a[0] == b[0] {
            lemma_seq_le_antisym(a.drop_first(), b.drop_first());
            assert(a.len() == b.len());
            assert forall|i: int| 0 <= i < a.len() implies a[i] == b[i] by {
                if i > 0 {
                    assert(a[i] == a.drop_first()[i - 1] && b[i] == b.drop_first()[i - 1]);
                }
            }
            assert(a =~= b);
        } else {
            vstd::utf8::char_u32_cast(a[0], a[0] as u32);
            vstd::utf8::char_u32_cast(b[0], b[0] as u32);
        }
    } else {
        assert(a =~= b);
    }
}

fn prop_of(p: &ParamSpec) -> (r: (&'static str, &'static str, &'static str))
    ensures
        r.0 == p.name && r.1 == p.ty && r.2 == p.description,
{
    (p.name, p.ty, p.description)
}

/// Model of a property written as three strings.
pub open spec fn prop_view(t: (&'static str, &'static str, &'static str)) -> Prop {
    (t.0@, t.1@, t.2@)
}

proof fn lemma_put_prop(s: Seq<Prop>, p: Prop, j: int)
    requires
        0 <= j <= s.len(),
        forall|k: int| j <= k < s.len() ==> !seq_le(#[trigger] s[k].0, p.0),
        j > 0 ==> seq_le(s[j - 1].0, p.0),
    ensures
        put_prop(s, p) == if j > 0 && s[j - 1].0 == p.0 { s.update(j - 1, p) } else { s.take(j).push(p) + s.skip(j) },
    decreases s.len(),
{
    if s.len() == 0 {
        assert(s.take(j).push(p) + s.skip(j) =~= seq![p]);
    } else if j == s.len() {
        if s.last().0 == p.0 {
            assert(s.drop_last().push(p) =~= s.update(j - 1, p));
        } else {
            assert(s.take(j).push(p) + s.skip(j) =~= s.push(p));
        }
    } else {
        let last = s.last();
        assert(!seq_le(s[s.len() - 1].0, p.0));
        if last.0 == p.0 {
            crate::text::lemma_seq_le_refl(p.0);
        }
        lemma_put_prop(s.drop_last(), p, j);
        if j > 0 && s[j - 1].0 == p.0 {
            assert(s.drop_last().update(j - 1, p).push(last) =~= s.update(j - 1, p));
        } else {
            assert(s.drop_last().take(j).push(p) + s.drop_last().skip(j) + seq![last] =~= s.take(j).push(p) + s.skip(j));
        }
    }
}

/// Puts `p` under its name into `v` (see [`put_prop`]).
fn put_prop_into(v: &mut Vec<(&'static str, &'static str, &'static str)>, p: (&'static str, &'static str, &'static str))
    ensures
        final(v)@.map_values(|t: (&'static str, &'static str, &'static str)| prop_view(t))
            == put_prop(old(v)@.map_values(|t: (&'static str, &'static str, &'static str)| prop_view(t)), prop_view(p)),
{
    let ghost s = v@.map_values(|t: (&'static str, &'static str, &'static str)| prop_view(t));
    let ghost v0 = v@;
    let mut j = v.len();
    while j > 0 && !str_le(v[j - 1].0, p.0)
        invariant
            j <= v.len(),
            v@ == v0,
            s == v0.map_values(|t: (&'static str, &'static str, &'static str)| prop_view(t)),
            forall|k: int| j <= k < s.len() ==> !seq_le(#[trigger] s[k].0, p.0@),
        decreases j,
    {
        assert(s[j - 1] == prop_view(v0[j - 1]));
        j -= 1;
    }
    proof { lemma_put_prop(s, prop_view(p), j as int); }
    if j > 0 && str_le(p.0, v[j - 1].0) {
        proof { lemma_seq_le_antisym(v0[j - 1].0@, p.0@); }
        v.set(j - 1, p);
        assert(v@.map_values(|t: (&'static str, &'static str, &'static str)| prop_view(t)) =~= s.update(j - 1, prop_view(p)));
    } else {
        v.insert(j, p);
        assert(v@.map_values(|t: (&'static str, &'static str, &'static str)| prop_view(t)) =~= s.take(j as int).push(prop_view(p)) + s.skip(j as int));
    }
}

/// The parameter schema as the template prints it (see [`schema_json`]).
fn schema_text(properties: &Vec<ParamSpec>, required: &Vec<&'static str>) -> (r: String)
    ensures
        r@ == schema_json((
            properties@.map_values(|q: ParamSpec| (q.name@, q.ty@, q.description@)),
            required@.map_values(|n: &'static str| n@),
        )),
{
    let ghost ps = properties@.map_values(|q: ParamSpec| (q.name@, q.ty@, q.description@));
    let mut sorted: Vec<(&'static str, &'static str, &'static str)> = Vec::new();
    let mut i: usize = 0;
    while i < properties.len()
        invariant
            i <= properties.len(),
            ps == properties@.map_values(|q: ParamSpec| (q.name@, q.ty@, q.description@)),
            sorted@.map_values(|t: (&'static str, &'static str, &'static str)| prop_view(t)) == props_by_name(ps.take(i as int)),
        decreases properties.len() - i,
    {
        let p = prop_of(&properties[i]);
        assert(ps.take(i + 1).drop_last() =~= ps.take(i as int));
        assert(ps.take(i + 1).last() == prop_view(p));
        put_prop_into(&mut sorted, p);
        i += 1;
    }
    assert(ps.take(properties.len() as int) =~= ps);
    let ghost by_name = props_by_name(ps);
    let mut parts: Vec<String> = Vec::new();
    let mut k: usize = 0;
    while k < sorted.len()
        invariant
            k <= sorted.len(),
            by_name == sorted@.map_values(|t: (&'static str, &'static str, &'static str)| prop_view(t)),
            views(parts@) == by_name.take(k as int).map_values(|p: Prop| prop_json(p)),
        decreases sorted.len() - k,
    {
        let (name, ty, description) = sorted[k];
        let mut t = json_quote(name);
        push_str(&mut t, ": {\"description\": ");
        push_str(&mut t, json_quote(description).as_str());
        push_str(&mut t, ", \"type\": ");
        push_str(&mut t, json_quote(ty).as_str());
        push_str(&mut t, "}");
        let ghost before = views(parts@);
        assert(by_name[k as int] == prop_view(sorted@[k as int]));
        parts.push(t);
        assert(views(parts@) =~= before.push(prop_json(by_name[k as int])));
        assert(by_name.take(k + 1).map_values(|p: Prop| prop_json(p))
            =~= by_name.take(k as int).map_values(|p: Prop| prop_json(p)).push(prop_json(by_name[k as int])));
        k += 1;
    }
    assert(by_name.take(sorted.len() as int) =~= by_name);
    let ghost rs = required@.map_values(|n: &'static str| n@);
    let mut names: Vec<String> = Vec::new();
    let mut m: usize = 0;
    while m < required.len()
        invariant
            m <= required.len(),
            rs == required@.map_values(|n: &'static str| n@),
            views(names@) == rs.take(m as int).map_values(|r: Seq<char>| json_quoted(r)),
        decreases required.len() - m,
    {
        let ghost before = views(names@);
        names.push(json_quote(required[m]));
        assert(views(names@) =~= before.push(json_quoted(rs[m as int])));
        assert(rs.take(m + 1).map_values(|r: Seq<char>| json_quoted(r))
            =~= rs.take(m as int).map_values(|r: Seq<char>| json_quoted(r)).push(json_quoted(rs[m as int])));
        m += 1;
    }
    assert(rs.take(required.len() as int) =~= rs);
    let mut r = owned("{\"properties\": {");
    push_str(&mut r, join(&parts, ", ").as_str());
    push_str(&mut r, "}, \"required\": [");
    push_str(&mut r, join(&names, ", ").as_str());
    push_str(&mut r, "], \"type\": \"object\"}");
    r
}

/// A tool definition as the template prints it (see [`tool_json`]).
pub fn tool_text(d: &ToolDefinition) -> (r: String)
    ensures
        r@ == tool_json(*d),
{
    let mut r = owned("{\"type\": ");
    push_str(&mut r, json_quote(d.kind).as_str());
    push_str(&mut r, ", \"function\": {\"name\": ");
    push_str(&mut r, json_quote(d.function.name).as_str());
    push_str(&mut r, ", \"description\": ");
    push_str(&mut r, json_quote(d.function.description).as_str());
    push_str(&mut r, ", \"parameters\": ");
    push_str(&mut r, schema_text(&d.function.parameters.properties, &d.function.parameters.required).as_str());
    push_str(&mut r, "}}");
    r
}

// ---------------------------------------------------------------------------
// The chat template

#[verifier::external_type_specification]
#[verifier::external_body]
pub struct ExTemplateValue(minijinja::value::Value);

#[verifier::external_type_specification]
#[verifier::external_body]
pub struct ExTemplateError(minijinja::Error);

/// The name a chat template reads for a role.
pub open spec fn role_name(r: ChatRole) -> Seq<char> {
    match r {
        ChatRole::System => "system"@,
        ChatRole::User => "user"@,
        ChatRole::Assistant => "assistant"@,
        ChatRole::Tool => "tool"@,
    }
}

/// The name a chat template reads for a role (see [`role_name`]).
pub fn role_str(r: ChatRole) -> (s: &'static str)
    ensures
        s@ == role_name(r),
{
    match r {
        ChatRole::System => "system",
        ChatRole::User => "user",
        ChatRole::Assistant => "assistant",
        ChatRole::Tool => "tool",
    }
}

/// A value a chat template reads in a message field: a text, or the
/// message's tool calls.
pub enum TemplateField<'a> {
    Text(&'a str),
    Calls(&'a Vec<MessageToolCall>),
}

/// Model of a [`TemplateField`].
pub enum TemplateFieldView {
    Text(Seq<char>),
    Calls(Seq<MessageToolCallView>),
}

/// Model of a [`TemplateField`].
pub open spec fn field_view<'a>(f: TemplateField<'a>) -> TemplateFieldView {
    match f {
        TemplateField::Text(t) => TemplateFieldView::Text(t@),
        TemplateField::Calls(c) => TemplateFieldView::Calls(c.deep_view()),
    }
}

/// Model of a message's fields: each field's name with its value.
pub open spec fn fields_view<'a>(fs: Seq<(&'static str, TemplateField<'a>)>) -> Seq<(Seq<char>, TemplateFieldView)> {
    fs.map_values(|f: (&'static str, TemplateField<'a>)| (f.0@, field_view(f.1)))
}

/// The fields a chat template sees for a message: its `role` and `content`;
/// `tool_calls` exactly when it carries calls; `tool_call_id` exactly when
/// it answers a call.
pub open spec fn message_fields(m: ChatMessageView) -> Seq<(Seq<char>, TemplateFieldView)> {
    seq![("role"@, TemplateFieldView::Text(role_name(m.role))), ("content"@, TemplateFieldView::Text(m.content))]
        + (if m.tool_calls.len() > 0 { seq![("tool_calls"@, TemplateFieldView::Calls(m.tool_calls))] } else { Seq::empty() })
        + match m.tool_call_id {
            Some(id) => seq![("tool_call_id"@, TemplateFieldView::Text(id))],
            None => Seq::empty(),
        }
}

/// The fields a chat template sees for `m` (see [`message_fields`]).
pub fn template_fields<'a>(m: &'a ChatMessage) -> (r: Vec<(&'static str, TemplateField<'a>)>)
    ensures
        fields_view(r@) == message_fields(m.deep_view()),
{
    let mut r: Vec<(&'static str, TemplateField<'a>)> = Vec::new();
    r.push(("role", TemplateField::Text(role_str(m.role))));
    r.push(("content", TemplateField::Text(m.content.as_str())));
    if m.tool_calls.len() > 0 {
        r.push(("tool_calls", TemplateField::Calls(&m.tool_calls)));
    }
    match &m.tool_call_id {
        Some(id) => r.push(("tool_call_id", TemplateField::Text(id.as_str()))),
        None => {},
    }
    assert(fields_view(r@) =~= message_fields(m.deep_view()));
    r
}

/// What minijinja renders from the chat template `template` (with Python's
/// string methods available and a `raise_exception` function that fails the
/// rendering with its message) given the messages (each as its fields), the
/// tools' texts, the footer and the two flags; or the error it reports.
pub uninterp spec fn chat_rendering(
    template: Seq<char>,
    messages: Seq<Seq<(Seq<char>, TemplateFieldView)>>,
    tools: Option<Seq<Seq<char>>>,
    footer: Option<Seq<char>>,
    add_generation_prompt: bool,
    enable_thinking: bool,
) -> Result<Seq<char>, Seq<char>>;

/// The `raise_exception` function chat templates call: it fails the rendering
/// with `msg` as an invalid operation.
#[verifier::external_body]
fn raise_exception(msg: String) -> Result<Value, Error> {
    Err(Error::new(ErrorKind::InvalidOperation, msg))
}

/// The `minijinja::Value` a chat template reads for a tool call: a map of
/// `id`, `type` and `function`, itself a map of `name` and `arguments` (the
/// argument values by name).
#[verifier::external_body]
fn call_value(c: &MessageToolCall) -> Value {
    let args: Value = c.function.arguments.iter()
        .map(|(k, v)| (k.as_str(), match v { ArgValue::Str(s) => Value::from(s), ArgValue::Int(n) => Value::from(*n) })).collect();
    let function = Value::from_iter([("name", Value::from(c.function.name)), ("arguments", args)]);
    Value::from_iter([("id", Value::from(&c.id)), ("type", Value::from(c.kind)), ("function", function)])
}

/// The `minijinja::Value` of the messages: a list with one map per message,
/// holding its fields, one value per field.
#[verifier::external_body]
fn messages_value<'a>(messages: &Vec<Vec<(&'static str, TemplateField<'a>)>>) -> Value {
    messages.iter().map(|fields| fields.iter().map(|(key, field)| (*key, match field {
        TemplateField::Text(t) => Value::from(*t),
        TemplateField::Calls(c) => c.iter().map(call_value).collect(),
    })).collect::<Value>()).collect()
}

/// Model of the messages' fields.
pub open spec fn messages_view<'a>(messages: Seq<Vec<(&'static str, TemplateField<'a>)>>) -> Seq<Seq<(Seq<char>, TemplateFieldView)>> {
    messages.map_values(|fs: Vec<(&'static str, TemplateField<'a>)>| fields_view(fs@))
}

/// minijinja's `Environment` with the template added as `chat`, Python's
/// string methods (`minijinja_contrib::pycompat`) and `raise_exception`, then
/// `render` with `messages`, `tools`, `footer`, `add_generation_prompt` and
/// `enable_thinking`. Trusted: the result is the named rendering of these
/// arguments, an error as its text.
#[verifier::external_body]
fn render_template<'a>(
    template: &str,
    messages: &Vec<Vec<(&'static str, TemplateField<'a>)>>,
    tools: &Option<Vec<String>>,
    footer: Option<&str>,
    add_generation_prompt: bool,
    enable_thinking: bool,
) -> (r: Result<String, String>)
    ensures
        chat_rendering(
            template@,
            messages_view(messages@),
            match tools { Some(t) => Some(t.deep_view()), None => None },
            match footer { Some(f) => Some(f@), None => None },
            add_generation_prompt,
            enable_thinking,
        ) == match r { Ok(t) => Ok::<Seq<char>, Seq<char>>(t@), Err(e) => Err(e@) },
{
    let mut env = Environment::new();
    env.set_unknown_method_callback(unknown_method_callback);
    env.add_function("raise_exception", raise_exception);
    env.add_template("chat", template).map_err(|e| e.to_string())?;
    let context = Value::from_iter([("messages", messages_value(messages)),
        ("tools", tools.clone().map_or(Value::UNDEFINED, Value::from)), ("footer", Value::from(footer)),
        ("add_generation_prompt", Value::from(add_generation_prompt)), ("enable_thinking", Value::from(enable_thinking))]);
    env.get_template("chat").and_then(|t| t.render(context)).map_err(|e| e.to_string())
}

/// What [`render_prompt`] renders: the chat template run on the fields of the
/// system prompt as a system message followed by `messages`, with each tool
/// offered as its [`tool_json`] text.
pub open spec fn prompt_rendering(
    template: Seq<char>,
    system_prompt: Seq<char>,
    messages: Seq<ChatMessageView>,
    tools: Option<Seq<ToolDefinition>>,
    footer: Option<Seq<char>>,
    add_generation_prompt: bool,
    enable_thinking: bool,
) -> Result<Seq<char>, Seq<char>> {
    chat_rendering(
        template,
        (seq![bare_view(ChatRole::System, system_prompt)] + messages).map_values(|m: ChatMessageView| message_fields(m)),
        match tools { Some(ts) => Some(ts.map_values(|d: ToolDefinition| tool_json(d))), None => None },
        footer,
        add_generation_prompt,
        enable_thinking,
    )
}

/// Renders a prompt with a model's chat template (see [`prompt_rendering`]):
/// the rendered text, or the template's error.
pub fn render_prompt(
    template: &str,
    system_prompt: &str,
    messages: &Vec<ChatMessage>,
    tools: Option<&Vec<ToolDefinition>>,
    footer: Option<&str>,
    add_generation_prompt: bool,
    enable_thinking: bool,
) -> (r: Result<String, String>)
    ensures
        prompt_rendering(
            template@,
            system_prompt@,
            messages.deep_view(),
            match tools { Some(ts) => Some(ts@), None => None },
            match footer { Some(f) => Some(f@), None => None },
            add_generation_prompt,
            enable_thinking,
        ) == match r { Ok(t) => Ok::<Seq<char>, Seq<char>>(t@), Err(e) => Err(e@) },
{
    let system = ChatMessage::system(owned(system_prompt));
    let ghost all = (seq![system.deep_view()] + messages.deep_view()).map_values(|m: ChatMessageView| message_fields(m));
    let mut fields: Vec<Vec<(&'static str, TemplateField)>> = Vec::new();
    fields.push(template_fields(&system));
    let mut i: usize = 0;
    while i < messages.len()
        invariant
            i <= messages.len(),
            all == (seq![system.deep_view()] + messages.deep_view()).map_values(|m: ChatMessageView| message_fields(m)),
            messages_view(fields@) == all.take(i + 1),
        decreases messages.len() - i,
    {
        let ghost before = messages_view(fields@);
        fields.push(template_fields(&messages[i]));
        assert(messages_view(fields@) =~= before.push(message_fields(messages@[i as int].deep_view())));
        assert(all.take(i + 2) =~= all.take(i + 1).push(all[i + 1]));
        i += 1;
    }
    assert(all.take(messages.len() + 1) =~= all);
    let texts: Option<Vec<String>> = match tools {
        Some(ts) => {
            let mut v: Vec<String> = Vec::new();
            let mut j: usize = 0;
            while j < ts.len()
                invariant
                    j <= ts.len(),
                    v.deep_view() == ts@.take(j as int).map_values(|d: ToolDefinition| tool_json(d)),
                decreases ts.len() - j,
            {
                let ghost before = v.deep_view();
                v.push(tool_text(&ts[j]));
                assert(v.deep_view() =~= before.push(tool_json(ts@[j as int])));
                assert(ts@.take(j + 1).map_values(|d: ToolDefinition| tool_json(d))
                    =~= ts@.take(j as int).map_values(|d: ToolDefinition| tool_json(d)).push(tool_json(ts@[j as int])));
                j += 1;
            }
            assert(ts@.take(ts.len() as int) =~= ts@);
            Some(v)
        },
        None => None,
    };
    render_template(template, &fields, &texts, footer, add_generation_prompt, enable_thinking)
}

} // verus!
