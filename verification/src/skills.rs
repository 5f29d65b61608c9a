//! The skill library: short reference guides, one `NAME.md` file each. Which
//! files are skills, how the library is listed, and what reading one returns.

use vstd::prelude::*;
use crate::conversation::{text_result, ToolResultData, ToolType, ToolTypeView};
use crate::conversation_laws::lemma_seq_le_total;
use crate::text::{chars_of, concat3, join, owned, push_decimal, push_str, seq_join, seq_le, str_le, string_of, views};
use crate::tool_exec::{clip_to, clip_view, extra_turn_result, runtime_only_view, ACTUAL_MAX, SIMPLIFIED_MAX};

verus! {

/// The position of the last `.` among the first `n` characters.
pub open spec fn last_dot_before(s: Seq<char>, n: int) -> Option<int>
    decreases n,
{
    if n <= 0 || n > s.len() {
        None
    } else if s[n - 1] == '.' {
        Some(n - 1)
    } else {
        last_dot_before(s, n - 1)
    }
}

/// The skill a file in the library stands for: the file's stem when its
/// extension is `md` (a name that starts with its only `.` has none).
pub open spec fn skill_stem_view(file_name: Seq<char>) -> Option<Seq<char>> {
    match last_dot_before(file_name, file_name.len() as int) {
        Some(i) => if i > 0 && file_name.skip(i + 1) == "md"@ { Some(file_name.take(i)) } else { None },
        None => None,
    }
}

pub proof fn lemma_last_dot_bounds(s: Seq<char>, n: int)
    ensures
        last_dot_before(s, n) matches Some(i) ==> 0 <= i < n,
    decreases n,
{
    if 0 < n <= s.len() && s[n - 1] != '.' {
        lemma_last_dot_bounds(s, n - 1);
    }
}

/// The skill a library file stands for (see [`skill_stem_view`]).
pub fn skill_stem(file_name: &str) -> (r: Option<String>)
    ensures
        r.deep_view() == skill_stem_view(file_name@),
{
    let v = chars_of(file_name);
    let mut k = v.len();
    while k > 0 && v[k - 1] != '.'
        invariant
            k <= v@.len(),
            v@ == file_name@,
            last_dot_before(v@, v@.len() as int) == last_dot_before(v@, k as int),
        decreases k,
    {
        k -= 1;
    }
    proof {
        lemma_last_dot_bounds(v@, v@.len() as int);
        reveal_strlit("md");
    }
    if k <= 1 {
        return None;
    }
    let i = k - 1;
    let is_md = v.len() - k == 2 && v[k] == 'm' && v[k + 1] == 'd';
    proof {
        let ext = v@.skip(i + 1);
        if v@.len() - k == 2 {
            assert(ext.len() == 2 && ext[0] == v@[k as int] && ext[1] == v@[k + 1]);
        }
        if is_md {
            assert(ext =~= "md"@);
        } else if ext == "md"@ {
            assert(ext.len() == 2);
            assert(ext[0] == 'm' && ext[1] == 'd');
            assert(v@[k as int] == ext[0] && v@[k + 1] == ext[1]);
            assert(false);
        }
    }
    if is_md { Some(string_of(&v, 0, i)) } else { None }
}

/// Whether a list of names is in order.
pub open spec fn names_sorted(s: Seq<Seq<char>>) -> bool {
    forall|i: int| 0 <= i < s.len() - 1 ==> seq_le(#[trigger] s[i], s[i + 1])
}

/// The names in order, as `sort` puts them: a sorted arrangement of the same
/// names.
pub fn sort_names(names: Vec<String>) -> (r: Vec<String>)
    ensures
        names_sorted(views(r@)),
        views(r@).to_multiset() == views(names@).to_multiset(),
{
    let mut r: Vec<String> = Vec::new();
    let mut i: usize = 0;
    assert(views(names@).take(0) =~= Seq::<Seq<char>>::empty());
    assert(views(r@) =~= Seq::<Seq<char>>::empty());
    while i < names.len()
        invariant
            i <= names@.len(),
            names_sorted(views(r@)),
            views(r@).to_multiset() == views(names@).take(i as int).to_multiset(),
        decreases names@.len() - i,
    {
        let x = names[i].clone();
        let mut p = r.len();
        while p > 0 && !str_le(r[p - 1].as_str(), x.as_str())
            invariant
                p <= r@.len(),
                p < r@.len() ==> seq_le(x@, r@[p as int]@),
            decreases p,
        {
            proof {
                lemma_seq_le_total(r@[p - 1]@, x@);
            }
            p -= 1;
        }
        let ghost before = views(r@);
        r.insert(p, x);
        assert(views(r@) =~= before.insert(p as int, names@[i as int]@));
        assert forall|k: int| 0 <= k < views(r@).len() - 1 implies seq_le(#[trigger] views(r@)[k], views(r@)[k + 1]) by {
            if k < p - 1 {
                assert(views(r@)[k] == before[k] && views(r@)[k + 1] == before[k + 1]);
            } else if k == p - 1 {
            } else if k == p {
            } else {
                assert(views(r@)[k] == before[k - 1] && views(r@)[k + 1] == before[k]);
            }
        }
        assert(views(names@).take(i + 1) =~= views(names@).take(i as int).push(names@[i as int]@));
        proof {
            vstd::seq_lib::to_multiset_insert(before, p as int, names@[i as int]@);
            vstd::seq_lib::to_multiset_build(views(names@).take(i as int), names@[i as int]@);
        }
        i += 1;
    }
    assert(views(names@).take(names@.len() as int) =~= views(names@));
    r
}

/// How the library is listed: the skill names, in order, as a bulleted list
/// under a count, or a note that there are none.
pub open spec fn skill_list_view(names: Seq<Seq<char>>) -> Seq<char> {
    if names.len() == 0 {
        "No skills are available."@
    } else {
        "Available skills ("@ + crate::text::decimal(names.len()) + "). Call use_skill again with a name to read one in full:\n"@
            + seq_join(names.map_values(|n: Seq<char>| "- "@ + n), "\n"@)
    }
}

/// The listing of the library (see [`skill_list_view`]); `names` in order.
pub fn list_skills_text(names: &Vec<String>) -> (r: String)
    ensures
        r@ == skill_list_view(views(names@)),
{
    if names.len() == 0 {
        return owned("No skills are available.");
    }
    let mut lines: Vec<String> = Vec::new();
    let mut i: usize = 0;
    while i < names.len()
        invariant
            i <= names@.len(),
            lines@.len() == i,
            forall|j: int| 0 <= j < i ==> (#[trigger] lines@[j])@ == "- "@ + names@[j]@,
        decreases names@.len() - i,
    {
        lines.push(crate::text::concat2("- ", names[i].as_str()));
        i += 1;
    }
    assert(views(lines@) =~= views(names@).map_values(|n: Seq<char>| "- "@ + n));
    let mut r = owned("Available skills (");
    push_decimal(&mut r, names.len() as u64);
    push_str(&mut r, "). Call use_skill again with a name to read one in full:\n");
    push_str(&mut r, join(&lines, "\n").as_str());
    r
}

/// Whether a requested skill name could reach outside the library: it holds
/// a `/`, a `\` or `..`.
pub open spec fn unsafe_skill_name(name: Seq<char>) -> bool {
    exists|i: int| 0 <= i < name.len() && (#[trigger] name[i] == '/' || name[i] == '\\'
        || (i + 1 < name.len() && name[i] == '.' && name[i + 1] == '.'))
}

/// The refusal of a name that could reach outside the library, if it is one.
pub fn skill_name_error(name: &str) -> (r: Option<String>)
    ensures
        unsafe_skill_name(name@) ==> (r matches Some(e) && e@ == "'"@ + name@ + "' is not a valid skill name."@),
        !unsafe_skill_name(name@) ==> r is None,
{
    let v = chars_of(name);
    let mut i: usize = 0;
    while i < v.len()
        invariant
            i <= v@.len(),
            v@ == name@,
            forall|j: int| 0 <= j < i ==> !(#[trigger] v@[j] == '/' || v@[j] == '\\' || (j + 1 < v@.len() && v@[j] == '.' && v@[j + 1] == '.')),
        decreases v@.len() - i,
    {
        if v[i] == '/' || v[i] == '\\' || (i + 1 < v.len() && v[i] == '.' && v[i + 1] == '.') {
            return Some(concat3("'", name, "' is not a valid skill name."));
        }
        i += 1;
    }
    None
}

/// The refusal of a skill that is not in the library, naming those that are.
pub open spec fn missing_skill_view(name: Seq<char>, available: Seq<Seq<char>>) -> Seq<char> {
    "no skill named '"@ + name + "' ("@ + (if available.len() > 0 {
        "available skills: "@ + seq_join(available, ", "@)
    } else {
        "no skills are available"@
    }) + ")"@
}

/// The refusal of a missing skill (see [`missing_skill_view`]).
pub fn missing_skill(name: &str, available: &Vec<String>) -> (r: String)
    ensures
        r@ == missing_skill_view(name@, views(available@)),
{
    let mut r = concat3("no skill named '", name, "' (");
    if available.len() > 0 {
        push_str(&mut r, "available skills: ");
        push_str(&mut r, join(available, ", ").as_str());
    } else {
        push_str(&mut r, "no skills are available");
    }
    push_str(&mut r, ")");
    r
}

/// What reading a skill returns: its text clipped, and clipped shorter for
/// the simplified record.
pub fn skill_result(content: &str) -> (r: ToolResultData)
    ensures
        r.deep_view() == text_result(
            clip_view(content@, ACTUAL_MAX as nat),
            clip_view(clip_view(content@, ACTUAL_MAX as nat), SIMPLIFIED_MAX as nat),
        ),
{
    let body = clip_to(content, ACTUAL_MAX);
    let simplified = clip_to(body.as_str(), SIMPLIFIED_MAX);
    ToolResultData::text(body, simplified)
}

/// What listing the library returns: the listing as both records.
pub fn skill_list_result(list: String) -> (r: ToolResultData)
    ensures
        r.deep_view() == text_result(list@, list@),
{
    ToolResultData::text(list.clone(), list)
}

/// What running a tool call needs next: nothing (the outcome is known), or
/// one piece of outside work whose result finishes the call.
pub enum ToolStep {
    Done(Result<ToolResultData, String>),
    Search { query: String },
    Visit { url: String },
    RunBash { command: String },
    ResetSandbox,
    ViewImage { path: String },
    ReadFile { path: String, offset: Option<usize>, limit: Option<usize> },
    EditFile { path: String, old_string: String, new_string: String },
    ListSkills,
    ReadSkill { name: String },
}

/// The first step of running `tool_type`: the extra-turn tool answers at
/// once; reminders and the malformed-call tool are refused (the runtime
/// handles them); a skill name that could leave the library is refused;
/// every other call needs its outside work.
pub fn tool_step(tool_type: ToolType) -> (r: ToolStep)
    ensures
        match tool_type.deep_view() {
            ToolTypeView::MetaNoOpExtraTurn => r matches ToolStep::Done(Ok(d)) && d.deep_view() == text_result(
                "You have another turn — continue with the next part of your message now."@,
                "You have another turn — continue with the next part of your message now."@),
            ToolTypeView::SetReminder { .. } | ToolTypeView::MetaMalformed { .. } =>
                r matches ToolStep::Done(Err(e)) && Some(e@) == runtime_only_view(tool_type.deep_view()),
            ToolTypeView::WebSearch { query } => r matches ToolStep::Search { query: q } && q@ == query,
            ToolTypeView::VisitUrl { url } => r matches ToolStep::Visit { url: u } && u@ == url,
            ToolTypeView::RunBashCommand { command } => r matches ToolStep::RunBash { command: c } && c@ == command,
            ToolTypeView::ResetBashContainer => r is ResetSandbox,
            ToolTypeView::ViewImage { path } => r matches ToolStep::ViewImage { path: p } && p@ == path,
            ToolTypeView::ReadFile { path, offset, limit } =>
                r matches ToolStep::ReadFile { path: p, offset: o, limit: l } && p@ == path && o == offset && l == limit,
            ToolTypeView::EditFile { path, old_string, new_string } =>
                r matches ToolStep::EditFile { path: p, old_string: o, new_string: n }
                    && p@ == path && o@ == old_string && n@ == new_string,
            ToolTypeView::UseSkill { skill: None } => r is ListSkills,
            ToolTypeView::UseSkill { skill: Some(name) } => if unsafe_skill_name(name) {
                r matches ToolStep::Done(Err(e)) && e@ == "'"@ + name + "' is not a valid skill name."@
            } else {
                r matches ToolStep::ReadSkill { name: n } && n@ == name
            },
        },
{
    match tool_type {
        ToolType::MetaNoOpExtraTurn => ToolStep::Done(Ok(extra_turn_result())),
        ToolType::SetReminder { .. } => ToolStep::Done(Err(owned("set_reminder is handled by the conversation runtime, not the tool executor"))),
        ToolType::MetaMalformed { .. } => ToolStep::Done(Err(owned("meta_malformed_tool_call is handled by the conversation runtime, not the tool executor"))),
        ToolType::WebSearch { query } => ToolStep::Search { query },
        ToolType::VisitUrl { url } => ToolStep::Visit { url },
        ToolType::RunBashCommand { command } => ToolStep::RunBash { command },
        ToolType::ResetBashContainer => ToolStep::ResetSandbox,
        ToolType::ViewImage { path } => ToolStep::ViewImage { path },
        ToolType::ReadFile { path, offset, limit } => ToolStep::ReadFile { path, offset, limit },
        ToolType::EditFile { path, old_string, new_string } => ToolStep::EditFile { path, old_string, new_string },
        ToolType::UseSkill { skill: None } => ToolStep::ListSkills,
        ToolType::UseSkill { skill: Some(name) } => match skill_name_error(name.as_str()) {
            Some(e) => ToolStep::Done(Err(e)),
            None => ToolStep::ReadSkill { name },
        },
    }
}

} // verus!
