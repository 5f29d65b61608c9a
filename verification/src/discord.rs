//! What the bot makes of a message arriving on Discord: mentions written out
//! as names, the text cleaned, and the conversation it goes to.

use vstd::prelude::*;
use crate::conversation::{ConversationAction, ConversationActionView, ConversationConstructor, ConversationId, Platform};
use crate::media::{Attachment, AttachmentView};
use crate::messaging::{lemma_ws_end_ge, ws_end, ws_end_of};
use crate::roles::{find_from, find_in, lemma_find_from_bounds};
use crate::text::{
    chars_of, decimal, is_whitespace, is_ws, lemma_trim_edges, lemma_trim_range, owned, push_char, push_chars, push_decimal,
    push_str, trim, trim_str,
};

verus! {

// ---------------------------------------------------------------------------
// Text rules

/// How a person is named to the model: `NAME (id:ID)`.
pub open spec fn identity_view(name: Seq<char>, id: u64) -> Seq<char> {
    name + " (id:"@ + decimal(id as nat) + ")"@
}

/// A person's name with their id (see [`identity_view`]).
pub fn identity(name: &str, id: u64) -> (r: String)
    ensures
        r@ == identity_view(name@, id),
{
    let mut r = owned(name);
    push_str(&mut r, " (id:");
    push_decimal(&mut r, id);
    push_str(&mut r, ")");
    r
}

/// `t` from `i` on with every occurrence of `pat` replaced by `rep`, scanning
/// left to right without overlaps, as `str::replace` does; an empty pattern
/// replaces nothing.
pub open spec fn replace_from(t: Seq<char>, pat: Seq<char>, rep: Seq<char>, i: int) -> Seq<char>
    decreases t.len() + 1 - i,
{
    if i < 0 || i > t.len() || pat.len() == 0 {
        t.subrange(if 0 <= i <= t.len() { i } else { t.len() as int }, t.len() as int)
    } else {
        match find_from(t, pat, i) {
            None => t.subrange(i, t.len() as int),
            Some(j) => {
                proof {
                    lemma_find_from_bounds(t, pat, i);
                }
                t.subrange(i, j) + rep + replace_from(t, pat, rep, j + pat.len())
            },
        }
    }
}

/// Every occurrence of `pat` in `t` replaced by `rep` (see [`replace_from`]).
pub open spec fn replace_all(t: Seq<char>, pat: Seq<char>, rep: Seq<char>) -> Seq<char> {
    replace_from(t, pat, rep, 0)
}

/// `t.replace(pat, rep)` for a non-empty pattern.
pub fn replace_every(t: &str, pat: &str, rep: &str) -> (r: String)
    requires
        pat@.len() > 0,
    ensures
        r@ == replace_all(t@, pat@, rep@),
{
    let v = chars_of(t);
    let p = chars_of(pat);
    let mut r = String::new();
    let mut i: usize = 0;
    while i <= v.len()
        invariant
            i <= v@.len() + 1,
            v@ == t@,
            p@ == pat@,
            p@.len() > 0,
            replace_all(v@, p@, rep@) == r@ + replace_from(v@, p@, rep@, i as int),
        decreases v@.len() + 1 - i,
    {
        if i == v.len() {
            assert(replace_from(v@, p@, rep@, i as int) =~= Seq::<char>::empty()) by {
                lemma_find_from_bounds(v@, p@, i as int);
            }
            return r;
        }
        proof {
            lemma_find_from_bounds(v@, p@, i as int);
        }
        match find_in(&v, &p, i) {
            None => {
                push_chars(&mut r, &v, i, v.len());
                return r;
            },
            Some(j) => {
                push_chars(&mut r, &v, i, j);
                push_str(&mut r, rep);
                i = j + p.len();
            },
        }
    }
    r
}

/// `s` with its leading `/` characters removed.
pub open spec fn drop_slashes(s: Seq<char>) -> Seq<char>
    decreases s.len(),
{
    if s.len() > 0 && s[0] == '/' { drop_slashes(s.drop_first()) } else { s }
}

/// `s` from `i` on with every run of whitespace replaced by one space.
pub open spec fn squeeze_from(s: Seq<char>, i: int) -> Seq<char>
    decreases s.len() - i,
{
    if i < 0 || i >= s.len() {
        Seq::empty()
    } else if is_ws(s[i]) {
        proof {
            lemma_ws_end_ge(s, i + 1);
        }
        seq![' '] + squeeze_from(s, ws_end(s, i + 1))
    } else {
        seq![s[i]] + squeeze_from(s, i + 1)
    }
}

/// `s` with every run of whitespace replaced by one space.
pub open spec fn squeeze(s: Seq<char>) -> Seq<char> {
    squeeze_from(s, 0)
}

/// A person a message mentions.
pub struct Mention {
    pub id: u64,
    pub global_name: Option<String>,
    pub name: String,
}

/// Model of a [`Mention`]: id, display name, account name.
pub open spec fn mention_view(m: Mention) -> (u64, Option<Seq<char>>, Seq<char>) {
    (m.id, m.global_name.deep_view(), m.name@)
}

/// What a mention is written as: the bot's own name for the bot, else the
/// person's display name, or their account name when they have none; with
/// the id.
pub open spec fn mention_label(m: (u64, Option<Seq<char>>, Seq<char>), bot_user_id: u64, bot_name: Seq<char>) -> Seq<char> {
    let name = if m.0 == bot_user_id {
        bot_name
    } else {
        match m.1 {
            Some(g) => g,
            None => m.2,
        }
    };
    identity_view(name, m.0)
}

/// The text with each mention, in order, written out: both `<@ID>` and
/// `<@!ID>` become its label.
pub open spec fn mentions_written(text: Seq<char>, ms: Seq<(u64, Option<Seq<char>>, Seq<char>)>, bot_user_id: u64, bot_name: Seq<char>) -> Seq<char>
    decreases ms.len(),
{
    if ms.len() == 0 {
        text
    } else {
        let before = mentions_written(text, ms.drop_last(), bot_user_id, bot_name);
        let m = ms.last();
        let label = mention_label(m, bot_user_id, bot_name);
        let id = decimal(m.0 as nat);
        replace_all(replace_all(before, "<@"@ + id + ">"@, label), "<@!"@ + id + ">"@, label)
    }
}

/// A message as it reaches the bot: who wrote it, where, and what.
pub struct InboundMessage {
    pub author_id: u64,
    pub author_global_name: Option<String>,
    pub author_name: String,
    pub channel_id: u64,
    pub in_guild: bool,
    pub content: String,
    pub mentions: Vec<Mention>,
}

/// The text of a message as the conversation gets it: mentions written out,
/// trimmed, leading slashes dropped, whitespace runs made single spaces;
/// `None` when nothing is left.
pub open spec fn filter_view(content: Seq<char>, ms: Seq<(u64, Option<Seq<char>>, Seq<char>)>, bot_user_id: u64, bot_name: Seq<char>) -> Option<Seq<char>> {
    let written = mentions_written(content, ms, bot_user_id, bot_name);
    let text = trim(squeeze(trim(drop_slashes(trim(written)))));
    if text.len() == 0 { None } else { Some(text) }
}

fn drop_leading_slashes(s: &str) -> (r: String)
    ensures
        r@ == drop_slashes(s@),
{
    let v = chars_of(s);
    let mut i: usize = 0;
    assert(v@.subrange(0, v@.len() as int) =~= v@);
    while i < v.len() && v[i] == '/'
        invariant
            i <= v@.len(),
            drop_slashes(s@) == drop_slashes(v@.subrange(i as int, v@.len() as int)),
        decreases v@.len() - i,
    {
        assert(v@.subrange(i as int, v@.len() as int).drop_first() =~= v@.subrange(i + 1, v@.len() as int));
        i += 1;
    }
    let mut r = String::new();
    push_chars(&mut r, &v, i, v.len());
    r
}

fn squeeze_spaces(s: &str) -> (r: String)
    ensures
        r@ == squeeze(s@),
{
    let v = chars_of(s);
    let mut r = String::new();
    let mut i: usize = 0;
    while i < v.len()
        invariant
            i <= v@.len(),
            squeeze(v@) == r@ + squeeze_from(v@, i as int),
        decreases v@.len() - i,
    {
        if is_whitespace(v[i]) {
            push_char(&mut r, ' ');
            proof {
                lemma_ws_end_ge(v@, i + 1);
            }
            i = ws_end_of(&v, i + 1);
        } else {
            push_char(&mut r, v[i]);
            i += 1;
        }
    }
    r
}

/// The cleaned text of a message (see [`filter_view`]).
pub fn filter(message: &InboundMessage, bot_user_id: u64, bot_name: &str) -> (r: Option<String>)
    ensures
        r.deep_view() == filter_view(message.content@, message.mentions@.map_values(|m: Mention| mention_view(m)), bot_user_id, bot_name@),
{
    let ghost ms = message.mentions@.map_values(|m: Mention| mention_view(m));
    let mut text = owned(message.content.as_str());
    let mut k: usize = 0;
    assert(ms.take(0) =~= Seq::<(u64, Option<Seq<char>>, Seq<char>)>::empty());
    while k < message.mentions.len()
        invariant
            k <= message.mentions@.len(),
            ms == message.mentions@.map_values(|m: Mention| mention_view(m)),
            text@ == mentions_written(message.content@, ms.take(k as int), bot_user_id, bot_name@),
        decreases message.mentions@.len() - k,
    {
        let m = &message.mentions[k];
        assert(ms.take(k + 1).drop_last() =~= ms.take(k as int));
        assert(ms.take(k + 1).last() == mention_view(*m));
        let name: &str = if m.id == bot_user_id {
            bot_name
        } else {
            match &m.global_name {
                Some(g) => g.as_str(),
                None => m.name.as_str(),
            }
        };
        let label = identity(name, m.id);
        let mut plain = owned("<@");
        push_decimal(&mut plain, m.id);
        push_str(&mut plain, ">");
        let mut bang = owned("<@!");
        push_decimal(&mut bang, m.id);
        push_str(&mut bang, ">");
        proof {
            reveal_strlit("<@");
            reveal_strlit("<@!");
        }
        let once = replace_every(text.as_str(), plain.as_str(), label.as_str());
        text = replace_every(once.as_str(), bang.as_str(), label.as_str());
        k += 1;
    }
    assert(ms.take(message.mentions@.len() as int) =~= ms);
    let t1 = trim_str(text.as_str());
    let t2 = drop_leading_slashes(t1.as_str());
    let t3 = trim_str(t2.as_str());
    let t4 = squeeze_spaces(t3.as_str());
    let t5 = trim_str(t4.as_str());
    if chars_of(t5.as_str()).len() == 0 {
        None
    } else {
        Some(t5)
    }
}

// ---------------------------------------------------------------------------
// Routing

/// The bot as it sits on Discord: its own user id and name.
pub struct Handler {
    pub bot_user_id: u64,
    pub bot_name: String,
}

/// Where a message goes and what it says there, or `None` when the bot
/// ignores it (its own messages, and messages with nothing left to say).
pub open spec fn route_view(
    bot_user_id: u64,
    bot_name: Seq<char>,
    author_id: u64,
    author_global_name: Option<Seq<char>>,
    author_name: Seq<char>,
    channel_id: u64,
    in_guild: bool,
    text: Option<Seq<char>>,
    attachments: Seq<AttachmentView>,
) -> Option<((Platform, Seq<char>), bool, Seq<char>, ConversationActionView)> {
    if author_id == bot_user_id {
        None
    } else {
        match text {
            None => None,
            Some(t) => {
                let name = match author_global_name {
                    Some(g) => g,
                    None => author_name,
                };
                Some((
                    (Platform::Discord, decimal(channel_id as nat)),
                    in_guild,
                    identity_view(bot_name, bot_user_id),
                    ConversationActionView::NewMessage {
                        msg: identity_view(name, author_id) + ": "@ + t,
                        user_id: decimal(author_id as nat),
                        name,
                        attachments,
                    },
                ))
            },
        }
    }
}

impl Handler {
    /// What to do with a message: the conversation to make sure of (its id,
    /// whether it is a group, how the bot is named in it) and the action to
    /// hand it (see [`route_view`]).
    pub fn message(&self, message: &InboundMessage, attachments: Vec<Attachment>) -> (r: Option<(ConversationConstructor, ConversationAction)>)
        ensures
            match route_view(
                self.bot_user_id,
                self.bot_name@,
                message.author_id,
                message.author_global_name.deep_view(),
                message.author_name@,
                message.channel_id,
                message.in_guild,
                filter_view(message.content@, message.mentions@.map_values(|m: Mention| mention_view(m)), self.bot_user_id, self.bot_name@),
                attachments.deep_view(),
            ) {
                None => r is None,
                Some((id, group, bot, action)) => r matches Some(p) && p.0.id.deep_view() == id && p.0.is_group == group
                    && p.0.bot_identity@ == bot && p.1.deep_view() == action,
            },
    {
        if message.author_id == self.bot_user_id {
            return None;
        }
        let text = match filter(message, self.bot_user_id, self.bot_name.as_str()) {
            Some(t) => t,
            None => return None,
        };
        let name: String = match &message.author_global_name {
            Some(g) => owned(g.as_str()),
            None => owned(message.author_name.as_str()),
        };
        let mut msg = identity(name.as_str(), message.author_id);
        push_str(&mut msg, ": ");
        push_str(&mut msg, text.as_str());
        let mut user_id = String::new();
        push_decimal(&mut user_id, message.author_id);
        let mut channel = String::new();
        push_decimal(&mut channel, message.channel_id);
        let constructor = ConversationConstructor {
            id: ConversationId(Platform::Discord, channel),
            is_group: message.in_guild,
            bot_identity: identity(self.bot_name.as_str(), self.bot_user_id),
        };
        Some((constructor, ConversationAction::NewMessage { msg, user_id, name, attachments }))
    }
}

// ---------------------------------------------------------------------------
// What cleaned text looks like

/// Text whose only whitespace is single spaces.
pub open spec fn single_spaced(t: Seq<char>) -> bool {
    &&& forall|j: int| 0 <= j < t.len() && is_ws(#[trigger] t[j]) ==> t[j] == ' '
    &&& forall|j: int| 1 <= j < t.len() && t[j - 1] == ' ' ==> #[trigger] t[j] != ' '
}

proof fn lemma_squeeze_from(s: Seq<char>, i: int)
    requires
        0 <= i,
    ensures
        single_spaced(squeeze_from(s, i)),
        (i >= s.len() || !is_ws(s[i])) && squeeze_from(s, i).len() > 0 ==> !is_ws(squeeze_from(s, i)[0]),
    decreases s.len() - i,
{
    if i < s.len() {
        if is_ws(s[i]) {
            lemma_ws_end_ge(s, i + 1);
            let p = ws_end(s, i + 1);
            lemma_ws_end_stops(s, i + 1);
            lemma_squeeze_from(s, p);
            let rest = squeeze_from(s, p);
            let out = squeeze_from(s, i);
            assert(out == seq![' '] + rest);
            assert forall|j: int| 0 <= j < out.len() && is_ws(#[trigger] out[j]) implies out[j] == ' ' by {
                if j > 0 {
                    assert(out[j] == rest[j - 1]);
                }
            }
            assert forall|j: int| 1 <= j < out.len() && out[j - 1] == ' ' implies #[trigger] out[j] != ' ' by {
                assert(out[j] == rest[j - 1]);
                if j > 1 {
                    assert(out[j - 1] == rest[j - 2]);
                }
            }
        } else {
            lemma_squeeze_from(s, i + 1);
            let rest = squeeze_from(s, i + 1);
            let out = squeeze_from(s, i);
            assert(out == seq![s[i]] + rest);
            assert forall|j: int| 0 <= j < out.len() && is_ws(#[trigger] out[j]) implies out[j] == ' ' by {
                if j > 0 {
                    assert(out[j] == rest[j - 1]);
                }
            }
            assert forall|j: int| 1 <= j < out.len() && out[j - 1] == ' ' implies #[trigger] out[j] != ' ' by {
                assert(out[j] == rest[j - 1]);
                if j > 1 {
                    assert(out[j - 1] == rest[j - 2]);
                }
            }
        }
    }
}

proof fn lemma_ws_end_stops(t: Seq<char>, i: int)
    requires
        0 <= i,
    ensures
        ws_end(t, i) < t.len() ==> !is_ws(t[ws_end(t, i)]),
    decreases t.len() - i,
{
    if 0 <= i < t.len() && is_ws(t[i]) {
        lemma_ws_end_stops(t, i + 1);
    }
}

proof fn lemma_single_spaced_piece(t: Seq<char>, a: int, b: int)
    requires
        single_spaced(t),
        0 <= a <= b <= t.len(),
    ensures
        single_spaced(t.subrange(a, b)),
{
    let p = t.subrange(a, b);
    assert forall|j: int| 0 <= j < p.len() && is_ws(#[trigger] p[j]) implies p[j] == ' ' by {
        assert(p[j] == t[a + j]);
    }
    assert forall|j: int| 1 <= j < p.len() && p[j - 1] == ' ' implies #[trigger] p[j] != ' ' by {
        assert(p[j - 1] == t[a + j - 1]);
        assert(p[j] == t[a + j]);
    }
}

/// The text a message is handed on with is never blank, begins and ends with
/// something other than whitespace, and holds no whitespace but single
/// spaces: every run of it, line breaks and tabs included, became one space.
pub proof fn law_filtered_text_is_single_spaced(
    content: Seq<char>,
    ms: Seq<(u64, Option<Seq<char>>, Seq<char>)>,
    bot_user_id: u64,
    bot_name: Seq<char>,
)
    ensures
        filter_view(content, ms, bot_user_id, bot_name) matches Some(t) ==> {
            &&& t.len() > 0
            &&& !is_ws(t[0])
            &&& !is_ws(t.last())
            &&& single_spaced(t)
        },
{
    let written = mentions_written(content, ms, bot_user_id, bot_name);
    let sq = squeeze(trim(drop_slashes(trim(written))));
    lemma_squeeze_from(trim(drop_slashes(trim(written))), 0);
    let r = lemma_trim_range(sq);
    lemma_single_spaced_piece(sq, r.0, r.1);
    lemma_trim_edges(sq);
}

} // verus!
