//! The collapsible help panel: its tabs, the shortcut list it shows, and the AI chat
//! that appears while an AI engine runs. The chat's requests go out through the caller,
//! which hands the reply back.
use vstd::prelude::*;
use crate::shortcuts::{action_def_view, effective_shortcut, resolve_shortcut, ActionDef, ShortcutsConfig};
use crate::text::{concat, owned};

verus! {

/// The tabs of the help panel.
#[derive(Clone, Copy, Debug, PartialEq, Eq, Structural)]
pub enum HelpTab {
    Topics,
    Shortcuts,
}

/// One chat message: its role (`"user"` or `"assistant"`) and its text.
#[derive(Clone, Debug)]
pub struct ChatMsg {
    pub role: &'static str,
    pub content: String,
}

/// The views of chat messages: (role, content).
pub open spec fn chat_views(v: Seq<ChatMsg>) -> Seq<(Seq<char>, Seq<char>)> {
    v.map_values(|m: ChatMsg| (m.role@, m.content@))
}

/// A chat request for the caller to send: the completions endpoint and the whole
/// conversation so far.
#[derive(Debug)]
pub struct ChatSend {
    pub url: String,
    pub messages: Vec<ChatMsg>,
}

/// Why a chat request produced no answer.
#[derive(Debug)]
pub enum ChatFailure {
    /// The request could not be sent or received (the error's message).
    Request(String),
    /// The reply was not JSON (the error's message).
    Parse(String),
}

/// The text shown for a chat reply: the first choice's message content; `"(no response)"`
/// when the reply has none; the failure otherwise.
pub open spec fn reply_text(reply: Result<Option<Seq<char>>, ChatFailure>) -> Seq<char> {
    match reply {
        Ok(Some(c)) => c,
        Ok(None) => "(no response)"@,
        Err(ChatFailure::Request(e)) => "Request failed: "@ + e@,
        Err(ChatFailure::Parse(e)) => "Parse error: "@ + e@,
    }
}

/// The text shown for a chat reply.
pub fn chat_reply_text(reply: Result<Option<String>, ChatFailure>) -> (t: String)
    ensures
        t@ == reply_text(
            match reply {
                Ok(Some(c)) => Ok(Some(c@)),
                Ok(None) => Ok(None),
                Err(f) => Err(f),
            },
        ),
{
    match reply {
        Ok(Some(c)) => c,
        Ok(None) => owned("(no response)"),
        Err(ChatFailure::Request(e)) => concat("Request failed: ", e.as_str()),
        Err(ChatFailure::Parse(e)) => concat("Parse error: ", e.as_str()),
    }
}

/// The state of the help panel.
#[derive(Debug)]
pub struct HelpPanel {
    pub tab: HelpTab,
    pub messages: Vec<ChatMsg>,
    pub input: String,
    /// A question is out and its answer has not come back.
    pub thinking: bool,
}

fn clone_messages(v: &Vec<ChatMsg>) -> (r: Vec<ChatMsg>)
    ensures
        chat_views(r@) == chat_views(v@),
{
    let mut r: Vec<ChatMsg> = Vec::new();
    let mut i: usize = 0;
    while i < v.len()
        invariant
            i <= v@.len(),
            chat_views(r@) == chat_views(v@.take(i as int)),
        decreases v@.len() - i,
    {
        let ghost before = r@;
        r.push(ChatMsg { role: v[i].role, content: owned(v[i].content.as_str()) });
        assert(chat_views(r@) =~= chat_views(before).push((v@[i as int].role@, v@[i as int].content@)));
        assert(v@.take(i + 1) =~= v@.take(i as int).push(v@[i as int]));
        assert(chat_views(v@.take(i + 1)) =~= chat_views(v@.take(i as int)).push(
            (v@[i as int].role@, v@[i as int].content@),
        ));
        i += 1;
    }
    assert(v@.take(v@.len() as int) =~= v@);
    r
}

/// The conversation after the user asked `question`.
pub open spec fn asked(conv: Seq<(Seq<char>, Seq<char>)>, question: Seq<char>) -> Seq<(Seq<char>, Seq<char>)> {
    conv.push(("user"@, question))
}

/// The conversation after the assistant answered `answer`.
pub open spec fn answered(conv: Seq<(Seq<char>, Seq<char>)>, answer: Seq<char>) -> Seq<(Seq<char>, Seq<char>)> {
    conv.push(("assistant"@, answer))
}

impl HelpPanel {
    /// The topics tab, no conversation, empty input.
    pub fn new() -> (p: Self)
        ensures
            p.tab == HelpTab::Topics,
            p.messages@.len() == 0,
            p.input@.len() == 0,
            !p.thinking,
    {
        HelpPanel { tab: HelpTab::Topics, messages: Vec::new(), input: String::new(), thinking: false }
    }

    /// Shows a tab.
    pub fn select_tab(&mut self, tab: HelpTab)
        ensures
            final(self).tab == tab,
            chat_views(final(self).messages@) == chat_views(old(self).messages@),
            final(self).input@ == old(self).input@,
            final(self).thinking == old(self).thinking,
    {
        self.tab = tab;
    }

    /// The class of a tab button: marked active when it is the shown tab.
    pub fn tab_class(&self, tab: HelpTab) -> (c: &'static str)
        ensures
            c@ == (if self.tab == tab {
                "fsn-help-sidebar__tab fsn-help-sidebar__tab--active"@
            } else {
                "fsn-help-sidebar__tab"@
            }),
    {
        if self.tab == tab {
            "fsn-help-sidebar__tab fsn-help-sidebar__tab--active"
        } else {
            "fsn-help-sidebar__tab"
        }
    }

    /// Replaces the text being typed.
    pub fn set_input(&mut self, text: String)
        ensures
            final(self).input@ == text@,
            final(self).tab == old(self).tab,
            chat_views(final(self).messages@) == chat_views(old(self).messages@),
            final(self).thinking == old(self).thinking,
    {
        self.input = text;
    }

    /// Whether a question can be sent: there is text and no answer is pending.
    pub fn can_send(&self) -> (b: bool)
        ensures
            b == (!self.thinking && self.input@.len() > 0),
    {
        !self.thinking && self.input.as_str().unicode_len() > 0
    }

    /// Sends the typed question when one can be sent: it joins the conversation as the
    /// user's, the input clears, the panel waits for the answer, and the caller is asked
    /// to post the conversation to `{api_base}/chat/completions`. Otherwise nothing
    /// changes and nothing is sent.
    pub fn submit(&mut self, api_base: &str) -> (send: Option<ChatSend>)
        ensures
            (old(self).thinking || old(self).input@.len() == 0) ==> send is None
                && chat_views(final(self).messages@) == chat_views(old(self).messages@)
                && final(self).input@ == old(self).input@ && final(self).thinking == old(
                self,
            ).thinking,
            !(old(self).thinking || old(self).input@.len() == 0) ==> ({
                let conv = asked(chat_views(old(self).messages@), old(self).input@);
                &&& chat_views(final(self).messages@) == conv
                &&& final(self).input@.len() == 0
                &&& final(self).thinking
                &&& send matches Some(s) && s.url@ == api_base@ + "/chat/completions"@
                    && chat_views(s.messages@) == conv
            }),
            final(self).tab == old(self).tab,
    {
        if self.input.as_str().unicode_len() == 0 || self.thinking {
            return None;
        }
        let mut text = String::new();
        std::mem::swap(&mut text, &mut self.input);
        self.thinking = true;
        let ghost before = self.messages@;
        self.messages.push(ChatMsg { role: "user", content: text });
        assert(chat_views(self.messages@) =~= chat_views(before).push(("user"@, old(self).input@)));
        let messages = clone_messages(&self.messages);
        Some(ChatSend { url: concat(api_base, "/chat/completions"), messages })
    }

    /// The answer came back: it joins the conversation as the assistant's and the panel
    /// stops waiting.
    pub fn receive(&mut self, reply: String)
        ensures
            chat_views(final(self).messages@) == answered(chat_views(old(self).messages@), reply@),
            !final(self).thinking,
            final(self).input@ == old(self).input@,
            final(self).tab == old(self).tab,
    {
        let ghost before = self.messages@;
        self.messages.push(ChatMsg { role: "assistant", content: reply });
        assert(chat_views(self.messages@) =~= chat_views(before).push(("assistant"@, reply@)));
        self.thinking = false;
    }
}

/// A question sent and answered leaves the conversation grown by the question and then
/// the answer, with what was said before unchanged.
pub proof fn law_question_then_answer(
    before: Seq<(Seq<char>, Seq<char>)>,
    question: Seq<char>,
    answer: Seq<char>,
)
    ensures
        ({
            let after = answered(asked(before, question), answer);
            &&& after.len() == before.len() + 2
            &&& after[before.len() as int] == ("user"@, question)
            &&& after[before.len() + 1int] == ("assistant"@, answer)
            &&& after.take(before.len() as int) == before
        }),
{
    let after = answered(asked(before, question), answer);
    assert(after.take(before.len() as int) =~= before);
}

/// The shortcut shown for an action in the panel's list: the one in effect, or `"—"`.
pub fn shortcut_label<'a>(action: &'a ActionDef, config: &'a ShortcutsConfig) -> (s: &'a str)
    ensures
        s@ == match effective_shortcut(config.custom@, action.id@, action_def_view(*action).3) {
            Some(k) => k,
            None => "—"@,
        },
{
    match resolve_shortcut(action, config) {
        Some(k) => k,
        None => "—",
    }
}

} // verus!
