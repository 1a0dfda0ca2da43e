//! Right help sidebar: context-sensitive help content, help sources (strategy) and the
//! mapping from the active window to a help context (observer).
use vstd::prelude::*;
use crate::text::{concat, owned, replace_char, replace_char_exec};

verus! {

/// Resolved help content ready for display.
#[derive(Debug)]
pub enum HelpContent {
    /// A loaded help topic (title + content i18n keys + link URLs).
    Topic { title_key: String, content_key: String, links: Vec<String> },
    /// AI-generated response text.
    AiResponse(String),
    /// No help available.
    NoContent,
}

/// Strategy: any source that can produce `HelpContent` for an app context.
pub trait HelpSource {
    /// Whether `c` is help this source may give for `context`. Unless an implementation
    /// says more, any content may come back: a remote source answers as it will, and two
    /// questions about one context may get different answers.
    open spec fn may_give(&self, context: Seq<char>, c: HelpContent) -> bool {
        true
    }

    /// Resolve help for the given application context string (e.g. `"fs.browser"`).
    fn resolve(&self, context: &str) -> (c: HelpContent)
        ensures
            self.may_give(context@, c),
    ;

    /// Human-readable name of this source (for debugging and logging).
    fn source_name(&self) -> &'static str;
}

/// Fallback when neither local help nor AI is available.
pub struct NoHelpSource;

impl HelpSource for NoHelpSource {
    open spec fn may_give(&self, context: Seq<char>, c: HelpContent) -> bool {
        c is NoContent
    }

    fn resolve(&self, context: &str) -> (c: HelpContent)
        ensures
            c is NoContent,
    {
        HelpContent::NoContent
    }

    fn source_name(&self) -> (n: &'static str)
        ensures
            n@ == "no-help"@,
    {
        "no-help"
    }
}

/// A question to the AI service: where to post it and what to ask.
#[derive(Debug)]
pub struct ChatRequest {
    /// `"{endpoint}/ai/chat"`.
    pub url: String,
    /// `"Help me with the context: {context}"`.
    pub question: String,
    /// The help context.
    pub context: String,
}

/// Resolves help through the AI service's chat endpoint (`POST {endpoint}/ai/chat`).
///
/// The service is asked only when an endpoint is configured; the caller posts the
/// request and hands the reply to [`AiHelpSource::answer`].
#[derive(Debug, Clone)]
pub struct AiHelpSource {
    /// Base address of the AI service (e.g. `http://localhost:8080`), if configured.
    pub endpoint: Option<String>,
}

impl AiHelpSource {
    /// The request that asks for help with `context`; `None` without an endpoint.
    pub fn request(&self, context: &str) -> (r: Option<ChatRequest>)
        ensures
            match self.endpoint {
                Some(base) => r is Some && r->0.url@ == base@ + "/ai/chat"@ && r->0.question@
                    == "Help me with the context: "@ + context@ && r->0.context@ == context@,
                None => r is None,
            },
    {
        match &self.endpoint {
            Some(base) => Some(
                ChatRequest {
                    url: concat(base.as_str(), "/ai/chat"),
                    question: concat("Help me with the context: ", context),
                    context: owned(context),
                },
            ),
            None => None,
        }
    }

    /// The help content for the service's reply: `None` when no request was made,
    /// `Some(Err(()))` when it failed, else the reply's `answer` field if it is a string.
    /// No request or a failed one gives no help; a reply without a string answer gives
    /// `"(no response)"`.
    pub fn answer(reply: Option<Result<Option<String>, ()>>) -> (c: HelpContent)
        ensures
            match reply {
                Some(Ok(Some(a))) => c matches HelpContent::AiResponse(t) && t@ == a@,
                Some(Ok(None)) => c matches HelpContent::AiResponse(t) && t@ == "(no response)"@,
                _ => c is NoContent,
            },
    {
        match reply {
            Some(Ok(Some(a))) => HelpContent::AiResponse(a),
            Some(Ok(None)) => HelpContent::AiResponse(owned("(no response)")),
            Some(Err(())) => HelpContent::NoContent,
            None => HelpContent::NoContent,
        }
    }
}

/// The help context key for an active app id: every `-` becomes `.`.
pub open spec fn help_context(app_id: Seq<char>) -> Seq<char> {
    replace_char(app_id, '-', '.')
}

/// Observes the active app id and maps it to a help context key.
pub struct ActiveWindowObserver;

impl ActiveWindowObserver {
    /// Map an active app id (e.g. `"fs-browser"`) to its help context key (`"fs.browser"`).
    pub fn context_for(app_id: &str) -> (ctx: String)
        ensures
            ctx@ == help_context(app_id@),
    {
        replace_char_exec(app_id, '-', '.')
    }
}

/// Decides whether the AI capability appears to be installed.
pub struct CapabilityCheck;

impl CapabilityCheck {
    /// The AI capability is available when its service endpoint is configured or its
    /// registry flag file exists.
    pub fn ai_available_from(endpoint_configured: bool, flag_file_exists: bool) -> (b: bool)
        ensures
            b == (endpoint_configured || flag_file_exists),
    {
        endpoint_configured || flag_file_exists
    }
}

/// Visibility state of a collapsible sidebar.
#[derive(Clone, Copy, PartialEq, Eq, Debug, Structural)]
pub enum SidebarState {
    Collapsed,
    Expanding,
    Open,
}

/// Whether a sidebar collapses by itself or stays pinned open.
#[derive(Clone, Copy, PartialEq, Eq, Debug, Structural)]
pub enum SidebarMode {
    Auto,
    Pinned,
}

/// Full state for the right help sidebar panel.
#[derive(Debug)]
pub struct HelpSidebarState {
    /// Collapsed / Expanding / Open.
    pub state: SidebarState,
    /// Auto-collapse or stay pinned.
    pub mode: SidebarMode,
    /// Current help content to display.
    pub content: HelpContent,
    /// AI input text (empty when not typing).
    pub ai_input: String,
    /// Whether the AI capability is present.
    pub ai_available: bool,
}

impl HelpSidebarState {
    /// The initial sidebar: collapsed, auto mode, no content, empty AI input.
    pub fn new(ai_available: bool) -> (s: Self)
        ensures
            s.state == SidebarState::Collapsed,
            s.mode == SidebarMode::Auto,
            s.content is NoContent,
            s.ai_input@.len() == 0,
            s.ai_available == ai_available,
    {
        HelpSidebarState {
            state: SidebarState::Collapsed,
            mode: SidebarMode::Auto,
            content: HelpContent::NoContent,
            ai_input: String::new(),
            ai_available,
        }
    }

    /// The content to show once the local source answered: its answer, unless it had
    /// nothing and AI is available, in which case the AI's answer.
    pub fn settle_content(local: HelpContent, ai_available: bool, ai: HelpContent) -> (c: HelpContent)
        ensures
            (local is NoContent && ai_available) ==> c == ai,
            !(local is NoContent && ai_available) ==> c == local,
    {
        match local {
            HelpContent::NoContent => if ai_available {
                ai
            } else {
                HelpContent::NoContent
            },
            other => other,
        }
    }

    /// Update content when the active window changes.
    ///
    /// With no active window (or an empty id) the content becomes `NoContent`. Otherwise
    /// `local` is asked first; when it has nothing and AI is available, `ai` is asked.
    pub fn on_active_window_changed<L: HelpSource, A: HelpSource>(
        &mut self,
        app_id: Option<&str>,
        local: &L,
        ai: &A,
    )
        ensures
            final(self).state == old(self).state,
            final(self).mode == old(self).mode,
            final(self).ai_input == old(self).ai_input,
            final(self).ai_available == old(self).ai_available,
            (match app_id {
                Some(id) => help_context(id@).len() == 0,
                None => true,
            }) ==> final(self).content is NoContent,
            (match app_id {
                Some(id) => help_context(id@).len() > 0 ==> {
                    let ctx = help_context(id@);
                    exists|l: HelpContent|
                        #[trigger] local.may_give(ctx, l) && if l is NoContent
                            && old(self).ai_available {
                            ai.may_give(ctx, final(self).content)
                        } else {
                            final(self).content == l
                        }
                },
                None => true,
            }),
    {
        let context = match app_id {
            Some(id) => ActiveWindowObserver::context_for(id),
            None => String::new(),
        };
        if context.as_str().unicode_len() == 0 {
            self.content = HelpContent::NoContent;
            return;
        }
        let resolved = local.resolve(context.as_str());
        self.content = match resolved {
            HelpContent::NoContent => if self.ai_available {
                ai.resolve(context.as_str())
            } else {
                HelpContent::NoContent
            },
            other => other,
        };
    }
}

} // verus!
