//! Profile: user profile data, personal capabilities, SSH keys, linked OIDC accounts,
//! and the state machine of the profile editor.
use vstd::prelude::*;
use crate::header::Translate;
use crate::taskbar::{clone_opt, opt_view};
use crate::text::{
    char_to_uppercase, chars_of, concat, owned, skip_chars, string_from_chars, uppercase_char,
};

verus! {

// ── PersonalCapability ────────────────────────────────────────────────────────

/// Static metadata for a capability variant.
pub struct CapabilityMeta {
    pub icon: &'static str,
    /// Short, untranslated kind name shown in UI badges.
    pub kind: &'static str,
}

/// A personal resource this user has connected to the system.
#[derive(Debug)]
pub enum PersonalCapability {
    /// User has a messenger account and can receive personal bot messages.
    MessengerAccount { platform: String, username: String, verified: bool },
    /// User has personal tasks in a task service.
    TaskManager { service_id: String },
    /// User has a personal mail inbox.
    Mailbox { service_id: String, address: String },
    /// User has a personal LLM assistant configured.
    LlmAssistant { provider: String, model: String },
}

/// Icon of each capability variant.
pub open spec fn capability_icon(c: PersonalCapability) -> Seq<char> {
    match c {
        PersonalCapability::MessengerAccount { .. } => "💬"@,
        PersonalCapability::TaskManager { .. } => "✅"@,
        PersonalCapability::Mailbox { .. } => "📬"@,
        PersonalCapability::LlmAssistant { .. } => "🤖"@,
    }
}

/// Kind name of each capability variant.
pub open spec fn capability_kind(c: PersonalCapability) -> Seq<char> {
    match c {
        PersonalCapability::MessengerAccount { .. } => "Messenger"@,
        PersonalCapability::TaskManager { .. } => "Task Manager"@,
        PersonalCapability::Mailbox { .. } => "Mailbox"@,
        PersonalCapability::LlmAssistant { .. } => "LLM Assistant"@,
    }
}

/// `s` with its first character uppercased.
pub open spec fn capitalized(s: Seq<char>) -> Seq<char> {
    if s.len() == 0 {
        Seq::empty()
    } else {
        char_to_uppercase(s[0]) + s.drop_first()
    }
}

/// Display label of a capability.
pub open spec fn capability_label(c: PersonalCapability) -> Seq<char> {
    match c {
        PersonalCapability::MessengerAccount { platform, username, .. } => capitalized(platform@)
            + " (@"@ + username@ + ")"@,
        PersonalCapability::TaskManager { service_id } => "Task Manager"@ + " ("@ + service_id@
            + ")"@,
        PersonalCapability::Mailbox { address, .. } => "Mailbox"@ + " ("@ + address@ + ")"@,
        PersonalCapability::LlmAssistant { provider, model } => "LLM: "@ + provider@ + " / "@
            + model@,
    }
}

/// `s` with its first character uppercased.
pub fn capitalize(s: &str) -> (r: String)
    ensures
        r@ == capitalized(s@),
{
    let cs = chars_of(s);
    if cs.len() == 0 {
        return String::new();
    }
    let first = uppercase_char(cs[0]);
    let rest = skip_chars(s, 1);
    assert(s@.skip(1) =~= s@.drop_first());
    concat(first.as_str(), rest.as_str())
}

impl PersonalCapability {
    /// Static metadata (icon, kind label) of this variant.
    pub fn meta(&self) -> (m: CapabilityMeta)
        ensures
            m.icon@ == capability_icon(*self),
            m.kind@ == capability_kind(*self),
    {
        match self {
            PersonalCapability::MessengerAccount { .. } => CapabilityMeta { icon: "💬", kind: "Messenger" },
            PersonalCapability::TaskManager { .. } => CapabilityMeta { icon: "✅", kind: "Task Manager" },
            PersonalCapability::Mailbox { .. } => CapabilityMeta { icon: "📬", kind: "Mailbox" },
            PersonalCapability::LlmAssistant { .. } => CapabilityMeta { icon: "🤖", kind: "LLM Assistant" },
        }
    }

    /// Icon of this capability.
    pub fn icon(&self) -> (i: &'static str)
        ensures
            i@ == capability_icon(*self),
    {
        self.meta().icon
    }

    /// Kind label of this capability.
    pub fn kind_label(&self) -> (k: &'static str)
        ensures
            k@ == capability_kind(*self),
    {
        self.meta().kind
    }

    /// Display label, e.g. `"Telegram (@alice)"` or `"Mailbox (a@b.c)"`.
    pub fn label(&self) -> (l: String)
        ensures
            l@ == capability_label(*self),
    {
        match self {
            PersonalCapability::MessengerAccount { platform, username, .. } => {
                let mut l = capitalize(platform.as_str());
                l.append(" (@");
                l.append(username.as_str());
                l.append(")");
                l
            },
            PersonalCapability::TaskManager { service_id } => {
                let mut l = owned(self.kind_label());
                l.append(" (");
                l.append(service_id.as_str());
                l.append(")");
                l
            },
            PersonalCapability::Mailbox { address, .. } => {
                let mut l = owned(self.kind_label());
                l.append(" (");
                l.append(address.as_str());
                l.append(")");
                l
            },
            PersonalCapability::LlmAssistant { provider, model } => {
                let mut l = owned("LLM: ");
                l.append(provider.as_str());
                l.append(" / ");
                l.append(model.as_str());
                l
            },
        }
    }
}

impl Clone for PersonalCapability {
    fn clone(&self) -> (r: Self)
        ensures
            r == *self,
    {
        match self {
            PersonalCapability::MessengerAccount { platform, username, verified } => {
                PersonalCapability::MessengerAccount {
                    platform: platform.clone(),
                    username: username.clone(),
                    verified: *verified,
                }
            },
            PersonalCapability::TaskManager { service_id } => PersonalCapability::TaskManager {
                service_id: service_id.clone(),
            },
            PersonalCapability::Mailbox { service_id, address } => PersonalCapability::Mailbox {
                service_id: service_id.clone(),
                address: address.clone(),
            },
            PersonalCapability::LlmAssistant { provider, model } => PersonalCapability::LlmAssistant {
                provider: provider.clone(),
                model: model.clone(),
            },
        }
    }
}

// ── Profile data ──────────────────────────────────────────────────────────────

/// A linked OIDC identity from an external provider.
#[derive(Debug)]
pub struct LinkedAccount {
    pub provider: String,
    pub subject: String,
    pub username: String,
}

/// An SSH public key entry.
#[derive(Debug)]
pub struct SshKey {
    pub label: String,
    pub public_key: String,
    pub added_at: String,
}

/// How many characters of a public key the key list shows.
pub const KEY_PREVIEW_CHARS: usize = 48;

/// A public key as the key list shows it: its first `KEY_PREVIEW_CHARS` characters and
/// an ellipsis.
pub open spec fn key_preview_text(k: Seq<char>) -> Seq<char> {
    (if k.len() <= KEY_PREVIEW_CHARS {
        k
    } else {
        k.take(KEY_PREVIEW_CHARS as int)
    }) + "…"@
}

impl SshKey {
    /// The shortened public key shown in the key list.
    pub fn preview(&self) -> (s: String)
        ensures
            s@ == key_preview_text(self.public_key@),
    {
        let cs = chars_of(self.public_key.as_str());
        let n = if cs.len() <= KEY_PREVIEW_CHARS {
            cs.len()
        } else {
            KEY_PREVIEW_CHARS
        };
        let mut out: Vec<char> = Vec::new();
        let mut i: usize = 0;
        while i < n
            invariant
                n <= cs@.len(),
                i <= n,
                out@ == cs@.take(i as int),
            decreases n - i,
        {
            out.push(cs[i]);
            i += 1;
            assert(out@ =~= cs@.take(i as int));
        }
        proof {
            reveal_strlit("…");
            if cs@.len() <= KEY_PREVIEW_CHARS {
                assert(cs@.take(n as int) =~= cs@);
            }
        }
        out.push('…');
        assert(out@ =~= key_preview_text(self.public_key@));
        string_from_chars(out.as_slice())
    }
}

/// User profile data.
#[derive(Debug)]
pub struct UserProfile {
    pub display_name: String,
    pub email: String,
    pub avatar_url: Option<String>,
    pub bio: String,
    pub ssh_keys: Vec<SshKey>,
    pub timezone: String,
    pub linked_accounts: Vec<LinkedAccount>,
    pub personal_capabilities: Vec<PersonalCapability>,
}

/// The abstract value of a [`LinkedAccount`]: (provider, subject, username).
pub open spec fn account_view(a: LinkedAccount) -> (Seq<char>, Seq<char>, Seq<char>) {
    (a.provider@, a.subject@, a.username@)
}

/// The abstract value of an [`SshKey`]: (label, public key, date added).
pub open spec fn key_view(k: SshKey) -> (Seq<char>, Seq<char>, Seq<char>) {
    (k.label@, k.public_key@, k.added_at@)
}

/// The abstract value of a [`UserProfile`].
pub struct UserProfileView {
    pub display_name: Seq<char>,
    pub email: Seq<char>,
    pub avatar_url: Option<Seq<char>>,
    pub bio: Seq<char>,
    pub ssh_keys: Seq<(Seq<char>, Seq<char>, Seq<char>)>,
    pub timezone: Seq<char>,
    pub linked_accounts: Seq<(Seq<char>, Seq<char>, Seq<char>)>,
    pub personal_capabilities: Seq<PersonalCapability>,
}

impl View for UserProfile {
    type V = UserProfileView;

    open spec fn view(&self) -> UserProfileView {
        UserProfileView {
            display_name: self.display_name@,
            email: self.email@,
            avatar_url: opt_view(self.avatar_url),
            bio: self.bio@,
            ssh_keys: self.ssh_keys@.map_values(|k: SshKey| key_view(k)),
            timezone: self.timezone@,
            linked_accounts: self.linked_accounts@.map_values(|a: LinkedAccount| account_view(a)),
            personal_capabilities: self.personal_capabilities@,
        }
    }
}

impl Clone for LinkedAccount {
    fn clone(&self) -> (r: Self)
        ensures
            account_view(r) == account_view(*self),
    {
        LinkedAccount {
            provider: self.provider.clone(),
            subject: self.subject.clone(),
            username: self.username.clone(),
        }
    }
}

impl Clone for SshKey {
    fn clone(&self) -> (r: Self)
        ensures
            key_view(r) == key_view(*self),
    {
        SshKey {
            label: self.label.clone(),
            public_key: self.public_key.clone(),
            added_at: self.added_at.clone(),
        }
    }
}

impl Clone for UserProfile {
    fn clone(&self) -> (r: Self)
        ensures
            r@ == self@,
    {
        let mut keys: Vec<SshKey> = Vec::new();
        let mut i: usize = 0;
        while i < self.ssh_keys.len()
            invariant
                i <= self.ssh_keys@.len(),
                keys@.len() == i,
                forall|k: int| 0 <= k < i ==> #[trigger] key_view(keys@[k]) == key_view(self.ssh_keys@[k]),
            decreases self.ssh_keys@.len() - i,
        {
            keys.push(self.ssh_keys[i].clone());
            i += 1;
        }
        let mut accounts: Vec<LinkedAccount> = Vec::new();
        let mut j: usize = 0;
        while j < self.linked_accounts.len()
            invariant
                j <= self.linked_accounts@.len(),
                accounts@.len() == j,
                forall|k: int| 0 <= k < j ==> #[trigger] account_view(accounts@[k]) == account_view(self.linked_accounts@[k]),
            decreases self.linked_accounts@.len() - j,
        {
            accounts.push(self.linked_accounts[j].clone());
            j += 1;
        }
        let mut caps: Vec<PersonalCapability> = Vec::new();
        let mut m: usize = 0;
        while m < self.personal_capabilities.len()
            invariant
                m <= self.personal_capabilities@.len(),
                caps@.len() == m,
                forall|k: int| 0 <= k < m ==> #[trigger] caps@[k] == self.personal_capabilities@[k],
            decreases self.personal_capabilities@.len() - m,
        {
            caps.push(self.personal_capabilities[m].clone());
            m += 1;
        }
        let r = UserProfile {
            display_name: self.display_name.clone(),
            email: self.email.clone(),
            avatar_url: clone_opt(&self.avatar_url),
            bio: self.bio.clone(),
            ssh_keys: keys,
            timezone: self.timezone.clone(),
            linked_accounts: accounts,
            personal_capabilities: caps,
        };
        assert(r@.ssh_keys =~= self@.ssh_keys);
        assert(r@.linked_accounts =~= self@.linked_accounts);
        assert(r@.personal_capabilities =~= self@.personal_capabilities);
        r
    }
}

// ── ProfileMessage / ProfileApp ───────────────────────────────────────────────

/// All messages for the profile application.
#[derive(Debug)]
pub enum ProfileMessage {
    DisplayNameChanged(String),
    EmailChanged(String),
    BioChanged(String),
    TimezoneChanged(String),
    AvatarRemove,
    ShowAddKey,
    HideAddKey,
    NewKeyLabelChanged(String),
    NewKeyValueChanged(String),
    AddKey,
    RemoveKey(usize),
    ShowLinkAccount,
    HideLinkAccount,
    LinkProviderChanged(String),
    LinkSubjectChanged(String),
    LinkUsernameChanged(String),
    LinkAdd,
    LinkRemove(usize),
    Save,
    SaveResult(Result<(), String>),
}

/// What the caller has to do after an update.
#[derive(Debug)]
pub enum ProfileCommand {
    /// Nothing further.
    Idle,
    /// Persist this profile, then send `SaveResult` with the outcome.
    Save(UserProfile),
}

/// Profile application state.
#[derive(Debug)]
pub struct ProfileApp {
    pub profile: UserProfile,
    pub save_msg: Option<String>,
    pub save_error: bool,
    pub show_add_key: bool,
    pub new_key_label: String,
    pub new_key_value: String,
    pub show_link: bool,
    pub link_provider: String,
    pub link_subject: String,
    pub link_username: String,
}

/// The abstract value of a [`ProfileApp`].
pub struct ProfileAppView {
    pub profile: UserProfileView,
    pub save_msg: Option<Seq<char>>,
    pub save_error: bool,
    pub show_add_key: bool,
    pub new_key_label: Seq<char>,
    pub new_key_value: Seq<char>,
    pub show_link: bool,
    pub link_provider: Seq<char>,
    pub link_subject: Seq<char>,
    pub link_username: Seq<char>,
}

impl View for ProfileApp {
    type V = ProfileAppView;

    open spec fn view(&self) -> ProfileAppView {
        ProfileAppView {
            profile: self.profile@,
            save_msg: opt_view(self.save_msg),
            save_error: self.save_error,
            show_add_key: self.show_add_key,
            new_key_label: self.new_key_label@,
            new_key_value: self.new_key_value@,
            show_link: self.show_link,
            link_provider: self.link_provider@,
            link_subject: self.link_subject@,
            link_username: self.link_username@,
        }
    }
}

/// The abstract value of a [`ProfileMessage`].
pub enum ProfileMessageView {
    DisplayNameChanged(Seq<char>),
    EmailChanged(Seq<char>),
    BioChanged(Seq<char>),
    TimezoneChanged(Seq<char>),
    AvatarRemove,
    ShowAddKey,
    HideAddKey,
    NewKeyLabelChanged(Seq<char>),
    NewKeyValueChanged(Seq<char>),
    AddKey,
    RemoveKey(usize),
    ShowLinkAccount,
    HideLinkAccount,
    LinkProviderChanged(Seq<char>),
    LinkSubjectChanged(Seq<char>),
    LinkUsernameChanged(Seq<char>),
    LinkAdd,
    LinkRemove(usize),
    Save,
    SaveResult(Result<(), Seq<char>>),
}

impl View for ProfileMessage {
    type V = ProfileMessageView;

    open spec fn view(&self) -> ProfileMessageView {
        match self {
            ProfileMessage::DisplayNameChanged(v) => ProfileMessageView::DisplayNameChanged(v@),
            ProfileMessage::EmailChanged(v) => ProfileMessageView::EmailChanged(v@),
            ProfileMessage::BioChanged(v) => ProfileMessageView::BioChanged(v@),
            ProfileMessage::TimezoneChanged(v) => ProfileMessageView::TimezoneChanged(v@),
            ProfileMessage::AvatarRemove => ProfileMessageView::AvatarRemove,
            ProfileMessage::ShowAddKey => ProfileMessageView::ShowAddKey,
            ProfileMessage::HideAddKey => ProfileMessageView::HideAddKey,
            ProfileMessage::NewKeyLabelChanged(v) => ProfileMessageView::NewKeyLabelChanged(v@),
            ProfileMessage::NewKeyValueChanged(v) => ProfileMessageView::NewKeyValueChanged(v@),
            ProfileMessage::AddKey => ProfileMessageView::AddKey,
            ProfileMessage::RemoveKey(i) => ProfileMessageView::RemoveKey(*i),
            ProfileMessage::ShowLinkAccount => ProfileMessageView::ShowLinkAccount,
            ProfileMessage::HideLinkAccount => ProfileMessageView::HideLinkAccount,
            ProfileMessage::LinkProviderChanged(v) => ProfileMessageView::LinkProviderChanged(v@),
            ProfileMessage::LinkSubjectChanged(v) => ProfileMessageView::LinkSubjectChanged(v@),
            ProfileMessage::LinkUsernameChanged(v) => ProfileMessageView::LinkUsernameChanged(v@),
            ProfileMessage::LinkAdd => ProfileMessageView::LinkAdd,
            ProfileMessage::LinkRemove(i) => ProfileMessageView::LinkRemove(*i),
            ProfileMessage::Save => ProfileMessageView::Save,
            ProfileMessage::SaveResult(r) => ProfileMessageView::SaveResult(
                match r {
                    Ok(()) => Ok(()),
                    Err(e) => Err(e@),
                },
            ),
        }
    }
}

/// The profile editor's state after handling `msg`.
///
/// `today` is the date stamped on a newly added SSH key; `saved` is the text shown
/// after a successful save.
pub open spec fn profile_step(
    s: ProfileAppView,
    msg: ProfileMessageView,
    today: Seq<char>,
    saved: Seq<char>,
) -> ProfileAppView {
    let empty = Seq::<char>::empty();
    match msg {
        ProfileMessageView::DisplayNameChanged(v) => ProfileAppView {
            profile: UserProfileView { display_name: v, ..s.profile },
            ..s
        },
        ProfileMessageView::EmailChanged(v) => ProfileAppView {
            profile: UserProfileView { email: v, ..s.profile },
            ..s
        },
        ProfileMessageView::BioChanged(v) => ProfileAppView {
            profile: UserProfileView { bio: v, ..s.profile },
            ..s
        },
        ProfileMessageView::TimezoneChanged(v) => ProfileAppView {
            profile: UserProfileView { timezone: v, ..s.profile },
            ..s
        },
        ProfileMessageView::AvatarRemove => ProfileAppView {
            profile: UserProfileView { avatar_url: None, ..s.profile },
            ..s
        },
        ProfileMessageView::ShowAddKey => ProfileAppView { show_add_key: true, ..s },
        ProfileMessageView::HideAddKey => ProfileAppView {
            show_add_key: false,
            new_key_label: empty,
            new_key_value: empty,
            ..s
        },
        ProfileMessageView::NewKeyLabelChanged(v) => ProfileAppView { new_key_label: v, ..s },
        ProfileMessageView::NewKeyValueChanged(v) => ProfileAppView { new_key_value: v, ..s },
        ProfileMessageView::AddKey => if s.new_key_label.len() > 0 && s.new_key_value.len() > 0 {
            ProfileAppView {
                profile: UserProfileView {
                    ssh_keys: s.profile.ssh_keys.push((s.new_key_label, s.new_key_value, today)),
                    ..s.profile
                },
                new_key_label: empty,
                new_key_value: empty,
                show_add_key: false,
                ..s
            }
        } else {
            s
        },
        ProfileMessageView::RemoveKey(idx) => if idx < s.profile.ssh_keys.len() {
            ProfileAppView {
                profile: UserProfileView {
                    ssh_keys: s.profile.ssh_keys.remove(idx as int),
                    ..s.profile
                },
                ..s
            }
        } else {
            s
        },
        ProfileMessageView::ShowLinkAccount => ProfileAppView { show_link: true, ..s },
        ProfileMessageView::HideLinkAccount => ProfileAppView {
            show_link: false,
            link_provider: empty,
            link_subject: empty,
            link_username: empty,
            ..s
        },
        ProfileMessageView::LinkProviderChanged(v) => ProfileAppView { link_provider: v, ..s },
        ProfileMessageView::LinkSubjectChanged(v) => ProfileAppView { link_subject: v, ..s },
        ProfileMessageView::LinkUsernameChanged(v) => ProfileAppView { link_username: v, ..s },
        ProfileMessageView::LinkAdd => if s.link_provider.len() > 0 && s.link_subject.len() > 0 {
            ProfileAppView {
                profile: UserProfileView {
                    linked_accounts: s.profile.linked_accounts.push(
                        (s.link_provider, s.link_subject, s.link_username),
                    ),
                    ..s.profile
                },
                show_link: false,
                link_provider: empty,
                link_subject: empty,
                link_username: empty,
                ..s
            }
        } else {
            s
        },
        ProfileMessageView::LinkRemove(idx) => if idx < s.profile.linked_accounts.len() {
            ProfileAppView {
                profile: UserProfileView {
                    linked_accounts: s.profile.linked_accounts.remove(idx as int),
                    ..s.profile
                },
                ..s
            }
        } else {
            s
        },
        ProfileMessageView::Save => s,
        ProfileMessageView::SaveResult(r) => match r {
            Ok(()) => ProfileAppView { save_msg: Some(saved), save_error: false, ..s },
            Err(e) => ProfileAppView { save_msg: Some(e), save_error: true, ..s },
        },
    }
}

/// Calls `chrono::Local::now()` and formats it as `%Y-%m-%d`. The result depends on
/// the clock and the local time zone; nothing is stated about it.
#[verifier::external_body]
fn today_ymd() -> String {
    chrono::Local::now().format("%Y-%m-%d").to_string()
}

impl ProfileApp {
    /// A profile editor for `profile`: no status message, both forms hidden and empty.
    pub fn new(profile: UserProfile) -> (app: Self)
        ensures
            app@ == (ProfileAppView {
                profile: profile@,
                save_msg: None,
                save_error: false,
                show_add_key: false,
                new_key_label: Seq::empty(),
                new_key_value: Seq::empty(),
                show_link: false,
                link_provider: Seq::empty(),
                link_subject: Seq::empty(),
                link_username: Seq::empty(),
            }),
    {
        ProfileApp {
            profile,
            save_msg: None,
            save_error: false,
            show_add_key: false,
            new_key_label: String::new(),
            new_key_value: String::new(),
            show_link: false,
            link_provider: String::new(),
            link_subject: String::new(),
            link_username: String::new(),
        }
    }

    /// Handles one message; a new SSH key is stamped with today's local date.
    /// Returns `Save` with a copy of the profile for the `Save` message.
    pub fn update<T: Translate>(&mut self, msg: ProfileMessage, tr: &T) -> (cmd: ProfileCommand)
        ensures
            exists|today: Seq<char>|
                final(self)@ == profile_step(old(self)@, msg@, today, tr.translation("profile.saved"@)),
            match cmd {
                ProfileCommand::Save(p) => msg@ is Save && p@ == old(self)@.profile,
                ProfileCommand::Idle => !(msg@ is Save),
            },
    {
        let today = match msg {
            ProfileMessage::AddKey => today_ymd(),
            _ => String::new(),
        };
        let saved = tr.t("profile.saved");
        self.update_at(msg, today, saved)
    }

    /// Handles one message, stamping a new SSH key with `today` and showing `saved`
    /// after a successful save.
    pub fn update_at(&mut self, msg: ProfileMessage, today: String, saved: String) -> (cmd: ProfileCommand)
        ensures
            final(self)@ == profile_step(old(self)@, msg@, today@, saved@),
            match cmd {
                ProfileCommand::Save(p) => msg@ is Save && p@ == old(self)@.profile,
                ProfileCommand::Idle => !(msg@ is Save),
            },
    {
        let ghost s = self@;
        match msg {
            ProfileMessage::DisplayNameChanged(v) => self.profile.display_name = v,
            ProfileMessage::EmailChanged(v) => self.profile.email = v,
            ProfileMessage::BioChanged(v) => self.profile.bio = v,
            ProfileMessage::TimezoneChanged(v) => self.profile.timezone = v,
            ProfileMessage::AvatarRemove => self.profile.avatar_url = None,
            ProfileMessage::ShowAddKey => self.show_add_key = true,
            ProfileMessage::HideAddKey => {
                self.show_add_key = false;
                self.new_key_label = String::new();
                self.new_key_value = String::new();
            },
            ProfileMessage::NewKeyLabelChanged(v) => self.new_key_label = v,
            ProfileMessage::NewKeyValueChanged(v) => self.new_key_value = v,
            ProfileMessage::AddKey => {
                if self.new_key_label.as_str().unicode_len() > 0
                    && self.new_key_value.as_str().unicode_len() > 0 {
                    let key = SshKey {
                        label: self.new_key_label.clone(),
                        public_key: self.new_key_value.clone(),
                        added_at: today,
                    };
                    let ghost before = self.profile.ssh_keys@;
                    self.profile.ssh_keys.push(key);
                    assert(self.profile.ssh_keys@.map_values(|k: SshKey| key_view(k))
                        =~= before.map_values(|k: SshKey| key_view(k)).push(key_view(key)));
                    self.new_key_label = String::new();
                    self.new_key_value = String::new();
                    self.show_add_key = false;
                }
            },
            ProfileMessage::RemoveKey(idx) => {
                if idx < self.profile.ssh_keys.len() {
                    let ghost before = self.profile.ssh_keys@;
                    self.profile.ssh_keys.remove(idx);
                    assert(self.profile.ssh_keys@.map_values(|k: SshKey| key_view(k))
                        =~= before.map_values(|k: SshKey| key_view(k)).remove(idx as int));
                }
            },
            ProfileMessage::ShowLinkAccount => self.show_link = true,
            ProfileMessage::HideLinkAccount => {
                self.show_link = false;
                self.link_provider = String::new();
                self.link_subject = String::new();
                self.link_username = String::new();
            },
            ProfileMessage::LinkProviderChanged(v) => self.link_provider = v,
            ProfileMessage::LinkSubjectChanged(v) => self.link_subject = v,
            ProfileMessage::LinkUsernameChanged(v) => self.link_username = v,
            ProfileMessage::LinkAdd => {
                if self.link_provider.as_str().unicode_len() > 0
                    && self.link_subject.as_str().unicode_len() > 0 {
                    let account = LinkedAccount {
                        provider: self.link_provider.clone(),
                        subject: self.link_subject.clone(),
                        username: self.link_username.clone(),
                    };
                    let ghost before = self.profile.linked_accounts@;
                    self.profile.linked_accounts.push(account);
                    assert(self.profile.linked_accounts@.map_values(|a: LinkedAccount| account_view(a))
                        =~= before.map_values(|a: LinkedAccount| account_view(a)).push(account_view(account)));
                    self.show_link = false;
                    self.link_provider = String::new();
                    self.link_subject = String::new();
                    self.link_username = String::new();
                }
            },
            ProfileMessage::LinkRemove(idx) => {
                if idx < self.profile.linked_accounts.len() {
                    let ghost before = self.profile.linked_accounts@;
                    self.profile.linked_accounts.remove(idx);
                    assert(self.profile.linked_accounts@.map_values(|a: LinkedAccount| account_view(a))
                        =~= before.map_values(|a: LinkedAccount| account_view(a)).remove(idx as int));
                }
            },
            ProfileMessage::Save => {
                return ProfileCommand::Save(self.profile.clone());
            },
            ProfileMessage::SaveResult(result) => match result {
                Ok(()) => {
                    self.save_msg = Some(saved);
                    self.save_error = false;
                },
                Err(e) => {
                    self.save_msg = Some(e);
                    self.save_error = true;
                },
            },
        }
        ProfileCommand::Idle
    }
}

/// Adding an SSH key and then removing the last key restores the key list.
pub proof fn law_add_then_remove_key(s: ProfileAppView, today: Seq<char>, saved: Seq<char>)
    requires
        s.new_key_label.len() > 0,
        s.new_key_value.len() > 0,
        s.profile.ssh_keys.len() < usize::MAX,
    ensures
        ({
            let added = profile_step(s, ProfileMessageView::AddKey, today, saved);
            let removed = profile_step(
                added,
                ProfileMessageView::RemoveKey(s.profile.ssh_keys.len() as usize),
                today,
                saved,
            );
            &&& added.profile.ssh_keys.len() == s.profile.ssh_keys.len() + 1
            &&& removed.profile.ssh_keys == s.profile.ssh_keys
        }),
{
    let added = profile_step(s, ProfileMessageView::AddKey, today, saved);
    assert(added.profile.ssh_keys == s.profile.ssh_keys.push((s.new_key_label, s.new_key_value, today)));
    assert(added.profile.ssh_keys.remove(s.profile.ssh_keys.len() as int) =~= s.profile.ssh_keys);
}

} // verus!
