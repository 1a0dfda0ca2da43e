//! Account settings: configured OIDC providers and the form that adds one.
use vstd::prelude::*;
use crate::header::Translate;
use crate::text::{concat, is_blank, owned, trim, trim_exec};

verus! {

/// A configured OIDC provider entry.
#[derive(Debug)]
pub struct OidcProvider {
    /// Short display name (e.g. "Kanidm", "Keycloak").
    pub name: String,
    /// OIDC discovery base URL.
    pub discovery_url: String,
    /// `OAuth2` client ID registered with this provider.
    pub client_id: String,
    /// Scopes to request (space-separated).
    pub scopes: String,
    /// Whether this provider is currently active.
    pub enabled: bool,
}

/// The abstract value of an [`OidcProvider`].
pub struct OidcProviderView {
    pub name: Seq<char>,
    pub discovery_url: Seq<char>,
    pub client_id: Seq<char>,
    pub scopes: Seq<char>,
    pub enabled: bool,
}

impl View for OidcProvider {
    type V = OidcProviderView;

    open spec fn view(&self) -> OidcProviderView {
        OidcProviderView {
            name: self.name@,
            discovery_url: self.discovery_url@,
            client_id: self.client_id@,
            scopes: self.scopes@,
            enabled: self.enabled,
        }
    }
}

/// Form state for adding a new OIDC provider.
#[derive(Default, Debug)]
pub struct AddProviderForm {
    pub name: String,
    pub discovery_url: String,
    pub client_id: String,
    pub scopes: String,
}

/// Scopes requested when the form leaves them blank.
pub open spec fn default_scopes() -> Seq<char> {
    "openid email profile"@
}

impl AddProviderForm {
    /// An empty form.
    pub fn new() -> (f: Self)
        ensures
            f.name@.len() == 0,
            f.discovery_url@.len() == 0,
            f.client_id@.len() == 0,
            f.scopes@.len() == 0,
    {
        AddProviderForm {
            name: String::new(),
            discovery_url: String::new(),
            client_id: String::new(),
            scopes: String::new(),
        }
    }

    /// Name, discovery URL and client id are each non-blank.
    pub fn is_valid(&self) -> (b: bool)
        ensures
            b == (trim(self.name@).len() > 0 && trim(self.discovery_url@).len() > 0 && trim(
                self.client_id@,
            ).len() > 0),
    {
        !is_blank(self.name.as_str()) && !is_blank(self.discovery_url.as_str()) && !is_blank(
            self.client_id.as_str(),
        )
    }

    /// The provider the form describes: every field trimmed, blank scopes replaced by
    /// `"openid email profile"`, enabled.
    pub fn build(&self) -> (p: OidcProvider)
        ensures
            p@ == (OidcProviderView {
                name: trim(self.name@),
                discovery_url: trim(self.discovery_url@),
                client_id: trim(self.client_id@),
                scopes: if trim(self.scopes@).len() == 0 {
                    default_scopes()
                } else {
                    trim(self.scopes@)
                },
                enabled: true,
            }),
    {
        let scopes = if is_blank(self.scopes.as_str()) {
            owned("openid email profile")
        } else {
            trim_exec(self.scopes.as_str())
        };
        OidcProvider {
            name: trim_exec(self.name.as_str()),
            discovery_url: trim_exec(self.discovery_url.as_str()),
            client_id: trim_exec(self.client_id.as_str()),
            scopes,
            enabled: true,
        }
    }
}

/// Runtime state for the Accounts settings section.
#[derive(Debug)]
pub struct AccountsState {
    pub providers: Vec<OidcProvider>,
    pub show_add: bool,
    pub form: AddProviderForm,
    pub error: Option<String>,
}

impl AccountsState {
    /// The section state for the loaded `providers`: form hidden and empty, no error.
    pub fn new(providers: Vec<OidcProvider>) -> (s: Self)
        ensures
            s.providers@ == providers@,
            !s.show_add,
            s.form.name@.len() == 0,
            s.form.discovery_url@.len() == 0,
            s.form.client_id@.len() == 0,
            s.form.scopes@.len() == 0,
            s.error.is_none(),
    {
        AccountsState { providers, show_add: false, form: AddProviderForm::new(), error: None }
    }

    /// Records the outcome of writing the provider list: success clears the error,
    /// failure shows `"Save error: {e}"`.
    pub fn save(&mut self, written: Result<(), String>)
        ensures
            final(self).providers == old(self).providers,
            final(self).show_add == old(self).show_add,
            final(self).form == old(self).form,
            match written {
                Ok(()) => final(self).error.is_none(),
                Err(e) => final(self).error.is_some() && final(self).error.unwrap()@ == "Save error: "@
                    + e@,
            },
    {
        match written {
            Ok(()) => self.error = None,
            Err(e) => self.error = Some(concat("Save error: ", e.as_str())),
        }
    }
}

/// The detail line of a provider row.
pub open spec fn provider_details(p: OidcProviderView) -> Seq<char> {
    "client_id: "@ + p.client_id + "  scopes: "@ + p.scopes
}

/// One row of the provider list: the enabled box, the name, the discovery URL and the
/// client id and scopes.
#[derive(Debug)]
pub struct ProviderRow {
    pub enabled: bool,
    pub name: String,
    pub discovery_url: String,
    pub details: String,
}

/// What the accounts section shows: the label of the button that opens or cancels the
/// form, whether the form is open and may be submitted, the provider rows (or the text
/// shown when there are none), and the last error.
#[derive(Debug)]
pub struct AccountsDisplay {
    pub toggle_label: String,
    pub form_open: bool,
    pub can_add: bool,
    pub rows: Vec<ProviderRow>,
    pub empty_text: Option<String>,
    pub error: Option<String>,
}

impl AccountsState {
    /// The contents of the accounts section, with texts looked up through `tr`.
    pub fn display<T: Translate>(&self, tr: &T) -> (d: AccountsDisplay)
        ensures
            d.toggle_label@ == tr.translation(
                if self.show_add {
                    "actions.cancel"@
                } else {
                    "settings-accounts-btn-connect"@
                },
            ),
            d.form_open == self.show_add,
            d.can_add == (trim(self.form.name@).len() > 0 && trim(self.form.discovery_url@).len() > 0
                && trim(self.form.client_id@).len() > 0),
            d.rows@.len() == self.providers@.len(),
            forall|i: int|
                0 <= i < d.rows@.len() ==> {
                    let r = #[trigger] d.rows@[i];
                    let p = self.providers@[i]@;
                    &&& r.enabled == p.enabled
                    &&& r.name@ == p.name
                    &&& r.discovery_url@ == p.discovery_url
                    &&& r.details@ == provider_details(p)
                },
            self.providers@.len() == 0 ==> (d.empty_text matches Some(t) && t@ == tr.translation(
                "settings-accounts-empty"@,
            )),
            self.providers@.len() > 0 ==> d.empty_text is None,
            match (d.error, self.error) {
                (Some(a), Some(b)) => a@ == b@,
                (None, None) => true,
                _ => false,
            },
    {
        let toggle_label = if self.show_add {
            tr.t("actions.cancel")
        } else {
            tr.t("settings-accounts-btn-connect")
        };
        let mut rows: Vec<ProviderRow> = Vec::new();
        let mut i: usize = 0;
        while i < self.providers.len()
            invariant
                i <= self.providers@.len(),
                rows@.len() == i,
                forall|k: int|
                    0 <= k < i ==> {
                        let r = #[trigger] rows@[k];
                        let p = self.providers@[k]@;
                        &&& r.enabled == p.enabled
                        &&& r.name@ == p.name
                        &&& r.discovery_url@ == p.discovery_url
                        &&& r.details@ == provider_details(p)
                    },
            decreases self.providers@.len() - i,
        {
            let p = &self.providers[i];
            let a = concat("client_id: ", p.client_id.as_str());
            let b = concat(a.as_str(), "  scopes: ");
            let details = concat(b.as_str(), p.scopes.as_str());
            rows.push(
                ProviderRow {
                    enabled: p.enabled,
                    name: p.name.clone(),
                    discovery_url: p.discovery_url.clone(),
                    details,
                },
            );
            i += 1;
        }
        let empty_text = if self.providers.len() == 0 {
            Some(tr.t("settings-accounts-empty"))
        } else {
            None
        };
        let error = match &self.error {
            Some(e) => Some(e.clone()),
            None => None,
        };
        AccountsDisplay {
            toggle_label,
            form_open: self.show_add,
            can_add: self.form.is_valid(),
            rows,
            empty_text,
            error,
        }
    }
}

} // verus!
