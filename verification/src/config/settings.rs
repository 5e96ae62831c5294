//! The configuration record: where the tracker and the code host are, how
//! to sign in, and two preferences.

use crate::errors::{DevFlowError, ErrorModel};
use crate::text::{chars_of, find_char, is_char, lemma_split_first, split, string_of_range};
use vstd::prelude::*;
use vstd::utf8::{
    decode_utf8, encode_utf8, encode_utf8_decode_utf8, encode_utf8_valid_utf8, is_ascii_chars,
    is_ascii_chars_encode_utf8, is_char_boundary, is_char_boundary_iff_not_is_continuation_byte,
    is_char_boundary_start_end_of_seq,
};

verus! {

/// The whole configuration.
#[derive(Debug, PartialEq, Eq)]
pub struct Settings {
    pub jira: JiraConfig,
    pub git: GitConfig,
    pub preferences: Preferences,
}

/// Where the tracker is and how to sign in to it.
#[derive(Debug, PartialEq, Eq)]
pub struct JiraConfig {
    pub url: String,
    pub email: String,
    pub project_key: String,
    pub auth_method: AuthMethod,
}

/// The two ways to sign in to the tracker.
#[derive(Debug, PartialEq, Eq)]
pub enum AuthMethod {
    /// A token sent as a bearer token.
    PersonalAccessToken { token: String },
    /// A token sent together with the e-mail address.
    ApiToken { token: String },
}

/// Where the code host is and how to sign in to it.
#[derive(Debug, PartialEq, Eq)]
pub struct GitConfig {
    pub provider: String,
    pub base_url: String,
    pub token: String,
    pub owner: Option<String>,
    pub repo: Option<String>,
}

/// How branches are named and where a started ticket moves.
#[derive(Debug, PartialEq, Eq)]
pub struct Preferences {
    pub branch_prefix: String,
    pub default_transition: String,
}

/// The model of an [`AuthMethod`].
pub enum AuthMethodModel {
    PersonalAccessToken { token: Seq<char> },
    ApiToken { token: Seq<char> },
}

/// The model of a [`JiraConfig`].
pub struct JiraConfigModel {
    pub url: Seq<char>,
    pub email: Seq<char>,
    pub project_key: Seq<char>,
    pub auth_method: AuthMethodModel,
}

/// The model of a [`GitConfig`].
pub struct GitConfigModel {
    pub provider: Seq<char>,
    pub base_url: Seq<char>,
    pub token: Seq<char>,
    pub owner: Option<Seq<char>>,
    pub repo: Option<Seq<char>>,
}

/// The model of a [`Preferences`].
pub struct PreferencesModel {
    pub branch_prefix: Seq<char>,
    pub default_transition: Seq<char>,
}

/// The model of a [`Settings`].
pub struct SettingsModel {
    pub jira: JiraConfigModel,
    pub git: GitConfigModel,
    pub preferences: PreferencesModel,
}

/// The model of a text that may be absent.
pub open spec fn text_model(text: Option<String>) -> Option<Seq<char>> {
    match text {
        Some(t) => Some(t@),
        None => None,
    }
}

impl View for AuthMethod {
    type V = AuthMethodModel;

    open spec fn view(&self) -> AuthMethodModel {
        match self {
            AuthMethod::PersonalAccessToken { token } => AuthMethodModel::PersonalAccessToken {
                token: token@,
            },
            AuthMethod::ApiToken { token } => AuthMethodModel::ApiToken { token: token@ },
        }
    }
}

impl View for JiraConfig {
    type V = JiraConfigModel;

    open spec fn view(&self) -> JiraConfigModel {
        JiraConfigModel {
            url: self.url@,
            email: self.email@,
            project_key: self.project_key@,
            auth_method: self.auth_method@,
        }
    }
}

impl View for GitConfig {
    type V = GitConfigModel;

    open spec fn view(&self) -> GitConfigModel {
        GitConfigModel {
            provider: self.provider@,
            base_url: self.base_url@,
            token: self.token@,
            owner: text_model(self.owner),
            repo: text_model(self.repo),
        }
    }
}

impl View for Preferences {
    type V = PreferencesModel;

    open spec fn view(&self) -> PreferencesModel {
        PreferencesModel {
            branch_prefix: self.branch_prefix@,
            default_transition: self.default_transition@,
        }
    }
}

impl View for Settings {
    type V = SettingsModel;

    open spec fn view(&self) -> SettingsModel {
        SettingsModel { jira: self.jira@, git: self.git@, preferences: self.preferences@ }
    }
}

/// A copy of a text that may be absent.
pub fn clone_text(text: &Option<String>) -> (res: Option<String>)
    ensures
        text_model(res) == text_model(*text),
{
    match text {
        Some(t) => Some(t.clone()),
        None => None,
    }
}

impl Clone for AuthMethod {
    fn clone(&self) -> (res: Self)
        ensures
            res@ == self@,
    {
        match self {
            AuthMethod::PersonalAccessToken { token } => AuthMethod::PersonalAccessToken {
                token: token.clone(),
            },
            AuthMethod::ApiToken { token } => AuthMethod::ApiToken { token: token.clone() },
        }
    }
}

impl Clone for JiraConfig {
    fn clone(&self) -> (res: Self)
        ensures
            res@ == self@,
    {
        JiraConfig {
            url: self.url.clone(),
            email: self.email.clone(),
            project_key: self.project_key.clone(),
            auth_method: self.auth_method.clone(),
        }
    }
}

impl Clone for GitConfig {
    fn clone(&self) -> (res: Self)
        ensures
            res@ == self@,
    {
        GitConfig {
            provider: self.provider.clone(),
            base_url: self.base_url.clone(),
            token: self.token.clone(),
            owner: clone_text(&self.owner),
            repo: clone_text(&self.repo),
        }
    }
}

impl Clone for Preferences {
    fn clone(&self) -> (res: Self)
        ensures
            res@ == self@,
    {
        Preferences {
            branch_prefix: self.branch_prefix.clone(),
            default_transition: self.default_transition.clone(),
        }
    }
}

impl Clone for Settings {
    fn clone(&self) -> (res: Self)
        ensures
            res@ == self@,
    {
        Settings {
            jira: self.jira.clone(),
            git: self.git.clone(),
            preferences: self.preferences.clone(),
        }
    }
}

/// The values of a configuration that can be set one by one.
#[derive(Debug, Clone, Copy, PartialEq, Eq, Structural)]
pub enum SettingsField {
    JiraUrl,
    JiraEmail,
    JiraToken,
    JiraProjectKey,
    GitProvider,
    GitBaseUrl,
    GitToken,
    GitOwner,
    GitRepo,
    BranchPrefix,
    DefaultTransition,
}

/// The value that a section and a field name, if they name one.
pub open spec fn field_named(section: Seq<char>, field: Seq<char>) -> Option<SettingsField> {
    if section == "jira"@ && field == "url"@ {
        Some(SettingsField::JiraUrl)
    } else if section == "jira"@ && field == "email"@ {
        Some(SettingsField::JiraEmail)
    } else if section == "jira"@ && field == "token"@ {
        Some(SettingsField::JiraToken)
    } else if section == "jira"@ && field == "project_key"@ {
        Some(SettingsField::JiraProjectKey)
    } else if section == "git"@ && field == "provider"@ {
        Some(SettingsField::GitProvider)
    } else if section == "git"@ && field == "base_url"@ {
        Some(SettingsField::GitBaseUrl)
    } else if section == "git"@ && field == "token"@ {
        Some(SettingsField::GitToken)
    } else if section == "git"@ && field == "owner"@ {
        Some(SettingsField::GitOwner)
    } else if section == "git"@ && field == "repo"@ {
        Some(SettingsField::GitRepo)
    } else if section == "preferences"@ && field == "branch_prefix"@ {
        Some(SettingsField::BranchPrefix)
    } else if section == "preferences"@ && field == "default_transition"@ {
        Some(SettingsField::DefaultTransition)
    } else {
        None
    }
}

/// The value that a key of the form `section.field` names, or the reason
/// why it names none: it has not exactly one `.`, or no such value exists.
pub open spec fn field_of_key(key: Seq<char>) -> Result<SettingsField, ErrorModel> {
    let parts = split(key, is_char('.'));
    if parts.len() != 2 {
        Err(
            ErrorModel::Other(
                "Invalid key format. Use format: section.field (e.g., jira.email)"@,
            ),
        )
    } else {
        match field_named(parts[0], parts[1]) {
            Some(field) => Ok(field),
            None => Err(ErrorModel::Other("Unknown configuration key: "@ + key)),
        }
    }
}

/// The same way to sign in, with another token.
pub open spec fn with_token(method: AuthMethodModel, token: Seq<char>) -> AuthMethodModel {
    match method {
        AuthMethodModel::PersonalAccessToken { .. } => AuthMethodModel::PersonalAccessToken {
            token,
        },
        AuthMethodModel::ApiToken { .. } => AuthMethodModel::ApiToken { token },
    }
}

/// The configuration with one value replaced. Nothing else changes.
pub open spec fn with_field(settings: SettingsModel, field: SettingsField, value: Seq<char>)
    -> SettingsModel {
    match field {
        SettingsField::JiraUrl => SettingsModel {
            jira: JiraConfigModel { url: value, ..settings.jira },
            ..settings
        },
        SettingsField::JiraEmail => SettingsModel {
            jira: JiraConfigModel { email: value, ..settings.jira },
            ..settings
        },
        SettingsField::JiraToken => SettingsModel {
            jira: JiraConfigModel {
                auth_method: with_token(settings.jira.auth_method, value),
                ..settings.jira
            },
            ..settings
        },
        SettingsField::JiraProjectKey => SettingsModel {
            jira: JiraConfigModel { project_key: value, ..settings.jira },
            ..settings
        },
        SettingsField::GitProvider => SettingsModel {
            git: GitConfigModel { provider: value, ..settings.git },
            ..settings
        },
        SettingsField::GitBaseUrl => SettingsModel {
            git: GitConfigModel { base_url: value, ..settings.git },
            ..settings
        },
        SettingsField::GitToken => SettingsModel {
            git: GitConfigModel { token: value, ..settings.git },
            ..settings
        },
        SettingsField::GitOwner => SettingsModel {
            git: GitConfigModel { owner: Some(value), ..settings.git },
            ..settings
        },
        SettingsField::GitRepo => SettingsModel {
            git: GitConfigModel { repo: Some(value), ..settings.git },
            ..settings
        },
        SettingsField::BranchPrefix => SettingsModel {
            preferences: PreferencesModel { branch_prefix: value, ..settings.preferences },
            ..settings
        },
        SettingsField::DefaultTransition => SettingsModel {
            preferences: PreferencesModel { default_transition: value, ..settings.preferences },
            ..settings
        },
    }
}

/// How many bytes of a secret are shown on each side of its masked form:
/// four, or all of them when it has fewer.
pub open spec fn shown_bytes(secret: Seq<char>) -> int {
    if encode_utf8(secret).len() < 4 {
        encode_utf8(secret).len() as int
    } else {
        4
    }
}

/// A secret can be masked when the bytes to show on each side are whole
/// characters of its UTF-8 form.
pub open spec fn can_be_masked(secret: Seq<char>) -> bool {
    let bytes = encode_utf8(secret);
    is_char_boundary(bytes, shown_bytes(secret)) && is_char_boundary(
        bytes,
        bytes.len() - shown_bytes(secret),
    )
}

/// A secret with all but its first four and its last four bytes replaced
/// by `***`. A secret of fewer than four bytes shows whole on both sides.
pub open spec fn masked(secret: Seq<char>) -> Seq<char> {
    let bytes = encode_utf8(secret);
    decode_utf8(bytes.take(shown_bytes(secret))) + "***"@ + decode_utf8(
        bytes.skip(bytes.len() - shown_bytes(secret)),
    )
}

/// The number of characters that the masked form of a secret within ASCII
/// shows on each side.
pub open spec fn shown_chars(secret: Seq<char>) -> int {
    if secret.len() < 4 {
        secret.len() as int
    } else {
        4
    }
}

/// A secret within ASCII can always be masked, and its masked form shows
/// its first four and its last four characters.
pub proof fn lemma_ascii_masked(secret: Seq<char>)
    requires
        is_ascii_chars(secret),
    ensures
        can_be_masked(secret),
        masked(secret) == secret.take(shown_chars(secret)) + "***"@ + secret.skip(
            secret.len() - shown_chars(secret),
        ),
{
    let bytes = encode_utf8(secret);
    let k = shown_chars(secret);
    let head = secret.take(k);
    let tail = secret.skip(secret.len() - k);
    is_ascii_chars_encode_utf8(secret);
    is_ascii_chars_encode_utf8(head);
    is_ascii_chars_encode_utf8(tail);
    encode_utf8_valid_utf8(secret);
    is_char_boundary_start_end_of_seq(bytes);
    if k < bytes.len() {
        is_char_boundary_iff_not_is_continuation_byte(bytes, k);
        is_char_boundary_iff_not_is_continuation_byte(bytes, bytes.len() - k);
    }
    assert(encode_utf8(head) =~= bytes.take(k));
    assert(encode_utf8(tail) =~= bytes.skip(bytes.len() - k));
    encode_utf8_decode_utf8(head);
    encode_utf8_decode_utf8(tail);
}

/// Whether a secret can be masked.
pub fn is_maskable(secret: &str) -> (res: bool)
    ensures
        res == can_be_masked(secret@),
{
    let n = secret.as_bytes().len();
    let shown: usize = if n < 4 {
        n
    } else {
        4
    };
    secret.is_char_boundary(shown) && secret.is_char_boundary(n - shown)
}

/// A secret in the form in which it may be shown.
pub fn mask_secret(secret: &str) -> (res: String)
    requires
        can_be_masked(secret@),
    ensures
        res@ == masked(secret@),
{
    let n = secret.as_bytes().len();
    let shown: usize = if n < 4 {
        n
    } else {
        4
    };
    let head = secret.split_at(shown).0;
    let tail = secret.split_at(n - shown).1;
    proof {
        encode_utf8_decode_utf8(head@);
        encode_utf8_decode_utf8(tail@);
    }
    let mut res = String::from_str(head);
    res.append("***");
    res.append(tail);
    res
}

/// The failure of a configuration file that cannot be read.
pub fn read_failure(cause: &str) -> (reason: DevFlowError)
    ensures
        reason@ == ErrorModel::ConfigInvalid("Failed to read config file: "@ + cause@),
{
    let mut text = String::from_str("Failed to read config file: ");
    text.append(cause);
    DevFlowError::ConfigInvalid(text)
}

/// The failure of a configuration file that cannot be understood.
pub fn parse_failure(cause: &str) -> (reason: DevFlowError)
    ensures
        reason@ == ErrorModel::ConfigInvalid("Failed to parse config file: "@ + cause@),
{
    let mut text = String::from_str("Failed to parse config file: ");
    text.append(cause);
    DevFlowError::ConfigInvalid(text)
}

/// Whether a text reads as a literal does.
fn is_text(text: &String, literal: &str) -> (same: bool)
    ensures
        same == (text@ == literal@),
{
    *text == String::from_str(literal)
}

/// The value that a key of the form `section.field` names.
pub fn field_for_key(key: &str) -> (res: Result<SettingsField, DevFlowError>)
    ensures
        match res {
            Ok(field) => field_of_key(key@) == Ok::<SettingsField, ErrorModel>(field),
            Err(reason) => field_of_key(key@) == Err::<SettingsField, ErrorModel>(reason@),
        },
{
    let chars = chars_of(key);
    let n = chars.len();
    let dot = find_char(&chars, 0, n, '.');
    let ghost rest = chars@.skip(dot + 1);
    proof {
        assert(chars@.subrange(0, n as int) =~= chars@);
        lemma_split_first(chars@, is_char('.'));
    }
    if dot >= n {
        return Err(
            DevFlowError::Other(
                String::from_str("Invalid key format. Use format: section.field (e.g., jira.email)"),
            ),
        );
    }
    let next = find_char(&chars, dot + 1, n, '.');
    proof {
        assert(chars@.subrange(dot + 1, n as int) =~= rest);
        lemma_split_first(rest, is_char('.'));
        let parts = split(chars@, is_char('.'));
        assert(parts.drop_first().len() == parts.len() - 1);
        assert(parts.drop_first()[0] == parts[1]);
    }
    if next < n {
        return Err(
            DevFlowError::Other(
                String::from_str("Invalid key format. Use format: section.field (e.g., jira.email)"),
            ),
        );
    }
    let section = string_of_range(&chars, 0, dot);
    let field = string_of_range(&chars, dot + 1, n);
    proof {
        assert(chars@.subrange(0, dot as int) =~= chars@.take(dot as int));
        assert(rest.take(rest.len() as int) =~= rest);
    }
    let jira = is_text(&section, "jira");
    let git = is_text(&section, "git");
    let preferences = is_text(&section, "preferences");
    if jira && is_text(&field, "url") {
        Ok(SettingsField::JiraUrl)
    } else if jira && is_text(&field, "email") {
        Ok(SettingsField::JiraEmail)
    } else if jira && is_text(&field, "token") {
        Ok(SettingsField::JiraToken)
    } else if jira && is_text(&field, "project_key") {
        Ok(SettingsField::JiraProjectKey)
    } else if git && is_text(&field, "provider") {
        Ok(SettingsField::GitProvider)
    } else if git && is_text(&field, "base_url") {
        Ok(SettingsField::GitBaseUrl)
    } else if git && is_text(&field, "token") {
        Ok(SettingsField::GitToken)
    } else if git && is_text(&field, "owner") {
        Ok(SettingsField::GitOwner)
    } else if git && is_text(&field, "repo") {
        Ok(SettingsField::GitRepo)
    } else if preferences && is_text(&field, "branch_prefix") {
        Ok(SettingsField::BranchPrefix)
    } else if preferences && is_text(&field, "default_transition") {
        Ok(SettingsField::DefaultTransition)
    } else {
        let mut text = String::from_str("Unknown configuration key: ");
        text.append(key);
        Err(DevFlowError::Other(text))
    }
}

impl AuthMethod {
    /// The token, whichever way it is sent.
    pub fn token(&self) -> (token: &String)
        ensures
            self@ == with_token(self@, token@),
    {
        match self {
            AuthMethod::PersonalAccessToken { token } => token,
            AuthMethod::ApiToken { token } => token,
        }
    }

    /// What this way to sign in is called.
    pub fn label(&self) -> (label: &'static str)
        ensures
            label@ == (match self@ {
                AuthMethodModel::PersonalAccessToken { .. } => "Personal Access Token"@,
                AuthMethodModel::ApiToken { .. } => "API Token"@,
            }),
    {
        match self {
            AuthMethod::PersonalAccessToken { .. } => "Personal Access Token",
            AuthMethod::ApiToken { .. } => "API Token",
        }
    }

    /// The same way to sign in, with another token.
    pub fn replace_token(&mut self, value: &str)
        ensures
            final(self)@ == with_token(old(self)@, value@),
    {
        let next = match self {
            AuthMethod::PersonalAccessToken { .. } => AuthMethod::PersonalAccessToken {
                token: String::from_str(value),
            },
            AuthMethod::ApiToken { .. } => AuthMethod::ApiToken { token: String::from_str(value) },
        };
        *self = next;
    }
}

impl Settings {
    /// Replaces one value of the configuration.
    pub fn set_field(&mut self, field: SettingsField, value: &str)
        ensures
            final(self)@ == with_field(old(self)@, field, value@),
    {
        match field {
            SettingsField::JiraUrl => {
                self.jira.url = String::from_str(value);
            },
            SettingsField::JiraEmail => {
                self.jira.email = String::from_str(value);
            },
            SettingsField::JiraToken => {
                self.jira.auth_method.replace_token(value);
            },
            SettingsField::JiraProjectKey => {
                self.jira.project_key = String::from_str(value);
            },
            SettingsField::GitProvider => {
                self.git.provider = String::from_str(value);
            },
            SettingsField::GitBaseUrl => {
                self.git.base_url = String::from_str(value);
            },
            SettingsField::GitToken => {
                self.git.token = String::from_str(value);
            },
            SettingsField::GitOwner => {
                self.git.owner = Some(String::from_str(value));
            },
            SettingsField::GitRepo => {
                self.git.repo = Some(String::from_str(value));
            },
            SettingsField::BranchPrefix => {
                self.preferences.branch_prefix = String::from_str(value);
            },
            SettingsField::DefaultTransition => {
                self.preferences.default_transition = String::from_str(value);
            },
        }
    }

    /// Replaces the value that `key` names, a key of the form
    /// `section.field`. A key that names no value changes nothing.
    pub fn set(&mut self, key: &str, value: &str) -> (res: Result<(), DevFlowError>)
        ensures
            match res {
                Ok(_) => field_of_key(key@) is Ok && final(self)@ == with_field(
                    old(self)@,
                    field_of_key(key@)->Ok_0,
                    value@,
                ),
                Err(reason) => field_of_key(key@) == Err::<SettingsField, ErrorModel>(reason@)
                    && final(self)@ == old(self)@,
            },
    {
        match field_for_key(key) {
            Ok(field) => {
                self.set_field(field, value);
                Ok(())
            },
            Err(reason) => Err(reason),
        }
    }
}

} // verus!
