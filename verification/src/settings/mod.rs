//! The application settings: where they are saved, and the start.gg
//! access token of the signed-in user.
use vstd::prelude::*;

use crate::text::string_views;

verus! {

/// Where the settings are saved when no other path is given.
pub const DEFAULT_SETTINGS_LOC: &'static str = "rpipr.settings";

/// The kind of an OAuth access token.
#[derive(Debug)]
pub enum TokenKind {
    Bearer,
    Mac,
    Extension(String),
}

/// The start.gg OAuth token response that the settings keep: the access
/// token, its kind, its lifetime in seconds, the refresh token and the
/// granted scopes, where the server gave them.
#[derive(Debug)]
pub struct StartGGToken {
    pub access_token: String,
    pub token_type: TokenKind,
    pub expires_in: Option<u64>,
    pub refresh_token: Option<String>,
    pub scopes: Option<Vec<String>>,
}

/// The contents of a token, as values.
pub struct StartGGTokenView {
    pub access_token: Seq<char>,
    pub token_type: TokenKind,
    pub expires_in: Option<u64>,
    pub refresh_token: Option<Seq<char>>,
    pub scopes: Option<Seq<Seq<char>>>,
}

impl View for StartGGToken {
    type V = StartGGTokenView;

    open spec fn view(&self) -> StartGGTokenView {
        StartGGTokenView {
            access_token: self.access_token@,
            token_type: self.token_type,
            expires_in: self.expires_in,
            refresh_token: match self.refresh_token {
                Some(t) => Some(t@),
                None => None,
            },
            scopes: match self.scopes {
                Some(v) => Some(string_views(v@)),
                None => None,
            },
        }
    }
}

/// Copies a list of strings.
pub fn copy_strings(v: &Vec<String>) -> (r: Vec<String>)
    ensures
        string_views(r@) == string_views(v@),
{
    let mut r: Vec<String> = Vec::new();
    let n: usize = v.len();
    let mut i: usize = 0;
    while i < n
        invariant
            n == v@.len(),
            0 <= i <= n,
            r@.len() == i,
            forall|j: int| 0 <= j < i ==> #[trigger] r@[j]@ == v@[j]@,
        decreases n - i,
    {
        r.push(v[i].clone());
        i = i + 1;
    }
    assert(string_views(r@) =~= string_views(v@));
    r
}

impl TokenKind {
    /// A copy of the kind.
    pub fn copy(&self) -> (r: TokenKind)
        ensures
            r == *self,
    {
        match self {
            TokenKind::Bearer => TokenKind::Bearer,
            TokenKind::Mac => TokenKind::Mac,
            TokenKind::Extension(s) => TokenKind::Extension(s.clone()),
        }
    }
}

impl StartGGToken {
    /// A copy of the token.
    pub fn copy(&self) -> (r: StartGGToken)
        ensures
            r@ == self@,
    {
        StartGGToken {
            access_token: self.access_token.clone(),
            token_type: self.token_type.copy(),
            expires_in: self.expires_in,
            refresh_token: match &self.refresh_token {
                Some(t) => Some(t.clone()),
                None => None,
            },
            scopes: match &self.scopes {
                Some(v) => Some(copy_strings(v)),
                None => None,
            },
        }
    }
}

/// The view of an optional token.
pub open spec fn token_view(t: Option<StartGGToken>) -> Option<StartGGTokenView> {
    match t {
        Some(t) => Some(t@),
        None => None,
    }
}

/// The settings, as values.
pub struct RPIPRSettingsView {
    pub save_path: Seq<char>,
    pub token: Option<StartGGTokenView>,
}

impl RPIPRSettingsView {
    /// The same settings with `token` in place of the stored token.
    pub open spec fn with_token(self, token: Option<StartGGTokenView>) -> RPIPRSettingsView {
        RPIPRSettingsView { save_path: self.save_path, token }
    }
}

/// The application settings.
#[derive(Debug)]
pub struct RPIPRSettings {
    /// The path to which this struct should be saved
    /// on the filesystem
    save_path: String,

    // StartGG Account Settings
    token: Option<StartGGToken>,
}

impl View for RPIPRSettings {
    type V = RPIPRSettingsView;

    closed spec fn view(&self) -> RPIPRSettingsView {
        RPIPRSettingsView { save_path: self.save_path@, token: token_view(self.token) }
    }
}

impl Default for RPIPRSettings {
    fn default() -> (r: Self)
        ensures
            r@.save_path == DEFAULT_SETTINGS_LOC@,
            r@.token is None,
    {
        RPIPRSettings { save_path: String::from_str(DEFAULT_SETTINGS_LOC), token: None }
    }
}

/// What was found where the settings file should be.
pub enum SettingsSource {
    /// There is no file at that path.
    NotFound,
    /// The file could not be opened; the message says why.
    OpenFailed(String),
    /// The file was read; it holds this token.
    Deserialized(Option<StartGGToken>),
    /// The file was read, but its contents are not settings; the message
    /// says why.
    DeserializeFailed(String),
}

/// The outcome of loading the settings.
pub enum SettingsLoad {
    /// The settings were read from their file.
    Loaded(RPIPRSettings),
    /// There was no file: these are new settings, to be saved to their
    /// path before they are used.
    Created(RPIPRSettings),
    /// The settings could not be loaded; the message says why.
    Failed(String),
}

impl RPIPRSettings {
    /// The path the settings are loaded from: `path` where it is given,
    /// `DEFAULT_SETTINGS_LOC` otherwise.
    pub open spec fn resolved_path(path: Option<Seq<char>>) -> Seq<char> {
        match path {
            Some(p) => p,
            None => DEFAULT_SETTINGS_LOC@,
        }
    }

    /// The path to read the settings from.
    pub fn settings_path(path: Option<&str>) -> (r: String)
        ensures
            r@ == Self::resolved_path(match path {
                Some(p) => Some(p@),
                None => None,
            }),
    {
        match path {
            Some(p) => String::from_str(p),
            None => String::from_str(DEFAULT_SETTINGS_LOC),
        }
    }

    /// Loads a settings file from the filesystem,
    /// either at the path provided as `path`, or
    /// the default path specified above with
    /// DEFAULT_SETTINGS_LOC (`source` is what was found at that path). If a
    /// file isn't at the path specified, this method returns
    /// a new settings instance whose save path is
    /// the same as the passed in path (or default path).
    /// Any other errors are returned with a message for the user.
    pub fn load_from_file(path: Option<&str>, source: SettingsSource) -> (r: SettingsLoad)
        ensures
            ({
                let p = Self::resolved_path(match path {
                    Some(p) => Some(p@),
                    None => None,
                });
                match source {
                    SettingsSource::NotFound => (r matches SettingsLoad::Created(s) && s@.save_path == p
                        && s@.token is None),
                    SettingsSource::OpenFailed(e) => (r matches SettingsLoad::Failed(m)
                        && m@ == "Error opening settings file: "@ + e@),
                    SettingsSource::Deserialized(t) => (r matches SettingsLoad::Loaded(s) && s@.save_path == p
                        && s@.token == token_view(t)),
                    SettingsSource::DeserializeFailed(e) => (r matches SettingsLoad::Failed(m)
                        && m@ == "Error deserializing settings: "@ + e@),
                }
            }),
    {
        let fs_path = Self::settings_path(path);
        match source {
            SettingsSource::NotFound => {
                SettingsLoad::Created(RPIPRSettings { save_path: fs_path, token: None })
            },
            SettingsSource::OpenFailed(e) => {
                let m = String::from_str("Error opening settings file: ");
                SettingsLoad::Failed(m.concat(e.as_str()))
            },
            SettingsSource::Deserialized(token) => {
                SettingsLoad::Loaded(RPIPRSettings { save_path: fs_path, token })
            },
            SettingsSource::DeserializeFailed(e) => {
                let m = String::from_str("Error deserializing settings: ");
                SettingsLoad::Failed(m.concat(e.as_str()))
            },
        }
    }

    /// The path to which the settings are saved.
    pub fn get_save_path(&self) -> (r: &String)
        ensures
            r@ == self@.save_path,
    {
        &self.save_path
    }

    /// A copy of the stored token.
    pub fn get_token(&self) -> (r: Option<StartGGToken>)
        ensures
            token_view(r) == self@.token,
    {
        match &self.token {
            Some(t) => Some(t.copy()),
            None => None,
        }
    }

    /// The same settings with `token` in place of the stored token.
    pub fn set_token(&self, token: Option<StartGGToken>) -> (r: Self)
        ensures
            r@ == self@.with_token(token_view(token)),
    {
        Self {
            token,

            save_path: self.save_path.clone(),
        }
    }
}

/// Settings are read from the path given, whatever it is, and from
/// `DEFAULT_SETTINGS_LOC` where none is given.
pub proof fn law_settings_read_from_given_path(path: Seq<char>)
    ensures
        RPIPRSettings::resolved_path(Some(path)) == path,
        RPIPRSettings::resolved_path(None) == DEFAULT_SETTINGS_LOC@,
{
}

/// Storing a token in the settings and reading it back gives that token,
/// and leaves the save path as it was.
pub proof fn law_token_read_after_write(settings: RPIPRSettingsView, token: Option<StartGGTokenView>)
    ensures
        settings.with_token(token).token == token,
        settings.with_token(token).save_path == settings.save_path,
{
}

/// Of two tokens stored one after the other, the second one stays.
pub proof fn law_token_last_write_wins(
    settings: RPIPRSettingsView,
    first: Option<StartGGTokenView>,
    second: Option<StartGGTokenView>,
)
    ensures
        settings.with_token(first).with_token(second) == settings.with_token(second),
{
}

/// Storing the token that the settings already hold changes nothing.
pub proof fn law_token_rewrite_is_identity(settings: RPIPRSettingsView)
    ensures
        settings.with_token(settings.token) == settings,
{
}

} // verus!
