use vstd::prelude::*;

verus! {

/// Where the CLI finds the platform.
#[derive(Clone, Debug)]
pub struct Settings {
    pub api_url: String,
    pub docs_url: String,
    pub website_url: String,
}

/// Name of the settings file, in the working directory or the config directory.
pub const SETTINGS_FILE: &'static str = "settings.json";

pub const DEFAULT_API_URL: &'static str = "https://demo.quome.cloud";

pub const DEFAULT_DOCS_URL: &'static str = "https://docs.quome.com";

pub const DEFAULT_WEBSITE_URL: &'static str = "https://quome.com";

pub fn default_api_url() -> (r: String)
    ensures
        r@ == DEFAULT_API_URL@,
{
    String::from_str(DEFAULT_API_URL)
}

pub fn default_docs_url() -> (r: String)
    ensures
        r@ == DEFAULT_DOCS_URL@,
{
    String::from_str(DEFAULT_DOCS_URL)
}

pub fn default_website_url() -> (r: String)
    ensures
        r@ == DEFAULT_WEBSITE_URL@,
{
    String::from_str(DEFAULT_WEBSITE_URL)
}

impl Default for Settings {
    fn default() -> (r: Settings)
        ensures
            r.api_url@ == DEFAULT_API_URL@,
            r.docs_url@ == DEFAULT_DOCS_URL@,
            r.website_url@ == DEFAULT_WEBSITE_URL@,
    {
        Settings {
            api_url: default_api_url(),
            docs_url: default_docs_url(),
            website_url: default_website_url(),
        }
    }
}

impl Settings {
    /// The settings in force: the working directory's file wins over the
    /// config directory's, and either over the defaults.
    pub fn resolve(local: Option<Settings>, global: Option<Settings>) -> (r: Settings)
        ensures
            local is Some ==> r == local->0,
            local is None && global is Some ==> r == global->0,
            local is None && global is None ==> r.api_url@ == DEFAULT_API_URL@
                && r.docs_url@ == DEFAULT_DOCS_URL@ && r.website_url@ == DEFAULT_WEBSITE_URL@,
    {
        match local {
            Some(s) => s,
            None => match global {
                Some(s) => s,
                None => Settings::default(),
            },
        }
    }

    /// The settings file of the working directory, relative to it.
    pub fn local_settings_path() -> (r: String)
        ensures
            r@ == SETTINGS_FILE@,
    {
        String::from_str(SETTINGS_FILE)
    }

    /// The API base URL: `env_override` when the environment sets one,
    /// else the configured URL.
    pub fn get_api_url(&self, env_override: Option<String>) -> (r: String)
        ensures
            r@ == match env_override {
                Some(u) => u@,
                None => self.api_url@,
            },
    {
        match env_override {
            Some(u) => u,
            None => self.api_url.clone(),
        }
    }
}

} // verus!
