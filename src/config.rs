use std::collections::HashMap;
use vstd::prelude::*;

use crate::error::QuomeError;

verus! {

/// The signed-in user, with the session token.
#[derive(Clone, Debug)]
pub struct UserConfig {
    pub token: String,
    pub id: u128,
    pub email: String,
}

/// The organization, and optionally the app, a directory is linked to.
#[derive(Clone, Debug)]
pub struct LinkedContext {
    pub org_id: u128,
    pub org_name: String,
    pub app_id: Option<u128>,
    pub app_name: Option<String>,
}

/// The local credential and context store: the signed-in user, and the
/// linked context of each directory, keyed by its path.
#[derive(Clone, Debug)]
pub struct Config {
    pub user: Option<UserConfig>,
    pub linked: HashMap<String, LinkedContext>,
}

impl Config {
    /// A store with nobody signed in and nothing linked.
    pub fn new() -> (r: Config)
        ensures
            r.user is None,
            r.linked@ == Map::<String, LinkedContext>::empty(),
    {
        Config { user: None, linked: HashMap::new() }
    }

    /// The session token: `env_token`, the one the environment sets, wins
    /// over the stored one.
    pub fn get_token_string(&self, env_token: Option<String>) -> (r: Option<String>)
        ensures
            env_token is Some ==> r == env_token,
            env_token is None ==> match self.user {
                Some(u) => r matches Some(t) && t@ == u.token@,
                None => r is None,
            },
    {
        match env_token {
            Some(t) => Some(t),
            None => match &self.user {
                Some(u) => Some(u.token.clone()),
                None => None,
            },
        }
    }

    /// The session token, or `NotLoggedIn` when there is none.
    pub fn require_token(&self, env_token: Option<String>) -> (r: Result<String, QuomeError>)
        ensures
            env_token is Some ==> r == Ok::<String, QuomeError>(env_token->0),
            env_token is None ==> match self.user {
                Some(u) => r matches Ok(t) && t@ == u.token@,
                None => r matches Err(QuomeError::NotLoggedIn),
            },
    {
        match self.get_token_string(env_token) {
            Some(t) => Ok(t),
            None => Err(QuomeError::NotLoggedIn),
        }
    }

    /// Records the signed-in user; the linked contexts stay.
    pub fn set_user(&mut self, token: String, id: u128, email: String)
        ensures
            final(self).user == Some(UserConfig { token, id, email }),
            final(self).linked == old(self).linked,
    {
        self.user = Some(UserConfig { token, id, email });
    }

    /// Forgets the signed-in user; the linked contexts stay.
    pub fn clear_user(&mut self)
        ensures
            final(self).user is None,
            final(self).linked == old(self).linked,
    {
        self.user = None;
    }
}

/// The UUID a text names, if it is one of the forms uuid accepts.
pub uninterp spec fn parsed_uuid(s: Seq<char>) -> Option<u128>;

/// Relies on uuid's `Uuid::parse_str`, through `FromStr`: whether the text
/// is a UUID and which one depends on the text alone.
#[verifier::external_body]
fn parse_uuid(s: &str) -> (r: Option<u128>)
    ensures
        r == parsed_uuid(s@),
{
    s.parse::<uuid::Uuid>().ok().map(|u| u.as_u128())
}

fn env_id_or_error(s: &String, message: &str) -> (r: Result<u128, QuomeError>)
    ensures
        parsed_uuid(s@) matches Some(id) ==> r == Ok::<u128, QuomeError>(id),
        parsed_uuid(s@) is None ==> (r matches Err(QuomeError::ApiError(m)) && m@ == message@),
{
    match parse_uuid(s.as_str()) {
        Some(id) => Ok(id),
        None => Err(QuomeError::ApiError(String::from_str(message))),
    }
}

/// The linked organization: the one the environment names (`env_org`),
/// else the one linked to the working directory (`linked`), if any.
pub fn get_linked_org_id(env_org: &Option<String>, linked: Option<&LinkedContext>) -> (r: Result<
    Option<u128>,
    QuomeError,
>)
    ensures
        env_org matches Some(s) ==> match parsed_uuid(s@) {
            Some(id) => r == Ok::<Option<u128>, QuomeError>(Some(id)),
            None => r matches Err(QuomeError::ApiError(m)) && m@ == "Invalid QUOME_ORG UUID"@,
        },
        env_org is None ==> r == Ok::<Option<u128>, QuomeError>(
            match linked {
                Some(l) => Some(l.org_id),
                None => None,
            },
        ),
{
    match env_org {
        Some(s) => match env_id_or_error(s, "Invalid QUOME_ORG UUID") {
            Ok(id) => Ok(Some(id)),
            Err(e) => Err(e),
        },
        None => match linked {
            Some(l) => Ok(Some(l.org_id)),
            None => Ok(None),
        },
    }
}

/// The linked app: the one the environment names (`env_app`), else the one
/// linked to the working directory, which is not consulted while the
/// environment names an organization (`env_org_set`).
pub fn get_linked_app_id(
    env_org_set: bool,
    env_app: &Option<String>,
    linked: Option<&LinkedContext>,
) -> (r: Result<Option<u128>, QuomeError>)
    ensures
        env_app matches Some(s) ==> match parsed_uuid(s@) {
            Some(id) => r == Ok::<Option<u128>, QuomeError>(Some(id)),
            None => r matches Err(QuomeError::ApiError(m)) && m@ == "Invalid QUOME_APP UUID"@,
        },
        env_app is None ==> r == Ok::<Option<u128>, QuomeError>(
            match linked {
                Some(l) => if env_org_set {
                    None
                } else {
                    l.app_id
                },
                None => None,
            },
        ),
{
    match env_app {
        Some(s) => match env_id_or_error(s, "Invalid QUOME_APP UUID") {
            Ok(id) => Ok(Some(id)),
            Err(e) => Err(e),
        },
        None => match linked {
            Some(l) => if env_org_set {
                Ok(None)
            } else {
                Ok(l.app_id)
            },
            None => Ok(None),
        },
    }
}

/// The organization a command acts on: the one given, else the linked one;
/// `NoLinkedOrg` when there is neither.
pub fn require_linked_org(
    given: Option<u128>,
    env_org: &Option<String>,
    linked: Option<&LinkedContext>,
) -> (r: Result<u128, QuomeError>)
    ensures
        given matches Some(id) ==> r == Ok::<u128, QuomeError>(id),
        given is None ==> match get_linked_org_result(*env_org, linked) {
            Ok(Some(id)) => r == Ok::<u128, QuomeError>(id),
            Ok(None) => r matches Err(QuomeError::NoLinkedOrg),
            Err(_) => r matches Err(QuomeError::ApiError(m)) && m@ == "Invalid QUOME_ORG UUID"@,
        },
{
    match given {
        Some(id) => Ok(id),
        None => match get_linked_org_id(env_org, linked) {
            Ok(Some(id)) => Ok(id),
            Ok(None) => Err(QuomeError::NoLinkedOrg),
            Err(e) => Err(e),
        },
    }
}

/// The outcome of `get_linked_org_id`, its error left unnamed.
pub open spec fn get_linked_org_result(env_org: Option<String>, linked: Option<&LinkedContext>) -> Result<
    Option<u128>,
    (),
> {
    match env_org {
        Some(s) => match parsed_uuid(s@) {
            Some(id) => Ok(Some(id)),
            None => Err(()),
        },
        None => Ok(
            match linked {
                Some(l) => Some(l.org_id),
                None => None,
            },
        ),
    }
}

/// The outcome of `get_linked_app_id`, its error left unnamed.
pub open spec fn get_linked_app_result(
    env_org_set: bool,
    env_app: Option<String>,
    linked: Option<&LinkedContext>,
) -> Result<Option<u128>, ()> {
    match env_app {
        Some(s) => match parsed_uuid(s@) {
            Some(id) => Ok(Some(id)),
            None => Err(()),
        },
        None => Ok(
            match linked {
                Some(l) => if env_org_set {
                    None
                } else {
                    l.app_id
                },
                None => None,
            },
        ),
    }
}

/// The app a command acts on: the one given, else the linked one;
/// `NoLinkedApp` when there is neither.
pub fn require_linked_app(
    given: Option<u128>,
    env_org_set: bool,
    env_app: &Option<String>,
    linked: Option<&LinkedContext>,
) -> (r: Result<u128, QuomeError>)
    ensures
        given matches Some(id) ==> r == Ok::<u128, QuomeError>(id),
        given is None ==> match get_linked_app_result(env_org_set, *env_app, linked) {
            Ok(Some(id)) => r == Ok::<u128, QuomeError>(id),
            Ok(None) => r matches Err(QuomeError::NoLinkedApp),
            Err(_) => r matches Err(QuomeError::ApiError(m)) && m@ == "Invalid QUOME_APP UUID"@,
        },
{
    match given {
        Some(id) => Ok(id),
        None => match get_linked_app_id(env_org_set, env_app, linked) {
            Ok(Some(id)) => Ok(id),
            Ok(None) => Err(QuomeError::NoLinkedApp),
            Err(e) => Err(e),
        },
    }
}

} // verus!
