//! The settings of the tool: what is stored, and what a run works with once the
//! stored values and the environment have been put together.

use vstd::prelude::*;
use vstd::string::*;
use vstd::utf8::*;
use crate::error::{AppError, CryptoError};
use crate::vault::{
    decrypt_failure, decrypt_password, encrypt_password, is_blob_of, MAX_SECRET_LEN,
};

verus! {

/// The settings as they are stored: the password only in its sealed form.
#[derive(Debug, Clone, PartialEq, Eq)]
pub struct AppConfig {
    pub jira_url: String,
    pub username: String,
    pub encrypted_password: Option<String>,
    pub jira_id_prefix: String,
}

/// The values that the settings file holds; any of them may be absent.
#[derive(Debug, Clone, PartialEq, Eq)]
pub struct StoredValues {
    pub jira_url: Option<String>,
    pub username: Option<String>,
    pub encrypted_password: Option<String>,
    pub jira_id_prefix: Option<String>,
}

/// The values that the environment sets. Each one that is present takes the place
/// of the stored value.
#[derive(Debug, Clone, PartialEq, Eq)]
pub struct EnvOverrides {
    pub jira_url: Option<String>,
    pub username: Option<String>,
    pub jira_id_prefix: Option<String>,
}

/// The settings a run works with: the password in the clear.
#[derive(Debug, Clone, PartialEq, Eq)]
pub struct LoadedConfig {
    pub jira_url: String,
    pub username: String,
    pub password: String,
    pub jira_id_prefix: Option<String>,
}

/// The value in force: the one from the environment if there is one, else the
/// stored one.
pub open spec fn in_force(env: Option<String>, stored: Option<String>) -> Option<String> {
    if env is Some {
        env
    } else {
        stored
    }
}

/// Nothing required is absent: a URL and a user name are in force, and a sealed
/// password is stored.
pub open spec fn is_complete(stored: StoredValues, env: EnvOverrides) -> bool {
    &&& in_force(env.jira_url, stored.jira_url) is Some
    &&& in_force(env.username, stored.username) is Some
    &&& stored.encrypted_password is Some
}

fn pick(env: &Option<String>, stored: &Option<String>) -> (r: Option<String>)
    ensures
        r.deep_view() == in_force(*env, *stored).deep_view(),
{
    match env {
        Some(value) => Some(value.clone()),
        None => stored.clone(),
    }
}

impl AppConfig {
    /// `secret` is the password that these settings hold in sealed form.
    pub open spec fn holds_password(&self, secret: Seq<char>) -> bool {
        match self.encrypted_password {
            Some(text) => is_blob_of(text@, secret),
            None => false,
        }
    }

    /// Settings for a tracker, with the password sealed for storage.
    ///
    /// The call fails only when sealing does: when the random generator gives
    /// nothing, or on a password of more than `MAX_SECRET_LEN` bytes that the
    /// cipher or the text form cannot take.
    pub fn new(jira_url: String, username: String, password: String, jira_id_prefix: String) -> (r:
        Result<AppConfig, AppError>)
        ensures
            r matches Ok(config) ==> {
                &&& config.jira_url == jira_url
                &&& config.username == username
                &&& config.jira_id_prefix == jira_id_prefix
                &&& config.holds_password(password@)
            },
            r matches Err(e) ==> e == AppError::Crypto(CryptoError::RandomUnavailable) || (e
                == AppError::Crypto(CryptoError::SealFailed) && encode_utf8(password@).len()
                > MAX_SECRET_LEN),
    {
        match encrypt_password(password.as_str()) {
            Ok(text) => Ok(
                AppConfig { jira_url, username, encrypted_password: Some(text), jira_id_prefix },
            ),
            Err(e) => Err(e),
        }
    }

    /// The password in the clear.
    ///
    /// It comes back exactly when the settings hold it in sealed form, so settings
    /// made by `new` give back the password they were made with. Settings without
    /// a password report `ConfigMissing`; a sealed form that cannot be read
    /// reports why, as `decrypt_password` does.
    pub fn get_password(&self) -> (r: Result<String, AppError>)
        ensures
            forall|secret: Seq<char>|
                self.holds_password(secret) <==> (r matches Ok(s) && s@ == secret),
            r matches Err(e) ==> e == match self.encrypted_password {
                Some(text) => decrypt_failure(text@),
                None => AppError::ConfigMissing,
            },
    {
        match &self.encrypted_password {
            Some(text) => decrypt_password(text.as_str()),
            None => Err(AppError::ConfigMissing),
        }
    }
}

/// Puts the stored values and the environment together and opens the password.
///
/// Where a URL, a user name or the sealed password is absent, the result is
/// `ConfigMissing`, which asks for the settings to be entered. Otherwise the sealed
/// password is read as `decrypt_password` reads it, and its failure is the
/// failure of the load. The project prefix is passed on as it is in force; a run
/// that needs it and finds none fails then.
pub fn load_config(stored: &StoredValues, env: &EnvOverrides) -> (r: Result<LoadedConfig, AppError>)
    ensures
        !is_complete(*stored, *env) ==> r == Err::<LoadedConfig, AppError>(AppError::ConfigMissing),
        is_complete(*stored, *env) ==> {
            let sealed = stored.encrypted_password->Some_0@;
            &&& forall|secret: Seq<char>|
                is_blob_of(sealed, secret) <==> (r matches Ok(config) && config.password@ == secret)
            &&& r matches Err(e) ==> e == decrypt_failure(sealed)
            &&& r matches Ok(config) ==> {
                &&& config.jira_url@ == in_force(env.jira_url, stored.jira_url)->Some_0@
                &&& config.username@ == in_force(env.username, stored.username)->Some_0@
                &&& config.jira_id_prefix.deep_view() == in_force(
                    env.jira_id_prefix,
                    stored.jira_id_prefix,
                ).deep_view()
            }
        },
{
    let jira_url = match pick(&env.jira_url, &stored.jira_url) {
        Some(value) => value,
        None => {
            return Err(AppError::ConfigMissing);
        },
    };
    let username = match pick(&env.username, &stored.username) {
        Some(value) => value,
        None => {
            return Err(AppError::ConfigMissing);
        },
    };
    let password = match &stored.encrypted_password {
        Some(text) => match decrypt_password(text.as_str()) {
            Ok(secret) => secret,
            Err(e) => {
                return Err(e);
            },
        },
        None => {
            return Err(AppError::ConfigMissing);
        },
    };
    let jira_id_prefix = pick(&env.jira_id_prefix, &stored.jira_id_prefix);
    Ok(LoadedConfig { jira_url, username, password, jira_id_prefix })
}

} // verus!
