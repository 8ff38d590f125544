//! The settings of the service, with their defaults.
use vstd::prelude::*;
use vstd::string::*;
use vstd::utf8::*;

use crate::crypto::{digest, sha256};
use crate::text::opt_text;

verus! {

/// The settings of the service.
#[derive(Debug)]
pub struct Settings {
    pub database_url: String,
    pub dev_api_key: String,
    pub psp_url: String,
    pub webhook_key: [u8; 32],
}

/// A setting, or its default.
pub open spec fn setting(value: Option<Seq<char>>, default: Seq<char>) -> Seq<char> {
    match value {
        Some(value) => value,
        None => default,
    }
}

fn or_default(value: Option<String>, default: &str) -> (result: String)
    ensures
        result@ == setting(opt_text(value), default@),
{
    match value {
        Some(value) => value,
        None => default.to_owned(),
    }
}

/// The settings for what the environment gives. The database has to be given,
/// and the key that webhook secrets are encrypted with is the digest of a text.
pub fn settings(
    database_url: Option<String>,
    dev_api_key: Option<String>,
    master_key: Option<String>,
    psp_url: Option<String>,
) -> (result: Result<Settings, String>)
    ensures
        match result {
            Ok(settings) => {
                &&& opt_text(database_url) == Some(settings.database_url@)
                &&& settings.dev_api_key@ == setting(
                    opt_text(dev_api_key),
                    "dodo_test_dev_secret_change_me"@,
                )
                &&& settings.psp_url@ == setting(opt_text(psp_url), "http://localhost:8081"@)
                &&& settings.webhook_key@ == sha256(
                    encode_utf8(setting(opt_text(master_key), "local-development-key"@)),
                )
            },
            Err(error) => database_url is None && error@ == "DATABASE_URL is required"@,
        },
{
    let database_url = match database_url {
        Some(url) => url,
        None => return Err("DATABASE_URL is required".to_owned()),
    };
    let master_key = or_default(master_key, "local-development-key");
    Ok(
        Settings {
            database_url,
            dev_api_key: or_default(dev_api_key, "dodo_test_dev_secret_change_me"),
            psp_url: or_default(psp_url, "http://localhost:8081"),
            webhook_key: digest(master_key.as_str().as_bytes()),
        },
    )
}

}
