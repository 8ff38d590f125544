//! Settings: what the environment gives, and what stands where it gives nothing.
use vstd::prelude::*;
use vstd::utf8::encode_utf8;

use crate::config::{settings, Settings};
use crate::crypto::sha256;

verus! {

/// The service starts exactly where it is given a database. Every setting that is
/// given is kept as it is, and each other one has its default; the key for secrets
/// is the digest of what is given for it.
pub proof fn given_settings_are_kept(
    database_url: Option<String>,
    dev_api_key: Option<String>,
    master_key: Option<String>,
    psp_url: Option<String>,
    result: Result<Settings, String>,
)
    requires
        call_ensures(settings, (database_url, dev_api_key, master_key, psp_url), result),
    ensures
        match database_url {
            None => result matches Err(error) && error@ == "DATABASE_URL is required"@,
            Some(url) => result matches Ok(kept) && {
                &&& kept.database_url@ == url@
                &&& kept.dev_api_key@ == match dev_api_key {
                    Some(given) => given@,
                    None => "dodo_test_dev_secret_change_me"@,
                }
                &&& kept.psp_url@ == match psp_url {
                    Some(given) => given@,
                    None => "http://localhost:8081"@,
                }
                &&& kept.webhook_key@ == sha256(
                    encode_utf8(
                        match master_key {
                            Some(given) => given@,
                            None => "local-development-key"@,
                        },
                    ),
                )
            },
        },
{
}

}
