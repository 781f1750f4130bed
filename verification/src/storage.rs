//! The backends of the storage port.

pub mod dynamodb;
pub mod invalid;
pub mod memory;
pub mod postgres;
pub mod util;

use crate::models::OnetimeDownloaderConfig;
use crate::table::Table;
use crate::text::same_text;
use vstd::prelude::*;

verus! {

/// The adapter that the process works with.
pub enum Backend {
    Dynamodb(dynamodb::Storage),
    Postgres(postgres::Storage),
    Invalid(invalid::Storage),
}

/// The adapter that the configuration names, set up from a snapshot of the
/// environment. A provider that is not known, or one that cannot be set
/// up, gives the adapter that answers every call with the reason.
pub fn build_backend(config: &OnetimeDownloaderConfig, env: &Table<String>) -> (r: Backend)
    ensures
        match r {
            Backend::Dynamodb(storage) => config.provider@ == "dynamodb"@ && dynamodb::described(
                env@,
                storage,
            ),
            Backend::Postgres(storage) => config.provider@ == "postgres"@ && postgres::spec_port(
                env@,
            ) == Some(storage.connection.port as int) && postgres::described(env@, storage),
            Backend::Invalid(storage) => if config.provider@ == "postgres"@ {
                postgres::spec_port(env@) is None && storage.error@
                    == "Invalid postgres storage provider! "@ + postgres::bad_port(
                    postgres::port_text(env@),
                ).message
            } else {
                config.provider@ != "dynamodb"@ && storage.error@
                    == "Invalid or no storage provider given! '"@ + config.provider@ + "'"@
            },
        },
{
    proof {
        reveal_strlit("dynamodb");
        reveal_strlit("postgres");
    }
    if same_text(config.provider.as_str(), "dynamodb") {
        Backend::Dynamodb(dynamodb::Storage::from_env(env))
    } else if same_text(config.provider.as_str(), "postgres") {
        match postgres::Storage::from_env(env) {
            Err(why) => {
                let mut error = String::from_str("Invalid postgres storage provider! ");
                error.append(why.message.as_str());
                Backend::Invalid(invalid::Storage { error })
            },
            Ok(storage) => Backend::Postgres(storage),
        }
    } else {
        let mut error = String::from_str("Invalid or no storage provider given! '");
        error.append(config.provider.as_str());
        error.append("'");
        Backend::Invalid(invalid::Storage { error })
    }
}

} // verus!
