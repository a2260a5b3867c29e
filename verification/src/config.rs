//! Process configuration values.
//!
//! Reading and deserializing the configuration file stays outside the
//! library; the values and the connection-string construction live here.

use vstd::prelude::*;

use vstd::string::StringExecFns;

verus! {

/// Storage connection settings.
pub struct DatabaseConfig {
    pub username: String,
    pub password: String,
    pub host: String,
    pub port: String,
    pub db: String,
}

/// Bot credentials.
pub struct BotConfig {
    pub bot_token: String,
}

/// External application registration.
pub struct Application {
    pub api_id: i32,
    pub api_hash: String,
}

/// Sign-in credentials of the client session.
pub struct AuthCredentials {
    pub phone_number: String,
    pub password: String,
}

/// Log filtering.
pub struct Tracing {
    pub log_level: String,
}

/// The whole configuration file.
pub struct ConfigToml {
    pub bot: BotConfig,
    pub tg_app: Application,
    pub auth: AuthCredentials,
    pub tracing: Tracing,
    pub postgres: DatabaseConfig,
}

/// The connection string the storage settings denote.
pub open spec fn postgres_url_of(c: DatabaseConfig) -> Seq<char> {
    "postgres://"@ + c.username@ + ":"@ + c.password@ + "@"@ + c.host@ + ":"@ + c.port@ + "/"@
        + c.db@
}

impl ConfigToml {
    /// The storage connection string of this configuration.
    pub fn get_postgres_url(&self) -> (r: String)
        ensures
            r@ == postgres_url_of(self.postgres),
    {
        let postgres = &self.postgres;
        let mut url = String::from_str("postgres://");
        url.append(postgres.username.as_str());
        url.append(":");
        url.append(postgres.password.as_str());
        url.append("@");
        url.append(postgres.host.as_str());
        url.append(":");
        url.append(postgres.port.as_str());
        url.append("/");
        url.append(postgres.db.as_str());
        proof {
            assert(url@ =~= postgres_url_of(self.postgres));
        }
        url
    }
}

/// The storage connection string of a configuration.
pub fn get_postgres_url(config: &ConfigToml) -> (r: String)
    ensures
        r@ == postgres_url_of(config.postgres),
{
    config.get_postgres_url()
}

} // verus!
