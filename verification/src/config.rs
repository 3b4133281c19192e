//! The resolved configuration value that the connection manager and the
//! document sink are constructed from.
//!
//! The configuration is resolved once at the process boundary (reading an
//! environment is the caller's concern) and handed in as plain optional
//! values; `Config::new` checks that every required field is present and
//! fails fast with the name of the first missing one.

use vstd::prelude::*;

verus! {

use vstd::string::StringExecFns;

/// The immutable configuration for the whole bridge: the socket endpoint with
/// its optional key/secret pair, and the store connection surface (URI,
/// database and collection names, optional credentials).
#[derive(Debug, Clone)]
pub struct Config {
    /// The endpoint URL of the socket subscription.
    pub websocket_url: String,
    /// Optional API key attached as a request header during the handshake.
    pub websocket_api_key: Option<String>,
    /// Optional API secret attached as a request header during the handshake.
    pub websocket_api_secret: Option<String>,
    /// The URI of the document store.
    pub mongodb_uri: String,
    /// The name of the target database.
    pub database_name: String,
    /// The name of the target collection.
    pub collection_name: String,
    /// Optional username for store authentication.
    pub mongodb_user: Option<String>,
    /// Optional password for store authentication.
    pub mongodb_password: Option<String>,
    /// Optional authentication source; defaults to "admin" when unset.
    pub mongodb_auth_source: Option<String>,
    /// Optional authentication mechanism name.
    pub mongodb_auth_mechanism: Option<String>,
}

/// Errors raised while assembling a configuration value.
#[derive(Debug, Clone, PartialEq, Eq)]
pub enum ConfigError {
    /// A required configuration field was not supplied; carries the name of
    /// the environment variable the field is conventionally read from.
    MissingEnvVar(String),
}

impl ConfigError {
    /// The human-readable description of this error.
    pub open spec fn message_spec(&self) -> Seq<char> {
        match self {
            ConfigError::MissingEnvVar(name) => "missing environment variable: "@ + name@,
        }
    }

    /// Renders the error as text, for logging at the process boundary.
    pub fn message(&self) -> (r: String)
        ensures
            r@ == self.message_spec(),
    {
        match self {
            ConfigError::MissingEnvVar(name) => {
                let prefix: String = "missing environment variable: ".to_owned();
                prefix.concat(name.as_str())
            },
        }
    }
}

impl Config {
    /// Assembles a configuration from already-resolved optional values, in
    /// the conventional environment-variable order. The endpoint URL, store
    /// URI, database name and collection name are required; the first one
    /// missing fails the whole construction with its conventional name. All
    /// remaining fields are optional and carried through unchanged.
    pub fn new(
        websocket_url: Option<String>,
        websocket_api_key: Option<String>,
        websocket_api_secret: Option<String>,
        mongodb_uri: Option<String>,
        database_name: Option<String>,
        collection_name: Option<String>,
        mongodb_user: Option<String>,
        mongodb_password: Option<String>,
        mongodb_auth_source: Option<String>,
        mongodb_auth_mechanism: Option<String>,
    ) -> (r: Result<Config, ConfigError>)
        ensures
            r is Ok <==> (websocket_url is Some && mongodb_uri is Some && database_name is Some
                && collection_name is Some),
            websocket_url is None ==> (r matches Err(ConfigError::MissingEnvVar(n)) && n@
                == "WEBSOCKET_URL"@),
            websocket_url is Some && mongodb_uri is None ==> (r matches Err(
                ConfigError::MissingEnvVar(n),
            ) && n@ == "MONGODB_URI"@),
            websocket_url is Some && mongodb_uri is Some && database_name is None ==> (r matches Err(
                ConfigError::MissingEnvVar(n),
            ) && n@ == "DATABASE_NAME"@),
            websocket_url is Some && mongodb_uri is Some && database_name is Some
                && collection_name is None ==> (r matches Err(ConfigError::MissingEnvVar(n)) && n@
                == "COLLECTION_NAME"@),
            (match (websocket_url, mongodb_uri, database_name, collection_name) {
                (Some(wu), Some(mu), Some(dn), Some(cn)) => r matches Ok(c) && c.websocket_url
                    == wu && c.mongodb_uri == mu && c.database_name == dn && c.collection_name == cn
                    && c.websocket_api_key == websocket_api_key && c.websocket_api_secret
                    == websocket_api_secret && c.mongodb_user == mongodb_user && c.mongodb_password
                    == mongodb_password && c.mongodb_auth_source == mongodb_auth_source
                    && c.mongodb_auth_mechanism == mongodb_auth_mechanism,
                _ => true,
            }),
    {
        let websocket_url = match websocket_url {
            Some(v) => v,
            None => {
                return Err(ConfigError::MissingEnvVar("WEBSOCKET_URL".to_owned()));
            },
        };
        let mongodb_uri = match mongodb_uri {
            Some(v) => v,
            None => {
                return Err(ConfigError::MissingEnvVar("MONGODB_URI".to_owned()));
            },
        };
        let database_name = match database_name {
            Some(v) => v,
            None => {
                return Err(ConfigError::MissingEnvVar("DATABASE_NAME".to_owned()));
            },
        };
        let collection_name = match collection_name {
            Some(v) => v,
            None => {
                return Err(ConfigError::MissingEnvVar("COLLECTION_NAME".to_owned()));
            },
        };
        Ok(
            Config {
                websocket_url,
                websocket_api_key,
                websocket_api_secret,
                mongodb_uri,
                database_name,
                collection_name,
                mongodb_user,
                mongodb_password,
                mongodb_auth_source,
                mongodb_auth_mechanism,
            },
        )
    }
}

} // verus!
