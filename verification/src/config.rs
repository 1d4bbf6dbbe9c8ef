//! What has to be known before anything can run: where the generation
//! service is, and where the store and its collection are.
//!
//! Every setting is required. A configuration is made once, at startup, and
//! one that lacks a setting is never made.

use crate::text::text_of;
use vstd::prelude::*;
use vstd::string::*;

verus! {

/// The settings, in the order in which they are asked for.
#[derive(Clone, Copy, Debug, PartialEq, Eq, Structural)]
pub enum Setting {
    /// The base URL of the generation service.
    ServiceUrl,
    /// The connection string of the store.
    StoreUri,
    /// The name of the database.
    DatabaseName,
    /// The name of the collection.
    CollectionName,
}

/// The environment variable that holds a setting.
pub open spec fn variable_of(setting: Setting) -> Seq<char> {
    match setting {
        Setting::ServiceUrl => "DEEPSEEK_URL"@,
        Setting::StoreUri => "MONGO_URI"@,
        Setting::DatabaseName => "MONGO_DB_NAME"@,
        Setting::CollectionName => "MONGO_COLLECTION_NAME"@,
    }
}

/// The name by which a setting goes in messages.
pub open spec fn label_of(setting: Setting) -> Seq<char> {
    match setting {
        Setting::ServiceUrl => "LLM_URL"@,
        Setting::StoreUri => "MONGO_URI"@,
        Setting::DatabaseName => "DB_NAME"@,
        Setting::CollectionName => "COLLECTION_NAME"@,
    }
}

impl Setting {
    /// The environment variable that holds the setting.
    pub fn variable(&self) -> (name: &'static str)
        ensures
            name@ == variable_of(*self),
    {
        match self {
            Setting::ServiceUrl => "DEEPSEEK_URL",
            Setting::StoreUri => "MONGO_URI",
            Setting::DatabaseName => "MONGO_DB_NAME",
            Setting::CollectionName => "MONGO_COLLECTION_NAME",
        }
    }

    /// The name by which the setting goes in messages.
    pub fn label(&self) -> (name: &'static str)
        ensures
            name@ == label_of(*self),
    {
        match self {
            Setting::ServiceUrl => "LLM_URL",
            Setting::StoreUri => "MONGO_URI",
            Setting::DatabaseName => "DB_NAME",
            Setting::CollectionName => "COLLECTION_NAME",
        }
    }
}

/// A setting is missing.
#[derive(Clone, Copy, Debug, PartialEq, Eq, Structural)]
pub struct ConfigError {
    pub missing: Setting,
}

/// The message that a missing setting is reported with.
pub open spec fn config_message(error: ConfigError) -> Seq<char> {
    label_of(error.missing) + " not set in .env"@
}

impl ConfigError {
    /// The message that the failure is reported with.
    pub fn message(&self) -> (text: String)
        ensures
            text@ == config_message(*self),
    {
        String::from_str(self.missing.label()).concat(" not set in .env")
    }
}

/// A complete configuration.
#[derive(Debug, PartialEq, Eq)]
pub struct Config {
    service_url: String,
    mongo_uri: String,
    db_name: String,
    collection_name: String,
}

/// The view of [`Config`]: the same value with every text as a sequence of
/// characters.
pub struct ConfigView {
    pub service_url: Seq<char>,
    pub mongo_uri: Seq<char>,
    pub db_name: Seq<char>,
    pub collection_name: Seq<char>,
}

impl View for Config {
    type V = ConfigView;

    closed spec fn view(&self) -> ConfigView {
        ConfigView {
            service_url: self.service_url@,
            mongo_uri: self.mongo_uri@,
            db_name: self.db_name@,
            collection_name: self.collection_name@,
        }
    }
}

/// What the values found for the four settings come to: the configuration
/// that holds them where all four are there, else the first that is missing.
/// A setting that is there but empty is there.
pub open spec fn configured(
    service_url: Option<Seq<char>>,
    mongo_uri: Option<Seq<char>>,
    db_name: Option<Seq<char>>,
    collection_name: Option<Seq<char>>,
) -> Result<ConfigView, ConfigError> {
    if service_url is None {
        Err(ConfigError { missing: Setting::ServiceUrl })
    } else if mongo_uri is None {
        Err(ConfigError { missing: Setting::StoreUri })
    } else if db_name is None {
        Err(ConfigError { missing: Setting::DatabaseName })
    } else if collection_name is None {
        Err(ConfigError { missing: Setting::CollectionName })
    } else {
        Ok(
            ConfigView {
                service_url: service_url->0,
                mongo_uri: mongo_uri->0,
                db_name: db_name->0,
                collection_name: collection_name->0,
            },
        )
    }
}

/// The outcome of making a configuration, with the configuration by its view.
pub open spec fn configured_view(result: Result<Config, ConfigError>) -> Result<
    ConfigView,
    ConfigError,
> {
    match result {
        Ok(config) => Ok(config@),
        Err(error) => Err(error),
    }
}

impl Config {
    /// Makes the configuration of the values found for the four settings.
    pub fn new(
        service_url: Option<String>,
        mongo_uri: Option<String>,
        db_name: Option<String>,
        collection_name: Option<String>,
    ) -> (result: Result<Config, ConfigError>)
        ensures
            configured_view(result) == configured(
                text_of(service_url),
                text_of(mongo_uri),
                text_of(db_name),
                text_of(collection_name),
            ),
    {
        let service_url = match service_url {
            Some(text) => text,
            None => return Err(ConfigError { missing: Setting::ServiceUrl }),
        };
        let mongo_uri = match mongo_uri {
            Some(text) => text,
            None => return Err(ConfigError { missing: Setting::StoreUri }),
        };
        let db_name = match db_name {
            Some(text) => text,
            None => return Err(ConfigError { missing: Setting::DatabaseName }),
        };
        let collection_name = match collection_name {
            Some(text) => text,
            None => return Err(ConfigError { missing: Setting::CollectionName }),
        };
        Ok(Config { service_url, mongo_uri, db_name, collection_name })
    }

    /// The base URL of the generation service.
    pub fn service_url(&self) -> (text: &str)
        ensures
            text@ == self@.service_url,
    {
        self.service_url.as_str()
    }

    /// The connection string of the store.
    pub fn mongo_uri(&self) -> (text: &str)
        ensures
            text@ == self@.mongo_uri,
    {
        self.mongo_uri.as_str()
    }

    /// The name of the database.
    pub fn db_name(&self) -> (text: &str)
        ensures
            text@ == self@.db_name,
    {
        self.db_name.as_str()
    }

    /// The name of the collection.
    pub fn collection_name(&self) -> (text: &str)
        ensures
            text@ == self@.collection_name,
    {
        self.collection_name.as_str()
    }
}

} // verus!
