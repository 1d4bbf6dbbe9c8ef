use backend::config::{Config, ConfigError, Setting};
use backend::database::{
    AIRequest, AIResponse, ConnectOutcome, Database, GenerationStats, InsertOutcome,
};
use backend::error::{ConnectError, StoreError};

fn config() -> Config {
    Config::new(
        Some("http://localhost:8000".to_string()),
        Some("mongodb://localhost:27017".to_string()),
        Some("ai".to_string()),
        Some("requests".to_string()),
    )
    .unwrap()
}

fn unsaved() -> AIRequest {
    AIRequest {
        _id: None,
        timestamp: "2024-05-17T10:15:30+02:00".to_string(),
        prompt: "Hello AI!".to_string(),
        max_length: 100,
        response: AIResponse {
            prompt: "Hello AI!".to_string(),
            response: "Hi there!".to_string(),
            stats: GenerationStats { generation_time_nanos: 250_000_000 },
        },
    }
}

#[test]
fn complete_configuration_holds_every_setting() {
    let config = config();
    assert_eq!(config.service_url(), "http://localhost:8000");
    assert_eq!(config.mongo_uri(), "mongodb://localhost:27017");
    assert_eq!(config.db_name(), "ai");
    assert_eq!(config.collection_name(), "requests");
}

#[test]
fn empty_setting_is_a_setting() {
    let config =
        Config::new(Some(String::new()), Some(String::new()), Some(String::new()), Some(String::new()))
            .unwrap();
    assert_eq!(config.service_url(), "");
    assert_eq!(config.collection_name(), "");
}

#[test]
fn first_missing_setting_is_reported() {
    let some = || Some("x".to_string());
    assert_eq!(
        Config::new(None, None, None, None),
        Err(ConfigError { missing: Setting::ServiceUrl })
    );
    assert_eq!(
        Config::new(some(), None, None, None),
        Err(ConfigError { missing: Setting::StoreUri })
    );
    assert_eq!(
        Config::new(some(), some(), None, None),
        Err(ConfigError { missing: Setting::DatabaseName })
    );
    assert_eq!(
        Config::new(some(), some(), some(), None),
        Err(ConfigError { missing: Setting::CollectionName })
    );
    assert_eq!(
        Config::new(None, some(), some(), some()),
        Err(ConfigError { missing: Setting::ServiceUrl })
    );
    assert_eq!(
        Config::new(some(), some(), None, some()),
        Err(ConfigError { missing: Setting::DatabaseName })
    );
}

#[test]
fn settings_have_variables_and_labels() {
    assert_eq!(Setting::ServiceUrl.variable(), "DEEPSEEK_URL");
    assert_eq!(Setting::StoreUri.variable(), "MONGO_URI");
    assert_eq!(Setting::DatabaseName.variable(), "MONGO_DB_NAME");
    assert_eq!(Setting::CollectionName.variable(), "MONGO_COLLECTION_NAME");
    assert_eq!(Setting::ServiceUrl.label(), "LLM_URL");
    assert_eq!(Setting::StoreUri.label(), "MONGO_URI");
    assert_eq!(Setting::DatabaseName.label(), "DB_NAME");
    assert_eq!(Setting::CollectionName.label(), "COLLECTION_NAME");
}

#[test]
fn missing_setting_has_a_message() {
    assert_eq!(
        ConfigError { missing: Setting::ServiceUrl }.message(),
        "LLM_URL not set in .env"
    );
    assert_eq!(
        ConfigError { missing: Setting::StoreUri }.message(),
        "MONGO_URI not set in .env"
    );
    assert_eq!(
        ConfigError { missing: Setting::DatabaseName }.message(),
        "DB_NAME not set in .env"
    );
    assert_eq!(
        ConfigError { missing: Setting::CollectionName }.message(),
        "COLLECTION_NAME not set in .env"
    );
}

#[test]
fn store_opens_on_the_configured_collection() {
    let database = Database::new(&config(), ConnectOutcome::Connected).unwrap();
    assert_eq!(database.db_name(), "ai");
    assert_eq!(database.collection_name(), "requests");
    assert_eq!(database.clone(), database);
}

#[test]
fn store_that_fails_to_open_gives_no_database() {
    assert_eq!(
        Database::new(&config(), ConnectOutcome::UriRejected("invalid scheme".to_string())),
        Err(ConnectError::InvalidUri("invalid scheme".to_string()))
    );
    assert_eq!(
        Database::new(&config(), ConnectOutcome::ClientRejected("no runtime".to_string())),
        Err(ConnectError::ClientInit("no runtime".to_string()))
    );
}

#[test]
fn stored_record_differs_by_its_identifier_only() {
    let database = Database::new(&config(), ConnectOutcome::Connected).unwrap();
    let id = [7u8; 12];
    let stored = database.log_request(unsaved(), InsertOutcome::Inserted(id)).unwrap();
    assert_eq!(stored._id, Some(id));
    assert_eq!(stored, AIRequest { _id: Some(id), ..unsaved() });
}

#[test]
fn identifier_of_the_store_replaces_an_earlier_one() {
    let database = Database::new(&config(), ConnectOutcome::Connected).unwrap();
    let earlier = AIRequest { _id: Some([1u8; 12]), ..unsaved() };
    let stored = database.log_request(earlier, InsertOutcome::Inserted([2u8; 12])).unwrap();
    assert_eq!(stored, AIRequest { _id: Some([2u8; 12]), ..unsaved() });
}

#[test]
fn rejected_insert_gives_the_cause_and_no_record() {
    let database = Database::new(&config(), ConnectOutcome::Connected).unwrap();
    assert_eq!(
        database.log_request(unsaved(), InsertOutcome::Rejected("write concern".to_string())),
        Err(StoreError { cause: "write concern".to_string() })
    );
}

#[test]
fn record_copies_are_equal() {
    let record = AIRequest { _id: Some([9u8; 12]), ..unsaved() };
    assert_eq!(record.clone(), record);
    assert_eq!(record.response.clone(), record.response);
}
