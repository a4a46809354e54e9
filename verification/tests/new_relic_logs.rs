use vector_core::sinks::new_relic_logs::{
    BatchConfig, Compression, Concurrency, HttpMethod, NewRelicLogsConfig, NewRelicLogsRegion,
    SerializerConfig, TowerRequestConfig, MAX_PAYLOAD_SIZE, RATE_LIMIT_NUM_DEFAULT,
};

fn default_config_as_toml(config: &NewRelicLogsConfig) -> toml::Value {
    let mut batch = toml::Table::new();
    if let Some(b) = config.batch.max_bytes {
        batch.insert("max_bytes".to_owned(), toml::Value::Integer(b as i64));
    }
    let mut request = toml::Table::new();
    if let Some(n) = config.request.rate_limit_num {
        request.insert("rate_limit_num".to_owned(), toml::Value::Integer(n as i64));
    }
    let mut root = toml::Table::new();
    if let Some(k) = &config.license_key {
        root.insert("license_key".to_owned(), toml::Value::String(k.clone()));
    }
    if let Some(k) = &config.insert_key {
        root.insert("insert_key".to_owned(), toml::Value::String(k.clone()));
    }
    if let Some(region) = config.region {
        let name = match region {
            NewRelicLogsRegion::Us => "us",
            NewRelicLogsRegion::Eu => "eu",
        };
        root.insert("region".to_owned(), toml::Value::String(name.to_owned()));
    }
    root.insert("batch".to_owned(), toml::Value::Table(batch));
    root.insert("request".to_owned(), toml::Value::Table(request));
    toml::Value::Table(root)
}

#[test]
fn generate_config() {
    let config = NewRelicLogsConfig::default();
    let value = default_config_as_toml(&config);
    let text = toml::to_string(&value).unwrap();
    let parsed: toml::Value = toml::from_str(&text).unwrap();
    assert_eq!(value, parsed);
}

#[test]
fn new_relic_logs_check_config_no_auth() {
    assert_eq!(
        NewRelicLogsConfig::default().create_config().unwrap_err().message(),
        "Missing authentication key, must provide either 'license_key' or 'insert_key'".to_owned(),
    );
}

#[test]
fn new_relic_logs_check_config_defaults() {
    let mut nr_config = NewRelicLogsConfig::default();
    nr_config.license_key = Some("foo".to_owned());
    let http_config = nr_config.create_config().unwrap();

    assert_eq!(http_config.uri, "https://log-api.newrelic.com/log/v1".to_string());
    assert_eq!(http_config.method, Some(HttpMethod::Post));
    assert_eq!(http_config.encoding.serializer, SerializerConfig::Json);
    assert_eq!(http_config.batch.max_bytes, Some(MAX_PAYLOAD_SIZE));
    assert_eq!(http_config.request.tower.concurrency, Concurrency::Unset);
    assert_eq!(http_config.request.tower.rate_limit_num, Some(RATE_LIMIT_NUM_DEFAULT));
    assert_eq!(http_config.request.headers["X-License-Key"], "foo".to_owned());
    assert!(http_config.tls.is_none());
    assert!(http_config.auth.is_none());
}

#[test]
fn new_relic_logs_check_config_custom() {
    let mut batch = BatchConfig::default();
    batch.max_bytes = Some(MAX_PAYLOAD_SIZE);

    let mut request = TowerRequestConfig::default();
    request.concurrency = Concurrency::Fixed(12);
    request.rate_limit_num = Some(24);

    let mut nr_config = NewRelicLogsConfig::default();
    nr_config.insert_key = Some("foo".to_owned());
    nr_config.region = Some(NewRelicLogsRegion::Eu);
    nr_config.batch = batch;
    nr_config.request = request;

    let http_config = nr_config.create_config().unwrap();

    assert_eq!(http_config.uri, "https://log-api.eu.newrelic.com/log/v1".to_string());
    assert_eq!(http_config.method, Some(HttpMethod::Post));
    assert_eq!(http_config.encoding.serializer, SerializerConfig::Json);
    assert_eq!(http_config.batch.max_bytes, Some(MAX_PAYLOAD_SIZE));
    assert_eq!(http_config.request.tower.concurrency, Concurrency::Fixed(12));
    assert_eq!(http_config.request.tower.rate_limit_num, Some(24));
    assert_eq!(http_config.request.headers["X-Insert-Key"], "foo".to_owned());
    assert!(http_config.tls.is_none());
    assert!(http_config.auth.is_none());
}

fn config_from_toml(text: &str) -> NewRelicLogsConfig {
    let parsed: toml::Value = toml::from_str(text).unwrap();
    let mut nr_config = NewRelicLogsConfig::default();
    if let Some(k) = parsed.get("license_key") {
        nr_config.license_key = Some(k.as_str().unwrap().to_owned());
    }
    if let Some(k) = parsed.get("insert_key") {
        nr_config.insert_key = Some(k.as_str().unwrap().to_owned());
    }
    if let Some(region) = parsed.get("region") {
        nr_config.region = Some(match region.as_str().unwrap() {
            "us" => NewRelicLogsRegion::Us,
            "eu" => NewRelicLogsRegion::Eu,
            other => panic!("unknown region {}", other),
        });
    }
    if let Some(batch) = parsed.get("batch") {
        if let Some(b) = batch.get("max_bytes") {
            nr_config.batch.max_bytes = Some(b.as_integer().unwrap() as usize);
        }
    }
    if let Some(request) = parsed.get("request") {
        if let Some(c) = request.get("concurrency") {
            nr_config.request.concurrency = Concurrency::Fixed(c.as_integer().unwrap() as usize);
        }
        if let Some(n) = request.get("rate_limit_num") {
            nr_config.request.rate_limit_num = Some(n.as_integer().unwrap() as u64);
        }
    }
    nr_config
}

#[test]
fn new_relic_logs_check_config_custom_from_toml() {
    let config = r#"
        insert_key = "foo"
        region = "eu"

        [batch]
        max_bytes = 838860

        [request]
        concurrency = 12
        rate_limit_num = 24
    "#;
    let nr_config = config_from_toml(config);

    let http_config = nr_config.create_config().unwrap();

    assert_eq!(http_config.uri, "https://log-api.eu.newrelic.com/log/v1".to_string());
    assert_eq!(http_config.method, Some(HttpMethod::Post));
    assert_eq!(http_config.encoding.serializer, SerializerConfig::Json);
    assert_eq!(http_config.batch.max_bytes, Some(838860));
    assert_eq!(http_config.request.tower.concurrency, Concurrency::Fixed(12));
    assert_eq!(http_config.request.tower.rate_limit_num, Some(24));
    assert_eq!(http_config.request.headers["X-Insert-Key"], "foo".to_owned());
    assert!(http_config.tls.is_none());
    assert!(http_config.auth.is_none());
}

#[test]
#[should_panic]
fn new_relic_logs_check_config_custom_from_toml_batch_max_size_too_high() {
    let config = r#"
        insert_key = "foo"
        region = "eu"

        [batch]
        max_bytes = 8388600

        [request]
        concurrency = 12
        rate_limit_num = 24
    "#;
    let nr_config = config_from_toml(config);

    nr_config.create_config().unwrap();
}

#[test]
fn default_data_dir_is_set() {
    assert!(vector_core::default_data_dir().is_some());
}

#[test]
fn sink_metadata_accessors() {
    let nr_config = NewRelicLogsConfig::default();
    assert_eq!(nr_config.sink_type(), "new_relic_logs");
    assert_eq!(nr_config.input().ty, vector_core::config::DataType::Log);
    assert_eq!(nr_config.acknowledgements().enabled, None);
    assert_eq!(nr_config.compression, Compression::Uncompressed);
}
