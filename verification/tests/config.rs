use reverse_proxy::config::{config_path, LogginLevel, Server};
use reverse_proxy::error::{ConfigError, RecordError};
use reverse_proxy::path::format_path;
use reverse_proxy::record::Route;
use reverse_proxy::Config;

fn server() -> Server {
    Server {
        port: "3000".to_string(),
        host: "127.0.0.1".to_string(),
        cors: None,
        logging: Some(LogginLevel::INFO),
    }
}

fn route(path: &str, target: &str) -> Route {
    Route {
        path: path.to_string(),
        target: target.to_string(),
        methods: vec!["GET".to_string()],
        rewrite: None,
        remove_request_headers: None,
        add_response_headers: None,
    }
}

#[test]
fn the_address_is_host_and_port() {
    assert_eq!(server().address(), "127.0.0.1:3000");
    let other = Server {
        port: "".to_string(),
        host: "localhost".to_string(),
        cors: Some("*".to_string()),
        logging: None,
    };
    assert_eq!(other.address(), "localhost:");
}

#[test]
fn the_path_of_the_configuration_is_the_first_argument() {
    let arguments = vec!["proxy".to_string(), "routes.yaml".to_string(), "more".to_string()];
    assert_eq!(config_path(&arguments), "routes.yaml");
}

#[test]
fn the_path_of_the_configuration_has_a_default() {
    assert_eq!(config_path(&vec!["proxy".to_string()]), "config.yaml");
    assert_eq!(config_path(&Vec::new()), "config.yaml");
}

#[test]
fn every_route_is_found_under_its_key() {
    let routes = vec![
        route("/api/users", "http://users:8080"),
        route("/api/orders/", "http://orders:8080"),
        route("health", "http://health:8080"),
        route("/", "http://root:8080"),
    ];
    let config = Config::new(server(), routes).ok().unwrap();
    for (path, target) in [
        ("/api/users", "http://users:8080"),
        ("/api/orders/", "http://orders:8080"),
        ("health", "http://health:8080"),
        ("/", "http://root:8080"),
    ] {
        let key = format_path(path);
        let record = config.lookup(&key).unwrap();
        assert_eq!(record.target, target);
    }
    assert!(config.lookup("/api/orders").is_some());
    assert!(config.lookup("/health").is_some());
    assert_eq!(config.records.len(), 4);
    assert_eq!(config.server, server());
}

#[test]
fn lookup_is_exact() {
    let config = Config::new(server(), vec![route("/api/users", "http://users:8080")]).ok().unwrap();
    assert!(config.lookup("/api/users").is_some());
    assert!(config.lookup("/api/users/").is_none());
    assert!(config.lookup("/api").is_none());
    assert!(config.lookup("/api/users/42").is_none());
    assert!(config.lookup("/API/USERS").is_none());
    assert!(config.lookup("api/users").is_none());
    assert!(config.lookup("").is_none());
}

#[test]
fn no_routes_give_an_empty_table() {
    let config = Config::new(server(), Vec::new()).ok().unwrap();
    assert!(config.records.is_empty());
    assert!(config.lookup("/").is_none());
}

#[test]
fn a_malformed_route_fails_the_whole() {
    let routes = vec![
        route("/a", "http://a"),
        route("/b", "not a url"),
        route("/c", "http://c"),
    ];
    assert_eq!(
        Config::new(server(), routes).err(),
        Some(ConfigError::Route(1, RecordError::InvalidTarget))
    );
}

#[test]
fn an_unknown_method_fails_the_whole() {
    let mut bad = route("/a", "http://a");
    bad.methods = vec!["GET".to_string(), "NOT A METHOD".to_string()];
    assert_eq!(
        Config::new(server(), vec![bad]).err(),
        Some(ConfigError::Route(0, RecordError::InvalidMethod))
    );
}

#[test]
fn two_routes_of_one_key_fail_the_whole() {
    let routes = vec![
        route("/a", "http://a"),
        route("/b", "http://b"),
        route("/a/", "http://other"),
    ];
    assert_eq!(Config::new(server(), routes).err(), Some(ConfigError::DuplicatePath(2)));
}

#[test]
fn the_first_fault_is_reported() {
    let routes = vec![
        route("/a", "http://a"),
        route("a", "http://a"),
        route("/c", "not a url"),
    ];
    assert_eq!(Config::new(server(), routes).err(), Some(ConfigError::DuplicatePath(1)));
    let routes = vec![
        route("/a", "not a url"),
        route("/a", "http://a"),
        route("/a", "http://a"),
    ];
    assert_eq!(
        Config::new(server(), routes).err(),
        Some(ConfigError::Route(0, RecordError::InvalidTarget))
    );
}

#[test]
fn a_route_at_fault_is_no_duplicate() {
    let routes = vec![route("/a", "http://a"), route("/a", "not a url")];
    assert_eq!(
        Config::new(server(), routes).err(),
        Some(ConfigError::Route(1, RecordError::InvalidTarget))
    );
}
