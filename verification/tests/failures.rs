use metasearch::errors::{EngineError, EngineErrorType, NetworkError};

#[test]
fn timeout_names_the_host() {
    let e = NetworkError::from_transport(true, "www.bing.com".to_string(), "timed out".to_string());
    assert_eq!(e, NetworkError::ConnectionTimeout("www.bing.com".to_string()));
}

#[test]
fn other_transport_failures_keep_their_message() {
    let e = NetworkError::from_transport(false, "www.bing.com".to_string(), "dns error".to_string());
    assert_eq!(e, NetworkError::Unknown("dns error".to_string()));
}

#[test]
fn network_failure_is_wrapped() {
    let inner = NetworkError::ProxyError("socks5://127.0.0.1:9050".to_string());
    assert_eq!(EngineErrorType::from_network(inner.clone()), EngineErrorType::Network(inner));
}

#[test]
fn messages() {
    assert_eq!(
        NetworkError::ProxyError("p".to_string()).message(),
        "Could not connect to proxy: p"
    );
    assert_eq!(
        NetworkError::ConnectionTimeout("h".to_string()).message(),
        "Request to h has timed out."
    );
    assert_eq!(NetworkError::Unknown("m".to_string()).message(), "Unknown error occured: m");
    assert_eq!(EngineErrorType::ParseFailed.message(), "Failed to parse");
    assert_eq!(EngineErrorType::Ratelimited.message(), "Ratelimited by upstream engine");
    assert_eq!(EngineErrorType::NoResults.message(), "No results returned for query");
    assert_eq!(EngineErrorType::ExecFailed.message(), "Failed to spawn search task");
    assert_eq!(EngineErrorType::Unknown("m".to_string()).message(), "Unknown error occured: m");
    assert_eq!(
        EngineErrorType::Network(NetworkError::Unknown("m".to_string())).message(),
        "Network error occured"
    );
    let e = EngineError { engine: "Bing".to_string(), source: EngineErrorType::NoResults };
    assert_eq!(e.message(), "`engine` failed to fetch results");
}
