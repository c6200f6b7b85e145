use cache_server::configuration::{AuthServer, Cache, Config, ConfigLoadError, GRPCServer, HttpServer};

fn full_file() -> String {
    String::from(
        "[http]\nhost = \"127.0.0.1\"\nport = 8080\n\n[grpc]\nhost = \"[::1]\"\nport = 9090\n\n[auth]\nenable = true\nurl = \"http://auth:5000\"\ntoken = \"x-token\"\n\n[cache]\nsize = 64\n",
    )
}

fn pair(k: &str, v: &str) -> (String, String) {
    (k.to_string(), v.to_string())
}

#[test]
fn http_server_default() {
    let s = HttpServer::default();
    assert_eq!(s.host, "0.0.0.0");
    assert_eq!(s.port, 1337);
}

#[test]
fn grpc_server_default() {
    let s = GRPCServer::default();
    assert_eq!(s.host, "[::1]");
    assert_eq!(s.port, 1338);
}

#[test]
fn auth_server_default() {
    let s = AuthServer::default();
    assert!(!s.enable);
    assert_eq!(s.url, "http://auth");
    assert_eq!(s.token, "");
}

#[test]
fn cache_default_is_128_megabytes() {
    assert_eq!(Cache::default().size, 128);
}

#[test]
fn config_default_gathers_section_defaults() {
    let c = Config::default();
    assert_eq!(c.http.host, "0.0.0.0");
    assert_eq!(c.http.port, 1337);
    assert_eq!(c.grpc.host, "[::1]");
    assert_eq!(c.grpc.port, 1338);
    assert!(!c.auth.enable);
    assert_eq!(c.auth.url, "http://auth");
    assert_eq!(c.auth.token, "");
    assert_eq!(c.cache.size, 128);
}

#[test]
fn grpc_address_joins_host_and_port() {
    assert_eq!(GRPCServer::default().address(), "[::1]:1338");
    let s = GRPCServer { host: String::from("10.0.0.2"), port: 0 };
    assert_eq!(s.address(), "10.0.0.2:0");
    let s = GRPCServer { host: String::from("h"), port: 65535 };
    assert_eq!(s.address(), "h:65535");
}

#[test]
fn loads_every_field_from_the_file() {
    let c = match Config::new(Some(full_file()), Vec::new()) {
        Ok(c) => c,
        Err(e) => panic!("{}", e.context()),
    };
    assert_eq!(c.http.host, "127.0.0.1");
    assert_eq!(c.http.port, 8080);
    assert_eq!(c.grpc.host, "[::1]");
    assert_eq!(c.grpc.port, 9090);
    assert!(c.auth.enable);
    assert_eq!(c.auth.url, "http://auth:5000");
    assert_eq!(c.auth.token, "x-token");
    assert_eq!(c.cache.size, 64);
}

#[test]
fn environment_overrides_the_file() {
    let env = vec![
        pair("CACHE_SERVER_HTTP_PORT", "9999"),
        pair("CACHE_SERVER_AUTH_ENABLE", "false"),
        pair("OTHER_HTTP_PORT", "1"),
    ];
    let c = match Config::new(Some(full_file()), env) {
        Ok(c) => c,
        Err(e) => panic!("{}", e.context()),
    };
    assert_eq!(c.http.port, 9999);
    assert!(!c.auth.enable);
    assert_eq!(c.grpc.port, 9090);
}

#[test]
fn loads_every_field_from_the_environment() {
    let env = vec![
        pair("CACHE_SERVER_HTTP_HOST", "0.0.0.0"),
        pair("CACHE_SERVER_HTTP_PORT", "1337"),
        pair("CACHE_SERVER_GRPC_HOST", "localhost"),
        pair("CACHE_SERVER_GRPC_PORT", "1338"),
        pair("CACHE_SERVER_AUTH_ENABLE", "TRUE"),
        pair("CACHE_SERVER_AUTH_URL", "http://auth"),
        pair("CACHE_SERVER_AUTH_TOKEN", "session"),
        pair("CACHE_SERVER_CACHE_SIZE", "256"),
    ];
    let c = match Config::new(None, env) {
        Ok(c) => c,
        Err(e) => panic!("{}", e.context()),
    };
    assert_eq!(c.http.host, "0.0.0.0");
    assert_eq!(c.http.port, 1337);
    assert_eq!(c.grpc.host, "localhost");
    assert_eq!(c.grpc.port, 1338);
    assert!(c.auth.enable);
    assert_eq!(c.auth.url, "http://auth");
    assert_eq!(c.auth.token, "session");
    assert_eq!(c.cache.size, 256);
}

#[test]
fn missing_field_is_a_deserialize_error() {
    let file = String::from("[http]\nhost = \"a\"\nport = 1\n");
    match Config::new(Some(file), Vec::new()) {
        Err(e @ ConfigLoadError::Deserialize(_)) => {
            assert_eq!(e.context(), "Unable to deserialize configuration")
        }
        Err(_) => panic!("expected a deserialize error"),
        Ok(_) => panic!("expected an error"),
    }
}

#[test]
fn nothing_given_is_a_deserialize_error() {
    assert!(matches!(Config::new(None, Vec::new()), Err(ConfigLoadError::Deserialize(_))));
}

#[test]
fn wrong_type_is_a_deserialize_error() {
    let file = full_file().replace("port = 8080", "port = \"eighty\"");
    assert!(matches!(Config::new(Some(file), Vec::new()), Err(ConfigLoadError::Deserialize(_))));
}

#[test]
fn malformed_file_is_a_build_error() {
    match Config::new(Some(String::from("[http\nhost = ")), Vec::new()) {
        Err(e @ ConfigLoadError::Build(_)) => assert_eq!(e.context(), "Unable to build configuration"),
        Err(_) => panic!("expected a build error"),
        Ok(_) => panic!("expected an error"),
    }
}

#[test]
fn negative_index_in_an_environment_name_is_refused() {
    let env = vec![pair("CACHE_SERVER_X[-1]", "1")];
    match Config::new(Some(full_file()), env) {
        Err(e @ ConfigLoadError::UnsupportedKey) => assert_eq!(
            e.context(),
            "Unable to read a configuration key with a negative or too large array index"
        ),
        Err(_) => panic!("expected an unsupported key"),
        Ok(_) => panic!("expected an error"),
    }
    let env = vec![pair("cache_server_x[ -2 ]", "1")];
    assert!(matches!(Config::new(Some(full_file()), env), Err(ConfigLoadError::UnsupportedKey)));
    let env = vec![pair("CACHE_SERVER_X[70000]", "1")];
    assert!(matches!(Config::new(Some(full_file()), env), Err(ConfigLoadError::UnsupportedKey)));
}

#[test]
fn harmless_indices_and_other_names_are_read() {
    let env = vec![
        pair("CACHE_SERVER_X[0]", "1"),
        pair("CACHE_SERVER_Y[-0]", "1"),
        pair("\u{c4}[-1]", "1"),
        pair("OTHER_X[-1]", "1"),
        pair("CACHE_SERVER_Z[-1", "1"),
        pair("CACHE_SERVER_W[99999999999999999999999]", "1"),
    ];
    let c = match Config::new(Some(full_file()), env) {
        Ok(c) => c,
        Err(e) => panic!("{}", e.context()),
    };
    assert_eq!(c.http.port, 8080);
}

#[test]
fn negative_index_in_a_quoted_file_key_is_refused() {
    let file = format!("\"x[-1]\" = 1\n{}", full_file());
    assert!(matches!(Config::new(Some(file), Vec::new()), Err(ConfigLoadError::UnsupportedKey)));
    let file = format!("{}\n[\"a[-2]\"]\nb = 1\n", full_file());
    assert!(matches!(Config::new(Some(file), Vec::new()), Err(ConfigLoadError::UnsupportedKey)));
}

#[test]
fn quotes_comments_and_positive_indices_in_the_file_are_read() {
    let file = format!(
        "# it's the server's file\n\"a\" = 1\n\"x[3]\" = 2\nlist = [\n  \"one\",\n  \"two\",\n]\n{}",
        full_file()
    );
    let c = match Config::new(Some(file), Vec::new()) {
        Ok(c) => c,
        Err(e) => panic!("{}", e.context()),
    };
    assert_eq!(c.cache.size, 64);
}

#[test]
fn malformed_file_with_a_bad_variable_is_a_build_error() {
    let env = vec![pair("CACHE_SERVER_X[-1]", "1")];
    assert!(matches!(Config::new(Some(String::from("[http\n")), env), Err(ConfigLoadError::Build(_))));
}

#[test]
fn brackets_in_values_are_read() {
    let file = full_file().replace("host = \"127.0.0.1\"", "host = \"[::]\"");
    let c = match Config::new(Some(file), Vec::new()) {
        Ok(c) => c,
        Err(e) => panic!("{}", e.context()),
    };
    assert_eq!(c.http.host, "[::]");
    assert_eq!(c.grpc.host, "[::1]");
}

#[test]
fn assemble_reports_the_merge_first_then_the_first_failed_field() {
    let ok = || Ok::<(), config::ConfigError>(());
    let text = |s: &str| Ok::<String, config::ConfigError>(s.to_string());
    let c = Config::assemble(ok(), text("h"), Ok(1), text("g"), Ok(2), Ok(true), text("u"), text("t"), Ok(3)).unwrap();
    assert_eq!((c.http.host.as_str(), c.http.port, c.grpc.host.as_str(), c.grpc.port), ("h", 1, "g", 2));
    assert!(c.auth.enable);
    assert_eq!((c.auth.url.as_str(), c.auth.token.as_str(), c.cache.size), ("u", "t", 3));
    let missing = || Err(config::ConfigError::NotFound(String::from("grpc.port")));
    let r = Config::assemble(ok(), text("h"), Ok(1), text("g"), missing(), Ok(true), text("u"), text("t"), Ok(3));
    match r {
        Err(ConfigLoadError::Deserialize(config::ConfigError::NotFound(k))) => assert_eq!(k, "grpc.port"),
        _ => panic!("expected the grpc.port error"),
    }
    let r = Config::assemble(
        Err(config::ConfigError::Message(String::from("merge"))),
        text("h"),
        missing(),
        text("g"),
        Ok(2),
        Ok(true),
        text("u"),
        text("t"),
        Ok(3),
    );
    assert!(matches!(r, Err(ConfigLoadError::Build(config::ConfigError::Message(_)))));
}

#[test]
fn config_is_printable() {
    assert!(format!("{:?}", Config::default()).contains("1337"));
}
