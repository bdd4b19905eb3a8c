use rshare::dirs::config::{
    add_server, get_config_path, get_default_server, join_path, list_servers, remove_server,
    Config, ServerConfig,
};
use rshare::dirs::keys::{
    generate_keys, get_default_keys_dir, get_public_key_fingerprint_from, keys_from_seed,
    load_keys_from, private_key_path, public_key_path, validate_keypair,
};
use rshare::utils::error::ErrorKind;

fn relay(name: &str, default: bool) -> ServerConfig {
    ServerConfig {
        server_name: name.to_string(),
        default,
        server_ip: format!("{}.example", name),
        http_port: 8000,
        socket_port: 10000,
    }
}

fn fresh() -> Config {
    Config::create_config(
        "/home/u/.config/rshare/keys".to_string(),
        Some("/home/u".to_string()),
        Some("192.0.2.7".to_string()),
    )
}

fn names(config: &Config) -> Vec<(String, bool)> {
    config.server.iter().map(|s| (s.server_name.clone(), s.default)).collect()
}

#[test]
fn test_join_path() {
    assert_eq!(join_path("/home/u", "rshare"), "/home/u/rshare");
    assert_eq!(join_path("/home/u/", "rshare"), "/home/u/rshare");
    assert_eq!(join_path("", "rshare"), "rshare");
    assert_eq!(join_path("/", "rshare"), "/rshare");
    assert_eq!(join_path(".", "rshare"), "./rshare");
}

#[test]
fn test_create_config() {
    let config = fresh();
    assert_eq!(config.path.keys_path, "/home/u/.config/rshare/keys");
    assert_eq!(config.path.download_path, "/home/u/rshare/downloads");
    assert_eq!(config.server.len(), 1);
    assert_eq!(config.server[0].server_name, "my_server");
    assert!(config.server[0].default);
    assert_eq!(config.server[0].server_ip, "192.0.2.7");
    assert_eq!(config.server[0].http_port, 8080);
    assert_eq!(config.server[0].socket_port, 10000);

    let config = Config::create_config("keys".to_string(), None, None);
    assert_eq!(config.path.download_path, "./rshare/downloads");
    assert_eq!(config.server[0].server_ip, "127.0.0.1");
}

#[test]
fn test_paths_under_home() {
    assert_eq!(get_config_path(Some("/home/u")).unwrap(), "/home/u/.rshare/config.toml");
    let error = get_config_path(None).unwrap_err();
    assert_eq!(error.kind(), ErrorKind::FileError);
    assert_eq!(error.message(), "Could not find home directory");

    assert_eq!(get_default_keys_dir(Some("/home/u")).unwrap(), "/home/u/.config/rshare/keys");
    let error = get_default_keys_dir(None).unwrap_err();
    assert_eq!(error.kind(), ErrorKind::ConfigError);
    assert_eq!(error.message(), "Could not determine home directory");

    assert_eq!(private_key_path("/k"), "/k/private.key");
    assert_eq!(public_key_path("/k"), "/k/public.key");
}

#[test]
fn test_select_server() {
    let mut config = fresh();
    add_server(&mut config, &relay("office", false)).unwrap();
    add_server(&mut config, &relay("home", false)).unwrap();

    let selected = config.select_server(Some("home".to_string())).unwrap();
    assert_eq!(selected.server_name, "home");
    assert_eq!(selected.server_ip, "home.example");
    assert_eq!(selected.http_port, 8000);

    let selected = config.select_server(None).unwrap();
    assert_eq!(selected.server_name, "my_server");
    assert_eq!(get_default_server(&config).unwrap().server_name, "my_server");

    let error = config.select_server(Some("nowhere".to_string())).unwrap_err();
    assert_eq!(error.kind(), ErrorKind::InvalidInput);
    assert_eq!(error.message(), "Relay server 'nowhere' not found in config");

    let mut config = fresh();
    config.server[0].default = false;
    let error = config.select_server(None).unwrap_err();
    assert_eq!(error.kind(), ErrorKind::InvalidInput);
    assert_eq!(error.message(), "No default server in config");
    let error = get_default_server(&config).unwrap_err();
    assert_eq!(error.kind(), ErrorKind::InvalidInput);
    assert_eq!(error.message(), "No default server found");
}

#[test]
fn test_select_server_takes_the_first() {
    let mut config = fresh();
    config.server.push(relay("twin", false));
    let mut second = relay("twin", true);
    second.server_ip = "second.example".to_string();
    config.server.push(second);
    assert_eq!(
        config.select_server(Some("twin".to_string())).unwrap().server_ip,
        "twin.example"
    );
    assert_eq!(config.select_server(None).unwrap().server_name, "my_server");
}

#[test]
fn test_add_server() {
    let mut config = fresh();
    add_server(&mut config, &relay("office", false)).unwrap();
    assert_eq!(
        names(&config),
        vec![("my_server".to_string(), true), ("office".to_string(), false)]
    );

    // A new default takes the role from all others.
    add_server(&mut config, &relay("home", true)).unwrap();
    assert_eq!(
        names(&config),
        vec![
            ("my_server".to_string(), false),
            ("office".to_string(), false),
            ("home".to_string(), true)
        ]
    );
    assert_eq!(config.select_server(None).unwrap().server_name, "home");
    assert_eq!(config.server[0].server_ip, "192.0.2.7");
    assert_eq!(config.path.download_path, "/home/u/rshare/downloads");

    // A name that is taken is refused and nothing changes.
    let error = add_server(&mut config, &relay("office", true)).unwrap_err();
    assert_eq!(error.kind(), ErrorKind::InvalidInput);
    assert_eq!(error.message(), "Server 'office' already exists");
    assert_eq!(names(&config).len(), 3);
    assert!(config.server[2].default);
}

#[test]
fn test_list_servers() {
    let mut config = fresh();
    add_server(&mut config, &relay("office", false)).unwrap();
    let listed = list_servers(&config).unwrap();
    assert_eq!(listed.len(), 2);
    assert_eq!(listed[0].server_name, "my_server");
    assert_eq!(listed[1].server_name, "office");
    assert_eq!(listed[1].server_ip, "office.example");
    assert!(list_servers(&Config { path: config.path.clone(), server: Vec::new() })
        .unwrap()
        .is_empty());
}

#[test]
fn test_remove_server() {
    let mut config = fresh();
    add_server(&mut config, &relay("office", false)).unwrap();
    add_server(&mut config, &relay("home", false)).unwrap();

    let removed = remove_server(&mut config, "office".to_string()).unwrap();
    assert_eq!(removed.server_name, "office");
    assert_eq!(removed.server_ip, "office.example");
    assert_eq!(
        names(&config),
        vec![("my_server".to_string(), true), ("home".to_string(), false)]
    );

    let error = remove_server(&mut config, "office".to_string()).unwrap_err();
    assert_eq!(error.kind(), ErrorKind::InvalidInput);
    assert_eq!(error.message(), "Server not found");

    let error = remove_server(&mut config, "my_server".to_string()).unwrap_err();
    assert_eq!(error.kind(), ErrorKind::InvalidInput);
    assert_eq!(error.message(), "Cannot remove default server");
    assert_eq!(names(&config).len(), 2);
}

#[test]
fn test_remove_server_removes_every_twin() {
    let mut config = fresh();
    config.server.push(relay("twin", false));
    config.server.push(relay("other", false));
    config.server.push(relay("twin", false));
    let removed = remove_server(&mut config, "twin".to_string()).unwrap();
    assert_eq!(removed.server_name, "twin");
    assert_eq!(
        names(&config),
        vec![("my_server".to_string(), true), ("other".to_string(), false)]
    );
}

#[test]
fn test_generate_and_validate_keys() {
    let (signing_key, verifying_key) = generate_keys().unwrap();
    assert_eq!(signing_key.verifying_key().to_bytes(), verifying_key.to_bytes());
    assert!(validate_keypair(&signing_key, &verifying_key).is_ok());

    let (other_key, other_public) = generate_keys().unwrap();
    assert_ne!(other_key.to_bytes(), signing_key.to_bytes());
    let error = validate_keypair(&signing_key, &other_public).unwrap_err();
    assert_eq!(error.kind(), ErrorKind::CryptoError);
    assert_eq!(error.message(), "Keypair mismatched and invalid");
}

#[test]
fn test_keys_from_seed() {
    let (signing_key, verifying_key) = keys_from_seed(&[5u8; 32]).unwrap();
    assert_eq!(signing_key.to_bytes(), [5u8; 32]);
    assert_eq!(
        verifying_key.to_bytes(),
        ed25519_dalek::SigningKey::from_bytes(&[5u8; 32]).verifying_key().to_bytes()
    );
}

#[test]
fn test_load_keys() {
    let (signing_key, verifying_key) = keys_from_seed(&[5u8; 32]).unwrap();
    let private = signing_key.to_bytes();
    let public = verifying_key.to_bytes();

    let (loaded_key, loaded_public) = load_keys_from(&private, &public).unwrap();
    assert_eq!(loaded_key.to_bytes(), private);
    assert_eq!(loaded_public.to_bytes(), public);

    let error = load_keys_from(&private[..31], &public).err().unwrap();
    assert_eq!(error.kind(), ErrorKind::InvalidInput);
    assert_eq!(error.message(), "Invalid private key size");
    let error = load_keys_from(&private, &[public.as_slice(), &[0u8]].concat()).err().unwrap();
    assert_eq!(error.kind(), ErrorKind::InvalidInput);
    assert_eq!(error.message(), "Invalid public key size");

    let mut no_point = None;
    for first in 0..=255u8 {
        let mut bytes = [0x5Au8; 32];
        bytes[0] = first;
        if ed25519_dalek::VerifyingKey::from_bytes(&bytes).is_err() {
            no_point = Some(bytes);
            break;
        }
    }
    let error = load_keys_from(&private, &no_point.unwrap()).err().unwrap();
    assert_eq!(error.kind(), ErrorKind::InvalidInput);
    assert_eq!(error.message(), "Invalid public key");
}

#[test]
fn test_short_fingerprint() {
    let (signing_key, verifying_key) = keys_from_seed(&[5u8; 32]).unwrap();
    let short = get_public_key_fingerprint_from(&signing_key.to_bytes(), &verifying_key.to_bytes())
        .unwrap();
    assert_eq!(short.len(), 16);
    assert_eq!(short, &verifying_key.fingerprint()[..16]);
    assert_eq!(short, hex::encode(&verifying_key.to_bytes()[..8]));
    assert!(get_public_key_fingerprint_from(&[0u8; 3], &verifying_key.to_bytes()).is_err());
}
