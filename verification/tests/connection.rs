use konnect::models::{Connection, ConnectionType, SshAuth, SshConfig};

fn is_hyphenated_v4(id: &str) -> bool {
    let chars: Vec<char> = id.chars().collect();
    chars.len() == 36
        && chars[14] == '4'
        && chars.iter().enumerate().all(|(i, c)| {
            if i == 8 || i == 13 || i == 18 || i == 23 {
                *c == '-'
            } else {
                c.is_ascii_digit() || ('a'..='f').contains(c)
            }
        })
}

#[test]
fn new_local_has_a_fresh_id_and_no_remote_host() {
    let profile = Connection::new_local("dev shell".to_string());
    assert_eq!(profile.name, "dev shell");
    assert_eq!(profile.connection_type, ConnectionType::Local);
    assert!(profile.ssh_config.is_none());
    assert!(is_hyphenated_v4(&profile.id));
}

#[test]
fn new_ssh_keeps_the_remote_host() {
    let profile = Connection::new_ssh(
        "prod".to_string(),
        SshConfig {
            host: "10.0.0.7".to_string(),
            port: 2222,
            username: "root".to_string(),
            auth: SshAuth::PublicKey {
                private_key_path: "/home/me/.ssh/id".to_string(),
                passphrase: None,
            },
        },
    );
    assert_eq!(profile.name, "prod");
    assert_eq!(profile.connection_type, ConnectionType::Ssh);
    assert!(is_hyphenated_v4(&profile.id));
    let remote = profile.ssh_config.expect("remote profile");
    assert_eq!(remote.host, "10.0.0.7");
    assert_eq!(remote.port, 2222);
    assert_eq!(remote.username, "root");
    match remote.auth {
        SshAuth::PublicKey { private_key_path, passphrase } => {
            assert_eq!(private_key_path, "/home/me/.ssh/id");
            assert_eq!(passphrase, None);
        }
        SshAuth::Password(_) => panic!("the key credential was replaced"),
    }
}

#[test]
fn fresh_ids_differ() {
    let a = Connection::new_local("a".to_string());
    let b = Connection::new_local("a".to_string());
    assert_ne!(a.id, b.id);
}

#[test]
fn profiles_under_a_given_id() {
    let local = Connection::local("id-1".to_string(), "one".to_string());
    assert_eq!(local.id, "id-1");
    assert_eq!(local.connection_type, ConnectionType::Local);
    let remote = Connection::ssh(
        "id-2".to_string(),
        "two".to_string(),
        SshConfig {
            host: "h".to_string(),
            port: 22,
            username: "u".to_string(),
            auth: SshAuth::Password("p".to_string()),
        },
    );
    assert_eq!(remote.id, "id-2");
    assert_eq!(remote.connection_type, ConnectionType::Ssh);
}

#[test]
fn clone_keeps_every_field() {
    let profile = Connection::ssh(
        "id".to_string(),
        "name".to_string(),
        SshConfig {
            host: "h".to_string(),
            port: 8022,
            username: "u".to_string(),
            auth: SshAuth::PublicKey {
                private_key_path: "k".to_string(),
                passphrase: Some("s".to_string()),
            },
        },
    );
    let copy = profile.clone();
    assert_eq!(copy.id, "id");
    assert_eq!(copy.name, "name");
    let remote = copy.ssh_config.expect("remote profile");
    assert_eq!(remote.port, 8022);
    match remote.auth {
        SshAuth::PublicKey { private_key_path, passphrase } => {
            assert_eq!(private_key_path, "k");
            assert_eq!(passphrase, Some("s".to_string()));
        }
        SshAuth::Password(_) => panic!("the key credential was replaced"),
    }
}
