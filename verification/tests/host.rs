use cloud_init::configuration::{
    CloudConfiguration, HostConfiguration, ProviderConfiguration, UserConfiguration,
    UserSSHConfiguration,
};
use cloud_init::host::{cloud_init, ssh_hostkey_path, user_home, HostAction, HostError};
use cloud_init::provider::CloudInstance;

fn user(keys: &[&str]) -> UserConfiguration {
    UserConfiguration {
        ssh: UserSSHConfiguration {
            authorized_keys: keys.iter().map(|key| key.to_string()).collect(),
        },
    }
}

fn configuration(users: Vec<(&str, UserConfiguration)>) -> CloudConfiguration {
    CloudConfiguration {
        provider: ProviderConfiguration { exoscale: None },
        host: HostConfiguration {
            user: users
                .into_iter()
                .map(|(name, user)| (name.to_string(), user))
                .collect(),
        },
    }
}

fn instance(hostname: &str) -> CloudInstance {
    CloudInstance {
        hostname: hostname.to_string(),
        ..CloudInstance::default()
    }
}

fn head(hostname: &str) -> Vec<HostAction> {
    vec![
        HostAction::SetHostname(hostname.to_string()),
        HostAction::EnsureDirectory("/var/lib/ssh".to_string()),
        HostAction::EnsureSshHostKey {
            algorithm: "ed25519".to_string(),
            path: "/var/lib/ssh/ssh_host_ed25519_key".to_string(),
        },
    ]
}

#[test]
fn user_home_of_root_is_slash_root() {
    assert_eq!(user_home("root".to_string()), "/root");
}

#[test]
fn user_home_of_others_is_under_home() {
    assert_eq!(user_home("alice".to_string()), "/home/alice");
    assert_eq!(user_home("".to_string()), "/home/");
    assert_eq!(user_home("Root".to_string()), "/home/Root");
}

#[test]
fn hostkey_path_names_the_algorithm() {
    assert_eq!(ssh_hostkey_path("ed25519"), "/var/lib/ssh/ssh_host_ed25519_key");
    assert_eq!(ssh_hostkey_path("rsa"), "/var/lib/ssh/ssh_host_rsa_key");
}

#[test]
fn plan_without_users_sets_name_and_host_key() {
    let actions = cloud_init(&configuration(vec![]), &instance("node-1"));
    assert_eq!(actions, head("node-1"));
}

#[test]
fn plan_writes_one_key_as_it_is() {
    let actions = cloud_init(
        &configuration(vec![("alice", user(&["ssh-ed25519 AAAA alice"]))]),
        &instance("node-1"),
    );
    let mut expected = head("node-1");
    expected.push(HostAction::EnsureDirectory("/home/alice/.ssh".to_string()));
    expected.push(HostAction::EnsureFile {
        path: "/home/alice/.ssh/authorized_keys".to_string(),
        content: "ssh-ed25519 AAAA alice".to_string(),
    });
    assert_eq!(actions, expected);
}

#[test]
fn plan_joins_keys_with_newlines_and_skips_users_without_keys() {
    let actions = cloud_init(
        &configuration(vec![
            ("bob", user(&[])),
            ("root", user(&["k1", "k2", "k3"])),
            ("carol", user(&["k4"])),
        ]),
        &instance("h"),
    );
    let mut expected = head("h");
    expected.push(HostAction::EnsureDirectory("/root/.ssh".to_string()));
    expected.push(HostAction::EnsureFile {
        path: "/root/.ssh/authorized_keys".to_string(),
        content: "k1\nk2\nk3".to_string(),
    });
    expected.push(HostAction::EnsureDirectory("/home/carol/.ssh".to_string()));
    expected.push(HostAction::EnsureFile {
        path: "/home/carol/.ssh/authorized_keys".to_string(),
        content: "k4".to_string(),
    });
    assert_eq!(actions, expected);
}

#[test]
fn failure_of_the_host_name_or_the_host_key_is_passed_over() {
    let action = HostAction::SetHostname("h".to_string());
    assert!(action.settle(Err(HostError::HostnameError)).is_ok());
    assert!(action.settle(Ok(())).is_ok());
    let key = HostAction::EnsureSshHostKey {
        algorithm: "ed25519".to_string(),
        path: "/p".to_string(),
    };
    assert!(key.settle(Err(HostError::SSHSetupError)).is_ok());
}

#[test]
fn failure_to_write_is_passed_over_too() {
    let denied = || HostError::from(std::io::Error::new(std::io::ErrorKind::PermissionDenied, "denied"));
    let directory = HostAction::EnsureDirectory("/d".to_string());
    assert!(directory.settle(Err(denied())).is_ok());
    assert!(directory.settle(Ok(())).is_ok());
    let file = HostAction::EnsureFile {
        path: "/f".to_string(),
        content: String::new(),
    };
    assert!(file.settle(Err(denied())).is_ok());
    assert!(file.settle(Ok(())).is_ok());
}

#[test]
fn every_user_is_attempted_when_the_first_one_fails() {
    let actions = cloud_init(
        &configuration(vec![("alice", user(&["k1"])), ("bob", user(&["k2"]))]),
        &instance("h"),
    );
    let mut attempted = Vec::new();
    for action in &actions {
        let outcome = match action {
            HostAction::EnsureDirectory(path) if path == "/home/alice/.ssh" => Err(HostError::from(
                std::io::Error::new(std::io::ErrorKind::PermissionDenied, "denied"),
            )),
            _ => Ok(()),
        };
        attempted.push(action);
        assert!(action.settle(outcome).is_ok());
    }
    assert_eq!(attempted.len(), 7);
    assert_eq!(
        attempted[6],
        &HostAction::EnsureFile {
            path: "/home/bob/.ssh/authorized_keys".to_string(),
            content: "k2".to_string(),
        }
    );
}

#[test]
fn io_error_becomes_a_host_error() {
    let error = std::io::Error::new(std::io::ErrorKind::NotFound, "missing");
    assert!(matches!(HostError::from(error), HostError::IOError(_)));
}
