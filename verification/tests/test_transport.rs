use squirrel::syncer::config::RemoteServerConfig;
use squirrel::syncer::transport::{NextStep, RsyncTransport};

fn server(port: u16, key: &str, path: &str) -> RemoteServerConfig {
    RemoteServerConfig {
        address: "example.com".to_string(),
        port,
        username: "testuser".to_string(),
        private_key_path: key.to_string(),
        remote_path: path.to_string(),
    }
}

#[test]
fn test_command_construction() {
    let remote_config = RemoteServerConfig {
        address: "192.168.1.100".to_string(),
        port: 2222,
        username: "admin".to_string(),
        private_key_path: "/home/user/.ssh/test_key".to_string(),
        remote_path: "/remote/data".to_string(),
    };
    assert_eq!(remote_config.address, "192.168.1.100");
    assert_eq!(remote_config.port, 2222);
    assert_eq!(remote_config.username, "admin");

    let command = RsyncTransport::new().sync_command("/data/exports/table_a", &remote_config);
    assert_eq!(command.program, "rsync");
    assert_eq!(
        command.arguments,
        vec![
            "-avz",
            "--progress",
            "--partial",
            "--timeout=3000",
            "--bwlimit=2048",
            "-e",
            "ssh -p 2222 -i /home/user/.ssh/test_key -o ConnectTimeout=30 -o ServerAliveInterval=60 -o ServerAliveCountMax=3 -o TCPKeepAlive=yes",
            "/data/exports/table_a/",
            "admin@192.168.1.100:/remote/data",
        ]
    );
}

#[test]
fn test_ssh_options_format() {
    let remote_config = server(2222, "/home/user/.ssh/custom_key", "/remote/path");
    let options = RsyncTransport::ssh_options(remote_config.port, &remote_config.private_key_path);
    let expected_start =
        format!("ssh -p {} -i {}", remote_config.port, remote_config.private_key_path);
    assert!(options.starts_with(&expected_start));
    assert!(options.contains("-p 2222"));
    assert!(options.contains("-i /home/user/.ssh/custom_key"));
    assert!(RsyncTransport::ssh_options(0, "k").starts_with("ssh -p 0 -i k -o"));
    assert!(RsyncTransport::ssh_options(65535, "k").starts_with("ssh -p 65535 -i k -o"));
}

#[test]
fn test_path_with_spaces() {
    let remote_config = server(22, "/key/path", "/remote/path with spaces");
    let command =
        RsyncTransport::new().sync_command("/tmp/test dir with spaces", &remote_config);
    assert_eq!(command.arguments[7], "/tmp/test dir with spaces/");
    assert_eq!(command.arguments[8], "testuser@example.com:/remote/path with spaces");
}

#[test]
fn test_directory_trailing_slash() {
    let command = RsyncTransport::new().sync_command("/tmp/x", &server(22, "/k", "/r"));
    assert!(command.arguments[7].ends_with('/'), "Source path should end with /");
}

#[test]
fn test_retry_configuration() {
    let transport = RsyncTransport::new();
    assert_eq!((transport.max_retries, transport.initial_retry_delay), (5, 5));
    assert_eq!(RsyncTransport::default(), transport);
    let custom = RsyncTransport::with_retry_config(2, 30);
    assert_eq!((custom.max_retries, custom.initial_retry_delay), (2, 30));
}

#[test]
fn test_retry_delays_double() {
    let transport = RsyncTransport::new();
    let delays: Vec<Option<u64>> = (1..=5).map(|attempt| transport.retry_delay(attempt)).collect();
    assert_eq!(delays, vec![Some(5), Some(10), Some(20), Some(40), Some(80)]);
    assert_eq!(RsyncTransport::with_retry_config(70, 1).retry_delay(64), Some(1u64 << 63));
    assert_eq!(RsyncTransport::with_retry_config(70, 1).retry_delay(65), None);
    assert_eq!(RsyncTransport::with_retry_config(70, 3).retry_delay(64), None);
    assert_eq!(RsyncTransport::with_retry_config(70, 0).retry_delay(70), Some(0));
}

#[test]
fn test_steps_after_an_attempt() {
    let transport = RsyncTransport::new();
    assert_eq!(transport.after_attempt(0, true), NextStep::Done);
    assert_eq!(transport.after_attempt(3, true), NextStep::Done);
    assert_eq!(transport.after_attempt(0, false), NextStep::Retry { attempt: 1, delay_seconds: 5 });
    assert_eq!(transport.after_attempt(4, false), NextStep::Retry { attempt: 5, delay_seconds: 80 });
    assert_eq!(transport.after_attempt(5, false), NextStep::GiveUp);
    // Six attempts in all: the first and five retries.
    let mut attempt = 0;
    let mut made = 1;
    let mut waited = 0;
    while let NextStep::Retry { attempt: next, delay_seconds } = transport.after_attempt(attempt, false) {
        attempt = next;
        made += 1;
        waited += delay_seconds;
    }
    assert_eq!((made, waited), (6, 155));
    assert_eq!(RsyncTransport::with_retry_config(0, 5).after_attempt(0, false), NextStep::GiveUp);
}
