use ec2_cli::remote::{
    choose_instance_name, choose_profile_name, generated_or_fallback, scp_command,
    scp_command_from_quoted, ssh_args, ssh_config_status, ssh_destination,
};
use ec2_cli::{generate_ssh_config_block, parse_paths, ssm_ssh_options, Ec2CliError, SshConfigStatus};

#[test]
fn test_generate_ssh_config() {
    let config = generate_ssh_config_block();
    assert!(config.contains("Host i-*"));
    assert!(config.contains("ProxyCommand"));
    assert!(config.contains("ssm"));
}

#[test]
fn ssm_options_route_through_proxy() {
    let opts = ssm_ssh_options();
    assert!(opts.starts_with("-o 'ProxyCommand=sh -c \"aws ssm start-session --target %h "));
    assert!(opts.ends_with("-o StrictHostKeyChecking=no -o UserKnownHostsFile=/dev/null"));
}

#[test]
fn ssh_config_classification() {
    assert_eq!(ssh_config_status(None), SshConfigStatus::Missing);
    let block = generate_ssh_config_block();
    assert_eq!(ssh_config_status(Some(&block)), SshConfigStatus::Configured);
    assert_eq!(
        ssh_config_status(Some("Host mi-*\n  ProxyCommand aws ssm start-session")),
        SshConfigStatus::Configured
    );
    assert_eq!(
        ssh_config_status(Some("Host i-*\n  User ubuntu\n")),
        SshConfigStatus::NeedsConfiguration
    );
    assert_eq!(ssh_config_status(Some("")), SshConfigStatus::NeedsConfiguration);
    assert_eq!(SshConfigStatus::NeedsConfiguration.label(), "needs configuration");
    assert_eq!(SshConfigStatus::Configured.label(), "configured");
    assert_eq!(SshConfigStatus::Missing.label(), "missing");
}

#[test]
fn parse_paths_upload_and_download() {
    let (local, remote, up) = parse_paths("./a.txt", ":/tmp/a.txt").unwrap();
    assert_eq!((local.as_str(), remote.as_str(), up), ("./a.txt", "/tmp/a.txt", true));
    let (local, remote, up) = parse_paths(":~/logs", "out").unwrap();
    assert_eq!((local.as_str(), remote.as_str(), up), ("out", "~/logs", false));
    let (_, remote, _) = parse_paths("x", ":").unwrap();
    assert_eq!(remote, "");
}

#[test]
fn parse_paths_rejects_both_or_neither_remote() {
    assert!(matches!(parse_paths(":a", ":b"), Err(Ec2CliError::InvalidPath(_))));
    assert!(matches!(parse_paths("a", "b"), Err(Ec2CliError::InvalidPath(_))));
}

#[test]
fn scp_command_quotes_paths() {
    let line = scp_command("my file.txt", "/tmp/it's", "i-0abc", false, true);
    let expected = format!(
        "scp {} 'my file.txt' ec2-user@i-0abc:'/tmp/it'\\''s'",
        ssm_ssh_options()
    );
    assert_eq!(line, expected);
}

#[test]
fn scp_command_download_recursive() {
    let line = scp_command("out", "/var/log", "i-1", true, false);
    assert_eq!(line, format!("scp {} -r ec2-user@i-1:/var/log out", ssm_ssh_options()));
}

#[test]
fn scp_command_from_quoted_paths() {
    let line = scp_command_from_quoted("'a b'", "c", "i-9", false, true);
    assert_eq!(line, format!("scp {} 'a b' ec2-user@i-9:c", ssm_ssh_options()));
}

#[test]
fn ssh_destination_and_args() {
    assert_eq!(ssh_destination("i-42"), "ec2-user@i-42");
    assert_eq!(ssh_args("i-42", None), vec!["ec2-user@i-42".to_string()]);
    assert_eq!(
        ssh_args("i-42", Some("uptime".to_string())),
        vec!["ec2-user@i-42".to_string(), "uptime".to_string()]
    );
}

#[test]
fn instance_and_profile_names() {
    assert_eq!(choose_instance_name(Some("mine".to_string())), "mine");
    let generated = choose_instance_name(None);
    assert!(!generated.is_empty());
    assert_eq!(generated_or_fallback(None), "ec2-instance");
    assert_eq!(generated_or_fallback(Some("brave-otter".to_string())), "brave-otter");
    assert!(!choose_instance_name(None).is_empty());
    assert_eq!(choose_profile_name(None), "default");
    assert_eq!(choose_profile_name(Some("gpu".to_string())), "gpu");
}

#[test]
fn ssh_config_with_non_ascii_text() {
    let content = "# caf\u{e9} \u{1f600}\nHost i-*\n  ProxyCommand sh -c \"aws ssm start-session\"\n";
    assert_eq!(ssh_config_status(Some(content)), SshConfigStatus::Configured);
    assert_eq!(ssh_config_status(Some("# \u{e9}\u{e9}\n")), SshConfigStatus::NeedsConfiguration);
}

#[test]
fn scp_command_leaves_safe_paths_unquoted() {
    let line = scp_command("a-b_c.txt", "/srv/x,y+z=1", "i-2", false, true);
    assert_eq!(line, format!("scp {} a-b_c.txt ec2-user@i-2:/srv/x,y+z=1", ssm_ssh_options()));
    let line = scp_command("", "hi!", "i-2", false, false);
    assert_eq!(line, format!("scp {} ec2-user@i-2:'hi'\\!'' ''", ssm_ssh_options()));
}
