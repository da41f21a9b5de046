use ec2_cli::{generate_user_data, Profile};

#[test]
fn test_generate_basic_user_data() {
    let profile = Profile::default_profile();
    let script = generate_user_data(&profile, Some("test-project"));

    assert!(script.contains("#!/bin/bash"));
    assert!(script.contains("rustup"));
    assert!(script.contains("git init --bare"));
    assert!(script.contains("test-project"));
    assert!(script.contains(".ec2-cli-ready"));
}

#[test]
fn test_generate_without_project() {
    let profile = Profile::default_profile();
    let script = generate_user_data(&profile, None);

    assert!(script.contains("#!/bin/bash"));
    assert!(!script.contains("git init --bare"));
}

#[test]
fn user_data_sections_in_order() {
    let mut profile = Profile::default_profile();
    profile.packages.system = vec!["git".to_string(), "jq".to_string()];
    profile.packages.rust.channel = "nightly".to_string();
    profile.packages.rust.components = vec!["clippy".to_string()];
    profile.packages.cargo = vec!["ripgrep".to_string(), "fd-find".to_string()];
    profile.environment.insert("EDITOR".to_string(), "vim".to_string());
    let script = generate_user_data(&profile, Some("demo"));

    assert!(script.starts_with("#!/bin/bash\nset -ex\n\n"));
    assert!(script.contains("    dnf install -y git jq\n"));
    assert!(script.contains("    apt-get install -y git jq\n"));
    assert!(script.contains("sh -s -- -y --default-toolchain nightly\n"));
    assert!(script.contains("rustup component add clippy\n"));
    assert!(script.contains("cargo install ripgrep\ncargo install fd-find\n"));
    assert!(script.contains("export EDITOR=\"vim\"\n"));
    assert!(script.contains("git init --bare /home/ec2-user/repos/demo.git"));
    assert!(script.contains("GIT_WORK_TREE=/home/ec2-user/work/demo git checkout -f"));
    assert!(script.ends_with("touch /home/ec2-user/.ec2-cli-ready\n"));
    let pkgs = script.find("Installing system packages").unwrap();
    let rust = script.find("Installing Rust").unwrap();
    let env = script.find("Setting environment variables").unwrap();
    let dirs = script.find("Setting up git directories").unwrap();
    assert!(pkgs < rust && rust < env && env < dirs);
}

#[test]
fn user_data_without_optional_sections() {
    let mut profile = Profile::default_profile();
    profile.packages.system = Vec::new();
    profile.packages.rust.enabled = false;
    let script = generate_user_data(&profile, None);
    assert_eq!(
        script,
        "#!/bin/bash\nset -ex\n\n\
         exec > >(tee /var/log/ec2-cli-init.log) 2>&1\n\n\
         echo 'Waiting for cloud-init...'\n\
         cloud-init status --wait || true\n\n\
         echo 'Setting up git directories...'\n\
         mkdir -p /home/ec2-user/repos\n\
         mkdir -p /home/ec2-user/work\n\
         chown -R ec2-user:ec2-user /home/ec2-user/repos /home/ec2-user/work\n\n\
         echo 'ec2-cli initialization complete!'\n\
         touch /home/ec2-user/.ec2-cli-ready\n"
    );
}

#[test]
fn stable_channel_has_no_toolchain_flag() {
    let profile = Profile::default_profile();
    let script = generate_user_data(&profile, None);
    assert!(script.contains("sh -s -- -y\n"));
    assert!(!script.contains("--default-toolchain"));
    assert!(script.contains("rustup component add rustfmt clippy\n"));
}

#[test]
fn default_profile_validates() {
    let mut profile = Profile::default_profile();
    assert!(profile.validate().is_ok());
    profile.storage.root_volume.size_gb = 0;
    assert!(matches!(profile.validate(), Err(ec2_cli::Ec2CliError::ProfileValidation(_))));
    profile.storage.root_volume.size_gb = 16385;
    assert!(profile.validate().is_err());
    profile.storage.root_volume.size_gb = 16384;
    assert!(profile.validate().is_ok());
    profile.instance.instance_type = String::new();
    assert!(profile.validate().is_err());
}
