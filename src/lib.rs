//! Provisioning and bookkeeping for ephemeral, remotely managed compute
//! instances: network placement, permission bindings, readiness waits and
//! the durable record that maps a chosen name to a provider instance.

pub mod error;
pub mod infrastructure;
pub mod launch;
pub mod name_map;
pub mod profile;
pub mod readiness;
pub mod remote;
pub mod session;
pub mod settings;
pub mod state;
pub mod text;
pub mod user_data;

pub use error::Ec2CliError;
pub use infrastructure::Infrastructure;
pub use name_map::NameMap;
pub use profile::Profile;
pub use remote::{generate_ssh_config_block, parse_paths, ssm_ssh_options, SshConfigStatus};
pub use settings::Settings;
pub use state::{resolve_instance_name, InstanceState, State};
pub use user_data::generate_user_data;
