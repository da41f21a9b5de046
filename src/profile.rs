use vstd::prelude::*;

use crate::error::Ec2CliError;
use crate::name_map::NameMap;
use crate::text::views;

verus! {

/// The machine image: a fixed image id, or the public parameter that names
/// the latest image.
pub struct AmiConfig {
    pub id: Option<String>,
    pub parameter: String,
}

pub struct InstanceConfig {
    pub instance_type: String,
    pub ami: AmiConfig,
}

pub struct RootVolumeConfig {
    pub size_gb: u32,
    pub volume_type: String,
}

pub struct StorageConfig {
    pub root_volume: RootVolumeConfig,
}

pub struct RustConfig {
    pub enabled: bool,
    pub channel: String,
    pub components: Vec<String>,
}

pub struct PackageConfig {
    /// Packages of the system's package manager.
    pub system: Vec<String>,
    pub rust: RustConfig,
    /// Crates to install with `cargo install`.
    pub cargo: Vec<String>,
}

/// A declarative description of the instance to provision.
pub struct Profile {
    pub name: String,
    pub instance: InstanceConfig,
    pub storage: StorageConfig,
    pub packages: PackageConfig,
    /// Variables exported in the login shell of the instance's user.
    pub environment: NameMap<String>,
}

/// The largest root volume, in GiB, that the provider offers.
pub const MAX_ROOT_VOLUME_GB: u32 = 16384;

impl Profile {
    /// What `validate` accepts.
    pub open spec fn valid(&self) -> bool {
        &&& self.name@.len() > 0
        &&& self.instance.instance_type@.len() > 0
        &&& 1 <= self.storage.root_volume.size_gb <= MAX_ROOT_VOLUME_GB
    }

    /// The profile used when none is named: a general-purpose instance with
    /// build tools and a stable Rust toolchain.
    pub fn default_profile() -> (r: Profile)
        ensures
            r.name@ == "default"@,
            r.instance.instance_type@ == "t3.large"@,
            r.instance.ami.id is None,
            r.instance.ami.parameter@
                == "/aws/service/ami-amazon-linux-latest/al2023-ami-kernel-default-x86_64"@,
            r.storage.root_volume.size_gb == 30,
            r.storage.root_volume.volume_type@ == "gp3"@,
            views(r.packages.system@) == seq!["git"@, "gcc"@, "make"@],
            r.packages.rust.enabled,
            r.packages.rust.channel@ == "stable"@,
            views(r.packages.rust.components@) == seq!["rustfmt"@, "clippy"@],
            r.packages.cargo@.len() == 0,
            r.environment.wf(),
            r.environment.pairs().len() == 0,
            r.valid(),
    {
        let mut system: Vec<String> = Vec::new();
        system.push(String::from_str("git"));
        system.push(String::from_str("gcc"));
        system.push(String::from_str("make"));
        let mut components: Vec<String> = Vec::new();
        components.push(String::from_str("rustfmt"));
        components.push(String::from_str("clippy"));
        let p = Profile {
            name: String::from_str("default"),
            instance: InstanceConfig {
                instance_type: String::from_str("t3.large"),
                ami: AmiConfig {
                    id: None,
                    parameter: String::from_str(
                        "/aws/service/ami-amazon-linux-latest/al2023-ami-kernel-default-x86_64",
                    ),
                },
            },
            storage: StorageConfig {
                root_volume: RootVolumeConfig { size_gb: 30, volume_type: String::from_str("gp3") },
            },
            packages: PackageConfig {
                system,
                rust: RustConfig { enabled: true, channel: String::from_str("stable"), components },
                cargo: Vec::new(),
            },
            environment: NameMap::new(),
        };
        proof {
            reveal_strlit("default");
            reveal_strlit("t3.large");
            assert(views(p.packages.system@) =~= seq!["git"@, "gcc"@, "make"@]);
            assert(views(p.packages.rust.components@) =~= seq!["rustfmt"@, "clippy"@]);
        }
        p
    }

    /// Accepts a profile with a name, an instance type and a root volume of
    /// 1 to `MAX_ROOT_VOLUME_GB` GiB.
    pub fn validate(&self) -> (r: Result<(), Ec2CliError>)
        ensures
            r is Ok <==> self.valid(),
            r matches Err(e) ==> e is ProfileValidation,
    {
        if self.name.as_str().is_empty() {
            return Err(Ec2CliError::ProfileValidation(String::from_str("Profile name cannot be empty")));
        }
        if self.instance.instance_type.as_str().is_empty() {
            return Err(
                Ec2CliError::ProfileValidation(String::from_str("Instance type cannot be empty")),
            );
        }
        let size = self.storage.root_volume.size_gb;
        if size < 1 || size > MAX_ROOT_VOLUME_GB {
            return Err(
                Ec2CliError::ProfileValidation(
                    String::from_str("Root volume size must be between 1 and 16384 GiB"),
                ),
            );
        }
        Ok(())
    }
}

} // verus!
