use vstd::prelude::*;

verus! {

/// Every failure the library reports. Variants that wrap a provider or
/// system failure keep its message as text.
#[derive(Debug)]
pub enum Ec2CliError {
    AwsSdk(String),
    Ec2(String),
    Ssm(String),
    Iam(String),
    AwsCredentials,
    ResourceNotFound(String),
    ResourceAlreadyExists(String),
    ProfileNotFound(String),
    ProfileInvalid(String),
    ProfileValidation(String),
    InstanceNotFound(String),
    InstanceNameExists(String),
    InstanceNotReady(String),
    InstanceState(String),
    StateFile(String),
    StateCorrupted(String),
    Git(String),
    NotGitRepo,
    GitRemoteExists(String),
    SessionManagerPluginNotFound,
    SshCommand(String),
    SshConfig(String),
    ScpTransfer(String),
    InvalidPath(String),
    PathNotFound(String),
    Config(String),
    Prerequisites(String),
    NoDefaultVpc,
    VpcNotFound(String),
    SubnetNotFound(String),
    NoSubnetsInVpc(String),
    SubnetNotConfigured,
    Io(String),
    Json(String),
    Timeout(String),
    Cancelled,
    Other(String),
}

impl Ec2CliError {
    /// A failure reported by the provider SDK as a whole.
    pub fn aws_sdk(message: String) -> (r: Self)
        ensures
            r == Ec2CliError::AwsSdk(message),
    {
        Ec2CliError::AwsSdk(message)
    }

    /// A failure reported by the compute service.
    pub fn ec2(message: String) -> (r: Self)
        ensures
            r == Ec2CliError::Ec2(message),
    {
        Ec2CliError::Ec2(message)
    }

    /// A failure reported by the systems-management service.
    pub fn ssm(message: String) -> (r: Self)
        ensures
            r == Ec2CliError::Ssm(message),
    {
        Ec2CliError::Ssm(message)
    }

    /// A failure reported by the identity and access service.
    pub fn iam(message: String) -> (r: Self)
        ensures
            r == Ec2CliError::Iam(message),
    {
        Ec2CliError::Iam(message)
    }
}

} // verus!
