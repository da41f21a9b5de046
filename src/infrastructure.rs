use vstd::prelude::*;

use crate::error::Ec2CliError;
use crate::text::{concat3, concat4};

verus! {

/// Name of the role that managed instances assume.
pub const ROLE_NAME: &'static str = "ec2-cli-instance-role";

/// Name of the instance profile that carries the role.
pub const PROFILE_NAME: &'static str = "ec2-cli-instance-profile";

/// Name of the inline policy attached to the role.
pub const ROLE_POLICY_NAME: &'static str = "ec2-cli-ssm-policy";

pub const ROLE_DESCRIPTION: &'static str = "Role for ec2-cli managed instances";

/// Seconds to wait after creating the profile, so that it becomes visible to
/// the launch request.
pub const SETTLE_DELAY_SECS: u64 = 5;

/// Trust policy: only the compute service may assume the role.
pub const TRUST_POLICY: &'static str = r#"{
            "Version": "2012-10-17",
            "Statement": [
                {
                    "Effect": "Allow",
                    "Principal": {
                        "Service": "ec2.amazonaws.com"
                    },
                    "Action": "sts:AssumeRole"
                }
            ]
        }"#;

/// Least-privilege inline policy: the management agent's channel and
/// messaging operations, nothing else.
pub const AGENT_POLICY: &'static str = r#"{
            "Version": "2012-10-17",
            "Statement": [
                {
                    "Effect": "Allow",
                    "Action": [
                        "ssm:UpdateInstanceInformation",
                        "ssmmessages:CreateControlChannel",
                        "ssmmessages:CreateDataChannel",
                        "ssmmessages:OpenControlChannel",
                        "ssmmessages:OpenDataChannel",
                        "ec2messages:AcknowledgeMessage",
                        "ec2messages:DeleteMessage",
                        "ec2messages:FailMessage",
                        "ec2messages:GetEndpoint",
                        "ec2messages:GetMessages",
                        "ec2messages:SendReply"
                    ],
                    "Resource": "*"
                }
            ]
        }"#;

/// The placement and permission binding that a launch needs.
#[derive(Debug)]
pub struct Infrastructure {
    pub vpc_id: String,
    pub subnet_id: String,
    pub instance_profile_arn: String,
    pub instance_profile_name: String,
}

/// The role and profile that let an instance reach the management service.
#[derive(Debug)]
pub struct PermissionBinding {
    pub role_name: String,
    pub profile_name: String,
    pub profile_arn: String,
}

// ---------------------------------------------------------------- network

/// Picks the account's default network from the networks that the provider
/// listed as default, given by their ids.
pub fn default_vpc_from(vpc_ids: Vec<Option<String>>) -> (r: Result<String, Ec2CliError>)
    ensures
        vpc_ids@.len() > 0 && vpc_ids@[0] is Some ==> r == Ok::<String, Ec2CliError>(
            vpc_ids@[0]->0,
        ),
        !(vpc_ids@.len() > 0 && vpc_ids@[0] is Some) ==> r == Err::<String, Ec2CliError>(
            Ec2CliError::NoDefaultVpc,
        ),
{
    let mut ids = vpc_ids;
    if ids.len() == 0 {
        return Err(Ec2CliError::NoDefaultVpc);
    }
    let first = ids.swap_remove(0);
    match first {
        Some(id) => Ok(id),
        None => Err(Ec2CliError::NoDefaultVpc),
    }
}

/// The subnetwork must come from the settings; there is no default.
pub fn require_subnet(configured: Option<String>) -> (r: Result<String, Ec2CliError>)
    ensures
        configured is Some ==> r == Ok::<String, Ec2CliError>(configured->0),
        configured is None ==> r == Err::<String, Ec2CliError>(Ec2CliError::SubnetNotConfigured),
{
    match configured {
        Some(id) => Ok(id),
        None => Err(Ec2CliError::SubnetNotConfigured),
    }
}

/// The text of the error for a subnetwork that lies in another network.
pub open spec fn mismatch_message(subnet: Seq<char>, actual: Seq<char>, expected: Seq<char>) -> Seq<
    char,
> {
    "Subnet "@ + subnet + " is in VPC "@ + actual + ", not "@ + expected
}

/// Checks the subnetwork against the network it must belong to.
/// `parents` holds, for each subnetwork that the provider returned for
/// `subnet_id`, the id of its network if the provider gave one.
pub fn validate_subnet(subnet_id: &String, vpc_id: &String, parents: &Vec<Option<String>>) -> (r:
    Result<(), Ec2CliError>)
    ensures
        parents@.len() == 0 ==> (r matches Err(Ec2CliError::SubnetNotFound(s)) && s@ == subnet_id@),
        parents@.len() > 0 ==> ({
            let actual = match parents@[0] {
                Some(p) => p@,
                None => Seq::<char>::empty(),
            };
            &&& actual == vpc_id@ ==> r is Ok
            &&& actual != vpc_id@ ==> (r matches Err(Ec2CliError::Config(m)) && m@
                == mismatch_message(subnet_id@, actual, vpc_id@))
        }),
{
    if parents.len() == 0 {
        return Err(Ec2CliError::SubnetNotFound(subnet_id.clone()));
    }
    let actual = match &parents[0] {
        Some(p) => p.clone(),
        None => String::new(),
    };
    if actual == *vpc_id {
        Ok(())
    } else {
        let head = concat3("Subnet ", subnet_id.as_str(), " is in VPC ");
        let msg = concat4(head.as_str(), actual.as_str(), ", not ", vpc_id.as_str());
        proof {
            assert(msg@ =~= mismatch_message(subnet_id@, actual@, vpc_id@));
        }
        Err(Ec2CliError::Config(msg))
    }
}

// ---------------------------------------------------- permission binding

/// A call that the binding resolution asks the caller to make. The names and
/// documents it refers to are the constants of this module.
#[derive(PartialEq, Eq, Structural, Clone, Copy, Debug)]
pub enum IamRequest {
    /// Look up `ROLE_NAME`.
    GetRole,
    /// Create `ROLE_NAME` with `TRUST_POLICY`, `ROLE_DESCRIPTION` and the managed tag.
    CreateRole,
    /// Put `AGENT_POLICY` on the role as `ROLE_POLICY_NAME`.
    PutRolePolicy,
    /// Look up `PROFILE_NAME`.
    GetInstanceProfile,
    /// Create `PROFILE_NAME` with the managed tag.
    CreateInstanceProfile,
    /// Add the role to the profile.
    AddRoleToInstanceProfile,
    /// Sleep `SETTLE_DELAY_SECS` seconds.
    Settle,
}

/// What the caller observed when it made the requested call.
#[derive(Debug)]
pub enum IamReply {
    /// The looked-up resource exists; for a profile, its ARN if the response held one.
    Exists(Option<String>),
    /// The looked-up resource does not exist.
    Absent,
    /// The call succeeded; for a created profile, its ARN if the response held one.
    Completed(Option<String>),
    /// A creation call found the resource already there (another run
    /// created it meanwhile); for adding the role, the profile already holds it.
    AlreadyExists,
    /// The call failed with this message.
    Rejected(String),
}

#[derive(Debug)]
pub enum BindingFailure {
    /// A call failed; the provider's message.
    Provider(String),
    /// The provider answered without the profile it was asked for.
    MissingProfile,
    /// A reply that does not answer the pending request.
    UnexpectedReply,
}

/// Where the get-or-create resolution of the permission binding stands.
#[derive(Debug)]
pub enum BindingStep {
    LookupRole,
    CreateRole,
    PutRolePolicy,
    LookupProfile,
    CreateProfile,
    /// The profile turned out to exist already: look it up for its ARN.
    RecheckProfile,
    AttachRole(Option<String>),
    Settle(Option<String>),
    Done(String),
    Failed(BindingFailure),
}

impl BindingStep {
    pub open spec fn is_terminal(self) -> bool {
        self is Done || self is Failed
    }

    /// The call to make in this step; none once resolution has ended.
    pub open spec fn request_of(self) -> Option<IamRequest> {
        match self {
            BindingStep::LookupRole => Some(IamRequest::GetRole),
            BindingStep::CreateRole => Some(IamRequest::CreateRole),
            BindingStep::PutRolePolicy => Some(IamRequest::PutRolePolicy),
            BindingStep::LookupProfile => Some(IamRequest::GetInstanceProfile),
            BindingStep::CreateProfile => Some(IamRequest::CreateInstanceProfile),
            BindingStep::RecheckProfile => Some(IamRequest::GetInstanceProfile),
            BindingStep::AttachRole(_) => Some(IamRequest::AddRoleToInstanceProfile),
            BindingStep::Settle(_) => Some(IamRequest::Settle),
            BindingStep::Done(_) => None,
            BindingStep::Failed(_) => None,
        }
    }

    /// The step that follows this one on `reply`. A role or profile that
    /// exists, found by the lookup or reported by a creation call that lost a
    /// race with another run, is used as it is: its creation, the role's
    /// policy and the settle delay are skipped, and a profile that a creation
    /// call reported as existing is looked up again for its ARN. Any other
    /// failed call ends resolution with the provider's message.
    pub open spec fn next(self, reply: IamReply) -> BindingStep {
        match self {
            BindingStep::LookupRole => match reply {
                IamReply::Exists(_) => BindingStep::LookupProfile,
                IamReply::Absent => BindingStep::CreateRole,
                IamReply::Rejected(m) => BindingStep::Failed(BindingFailure::Provider(m)),
                _ => BindingStep::Failed(BindingFailure::UnexpectedReply),
            },
            BindingStep::CreateRole => match reply {
                IamReply::Completed(_) => BindingStep::PutRolePolicy,
                IamReply::AlreadyExists => BindingStep::LookupProfile,
                IamReply::Rejected(m) => BindingStep::Failed(BindingFailure::Provider(m)),
                _ => BindingStep::Failed(BindingFailure::UnexpectedReply),
            },
            BindingStep::PutRolePolicy => match reply {
                IamReply::Completed(_) => BindingStep::LookupProfile,
                IamReply::Rejected(m) => BindingStep::Failed(BindingFailure::Provider(m)),
                _ => BindingStep::Failed(BindingFailure::UnexpectedReply),
            },
            BindingStep::LookupProfile => match reply {
                IamReply::Exists(Some(arn)) => BindingStep::Done(arn),
                IamReply::Exists(None) => BindingStep::Failed(BindingFailure::MissingProfile),
                IamReply::Absent => BindingStep::CreateProfile,
                IamReply::Rejected(m) => BindingStep::Failed(BindingFailure::Provider(m)),
                _ => BindingStep::Failed(BindingFailure::UnexpectedReply),
            },
            BindingStep::CreateProfile => match reply {
                IamReply::Completed(arn) => BindingStep::AttachRole(arn),
                IamReply::AlreadyExists => BindingStep::RecheckProfile,
                IamReply::Rejected(m) => BindingStep::Failed(BindingFailure::Provider(m)),
                _ => BindingStep::Failed(BindingFailure::UnexpectedReply),
            },
            BindingStep::RecheckProfile => match reply {
                IamReply::Exists(Some(arn)) => BindingStep::Done(arn),
                IamReply::Exists(None) => BindingStep::Failed(BindingFailure::MissingProfile),
                IamReply::Absent => BindingStep::Failed(BindingFailure::MissingProfile),
                IamReply::Rejected(m) => BindingStep::Failed(BindingFailure::Provider(m)),
                _ => BindingStep::Failed(BindingFailure::UnexpectedReply),
            },
            BindingStep::AttachRole(arn) => match reply {
                IamReply::Completed(_) => BindingStep::Settle(arn),
                IamReply::AlreadyExists => BindingStep::Settle(arn),
                IamReply::Rejected(m) => BindingStep::Failed(BindingFailure::Provider(m)),
                _ => BindingStep::Failed(BindingFailure::UnexpectedReply),
            },
            BindingStep::Settle(arn) => match reply {
                IamReply::Completed(_) => match arn {
                    Some(a) => BindingStep::Done(a),
                    None => BindingStep::Failed(BindingFailure::MissingProfile),
                },
                IamReply::Rejected(m) => BindingStep::Failed(BindingFailure::Provider(m)),
                _ => BindingStep::Failed(BindingFailure::UnexpectedReply),
            },
            BindingStep::Done(a) => BindingStep::Done(a),
            BindingStep::Failed(f) => BindingStep::Failed(f),
        }
    }

    /// Resolution starts by looking up the role.
    pub fn start() -> (r: BindingStep)
        ensures
            r == BindingStep::LookupRole,
    {
        BindingStep::LookupRole
    }

    pub fn request(&self) -> (r: Option<IamRequest>)
        ensures
            r == self.request_of(),
    {
        match self {
            BindingStep::LookupRole => Some(IamRequest::GetRole),
            BindingStep::CreateRole => Some(IamRequest::CreateRole),
            BindingStep::PutRolePolicy => Some(IamRequest::PutRolePolicy),
            BindingStep::LookupProfile => Some(IamRequest::GetInstanceProfile),
            BindingStep::CreateProfile => Some(IamRequest::CreateInstanceProfile),
            BindingStep::RecheckProfile => Some(IamRequest::GetInstanceProfile),
            BindingStep::AttachRole(_) => Some(IamRequest::AddRoleToInstanceProfile),
            BindingStep::Settle(_) => Some(IamRequest::Settle),
            BindingStep::Done(_) => None,
            BindingStep::Failed(_) => None,
        }
    }

    pub fn advance(self, reply: IamReply) -> (r: BindingStep)
        ensures
            r == self.next(reply),
    {
        match self {
            BindingStep::LookupRole => match reply {
                IamReply::Exists(_) => BindingStep::LookupProfile,
                IamReply::Absent => BindingStep::CreateRole,
                IamReply::Rejected(m) => BindingStep::Failed(BindingFailure::Provider(m)),
                _ => BindingStep::Failed(BindingFailure::UnexpectedReply),
            },
            BindingStep::CreateRole => match reply {
                IamReply::Completed(_) => BindingStep::PutRolePolicy,
                IamReply::AlreadyExists => BindingStep::LookupProfile,
                IamReply::Rejected(m) => BindingStep::Failed(BindingFailure::Provider(m)),
                _ => BindingStep::Failed(BindingFailure::UnexpectedReply),
            },
            BindingStep::PutRolePolicy => match reply {
                IamReply::Completed(_) => BindingStep::LookupProfile,
                IamReply::Rejected(m) => BindingStep::Failed(BindingFailure::Provider(m)),
                _ => BindingStep::Failed(BindingFailure::UnexpectedReply),
            },
            BindingStep::LookupProfile => match reply {
                IamReply::Exists(Some(arn)) => BindingStep::Done(arn),
                IamReply::Exists(None) => BindingStep::Failed(BindingFailure::MissingProfile),
                IamReply::Absent => BindingStep::CreateProfile,
                IamReply::Rejected(m) => BindingStep::Failed(BindingFailure::Provider(m)),
                _ => BindingStep::Failed(BindingFailure::UnexpectedReply),
            },
            BindingStep::CreateProfile => match reply {
                IamReply::Completed(arn) => BindingStep::AttachRole(arn),
                IamReply::AlreadyExists => BindingStep::RecheckProfile,
                IamReply::Rejected(m) => BindingStep::Failed(BindingFailure::Provider(m)),
                _ => BindingStep::Failed(BindingFailure::UnexpectedReply),
            },
            BindingStep::RecheckProfile => match reply {
                IamReply::Exists(Some(arn)) => BindingStep::Done(arn),
                IamReply::Exists(None) => BindingStep::Failed(BindingFailure::MissingProfile),
                IamReply::Absent => BindingStep::Failed(BindingFailure::MissingProfile),
                IamReply::Rejected(m) => BindingStep::Failed(BindingFailure::Provider(m)),
                _ => BindingStep::Failed(BindingFailure::UnexpectedReply),
            },
            BindingStep::AttachRole(arn) => match reply {
                IamReply::Completed(_) => BindingStep::Settle(arn),
                IamReply::AlreadyExists => BindingStep::Settle(arn),
                IamReply::Rejected(m) => BindingStep::Failed(BindingFailure::Provider(m)),
                _ => BindingStep::Failed(BindingFailure::UnexpectedReply),
            },
            BindingStep::Settle(arn) => match reply {
                IamReply::Completed(_) => match arn {
                    Some(a) => BindingStep::Done(a),
                    None => BindingStep::Failed(BindingFailure::MissingProfile),
                },
                IamReply::Rejected(m) => BindingStep::Failed(BindingFailure::Provider(m)),
                _ => BindingStep::Failed(BindingFailure::UnexpectedReply),
            },
            BindingStep::Done(a) => BindingStep::Done(a),
            BindingStep::Failed(f) => BindingStep::Failed(f),
        }
    }

    /// The result once resolution has ended: the binding, or the error to
    /// report. `None` while calls are still pending.
    pub fn outcome(self) -> (r: Option<Result<PermissionBinding, Ec2CliError>>)
        ensures
            !self.is_terminal() <==> r is None,
            self matches BindingStep::Done(arn) ==> (r matches Some(Ok(b)) && b.profile_arn == arn
                && b.role_name@ == ROLE_NAME@ && b.profile_name@ == PROFILE_NAME@),
            self matches BindingStep::Failed(BindingFailure::Provider(m)) ==> r == Some(
                Err::<PermissionBinding, Ec2CliError>(Ec2CliError::Iam(m)),
            ),
            self matches BindingStep::Failed(BindingFailure::MissingProfile) ==> (r matches Some(
                Err(Ec2CliError::Iam(m)),
            ) && m@ == "No instance profile in response"@),
            self matches BindingStep::Failed(BindingFailure::UnexpectedReply) ==> (r matches Some(
                Err(Ec2CliError::Iam(m)),
            ) && m@ == "Unexpected reply from the IAM service"@),
    {
        match self {
            BindingStep::Done(arn) => Some(
                Ok(
                    PermissionBinding {
                        role_name: String::from_str(ROLE_NAME),
                        profile_name: String::from_str(PROFILE_NAME),
                        profile_arn: arn,
                    },
                ),
            ),
            BindingStep::Failed(BindingFailure::Provider(m)) => Some(Err(Ec2CliError::Iam(m))),
            BindingStep::Failed(BindingFailure::MissingProfile) => Some(
                Err(Ec2CliError::Iam(String::from_str("No instance profile in response"))),
            ),
            BindingStep::Failed(BindingFailure::UnexpectedReply) => Some(
                Err(Ec2CliError::Iam(String::from_str("Unexpected reply from the IAM service"))),
            ),
            _ => None,
        }
    }
}

// ------------------------------------------------- whole resolution

/// A call that the infrastructure resolution asks the caller to make.
#[derive(Debug)]
pub enum ResolveRequest {
    /// List the networks that the provider marks as the account's default.
    DescribeDefaultVpc,
    /// Describe the subnetwork with this id.
    DescribeSubnet(String),
    /// A call of the permission-binding resolution.
    Iam(IamRequest),
}

/// What the caller observed when it made the requested call.
#[derive(Debug)]
pub enum ResolveReply {
    /// The ids of the default networks, where the provider gave one.
    DefaultVpcs(Vec<Option<String>>),
    /// For each subnetwork returned, the id of its network where given.
    SubnetParents(Vec<Option<String>>),
    Iam(IamReply),
    /// A network query failed with this message.
    Rejected(String),
}

/// Where the resolution of network placement and permission binding stands.
/// The binding is only resolved once the subnetwork has passed its check, so
/// a mismatch is reported before any resource is created.
#[derive(Debug)]
pub enum ResolveStep {
    /// No network is configured: find the default one. Holds the configured subnetwork.
    FindDefaultVpc(Option<String>),
    CheckSubnet { vpc_id: String, subnet_id: String },
    Bind { vpc_id: String, subnet_id: String, binding: BindingStep },
    Done(Infrastructure),
    Failed(Ec2CliError),
}

/// The id of the network of the first subnetwork returned; empty if none given.
pub open spec fn first_parent(parents: Seq<Option<String>>) -> Seq<char> {
    match parents[0] {
        Some(p) => p@,
        None => Seq::<char>::empty(),
    }
}

/// The subnetwork was found, inside network `vpc`.
pub open spec fn subnet_accepted(parents: Seq<Option<String>>, vpc: Seq<char>) -> bool {
    parents.len() > 0 && first_parent(parents) == vpc
}

/// The step reached once the network is known.
pub open spec fn after_vpc(vpc_id: String, subnet: Option<String>) -> ResolveStep {
    match subnet {
        Some(s) => ResolveStep::CheckSubnet { vpc_id, subnet_id: s },
        None => ResolveStep::Failed(Ec2CliError::SubnetNotConfigured),
    }
}

fn step_after_vpc(vpc_id: String, subnet: Option<String>) -> (r: ResolveStep)
    ensures
        r == after_vpc(vpc_id, subnet),
{
    match require_subnet(subnet) {
        Ok(s) => ResolveStep::CheckSubnet { vpc_id, subnet_id: s },
        Err(e) => ResolveStep::Failed(e),
    }
}

impl ResolveStep {
    pub open spec fn is_terminal(self) -> bool {
        self is Done || self is Failed
    }

    pub open spec fn request_of(self) -> Option<ResolveRequest> {
        match self {
            ResolveStep::FindDefaultVpc(_) => Some(ResolveRequest::DescribeDefaultVpc),
            ResolveStep::CheckSubnet { subnet_id, .. } => Some(
                ResolveRequest::DescribeSubnet(subnet_id),
            ),
            ResolveStep::Bind { binding, .. } => match binding.request_of() {
                Some(q) => Some(ResolveRequest::Iam(q)),
                None => None,
            },
            ResolveStep::Done(_) => None,
            ResolveStep::Failed(_) => None,
        }
    }

    /// Whether `r` is the step that follows this one on `reply`.
    pub open spec fn advances_to(self, reply: ResolveReply, r: ResolveStep) -> bool {
        match self {
            ResolveStep::FindDefaultVpc(subnet) => match reply {
                ResolveReply::DefaultVpcs(ids) => if ids@.len() > 0 && ids@[0] is Some {
                    r == after_vpc(ids@[0]->0, subnet)
                } else {
                    r == ResolveStep::Failed(Ec2CliError::NoDefaultVpc)
                },
                ResolveReply::Rejected(m) => r == ResolveStep::Failed(Ec2CliError::Ec2(m)),
                _ => r matches ResolveStep::Failed(Ec2CliError::Other(_)),
            },
            ResolveStep::CheckSubnet { vpc_id, subnet_id } => match reply {
                ResolveReply::SubnetParents(parents) => if subnet_accepted(parents@, vpc_id@) {
                    r == (ResolveStep::Bind { vpc_id, subnet_id, binding: BindingStep::LookupRole })
                } else {
                    r matches ResolveStep::Failed(e) && (e is SubnetNotFound || e is Config)
                },
                ResolveReply::Rejected(m) => r == ResolveStep::Failed(Ec2CliError::Ec2(m)),
                _ => r matches ResolveStep::Failed(Ec2CliError::Other(_)),
            },
            ResolveStep::Bind { vpc_id, subnet_id, binding } => match reply {
                ResolveReply::Iam(ir) => {
                    let n = binding.next(ir);
                    &&& !n.is_terminal() ==> r == (ResolveStep::Bind { vpc_id, subnet_id, binding: n })
                    &&& n matches BindingStep::Done(arn) ==> (r matches ResolveStep::Done(i)
                        && i.vpc_id == vpc_id && i.subnet_id == subnet_id
                        && i.instance_profile_arn == arn
                        && i.instance_profile_name@ == PROFILE_NAME@)
                    &&& n is Failed ==> r is Failed
                },
                _ => r matches ResolveStep::Failed(Ec2CliError::Other(_)),
            },
            ResolveStep::Done(i) => r == ResolveStep::Done(i),
            ResolveStep::Failed(e) => r == ResolveStep::Failed(e),
        }
    }

    /// Resolution starts from the configured network and subnetwork; without
    /// a configured network it first looks up the default one.
    pub fn start(vpc_id: Option<String>, subnet_id: Option<String>) -> (r: ResolveStep)
        ensures
            vpc_id is Some ==> r == after_vpc(vpc_id->0, subnet_id),
            vpc_id is None ==> r == ResolveStep::FindDefaultVpc(subnet_id),
            !(r is Bind),
    {
        match vpc_id {
            Some(v) => step_after_vpc(v, subnet_id),
            None => ResolveStep::FindDefaultVpc(subnet_id),
        }
    }

    pub fn request(&self) -> (r: Option<ResolveRequest>)
        ensures
            r == self.request_of(),
    {
        match self {
            ResolveStep::FindDefaultVpc(_) => Some(ResolveRequest::DescribeDefaultVpc),
            ResolveStep::CheckSubnet { subnet_id, .. } => Some(
                ResolveRequest::DescribeSubnet(subnet_id.clone()),
            ),
            ResolveStep::Bind { binding, .. } => match binding.request() {
                Some(q) => Some(ResolveRequest::Iam(q)),
                None => None,
            },
            ResolveStep::Done(_) => None,
            ResolveStep::Failed(_) => None,
        }
    }

    pub fn advance(self, reply: ResolveReply) -> (r: ResolveStep)
        ensures
            self.advances_to(reply, r),
    {
        match self {
            ResolveStep::FindDefaultVpc(subnet) => match reply {
                ResolveReply::DefaultVpcs(ids) => match default_vpc_from(ids) {
                    Ok(v) => step_after_vpc(v, subnet),
                    Err(e) => ResolveStep::Failed(e),
                },
                ResolveReply::Rejected(m) => ResolveStep::Failed(Ec2CliError::Ec2(m)),
                _ => unexpected_reply(),
            },
            ResolveStep::CheckSubnet { vpc_id, subnet_id } => match reply {
                ResolveReply::SubnetParents(parents) => match validate_subnet(
                    &subnet_id,
                    &vpc_id,
                    &parents,
                ) {
                    Ok(()) => ResolveStep::Bind { vpc_id, subnet_id, binding: BindingStep::start() },
                    Err(e) => ResolveStep::Failed(e),
                },
                ResolveReply::Rejected(m) => ResolveStep::Failed(Ec2CliError::Ec2(m)),
                _ => unexpected_reply(),
            },
            ResolveStep::Bind { vpc_id, subnet_id, binding } => match reply {
                ResolveReply::Iam(ir) => {
                    let n = binding.advance(ir);
                    let finished = match &n {
                        BindingStep::Done(_) => true,
                        BindingStep::Failed(_) => true,
                        _ => false,
                    };
                    if !finished {
                        ResolveStep::Bind { vpc_id, subnet_id, binding: n }
                    } else {
                        match n.outcome() {
                            Some(Ok(b)) => ResolveStep::Done(
                                Infrastructure {
                                    vpc_id,
                                    subnet_id,
                                    instance_profile_arn: b.profile_arn,
                                    instance_profile_name: b.profile_name,
                                },
                            ),
                            Some(Err(e)) => ResolveStep::Failed(e),
                            None => unexpected_reply(),
                        }
                    }
                },
                _ => unexpected_reply(),
            },
            ResolveStep::Done(i) => ResolveStep::Done(i),
            ResolveStep::Failed(e) => ResolveStep::Failed(e),
        }
    }

    /// The placement and binding once resolution has ended, or the error to
    /// report. `None` while calls are still pending.
    pub fn outcome(self) -> (r: Option<Result<Infrastructure, Ec2CliError>>)
        ensures
            !self.is_terminal() <==> r is None,
            self matches ResolveStep::Done(i) ==> r == Some(Ok::<Infrastructure, Ec2CliError>(i)),
            self matches ResolveStep::Failed(e) ==> r == Some(Err::<Infrastructure, Ec2CliError>(e)),
    {
        match self {
            ResolveStep::Done(i) => Some(Ok(i)),
            ResolveStep::Failed(e) => Some(Err(e)),
            _ => None,
        }
    }
}

fn unexpected_reply() -> (r: ResolveStep)
    ensures
        r matches ResolveStep::Failed(Ec2CliError::Other(_)),
{
    ResolveStep::Failed(
        Ec2CliError::Other(String::from_str("Unexpected reply during infrastructure resolution")),
    )
}

/// No permission call comes before the subnetwork check has passed: only the
/// binding stage asks for permission calls, resolution never starts there, and
/// it enters that stage only from the subnetwork check, on a reply that shows
/// the subnetwork inside the chosen network.
pub proof fn lemma_binding_after_subnet_check(s: ResolveStep, reply: ResolveReply, r: ResolveStep)
    requires
        s.advances_to(reply, r),
        r is Bind,
        !(s is Bind),
    ensures
        s matches ResolveStep::CheckSubnet { vpc_id, .. } && reply matches ResolveReply::SubnetParents(
            parents,
        ) && subnet_accepted(parents@, vpc_id@),
        forall|t: ResolveStep| (#[trigger] t.request_of() matches Some(ResolveRequest::Iam(_))) ==> t is Bind,
{
}

// ------------------------------------------------------ provider model

/// What the identity service holds of the binding, as far as resolution can
/// observe it. `racing_role` and `racing_profile` describe another run that
/// creates the role, or the profile with the given ARN and the role attached,
/// between this run's lookup and its creation call.
pub struct IamAccount {
    pub role_exists: bool,
    pub role_has_policy: bool,
    pub profile_arn: Option<String>,
    pub profile_has_role: bool,
    pub racing_role: bool,
    pub racing_profile: Option<String>,
}

/// How a provider that never fails answers `req`, and the account after the
/// call. A profile that this run creates gets the ARN `fresh_arn`.
pub open spec fn provider_reply(account: IamAccount, req: IamRequest, fresh_arn: String) -> (
    IamReply,
    IamAccount,
) {
    match req {
        IamRequest::GetRole => (
            if account.role_exists {
                IamReply::Exists(None)
            } else {
                IamReply::Absent
            },
            account,
        ),
        IamRequest::CreateRole => if account.racing_role {
            (
                IamReply::AlreadyExists,
                IamAccount { role_exists: true, role_has_policy: true, ..account },
            )
        } else {
            (IamReply::Completed(None), IamAccount { role_exists: true, ..account })
        },
        IamRequest::PutRolePolicy => (
            IamReply::Completed(None),
            IamAccount { role_has_policy: true, ..account },
        ),
        IamRequest::GetInstanceProfile => (
            match account.profile_arn {
                Some(a) => IamReply::Exists(Some(a)),
                None => IamReply::Absent,
            },
            account,
        ),
        IamRequest::CreateInstanceProfile => match account.racing_profile {
            Some(theirs) => (
                IamReply::AlreadyExists,
                IamAccount { profile_arn: Some(theirs), profile_has_role: true, ..account },
            ),
            None => (
                IamReply::Completed(Some(fresh_arn)),
                IamAccount { profile_arn: Some(fresh_arn), profile_has_role: false, ..account },
            ),
        },
        IamRequest::AddRoleToInstanceProfile => (
            IamReply::Completed(None),
            IamAccount { profile_has_role: true, ..account },
        ),
        IamRequest::Settle => (IamReply::Completed(None), account),
    }
}

/// Drives resolution from `step` against the provider model for at most
/// `fuel` calls: the account afterwards, the step reached, and the calls made.
pub open spec fn run_binding(account: IamAccount, step: BindingStep, fresh_arn: String, fuel: nat) -> (
    IamAccount,
    BindingStep,
    Seq<IamRequest>,
)
    decreases fuel,
{
    if fuel == 0 {
        (account, step, Seq::empty())
    } else {
        match step.request_of() {
            None => (account, step, Seq::empty()),
            Some(req) => {
                let (reply, after) = provider_reply(account, req, fresh_arn);
                let (last, end, calls) = run_binding(after, step.next(reply), fresh_arn, (fuel - 1) as nat);
                (last, end, seq![req] + calls)
            },
        }
    }
}

/// Enough calls for any resolution to end.
pub open spec fn binding_fuel() -> nat {
    8
}

pub open spec fn is_creation(req: IamRequest) -> bool {
    req != IamRequest::GetRole && req != IamRequest::GetInstanceProfile
}

/// Resolving the permission binding is idempotent: a second resolution
/// against the account that the first one left returns the same profile ARN
/// and only looks up the role and the profile, creating nothing. A role or
/// profile that already exists counts as success, also when another run
/// created it between the lookup and the creation call: the first resolution
/// then returns the ARN of the existing profile. On an account with neither
/// role nor profile and no other run, the first resolution creates the role,
/// its policy and the profile, attaches the role, waits the settle delay, and
/// returns the ARN of the new profile.
#[verifier::rlimit(100)]
pub proof fn lemma_binding_idempotent(account: IamAccount, fresh_arn: String, later_arn: String)
    ensures
        ({
            let (after, first, first_calls) = run_binding(
                account,
                BindingStep::LookupRole,
                fresh_arn,
                binding_fuel(),
            );
            let (_, second, second_calls) = run_binding(
                after,
                BindingStep::LookupRole,
                later_arn,
                binding_fuel(),
            );
            &&& first is Done
            &&& second == first
            &&& second_calls == seq![IamRequest::GetRole, IamRequest::GetInstanceProfile]
            &&& forall|i: int| 0 <= i < second_calls.len() ==> !is_creation(#[trigger] second_calls[i])
            &&& account.profile_arn is Some ==> first == BindingStep::Done(account.profile_arn->0)
            &&& (account.profile_arn is None && account.racing_profile is Some) ==> first
                == BindingStep::Done(account.racing_profile->0)
            &&& (account.profile_arn is None && account.racing_profile is None) ==> first
                == BindingStep::Done(fresh_arn)
            &&& (!account.role_exists && account.profile_arn is None && !account.racing_role
                && account.racing_profile is None) ==> first_calls == seq![
                IamRequest::GetRole,
                IamRequest::CreateRole,
                IamRequest::PutRolePolicy,
                IamRequest::GetInstanceProfile,
                IamRequest::CreateInstanceProfile,
                IamRequest::AddRoleToInstanceProfile,
                IamRequest::Settle,
            ]
        }),
{
    reveal_with_fuel(run_binding, 9);
    let (after, first, first_calls) = run_binding(
        account,
        BindingStep::LookupRole,
        fresh_arn,
        binding_fuel(),
    );
    assert(after.role_exists);
    assert(after.profile_arn is Some);
    assert(first == BindingStep::Done(after.profile_arn->0));
    let (_, second, second_calls) = run_binding(after, BindingStep::LookupRole, later_arn, binding_fuel());
    assert(second_calls =~= seq![IamRequest::GetRole, IamRequest::GetInstanceProfile]);
    if !account.role_exists && account.profile_arn is None && !account.racing_role
        && account.racing_profile is None {
        assert(first_calls =~= seq![
            IamRequest::GetRole,
            IamRequest::CreateRole,
            IamRequest::PutRolePolicy,
            IamRequest::GetInstanceProfile,
            IamRequest::CreateInstanceProfile,
            IamRequest::AddRoleToInstanceProfile,
            IamRequest::Settle,
        ]);
    }
}

} // verus!
