use vstd::prelude::*;

use crate::error::Ec2CliError;

verus! {

/// The region and account that every provider call of one invocation uses.
#[derive(Debug)]
pub struct Session {
    pub region: String,
    pub account_id: String,
}

/// The session of this invocation. The region pinned in the settings wins
/// over the one that the ambient configuration gives; the account id comes
/// from the caller-identity call and is `None` when that call failed. Credentials
/// count as valid only once the identity call returned an account.
pub fn establish_session(
    pinned_region: Option<String>,
    ambient_region: Option<String>,
    account_id: Option<String>,
) -> (r: Result<Session, Ec2CliError>)
    ensures
        r is Ok <==> (pinned_region is Some || ambient_region is Some) && account_id is Some,
        r is Err ==> r == Err::<Session, Ec2CliError>(Ec2CliError::AwsCredentials),
        r matches Ok(s) ==> s.account_id == account_id->0 && s.region == (if pinned_region is Some {
            pinned_region->0
        } else {
            ambient_region->0
        }),
{
    let region = match pinned_region {
        Some(r) => r,
        None => match ambient_region {
            Some(r) => r,
            None => return Err(Ec2CliError::AwsCredentials),
        },
    };
    match account_id {
        Some(account_id) => Ok(Session { region, account_id }),
        None => Err(Ec2CliError::AwsCredentials),
    }
}

} // verus!
