use vstd::prelude::*;

use crate::error::Ec2CliError;
use crate::text::{contains, has_prefix, occurs_in};

verus! {

/// The login user of provisioned instances.
pub const SSH_USER: &'static str = "ec2-user";

/// ssh options that route the connection through the management service's
/// session proxy; host keys are not checked, since instance ids are never in
/// known_hosts.
pub const SSM_SSH_OPTIONS: &'static str = "-o 'ProxyCommand=sh -c \"aws ssm start-session --target %h --document-name AWS-StartSSHSession --parameters portNumber=%p\"' -o StrictHostKeyChecking=no -o UserKnownHostsFile=/dev/null";

/// The ssh configuration block that routes instance hosts through the proxy.
pub const SSH_CONFIG_BLOCK: &'static str = "# EC2 SSH via SSM Session Manager
Host i-* mi-*
    User ubuntu
    ProxyCommand sh -c \"aws ssm start-session --target %h --document-name AWS-StartSSHSession --parameters 'portNumber=%p'\"
";

/// Name used when no instance name is given and none can be generated.
pub const FALLBACK_INSTANCE_NAME: &'static str = "ec2-instance";

/// Profile used when none is named.
pub const DEFAULT_PROFILE_NAME: &'static str = "default";

pub fn ssm_ssh_options() -> (r: &'static str)
    ensures
        r@ == SSM_SSH_OPTIONS@,
{
    SSM_SSH_OPTIONS
}

pub fn generate_ssh_config_block() -> (r: String)
    ensures
        r@ == SSH_CONFIG_BLOCK@,
{
    String::from_str(SSH_CONFIG_BLOCK)
}

#[derive(PartialEq, Eq, Structural, Clone, Copy, Debug)]
pub enum SshConfigStatus {
    Configured,
    NeedsConfiguration,
    Missing,
}

impl SshConfigStatus {
    /// How the status reads in a report.
    pub fn label(&self) -> (r: &'static str)
        ensures
            *self == SshConfigStatus::Configured ==> r@ == "configured"@,
            *self == SshConfigStatus::NeedsConfiguration ==> r@ == "needs configuration"@,
            *self == SshConfigStatus::Missing ==> r@ == "missing"@,
    {
        match self {
            SshConfigStatus::Configured => "configured",
            SshConfigStatus::NeedsConfiguration => "needs configuration",
            SshConfigStatus::Missing => "missing",
        }
    }
}

/// Whether ssh configuration text routes instance hosts through the proxy.
pub open spec fn proxy_configured(content: Seq<char>) -> bool {
    (occurs_in(content, "Host i-*"@) || occurs_in(content, "Host mi-*"@)) && occurs_in(
        content,
        "ProxyCommand"@,
    ) && occurs_in(content, "ssm"@)
}

/// Classifies the user's ssh configuration, given its text if the file exists.
pub fn ssh_config_status(content: Option<&str>) -> (r: SshConfigStatus)
    ensures
        content is None ==> r == SshConfigStatus::Missing,
        content matches Some(c) ==> (r == if proxy_configured(c@) {
            SshConfigStatus::Configured
        } else {
            SshConfigStatus::NeedsConfiguration
        }),
{
    match content {
        None => SshConfigStatus::Missing,
        Some(c) => {
            let has_instance_host = contains(c, "Host i-*") || contains(c, "Host mi-*");
            let has_proxy_command = contains(c, "ProxyCommand") && contains(c, "ssm");
            if has_instance_host && has_proxy_command {
                SshConfigStatus::Configured
            } else {
                SshConfigStatus::NeedsConfiguration
            }
        },
    }
}

/// Splits a copy's source and destination into (local path, remote path,
/// whether it uploads). Exactly one of them must be remote, marked by a
/// leading `:` that is not part of the path.
pub fn parse_paths(src: &str, dest: &str) -> (r: Result<(String, String, bool), Ec2CliError>)
    ensures
        !":"@.is_prefix_of(src@) && ":"@.is_prefix_of(dest@) ==> (r matches Ok((l, p, up)) && l@
            == src@ && p@ == dest@.skip(1) && up),
        ":"@.is_prefix_of(src@) && !":"@.is_prefix_of(dest@) ==> (r matches Ok((l, p, up)) && l@
            == dest@ && p@ == src@.skip(1) && !up),
        ":"@.is_prefix_of(src@) == ":"@.is_prefix_of(dest@) ==> (r matches Err(
            Ec2CliError::InvalidPath(_),
        )),
{
    let src_is_remote = has_prefix(src, ":");
    let dest_is_remote = has_prefix(dest, ":");
    proof {
        reveal_strlit(":");
    }
    if !src_is_remote && dest_is_remote {
        let n = dest.unicode_len();
        let path = dest.substring_char(1, n);
        assert(path@ =~= dest@.skip(1));
        Ok((String::from_str(src), String::from_str(path), true))
    } else if src_is_remote && !dest_is_remote {
        let n = src.unicode_len();
        let path = src.substring_char(1, n);
        assert(path@ =~= src@.skip(1));
        Ok((String::from_str(dest), String::from_str(path), false))
    } else if src_is_remote {
        Err(
            Ec2CliError::InvalidPath(
                String::from_str("Both source and destination cannot be remote"),
            ),
        )
    } else {
        Err(
            Ec2CliError::InvalidPath(
                String::from_str("One of source or destination must be remote (prefix with :)"),
            ),
        )
    }
}

/// A character that needs no quoting in a POSIX shell.
pub open spec fn shell_safe(c: char) -> bool {
    ('a' <= c <= 'z') || ('A' <= c <= 'Z') || ('0' <= c <= '9') || c == '-' || c == '_' || c
        == '=' || c == '/' || c == ',' || c == '.' || c == '+'
}

/// The characters of `s` inside single quotes: a quote or `!` closes the
/// quotes, is escaped, and reopens them.
pub open spec fn quoted_chars(s: Seq<char>) -> Seq<char>
    decreases s.len(),
{
    if s.len() == 0 {
        Seq::empty()
    } else {
        let c = s.last();
        quoted_chars(s.drop_last()) + if c == '\'' || c == '!' {
            seq!['\'', '\\', c, '\'']
        } else {
            seq![c]
        }
    }
}

/// Text quoted for a POSIX shell: text made only of safe characters stays as
/// it is; anything else is wrapped in single quotes.
pub open spec fn shell_quoted(s: Seq<char>) -> Seq<char> {
    if s.len() > 0 && forall|i: int| 0 <= i < s.len() ==> shell_safe(#[trigger] s[i]) {
        s
    } else {
        seq!['\''] + quoted_chars(s) + seq!['\'']
    }
}

/// Relies on `shell_escape::unix::escape` to quote text for a POSIX shell.
#[verifier::external_body]
fn shell_quote(s: &str) -> (r: String)
    ensures
        r@ == shell_quoted(s@),
{
    shell_escape::unix::escape(std::borrow::Cow::Borrowed(s)).into_owned()
}

/// The ssh destination of an instance.
pub open spec fn destination(instance_id: Seq<char>) -> Seq<char> {
    SSH_USER@ + "@"@ + instance_id
}

/// The scp command line for a copy, from already quoted paths.
pub open spec fn scp_line(
    quoted_local: Seq<char>,
    quoted_remote: Seq<char>,
    instance_id: Seq<char>,
    recursive: bool,
    upload: bool,
) -> Seq<char> {
    let remote = destination(instance_id) + ":"@ + quoted_remote;
    let flag = if recursive {
        "-r "@
    } else {
        Seq::empty()
    };
    let (from, to) = if upload {
        (quoted_local, remote)
    } else {
        (remote, quoted_local)
    };
    "scp "@ + SSM_SSH_OPTIONS@ + " "@ + flag + from + " "@ + to
}

/// The ssh destination `user@instance` of an instance.
pub fn ssh_destination(instance_id: &str) -> (r: String)
    ensures
        r@ == destination(instance_id@),
{
    let mut s = String::from_str(SSH_USER);
    s.append("@");
    s.append(instance_id);
    s
}

/// The arguments of the ssh call that opens a shell on the instance, or runs
/// `command` there.
pub fn ssh_args(instance_id: &str, command: Option<String>) -> (r: Vec<String>)
    ensures
        r@.len() >= 1,
        r@[0]@ == destination(instance_id@),
        command is None ==> r@.len() == 1,
        command matches Some(c) ==> r@.len() == 2 && r@[1] == c,
{
    let mut args: Vec<String> = Vec::new();
    args.push(ssh_destination(instance_id));
    match command {
        Some(c) => args.push(c),
        None => {},
    }
    args
}

/// The scp command line for a copy between `local_path` and `remote_path`
/// on the instance, from paths that are already quoted for the shell.
pub fn scp_command_from_quoted(
    quoted_local: &str,
    quoted_remote: &str,
    instance_id: &str,
    recursive: bool,
    upload: bool,
) -> (r: String)
    ensures
        r@ == scp_line(quoted_local@, quoted_remote@, instance_id@, recursive, upload),
{
    let mut remote = ssh_destination(instance_id);
    remote.append(":");
    remote.append(quoted_remote);
    let mut line = String::from_str("scp ");
    line.append(SSM_SSH_OPTIONS);
    line.append(" ");
    if recursive {
        line.append("-r ");
    } else {
        assert(line@ + Seq::<char>::empty() =~= line@);
    }
    if upload {
        line.append(quoted_local);
        line.append(" ");
        line.append(remote.as_str());
    } else {
        line.append(remote.as_str());
        line.append(" ");
        line.append(quoted_local);
    }
    line
}

/// The scp command line for a copy between `local_path` and `remote_path`
/// on the instance, each path quoted for the shell.
pub fn scp_command(
    local_path: &str,
    remote_path: &str,
    instance_id: &str,
    recursive: bool,
    upload: bool,
) -> (r: String)
    ensures
        r@ == scp_line(
            shell_quoted(local_path@),
            shell_quoted(remote_path@),
            instance_id@,
            recursive,
            upload,
        ),
{
    let local = shell_quote(local_path);
    let remote = shell_quote(remote_path);
    scp_command_from_quoted(local.as_str(), remote.as_str(), instance_id, recursive, upload)
}

/// Relies on `petname::petname`: a random two-word name joined by `-`, if
/// the word lists allow one; it never returns an empty name.
#[verifier::external_body]
fn random_pet_name() -> (r: Option<String>)
    ensures
        r matches Some(n) ==> n@.len() > 0,
{
    petname::petname(2, "-")
}

/// A generated name, or the fallback name when none could be generated.
pub fn generated_or_fallback(generated: Option<String>) -> (r: String)
    ensures
        generated is Some ==> r == generated->0,
        generated is None ==> r@ == FALLBACK_INSTANCE_NAME@,
{
    match generated {
        Some(g) => g,
        None => String::from_str(FALLBACK_INSTANCE_NAME),
    }
}

/// The requested instance name, or else a generated one, which is never empty.
pub fn choose_instance_name(requested: Option<String>) -> (r: String)
    ensures
        requested is Some ==> r == requested->0,
        requested is None ==> r@.len() > 0,
{
    match requested {
        Some(n) => n,
        None => {
            proof {
                reveal_strlit("ec2-instance");
            }
            generated_or_fallback(random_pet_name())
        },
    }
}

/// The requested profile name, or else the default profile's.
pub fn choose_profile_name(requested: Option<String>) -> (r: String)
    ensures
        requested is Some ==> r == requested->0,
        requested is None ==> r@ == DEFAULT_PROFILE_NAME@,
{
    match requested {
        Some(n) => n,
        None => String::from_str(DEFAULT_PROFILE_NAME),
    }
}

} // verus!
