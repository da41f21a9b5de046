use vstd::prelude::*;

use crate::profile::Profile;
use crate::text::{join, joined, views};

verus! {

// The script is a sequence of sections; each spec function below is the
// text of one section, and a section that does not apply is empty.

pub open spec fn header_section() -> Seq<char> {
    "#!/bin/bash\nset -ex\n\n"@ + "exec > >(tee /var/log/ec2-cli-init.log) 2>&1\n\n"@
        + "echo 'Waiting for cloud-init...'\n"@ + "cloud-init status --wait || true\n\n"@
}

/// Installs `packages` (space-separated) with whichever package manager the image has.
pub open spec fn system_section(packages: Seq<Seq<char>>) -> Seq<char> {
    if packages.len() == 0 {
        Seq::empty()
    } else {
        let list = joined(packages, " "@);
        "echo 'Installing system packages...'\n"@ + "if command -v dnf &> /dev/null; then\n"@
            + "    dnf install -y "@ + list + "\n"@ + "elif command -v yum &> /dev/null; then\n"@
            + "    yum install -y "@ + list + "\n"@
            + "elif command -v apt-get &> /dev/null; then\n"@ + "    apt-get update\n"@
            + "    apt-get install -y "@ + list + "\n"@ + "fi\n\n"@
    }
}

pub open spec fn toolchain_flag(channel: Seq<char>) -> Seq<char> {
    if channel == "stable"@ {
        Seq::empty()
    } else {
        " --default-toolchain "@ + channel
    }
}

pub open spec fn components_line(components: Seq<Seq<char>>) -> Seq<char> {
    if components.len() == 0 {
        Seq::empty()
    } else {
        "rustup component add "@ + joined(components, " "@) + "\n"@
    }
}

/// One `cargo install` line per crate.
pub open spec fn cargo_lines(crates: Seq<Seq<char>>) -> Seq<char>
    decreases crates.len(),
{
    if crates.len() == 0 {
        Seq::empty()
    } else {
        cargo_lines(crates.drop_last()) + "cargo install "@ + crates.last() + "\n"@
    }
}

pub open spec fn cargo_section(crates: Seq<Seq<char>>) -> Seq<char> {
    if crates.len() == 0 {
        Seq::empty()
    } else {
        "echo 'Installing cargo packages...'\n"@ + "su - ec2-user -c '\n"@ + "source ~/.cargo/env\n"@
            + cargo_lines(crates) + "'\n\n"@
    }
}

/// Installs the toolchain for the instance's user, then the crates.
pub open spec fn rust_section(
    enabled: bool,
    channel: Seq<char>,
    components: Seq<Seq<char>>,
    crates: Seq<Seq<char>>,
) -> Seq<char> {
    if !enabled {
        Seq::empty()
    } else {
        "echo 'Installing Rust...'\n"@ + "su - ec2-user -c '\n"@
            + "curl --proto \"=https\" --tlsv1.2 -sSf https://sh.rustup.rs | sh -s -- -y"@
            + toolchain_flag(channel) + "\n"@ + "source ~/.cargo/env\n"@ + components_line(components)
            + "'\n\n"@ + cargo_section(crates)
    }
}

/// One `export` line per variable.
pub open spec fn export_lines(vars: Seq<(String, String)>) -> Seq<char>
    decreases vars.len(),
{
    if vars.len() == 0 {
        Seq::empty()
    } else {
        export_lines(vars.drop_last()) + "export "@ + vars.last().0@ + "=\""@ + vars.last().1@
            + "\"\n"@
    }
}

pub open spec fn environment_section(vars: Seq<(String, String)>) -> Seq<char> {
    if vars.len() == 0 {
        Seq::empty()
    } else {
        "echo 'Setting environment variables...'\n"@
            + "cat >> /home/ec2-user/.bashrc << 'ENVEOF'\n"@ + export_lines(vars) + "ENVEOF\n\n"@
    }
}

pub open spec fn directories_section() -> Seq<char> {
    "echo 'Setting up git directories...'\n"@ + "mkdir -p /home/ec2-user/repos\n"@
        + "mkdir -p /home/ec2-user/work\n"@
        + "chown -R ec2-user:ec2-user /home/ec2-user/repos /home/ec2-user/work\n\n"@
}

/// A bare repository for the project, with a hook that checks pushes out
/// into the work tree.
pub open spec fn project_section(project: Option<Seq<char>>) -> Seq<char> {
    match project {
        None => Seq::empty(),
        Some(name) => "echo 'Setting up git repo for "@ + name + "...'\n"@
            + "su - ec2-user -c 'git init --bare /home/ec2-user/repos/"@ + name + ".git'\n"@
            + "cat > /home/ec2-user/repos/"@ + name
            + ".git/hooks/post-receive << 'HOOKEOF'\n#!/bin/bash\nGIT_WORK_TREE=/home/ec2-user/work/"@
            + name + " git checkout -f\nHOOKEOF\n"@ + "chmod +x /home/ec2-user/repos/"@ + name
            + ".git/hooks/post-receive\n"@ + "chown -R ec2-user:ec2-user /home/ec2-user/repos/"@
            + name + ".git\n"@ + "mkdir -p /home/ec2-user/work/"@ + name + "\n"@
            + "chown -R ec2-user:ec2-user /home/ec2-user/work/"@ + name + "\n\n"@,
    }
}

pub open spec fn footer_section() -> Seq<char> {
    "echo 'ec2-cli initialization complete!'\n"@ + "touch /home/ec2-user/.ec2-cli-ready\n"@
}

/// The bootstrap script for `profile`, with a repository for `project` if given.
pub open spec fn user_data(profile: Profile, project: Option<Seq<char>>) -> Seq<char> {
    header_section() + system_section(views(profile.packages.system@)) + rust_section(
        profile.packages.rust.enabled,
        profile.packages.rust.channel@,
        views(profile.packages.rust.components@),
        views(profile.packages.cargo@),
    ) + environment_section(profile.environment.pairs()) + directories_section() + project_section(
        project,
    ) + footer_section()
}

fn header() -> (r: String)
    ensures
        r@ == header_section(),
{
    let mut s = String::from_str("#!/bin/bash\nset -ex\n\n");
    s.append("exec > >(tee /var/log/ec2-cli-init.log) 2>&1\n\n");
    s.append("echo 'Waiting for cloud-init...'\n");
    s.append("cloud-init status --wait || true\n\n");
    s
}

fn system_packages(packages: &Vec<String>) -> (r: String)
    ensures
        r@ == system_section(views(packages@)),
{
    if packages.len() == 0 {
        return String::new();
    }
    let list = join(packages, " ");
    let mut s = String::from_str("echo 'Installing system packages...'\n");
    s.append("if command -v dnf &> /dev/null; then\n");
    s.append("    dnf install -y ");
    s.append(list.as_str());
    s.append("\n");
    s.append("elif command -v yum &> /dev/null; then\n");
    s.append("    yum install -y ");
    s.append(list.as_str());
    s.append("\n");
    s.append("elif command -v apt-get &> /dev/null; then\n");
    s.append("    apt-get update\n");
    s.append("    apt-get install -y ");
    s.append(list.as_str());
    s.append("\n");
    s.append("fi\n\n");
    s
}

fn cargo_installs(crates: &Vec<String>) -> (r: String)
    ensures
        r@ == cargo_section(views(crates@)),
{
    if crates.len() == 0 {
        return String::new();
    }
    let mut lines = String::new();
    let mut i: usize = 0;
    while i < crates.len()
        invariant
            i <= crates@.len(),
            lines@ == cargo_lines(views(crates@.subrange(0, i as int))),
        decreases crates@.len() - i,
    {
        lines.append("cargo install ");
        lines.append(crates[i].as_str());
        lines.append("\n");
        i += 1;
        proof {
            let now = views(crates@.subrange(0, i as int));
            assert(now.drop_last() =~= views(crates@.subrange(0, i - 1)));
        }
    }
    assert(crates@.subrange(0, crates@.len() as int) =~= crates@);
    let mut s = String::from_str("echo 'Installing cargo packages...'\n");
    s.append("su - ec2-user -c '\n");
    s.append("source ~/.cargo/env\n");
    s.append(lines.as_str());
    s.append("'\n\n");
    s
}

fn rust_toolchain(profile: &Profile) -> (r: String)
    ensures
        r@ == rust_section(
            profile.packages.rust.enabled,
            profile.packages.rust.channel@,
            views(profile.packages.rust.components@),
            views(profile.packages.cargo@),
        ),
{
    let rust = &profile.packages.rust;
    if !rust.enabled {
        return String::new();
    }
    let mut s = String::from_str("echo 'Installing Rust...'\n");
    s.append("su - ec2-user -c '\n");
    s.append("curl --proto \"=https\" --tlsv1.2 -sSf https://sh.rustup.rs | sh -s -- -y");
    let stable = String::from_str("stable");
    if rust.channel != stable {
        s.append(" --default-toolchain ");
        s.append(rust.channel.as_str());
    } else {
        assert(s@ + Seq::<char>::empty() =~= s@);
    }
    s.append("\n");
    s.append("source ~/.cargo/env\n");
    if rust.components.len() > 0 {
        let list = join(&rust.components, " ");
        s.append("rustup component add ");
        s.append(list.as_str());
        s.append("\n");
    } else {
        assert(s@ + Seq::<char>::empty() =~= s@);
    }
    s.append("'\n\n");
    let cargo = cargo_installs(&profile.packages.cargo);
    s.append(cargo.as_str());
    s
}

fn environment(vars: &crate::name_map::NameMap<String>) -> (r: String)
    ensures
        r@ == environment_section(vars.pairs()),
{
    let n = vars.len();
    if n == 0 {
        return String::new();
    }
    let mut lines = String::new();
    let mut i: usize = 0;
    while i < n
        invariant
            n == vars.pairs().len(),
            i <= n,
            lines@ == export_lines(vars.pairs().subrange(0, i as int)),
        decreases n - i,
    {
        let (key, value) = vars.entry(i);
        lines.append("export ");
        lines.append(key.as_str());
        lines.append("=\"");
        lines.append(value.as_str());
        lines.append("\"\n");
        i += 1;
        proof {
            let now = vars.pairs().subrange(0, i as int);
            assert(now.drop_last() =~= vars.pairs().subrange(0, i - 1));
        }
    }
    assert(vars.pairs().subrange(0, n as int) =~= vars.pairs());
    let mut s = String::from_str("echo 'Setting environment variables...'\n");
    s.append("cat >> /home/ec2-user/.bashrc << 'ENVEOF'\n");
    s.append(lines.as_str());
    s.append("ENVEOF\n\n");
    s
}

fn directories() -> (r: String)
    ensures
        r@ == directories_section(),
{
    let mut s = String::from_str("echo 'Setting up git directories...'\n");
    s.append("mkdir -p /home/ec2-user/repos\n");
    s.append("mkdir -p /home/ec2-user/work\n");
    s.append("chown -R ec2-user:ec2-user /home/ec2-user/repos /home/ec2-user/work\n\n");
    s
}

fn project_repo(project: Option<&str>) -> (r: String)
    ensures
        r@ == project_section(
            match project {
                Some(p) => Some(p@),
                None => None,
            },
        ),
{
    match project {
        None => String::new(),
        Some(name) => {
            let mut s = String::from_str("echo 'Setting up git repo for ");
            s.append(name);
            s.append("...'\n");
            s.append("su - ec2-user -c 'git init --bare /home/ec2-user/repos/");
            s.append(name);
            s.append(".git'\n");
            s.append("cat > /home/ec2-user/repos/");
            s.append(name);
            s.append(
                ".git/hooks/post-receive << 'HOOKEOF'\n#!/bin/bash\nGIT_WORK_TREE=/home/ec2-user/work/",
            );
            s.append(name);
            s.append(" git checkout -f\nHOOKEOF\n");
            s.append("chmod +x /home/ec2-user/repos/");
            s.append(name);
            s.append(".git/hooks/post-receive\n");
            s.append("chown -R ec2-user:ec2-user /home/ec2-user/repos/");
            s.append(name);
            s.append(".git\n");
            s.append("mkdir -p /home/ec2-user/work/");
            s.append(name);
            s.append("\n");
            s.append("chown -R ec2-user:ec2-user /home/ec2-user/work/");
            s.append(name);
            s.append("\n\n");
            s
        },
    }
}

fn footer() -> (r: String)
    ensures
        r@ == footer_section(),
{
    let mut s = String::from_str("echo 'ec2-cli initialization complete!'\n");
    s.append("touch /home/ec2-user/.ec2-cli-ready\n");
    s
}

/// The bootstrap script that prepares a new instance for `profile`: system
/// packages, the Rust toolchain and crates, environment variables, and, when
/// a project is named, a bare repository that checks pushes out.
pub fn generate_user_data(profile: &Profile, project_name: Option<&str>) -> (r: String)
    ensures
        r@ == user_data(
            *profile,
            match project_name {
                Some(p) => Some(p@),
                None => None,
            },
        ),
{
    let mut script = header();
    script.append(system_packages(&profile.packages.system).as_str());
    script.append(rust_toolchain(profile).as_str());
    script.append(environment(&profile.environment).as_str());
    script.append(directories().as_str());
    script.append(project_repo(project_name).as_str());
    script.append(footer().as_str());
    script
}

} // verus!
