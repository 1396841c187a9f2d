//! `ssh`: the `ssh` command that reaches the instance of a name.
use vstd::prelude::*;
use vstd::string::*;
use crate::cmdline::{lowercase_of, os_named, OsNames};
use crate::ec2_wrapper::{Ec2Wrapper, Exchange, Session};
use crate::error::AwsInstanceError;
use crate::model::Instance;
use crate::text::{opt_text, push_line, texts};
use crate::util::{
    get_instance_by_name, get_os_for_instance, instance_tag, is_lookup, looked_up, os_of,
};

verus! {

/// The user to log in as on an instance of the given operating system,
/// where nobody said otherwise.
pub open spec fn default_username(os: Option<OsNames>) -> Seq<char> {
    match os {
        Some(OsNames::CentOS) => "centos"@,
        Some(OsNames::Debian) => "admin"@,
        Some(OsNames::Fedora) => "fedora"@,
        Some(OsNames::Ubuntu) => "ubuntu"@,
        _ => "ec2-user"@,
    }
}

/// The conventional user of an operating system; `ec2-user` for the
/// systems without one of their own, and for none.
pub fn username_for(os: Option<OsNames>) -> (r: &'static str)
    ensures
        r@ == default_username(os),
{
    match os {
        Some(OsNames::CentOS) => "centos",
        Some(OsNames::Debian) => "admin",
        Some(OsNames::Fedora) => "fedora",
        Some(OsNames::Ubuntu) => "ubuntu",
        _ => "ec2-user",
    }
}

/// The process to start, and what to tell the user before.
#[derive(Debug)]
pub struct SshCommand {
    /// The program to run.
    pub program: String,
    /// Its arguments, in order.
    pub args: Vec<String>,
    /// What to print before the program starts, if anything.
    pub notice: Option<String>,
}

/// The user that the command logs in as: the one given, else the
/// conventional user of the instance's operating system.
pub open spec fn login_name(instance: Instance, username: Option<Seq<char>>) -> Seq<char> {
    match username {
        Some(given) => given,
        None => default_username(os_of(instance)),
    }
}

/// Whether `command` is the one that reaches `instance` at `address`:
/// `ssh`, with the address, `-l`, the user and then the options as its
/// arguments. Where the user was inferred, a notice names it.
pub open spec fn reaches(
    command: SshCommand,
    instance: Instance,
    address: Seq<char>,
    username: Option<Seq<char>>,
    ssh_opts: Seq<Seq<char>>,
) -> bool {
    &&& command.program@ == "ssh"@
    &&& texts(command.args@) == seq![address, "-l"@, login_name(instance, username)] + ssh_opts
    &&& opt_text(command.notice) == match username {
        Some(_) => None,
        None => Some(
            "Attempting to log in using username '"@ + default_username(os_of(instance)) + "'"@,
        ),
    }
}

/// The command for an instance with a public address.
pub fn ssh_command(
    instance: &Instance,
    address: &str,
    username: &Option<String>,
    ssh_opts: &Vec<String>,
) -> (r: SshCommand)
    ensures
        reaches(r, *instance, address@, opt_text(*username), texts(ssh_opts@)),
{
    let (user, notice) = match username {
        Some(given) => (given.clone(), None),
        None => {
            let inferred = username_for(get_os_for_instance(instance));
            let mut notice = String::from_str("Attempting to log in using username '");
            notice.append(inferred);
            notice.append("'");
            (String::from_str(inferred), Some(notice))
        },
    };
    let mut args: Vec<String> = Vec::new();
    push_line(&mut args, String::from_str(address));
    push_line(&mut args, String::from_str("-l"));
    push_line(&mut args, user);
    let mut i: usize = 0;
    let ghost head = texts(args@);
    proof {
        assert(head =~= seq![address@, "-l"@, login_name(*instance, opt_text(*username))]);
        assert(texts(args@) =~= head + texts(ssh_opts@).take(0));
    }
    while i < ssh_opts.len()
        invariant
            i <= ssh_opts.len(),
            texts(args@) == head + texts(ssh_opts@).take(i as int),
        decreases ssh_opts.len() - i,
    {
        let ghost before = texts(args@);
        push_line(&mut args, ssh_opts[i].clone());
        proof {
            assert(head + texts(ssh_opts@).take(i + 1) =~= before.push(ssh_opts@[i as int]@));
        }
        i = i + 1;
    }
    proof {
        assert(texts(ssh_opts@).take(ssh_opts.len() as int) =~= texts(ssh_opts@));
    }
    SshCommand { program: String::from_str("ssh"), args, notice }
}

/// What the command comes to once the one call it makes is known. The
/// call looks the name up. An error there is passed on; no instance of that
/// name is an error of its own, and so is an instance without a public
/// address. Else the result is the command that reaches the instance.
pub open spec fn ssh_outcome(
    name: Seq<char>,
    username: Option<Seq<char>>,
    ssh_opts: Seq<Seq<char>>,
    calls: Seq<Exchange>,
    result: Result<SshCommand, AwsInstanceError>,
) -> bool {
    &&& calls.len() == 1
    &&& is_lookup(calls[0], name)
    &&& match looked_up(calls[0]) {
        Err(error) => result == Err::<SshCommand, AwsInstanceError>(error),
        Ok(None) => result matches Err(AwsInstanceError::InstanceNotFoundError { instance_name })
            && instance_name@ == name,
        Ok(Some(instance)) => match instance.public_ip_address {
            None => result matches Err(
                AwsInstanceError::IPAddressNotFoundError { instance_name },
            ) && instance_name@ == name,
            Some(address) => result matches Ok(command) && reaches(
                command,
                instance,
                address@,
                username,
                ssh_opts,
            ),
        },
    }
}

/// Works out how to reach the instance called `name` with `ssh`. The
/// caller starts the process.
pub fn ssh<C: Ec2Wrapper>(
    ec2_client: &mut Session<C>,
    name: &str,
    username: &Option<String>,
    ssh_opts: &Vec<String>,
) -> (r: Result<SshCommand, AwsInstanceError>)
    ensures
        final(ec2_client).extends(old(ec2_client)),
        ssh_outcome(
            name@,
            opt_text(*username),
            texts(ssh_opts@),
            final(ec2_client).since(old(ec2_client)),
            r,
        ),
{
    match get_instance_by_name(ec2_client, name) {
        Err(error) => Err(error),
        Ok(None) => Err(
            AwsInstanceError::InstanceNotFoundError { instance_name: String::from_str(name) },
        ),
        Ok(Some(instance)) => match &instance.public_ip_address {
            None => Err(
                AwsInstanceError::IPAddressNotFoundError { instance_name: String::from_str(name) },
            ),
            Some(address) => Ok(ssh_command(&instance, address.as_str(), username, ssh_opts)),
        },
    }
}

/// The exit code of the tool after `ssh` has ended: that of the process;
/// 1 where a signal ended it and it has none.
pub fn exit_code(status: Option<i32>) -> (r: i32)
    ensures
        r == match status {
            Some(code) => code,
            None => 1i32,
        },
{
    match status {
        Some(code) => code,
        None => 1,
    }
}

/// The lowercase names of the operating systems are all different, so each
/// stands for its own system.
pub proof fn lemma_names_differ()
    ensures
        os_named("amazonlinux"@) == Some(OsNames::AmazonLinux),
        os_named("centos"@) == Some(OsNames::CentOS),
        os_named("debian"@) == Some(OsNames::Debian),
        os_named("fedora"@) == Some(OsNames::Fedora),
        os_named("rhel"@) == Some(OsNames::RHEL),
        os_named("suse"@) == Some(OsNames::Suse),
        os_named("ubuntu"@) == Some(OsNames::Ubuntu),
{
    reveal_strlit("ubuntu");
    reveal_strlit("amazonlinux");
    reveal_strlit("centos");
    reveal_strlit("debian");
    reveal_strlit("fedora");
    reveal_strlit("rhel");
    reveal_strlit("suse");
    assert("amazonlinux"@[0] == 'a');
    assert("centos"@[0] == 'c');
    assert("debian"@[0] == 'd');
    assert("fedora"@[0] == 'f');
    assert("rhel"@[0] == 'r');
    assert("suse"@[0] == 's');
    assert("ubuntu"@[0] == 'u');
}

/// An instance whose `OS` tag reads `ubuntu` in lowercase is logged in to
/// as `ubuntu`, where no user is given.
pub proof fn lemma_ubuntu_user(instance: Instance, value: Seq<char>)
    requires
        instance_tag(instance, "OS"@) == Some(Some(value)),
        lowercase_of(value) == "ubuntu"@,
    ensures
        login_name(instance, None) == "ubuntu"@,
{
    lemma_names_differ();
}

/// An instance whose `OS` tag reads `rhel` in lowercase, and one without
/// an `OS` tag, are logged in to as `ec2-user`, where no user is given.
pub proof fn lemma_fallback_user(instance: Instance)
    requires
        instance_tag(instance, "OS"@) matches Some(Some(value)) ==> lowercase_of(value) == "rhel"@,
        instance_tag(instance, "OS"@) matches Some(held) ==> held is Some,
    ensures
        login_name(instance, None) == "ec2-user"@,
{
    lemma_names_differ();
}

} // verus!
