//! What the command line can say, and how it combines with a profile.
use vstd::prelude::*;
use vstd::string::*;
use clap_complete::Shell;
use crate::commands::create::{create_instance, create_outcome, CreateOptions, CreateOptionsView};
use crate::commands::destroy::{destroy_instance, destroy_outcome};
use crate::commands::list::{list, list_command_outcome};
use crate::commands::list_amis::{
    by_name, filter_texts, images_outcome, lemma_by_name_of_different_names, list_amis,
    names_differ,
};
use crate::commands::list_security_groups::{list_security_groups, listing_outcome};
use crate::commands::ssh::{ssh, ssh_outcome, SshCommand};
use crate::commands::start::{start, start_outcome};
use crate::commands::stop::{stop, stop_outcome};
use crate::ec2_wrapper::{Ec2Wrapper, Exchange, Session};
use crate::error::AwsInstanceError;
use crate::model::Reservation;
use crate::profile::{Profile, ProfileView};
use crate::text::{
    copy_text, copy_texts, extend, opt_text, push_line, split, split_spec, str_eq, texts,
};

verus! {

/// The operating systems that the tool knows by name.
#[derive(Clone, Copy, Debug, PartialEq, Eq, Hash, Structural)]
pub enum OsNames {
    AmazonLinux,
    CentOS,
    Debian,
    Fedora,
    RHEL,
    Suse,
    Ubuntu,
}

/// Why a text is no operating system name.
#[derive(Debug)]
pub enum OsNamesError {
    /// The text that was given.
    ParseError(String),
}

/// What `str::to_lowercase` returns for a string: its lowercase form by the
/// Unicode rules.
pub uninterp spec fn lowercase_of(s: Seq<char>) -> Seq<char>;

/// `str::to_lowercase`: the lowercase form of `s`.
#[verifier::external_body]
fn to_lowercase(s: &str) -> (r: String)
    ensures
        r@ == lowercase_of(s@),
{
    s.to_lowercase()
}

/// The operating system that a name in lowercase stands for.
pub open spec fn os_named(lower: Seq<char>) -> Option<OsNames> {
    if lower == "amazonlinux"@ {
        Some(OsNames::AmazonLinux)
    } else if lower == "centos"@ {
        Some(OsNames::CentOS)
    } else if lower == "debian"@ {
        Some(OsNames::Debian)
    } else if lower == "fedora"@ {
        Some(OsNames::Fedora)
    } else if lower == "rhel"@ {
        Some(OsNames::RHEL)
    } else if lower == "suse"@ {
        Some(OsNames::Suse)
    } else if lower == "ubuntu"@ {
        Some(OsNames::Ubuntu)
    } else {
        None
    }
}

/// Finds the operating system that a name in lowercase stands for.
pub fn os_by_lowercase_name(lower: &str) -> (r: Option<OsNames>)
    ensures
        r == os_named(lower@),
{
    if str_eq(lower, "amazonlinux") {
        Some(OsNames::AmazonLinux)
    } else if str_eq(lower, "centos") {
        Some(OsNames::CentOS)
    } else if str_eq(lower, "debian") {
        Some(OsNames::Debian)
    } else if str_eq(lower, "fedora") {
        Some(OsNames::Fedora)
    } else if str_eq(lower, "rhel") {
        Some(OsNames::RHEL)
    } else if str_eq(lower, "suse") {
        Some(OsNames::Suse)
    } else if str_eq(lower, "ubuntu") {
        Some(OsNames::Ubuntu)
    } else {
        None
    }
}

impl OsNames {
    /// The name as the tool writes it, in the `OS` tag and elsewhere.
    pub open spec fn name(self) -> Seq<char> {
        match self {
            OsNames::AmazonLinux => "AmazonLinux"@,
            OsNames::CentOS => "CentOS"@,
            OsNames::Debian => "Debian"@,
            OsNames::Fedora => "Fedora"@,
            OsNames::RHEL => "RHEL"@,
            OsNames::Suse => "Suse"@,
            OsNames::Ubuntu => "Ubuntu"@,
        }
    }

    /// The name as a string slice.
    pub fn as_str(&self) -> (r: &'static str)
        ensures
            r@ == self.name(),
    {
        match self {
            OsNames::AmazonLinux => "AmazonLinux",
            OsNames::CentOS => "CentOS",
            OsNames::Debian => "Debian",
            OsNames::Fedora => "Fedora",
            OsNames::RHEL => "RHEL",
            OsNames::Suse => "Suse",
            OsNames::Ubuntu => "Ubuntu",
        }
    }

    /// The name as an owned string.
    pub fn to_string(&self) -> (r: String)
        ensures
            r@ == self.name(),
    {
        String::from_str(self.as_str())
    }

    /// Reads a name without regard to case. A text that names no known
    /// operating system comes back in the error, unchanged.
    pub fn from_str(s: &str) -> (r: Result<OsNames, OsNamesError>)
        ensures
            match os_named(lowercase_of(s@)) {
                Some(os) => r == Ok::<OsNames, OsNamesError>(os),
                None => r matches Err(OsNamesError::ParseError(given)) && given@ == s@,
            },
    {
        let lower = to_lowercase(s);
        match os_by_lowercase_name(lower.as_str()) {
            Some(os) => Ok(os),
            None => Err(OsNamesError::ParseError(String::from_str(s))),
        }
    }
}

impl std::str::FromStr for OsNames {
    type Err = OsNamesError;

    /// Reads a name as the inherent `from_str` does.
    fn from_str(s: &str) -> (r: Result<OsNames, OsNamesError>)
        ensures
            match os_named(lowercase_of(s@)) {
                Some(os) => r == Ok::<OsNames, OsNamesError>(os),
                None => r matches Err(OsNamesError::ParseError(given)) && given@ == s@,
            },
    {
        OsNames::from_str(s)
    }
}

impl OsNamesError {
    /// The error as the tool prints it.
    pub open spec fn text(&self) -> Seq<char> {
        match *self {
            OsNamesError::ParseError(given) => "Error parsing "@ + given@,
        }
    }

    /// The error as the tool prints it.
    pub fn to_string(&self) -> (r: String)
        ensures
            r@ == self.text(),
    {
        match self {
            OsNamesError::ParseError(given) => {
                let mut r = String::from_str("Error parsing ");
                r.append(given.as_str());
                r
            },
        }
    }
}

/// `clap_complete::Shell`: a shell that completions can be written for.
/// Opaque here.
#[verifier::external_type_specification]
#[verifier::external_body]
pub struct ExShell(Shell);

/// What the command line holds: the options for every command, and the
/// command.
#[derive(Debug)]
pub struct CmdLineOptions {
    /// The path of the tool's own configuration file.
    pub config_file: Option<String>,
    /// The profile to use.
    pub profile: Option<String>,
    /// The region to work in.
    pub region: Option<String>,
    pub subcommand: SubCommands,
}

/// The commands of the tool with their arguments.
#[derive(Debug)]
pub enum SubCommands {
    Create {
        name: String,
        ami_id: String,
        ebs_optimized: bool,
        iam_profile: Option<String>,
        instance_type: Option<String>,
        keypair_name: Option<String>,
        security_group_ids: Vec<String>,
        os_name: Option<OsNames>,
    },
    Destroy { name: String },
    List { ansible: bool },
    ListAmis {
        name: Option<String>,
        architecture: String,
        image_id: Option<String>,
        search: Option<String>,
    },
    ListGroups { name: Option<String> },
    Ssh { name: String, username: Option<String>, key: Option<String>, sshopts: Vec<String> },
    Start { name: String },
    Stop { name: String },
    GenerateCompletions { shell: Shell },
}

/// What a command leaves for the caller to do.
#[derive(Debug)]
pub enum Output {
    /// Lines to print.
    Lines(Vec<String>),
    /// Nothing: the instance was created, as the reservation says.
    Created(Reservation),
    /// A process to start and wait for.
    Ssh(SshCommand),
    /// Completions to write for the shell.
    Completions(Shell),
}

/// The first of two values that is there.
pub open spec fn first_of_two(a: Option<Seq<char>>, b: Option<Seq<char>>) -> Option<Seq<char>> {
    match a {
        Some(_) => a,
        None => b,
    }
}

/// The filters of `list-amis`, in this order: the image name, if one is
/// given; the architectures, which a comma sets apart; the image ids, if
/// any are given, set apart in the same way.
pub open spec fn image_filters(
    name: Option<Seq<char>>,
    architecture: Seq<char>,
    image_id: Option<Seq<char>>,
) -> Seq<(Seq<char>, Seq<Seq<char>>)> {
    let by_name = match name {
        Some(n) => seq![("name"@, seq![n])],
        None => Seq::empty(),
    };
    let by_id = match image_id {
        Some(ids) => seq![("image-id"@, split_spec(ids, ","@))],
        None => Seq::empty(),
    };
    by_name + seq![("architecture"@, split_spec(architecture, ","@))] + by_id
}

/// Builds the filters of `list-amis`.
pub fn build_image_filters(
    name: &Option<String>,
    architecture: &str,
    image_id: &Option<String>,
) -> (r: Vec<(String, Vec<String>)>)
    ensures
        filter_texts(r@) == image_filters(opt_text(*name), architecture@, opt_text(*image_id)),
{
    proof {
        reveal_strlit(",");
    }
    let mut filters: Vec<(String, Vec<String>)> = Vec::new();
    match name {
        Some(n) => {
            let mut values: Vec<String> = Vec::new();
            values.push(n.clone());
            proof {
                assert(texts(values@) =~= seq![n@]);
            }
            filters.push((String::from_str("name"), values));
        },
        None => {},
    }
    filters.push((String::from_str("architecture"), split(architecture, ",")));
    match image_id {
        Some(ids) => {
            filters.push((String::from_str("image-id"), split(ids.as_str(), ",")));
        },
        None => {},
    }
    proof {
        assert(filter_texts(filters@) =~= image_filters(
            opt_text(*name),
            architecture@,
            opt_text(*image_id),
        ));
    }
    filters
}

/// The instance type of last resort.
pub open spec fn default_instance_type() -> Seq<char> {
    "m1.small"@
}

/// The security groups of a new instance: those of the command line; those
/// of the profile where the command line gives none and the profile has a
/// list.
pub open spec fn chosen_groups(given: Seq<Seq<char>>, profile: Option<Seq<Seq<char>>>) -> Seq<
    Seq<char>,
> {
    match profile {
        Some(groups) => if given.len() == 0 {
            groups
        } else {
            given
        },
        None => given,
    }
}

/// The instance type of a new instance: that of the command line, else that
/// of the profile, else `m1.small`.
pub open spec fn chosen_type(given: Option<Seq<char>>, profile: Option<Seq<char>>) -> Option<
    Seq<char>,
> {
    match first_of_two(given, profile) {
        Some(t) => Some(t),
        None => Some(default_instance_type()),
    }
}

/// The options of `create`, every default filled in: the command line
/// goes before the profile, and the profile before what is built in.
pub open spec fn filled_options(command: SubCommands, profile: ProfileView) -> CreateOptionsView
    recommends
        command is Create,
{
    CreateOptionsView {
        name: command->Create_name@,
        ami_id: command->ami_id@,
        ebs_optimized: command->ebs_optimized,
        iam_profile: opt_text(command->iam_profile),
        instance_type: chosen_type(opt_text(command->instance_type), profile.default_instance_type),
        keypair_name: first_of_two(opt_text(command->keypair_name), profile.keypair),
        security_group_ids: chosen_groups(
            texts(command->security_group_ids@),
            profile.security_groups,
        ),
        os_name: command->os_name,
    }
}

fn either(a: &Option<String>, b: &Option<String>) -> (r: Option<String>)
    ensures
        opt_text(r) == first_of_two(opt_text(*a), opt_text(*b)),
{
    match a {
        Some(_) => copy_text(a),
        None => copy_text(b),
    }
}

/// The options that `ssh` hands on: `-i` and the key path, then those
/// given, where there is a key and the options do not say `-i` themselves;
/// else those given, as they are. The key stands before the options, so that
/// it cannot end up within a remote command.
pub open spec fn with_identity(sshopts: Seq<Seq<char>>, key: Option<Seq<char>>) -> Seq<Seq<char>> {
    match key {
        Some(path) => if sshopts.contains("-i"@) {
            sshopts
        } else {
            seq!["-i"@, path] + sshopts
        },
        None => sshopts,
    }
}

fn says_identity(sshopts: &Vec<String>) -> (r: bool)
    ensures
        r == texts(sshopts@).contains("-i"@),
{
    let mut i: usize = 0;
    while i < sshopts.len()
        invariant
            i <= sshopts.len(),
            forall|k: int| 0 <= k < i ==> texts(sshopts@)[k] != "-i"@,
        decreases sshopts.len() - i,
    {
        if str_eq(sshopts[i].as_str(), "-i") {
            assert(texts(sshopts@)[i as int] == "-i"@);
            return true;
        }
        i = i + 1;
    }
    false
}

/// Adds the identity file to the options of `ssh`, as `with_identity` says.
pub fn identity_options(sshopts: &Vec<String>, key: &Option<String>) -> (r: Vec<String>)
    ensures
        texts(r@) == with_identity(texts(sshopts@), opt_text(*key)),
{
    match key {
        Some(path) => {
            if says_identity(sshopts) {
                copy_texts(sshopts)
            } else {
                let mut options: Vec<String> = Vec::new();
                push_line(&mut options, String::from_str("-i"));
                push_line(&mut options, path.clone());
                extend(&mut options, copy_texts(sshopts));
                proof {
                    assert(texts(options@) =~= seq!["-i"@, path@] + texts(sshopts@));
                }
                options
            }
        },
        None => copy_texts(sshopts),
    }
}

/// What a command returned, where that is lines or an error; `None` for
/// any other output.
pub open spec fn as_lines(result: Result<Output, AwsInstanceError>) -> Option<
    Result<Vec<String>, AwsInstanceError>,
> {
    match result {
        Ok(Output::Lines(lines)) => Some(Ok(lines)),
        Ok(_) => None,
        Err(error) => Some(Err(error)),
    }
}

/// What a command returned, where that is a reservation or an error;
/// `None` for any other output.
pub open spec fn as_reservation(result: Result<Output, AwsInstanceError>) -> Option<
    Result<Reservation, AwsInstanceError>,
> {
    match result {
        Ok(Output::Created(reservation)) => Some(Ok(reservation)),
        Ok(_) => None,
        Err(error) => Some(Err(error)),
    }
}

/// What a command returned, where that is an `ssh` command or an error;
/// `None` for any other output.
pub open spec fn as_ssh(result: Result<Output, AwsInstanceError>) -> Option<
    Result<SshCommand, AwsInstanceError>,
> {
    match result {
        Ok(Output::Ssh(command)) => Some(Ok(command)),
        Ok(_) => None,
        Err(error) => Some(Err(error)),
    }
}

/// What running a command comes to once its calls are known: what the
/// handler of the command comes to, on the arguments of the command with
/// the defaults of the profile filled in. Writing completions makes no call.
pub open spec fn run_outcome(
    command: SubCommands,
    profile: ProfileView,
    calls: Seq<Exchange>,
    result: Result<Output, AwsInstanceError>,
) -> bool {
    match command {
        SubCommands::List { ansible } => as_lines(result) matches Some(lines)
            && list_command_outcome(ansible, calls, lines),
        SubCommands::ListAmis { name, architecture, image_id, search } => as_lines(
            result,
        ) matches Some(lines) && images_outcome(
            image_filters(opt_text(name), architecture@, opt_text(image_id)),
            opt_text(search),
            calls,
            lines,
        ),
        SubCommands::ListGroups { name } => as_lines(result) matches Some(lines)
            && listing_outcome(opt_text(name), calls, lines),
        SubCommands::Create { .. } => as_reservation(result) matches Some(created)
            && create_outcome(filled_options(command, profile), calls, created),
        SubCommands::Destroy { name } => as_lines(result) matches Some(lines) && destroy_outcome(
            name@,
            calls,
            lines,
        ),
        SubCommands::Ssh { name, username, key, sshopts } => as_ssh(result) matches Some(
            reached,
        ) && ssh_outcome(
            name@,
            opt_text(username),
            with_identity(texts(sshopts@), first_of_two(opt_text(key), profile.ssh_key)),
            calls,
            reached,
        ),
        SubCommands::Start { name } => as_lines(result) matches Some(lines) && start_outcome(
            name@,
            calls,
            lines,
        ),
        SubCommands::Stop { name } => as_lines(result) matches Some(lines) && stop_outcome(
            name@,
            calls,
            lines,
        ),
        SubCommands::GenerateCompletions { shell } => calls.len() == 0 && result == Ok::<
            Output,
            AwsInstanceError,
        >(Output::Completions(shell)),
    }
}

impl SubCommands {
    /// Runs the command. What it returns is left for the caller to print,
    /// start or write.
    pub fn run<C: Ec2Wrapper>(&self, client: &mut Session<C>, profile: Profile) -> (r: Result<
        Output,
        AwsInstanceError,
    >)
        ensures
            final(client).extends(old(client)),
            run_outcome(*self, profile@, final(client).since(old(client)), r),
    {
        match self {
            SubCommands::List { .. } => match self.list(client) {
                Ok(lines) => Ok(Output::Lines(lines)),
                Err(error) => Err(error),
            },
            SubCommands::ListAmis { .. } => match self.list_amis(client) {
                Ok(lines) => Ok(Output::Lines(lines)),
                Err(error) => Err(error),
            },
            SubCommands::ListGroups { .. } => match self.list_security_groups(client) {
                Ok(lines) => Ok(Output::Lines(lines)),
                Err(error) => Err(error),
            },
            SubCommands::Create { .. } => match self.create(client, profile) {
                Ok(reservation) => Ok(Output::Created(reservation)),
                Err(error) => Err(error),
            },
            SubCommands::Destroy { name } => match destroy_instance(client, name.as_str()) {
                Ok(lines) => Ok(Output::Lines(lines)),
                Err(error) => Err(error),
            },
            SubCommands::Ssh { .. } => match self.ssh(client, profile) {
                Ok(command) => Ok(Output::Ssh(command)),
                Err(error) => Err(error),
            },
            SubCommands::Start { name } => match start(client, name.as_str()) {
                Ok(lines) => Ok(Output::Lines(lines)),
                Err(error) => Err(error),
            },
            SubCommands::Stop { name } => match stop(client, name.as_str()) {
                Ok(lines) => Ok(Output::Lines(lines)),
                Err(error) => Err(error),
            },
            SubCommands::GenerateCompletions { shell } => {
                proof {
                    assert(client.since(old(client)) =~= Seq::<Exchange>::empty());
                }
                Ok(Output::Completions(*shell))
            },
        }
    }

    /// Runs `list`.
    pub fn list<C: Ec2Wrapper>(&self, client: &mut Session<C>) -> (r: Result<
        Vec<String>,
        AwsInstanceError,
    >)
        requires
            self is List,
        ensures
            final(client).extends(old(client)),
            list_command_outcome(self->ansible, final(client).since(old(client)), r),
    {
        match self {
            SubCommands::List { ansible } => list(client, *ansible),
            _ => unreached(),
        }
    }

    /// Runs `list-amis`, with the filters that its arguments make.
    pub fn list_amis<C: Ec2Wrapper>(&self, client: &mut Session<C>) -> (r: Result<
        Vec<String>,
        AwsInstanceError,
    >)
        requires
            self is ListAmis,
        ensures
            final(client).extends(old(client)),
            images_outcome(
                image_filters(
                    opt_text(self->ListAmis_name),
                    self->architecture@,
                    opt_text(self->image_id),
                ),
                opt_text(self->search),
                final(client).since(old(client)),
                r,
            ),
    {
        match self {
            SubCommands::ListAmis { name, architecture, image_id, search } => {
                let filters = build_image_filters(name, architecture.as_str(), image_id);
                list_amis(client, &filters, copy_text(search))
            },
            _ => unreached(),
        }
    }

    /// Runs `list-security-groups`.
    pub fn list_security_groups<C: Ec2Wrapper>(&self, client: &mut Session<C>) -> (r: Result<
        Vec<String>,
        AwsInstanceError,
    >)
        requires
            self is ListGroups,
        ensures
            final(client).extends(old(client)),
            listing_outcome(
                opt_text(self->ListGroups_name),
                final(client).since(old(client)),
                r,
            ),
    {
        match self {
            SubCommands::ListGroups { name } => list_security_groups(client, name),
            _ => unreached(),
        }
    }

    /// The options of `create` with every default filled in.
    pub fn create_options(&self, profile: &Profile) -> (r: CreateOptions)
        requires
            self is Create,
        ensures
            r@ == filled_options(*self, profile@),
    {
        match self {
            SubCommands::Create {
                name,
                ami_id,
                ebs_optimized,
                iam_profile,
                instance_type,
                keypair_name,
                security_group_ids,
                os_name,
            } => {
                let groups = match &profile.security_groups {
                    Some(list) => if security_group_ids.len() == 0 {
                        copy_texts(list)
                    } else {
                        copy_texts(security_group_ids)
                    },
                    None => copy_texts(security_group_ids),
                };
                let kind = match either(instance_type, &profile.default_instance_type) {
                    Some(t) => Some(t),
                    None => Some(String::from_str("m1.small")),
                };
                CreateOptions {
                    name: name.clone(),
                    ami_id: ami_id.clone(),
                    ebs_optimized: *ebs_optimized,
                    iam_profile: copy_text(iam_profile),
                    instance_type: kind,
                    keypair_name: either(keypair_name, &profile.keypair),
                    security_group_ids: groups,
                    os_name: *os_name,
                }
            },
            _ => unreached(),
        }
    }

    /// Runs `create`, with the defaults of the profile filled in.
    pub fn create<C: Ec2Wrapper>(&self, client: &mut Session<C>, profile: Profile) -> (r: Result<
        Reservation,
        AwsInstanceError,
    >)
        requires
            self is Create,
        ensures
            final(client).extends(old(client)),
            create_outcome(
                filled_options(*self, profile@),
                final(client).since(old(client)),
                r,
            ),
    {
        let options = self.create_options(&profile);
        create_instance(client, options)
    }

    /// Runs `ssh`, with the key of the profile where none is given.
    pub fn ssh<C: Ec2Wrapper>(&self, client: &mut Session<C>, profile: Profile) -> (r: Result<
        SshCommand,
        AwsInstanceError,
    >)
        requires
            self is Ssh,
        ensures
            final(client).extends(old(client)),
            ssh_outcome(
                self->Ssh_name@,
                opt_text(self->username),
                with_identity(
                    texts(self->sshopts@),
                    first_of_two(opt_text(self->key), profile@.ssh_key),
                ),
                final(client).since(old(client)),
                r,
            ),
    {
        match self {
            SubCommands::Ssh { name, username, key, sshopts } => {
                let identity = either(key, &profile.ssh_key);
                let options = identity_options(sshopts, &identity);
                ssh(client, name.as_str(), username, &options)
            },
            _ => unreached(),
        }
    }
}

/// Options that say `-i` themselves are handed on as they are: no key is
/// added to them, whatever the command line or the profile holds.
pub proof fn lemma_identity_is_not_doubled(sshopts: Seq<Seq<char>>, key: Option<Seq<char>>)
    requires
        sshopts.contains("-i"@),
    ensures
        with_identity(sshopts, key) == sshopts,
{
}

/// Options that do not say `-i` get the key, where there is one, before
/// them, and nothing else is changed.
pub proof fn lemma_identity_is_added(sshopts: Seq<Seq<char>>, path: Seq<char>)
    requires
        !sshopts.contains("-i"@),
    ensures
        with_identity(sshopts, Some(path)) == seq!["-i"@, path] + sshopts,
{
}

/// The filters of `list-amis` all bear different names, so the request
/// carries them as they are: at most `name`, then `architecture`, then at
/// most `image-id`.
pub proof fn lemma_image_filters_keep(
    name: Option<Seq<char>>,
    architecture: Seq<char>,
    image_id: Option<Seq<char>>,
)
    ensures
        names_differ(image_filters(name, architecture, image_id)),
        by_name(image_filters(name, architecture, image_id)) == image_filters(
            name,
            architecture,
            image_id,
        ),
{
    reveal_strlit("name");
    reveal_strlit("architecture");
    reveal_strlit("image-id");
    assert("name"@.len() == 4);
    assert("architecture"@.len() == 12);
    assert("image-id"@.len() == 8);
    let filters = image_filters(name, architecture, image_id);
    assert forall|i: int, j: int| 0 <= i < j < filters.len() implies (#[trigger] filters[i]).0 != (
    #[trigger] filters[j]).0 by {
        assert(filters[i].0.len() != filters[j].0.len());
    }
    lemma_by_name_of_different_names(filters);
}

} // verus!
