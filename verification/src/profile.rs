//! Profiles: the defaults that the configuration files give under a name.
use vstd::prelude::*;
use vstd::string::*;
use rusoto_core::region::ParseRegionError;
use rusoto_core::Region;
use crate::error::AwsInstanceError;
use crate::grammar::{lines, lines_of, meaning, read_line, Line, LineView, Syntax};
use crate::text::{copy_text, copy_texts, opt_text, split, split_spec, str_eq, texts};

verus! {

/// `rusoto_core::Region`: a region of the provider. Opaque here.
#[verifier::external_type_specification]
#[verifier::external_body]
pub struct ExRegion(Region);

/// The region that `Region::from_str` reads from a name; `None` for a name
/// that it refuses.
pub uninterp spec fn region_named(name: Seq<char>) -> Option<Region>;

/// `<Region as FromStr>::from_str`, through `str::parse`: reads the name of
/// a region.
#[verifier::external_body]
fn parse_region(name: &str) -> (r: Result<Region, ParseRegionError>)
    ensures
        r is Ok <==> region_named(name@) is Some,
        r matches Ok(region) ==> region_named(name@) == Some(region),
{
    name.parse::<Region>()
}

/// `<Region as Clone>::clone`, which `derive` wrote: the copy equals the
/// region that was copied.
pub assume_specification[ <Region as Clone>::clone ](region: &Region) -> (r: Region)
    ensures
        r == *region,
;

/// The defaults of one named environment. A field that is `None` was set
/// nowhere; for the region that means the provider's own default.
#[derive(Debug)]
pub struct Profile {
    pub region: Option<Region>,
    pub keypair: Option<String>,
    pub ssh_key: Option<String>,
    pub default_instance_type: Option<String>,
    pub security_groups: Option<Vec<String>>,
}

/// A profile as mathematics has it.
pub struct ProfileView {
    pub region: Option<Region>,
    pub keypair: Option<Seq<char>>,
    pub ssh_key: Option<Seq<char>>,
    pub default_instance_type: Option<Seq<char>>,
    pub security_groups: Option<Seq<Seq<char>>>,
}

/// The security groups of a profile, by their text.
pub open spec fn groups_view(groups: Option<Vec<String>>) -> Option<Seq<Seq<char>>> {
    match groups {
        Some(list) => Some(texts(list@)),
        None => None,
    }
}

impl View for Profile {
    type V = ProfileView;

    open spec fn view(&self) -> ProfileView {
        ProfileView {
            region: self.region,
            keypair: opt_text(self.keypair),
            ssh_key: opt_text(self.ssh_key),
            default_instance_type: opt_text(self.default_instance_type),
            security_groups: groups_view(self.security_groups),
        }
    }
}

/// The profile in which nothing is set.
pub open spec fn empty_profile() -> ProfileView {
    ProfileView {
        region: None,
        keypair: None,
        ssh_key: None,
        default_instance_type: None,
        security_groups: None,
    }
}

/// The profile after a setting. The keys `region`, `keypair`, `key`,
/// `instance-type` and `security-groups` set a field each; the value of the
/// last is a list with a comma and a space between its items. Any other key
/// changes nothing.
pub open spec fn with_setting(profile: ProfileView, key: Seq<char>, value: Seq<char>) -> ProfileView {
    if key == "region"@ {
        ProfileView { region: region_named(value), ..profile }
    } else if key == "keypair"@ {
        ProfileView { keypair: Some(value), ..profile }
    } else if key == "key"@ {
        ProfileView { ssh_key: Some(value), ..profile }
    } else if key == "instance-type"@ {
        ProfileView { default_instance_type: Some(value), ..profile }
    } else if key == "security-groups"@ {
        ProfileView { security_groups: Some(split_spec(value, ", "@)), ..profile }
    } else {
        profile
    }
}

/// Whether a setting can be taken: one for `region` must name a region.
pub open spec fn setting_fits(key: Seq<char>, value: Seq<char>) -> bool {
    key == "region"@ ==> region_named(value) is Some
}

impl Default for Profile {
    fn default() -> (r: Profile)
        ensures
            r@ == empty_profile(),
    {
        Profile {
            region: None,
            keypair: None,
            ssh_key: None,
            default_instance_type: None,
            security_groups: None,
        }
    }
}

impl Clone for Profile {
    fn clone(&self) -> (r: Profile)
        ensures
            r@ == self@,
    {
        Profile {
            region: match &self.region {
                Some(region) => Some(region.clone()),
                None => None,
            },
            keypair: copy_text(&self.keypair),
            ssh_key: copy_text(&self.ssh_key),
            default_instance_type: copy_text(&self.default_instance_type),
            security_groups: match &self.security_groups {
                Some(list) => Some(copy_texts(list)),
                None => None,
            },
        }
    }
}

impl Profile {
    /// Takes a setting if it fits. A `region` that names no region is
    /// refused, and the profile stays as it was.
    pub fn try_add_value(&mut self, name: &str, value: &str) -> (r: Result<(), AwsInstanceError>)
        ensures
            match r {
                Ok(_) => setting_fits(name@, value@) && final(self)@ == with_setting(
                    old(self)@,
                    name@,
                    value@,
                ),
                Err(error) => {
                    &&& !setting_fits(name@, value@)
                    &&& error is ParseRegionError
                    &&& *final(self) == *old(self)
                },
            },
    {
        if str_eq(name, "region") {
            match parse_region(value) {
                Ok(region) => {
                    self.region = Some(region);
                },
                Err(source) => {
                    return Err(AwsInstanceError::ParseRegionError { source });
                },
            }
        } else if str_eq(name, "keypair") {
            self.keypair = Some(String::from_str(value));
        } else if str_eq(name, "key") {
            self.ssh_key = Some(String::from_str(value));
        } else if str_eq(name, "instance-type") {
            self.default_instance_type = Some(String::from_str(value));
        } else if str_eq(name, "security-groups") {
            proof {
                reveal_strlit(", ");
            }
            self.security_groups = Some(split(value, ", "));
        }
        Ok(())
    }

    /// Takes a setting. One for `region` must name a region.
    pub fn add_value(&mut self, name: &str, value: &str)
        requires
            setting_fits(name@, value@),
        ensures
            final(self)@ == with_setting(old(self)@, name@, value@),
    {
        let _ = self.try_add_value(name, value);
    }
}

/// Where a configuration file is.
#[derive(Debug)]
pub enum ConfigPath<P> {
    /// At the path that was given.
    Given(P),
    /// In the named directory under the user's home directory, under the
    /// named file name.
    UnderHome { directory: String, file: String },
}

/// Whether `path` is the given file under the given directory of the home
/// directory.
pub open spec fn is_under_home<P>(path: ConfigPath<P>, directory: Seq<char>, file: Seq<char>) -> bool {
    path matches ConfigPath::UnderHome { directory: d, file: f } && d@ == directory && f@ == file
}

/// Where the provider's configuration file is: where the environment says
/// (the variable `AWS_CONFIG_FILE`), else `.aws/config` under the home
/// directory.
pub fn get_aws_config_file_path<P>(environment: Option<P>) -> (r: ConfigPath<P>)
    ensures
        match environment {
            Some(path) => r == ConfigPath::Given(path),
            None => is_under_home(r, ".aws"@, "config"@),
        },
{
    match environment {
        Some(path) => ConfigPath::Given(path),
        None => ConfigPath::UnderHome {
            directory: String::from_str(".aws"),
            file: String::from_str("config"),
        },
    }
}

/// Where the tool's own configuration file is: where the environment says
/// (the variable `AWS_INSTANCE_CONFIG_FILE`), else where the command line
/// says, else `.aws-instance/config` under the home directory.
pub fn get_our_config_file_path<P>(config_file: Option<P>, environment: Option<P>) -> (r:
    ConfigPath<P>)
    ensures
        match environment {
            Some(path) => r == ConfigPath::Given(path),
            None => match config_file {
                Some(path) => r == ConfigPath::Given(path),
                None => is_under_home(r, ".aws-instance"@, "config"@),
            },
        },
{
    match environment {
        Some(path) => ConfigPath::Given(path),
        None => match config_file {
            Some(path) => ConfigPath::Given(path),
            None => ConfigPath::UnderHome {
                directory: String::from_str(".aws-instance"),
                file: String::from_str("config"),
            },
        },
    }
}

/// The profiles of a list of entries, by name. An entry takes the place of
/// an earlier one of the same name.
pub open spec fn profiles_of(entries: Seq<(String, Profile)>) -> Map<Seq<char>, ProfileView>
    decreases entries.len(),
{
    if entries.len() == 0 {
        Map::empty()
    } else {
        profiles_of(entries.drop_last()).insert(entries.last().0@, entries.last().1@)
    }
}

/// Where the reading of one file stands: the profiles so far, and the
/// section that is open with the profile that it has so far.
pub struct Pass {
    pub profiles: Map<Seq<char>, ProfileView>,
    pub section: Option<Seq<char>>,
    pub current: ProfileView,
}

/// The profiles once the open section is closed: it is entered under its
/// name, in place of what stood there.
pub open spec fn closed(pass: Pass) -> Map<Seq<char>, ProfileView> {
    match pass.section {
        Some(name) => pass.profiles.insert(name, pass.current),
        None => pass.profiles,
    }
}

/// The profile that a section starts from: what the files read before
/// this one gave under its name, else the empty profile.
pub open spec fn start_of(base: Map<Seq<char>, ProfileView>, name: Seq<char>) -> ProfileView {
    if base.contains_key(name) {
        base[name]
    } else {
        empty_profile()
    }
}

/// The reading after one more line. A header closes the open section and
/// opens its own. A setting goes to the open section; before the first
/// header it goes nowhere. Any other line changes nothing.
pub open spec fn after_line(base: Map<Seq<char>, ProfileView>, pass: Pass, line: LineView) -> Pass {
    match line {
        LineView::Section(name) => Pass {
            profiles: closed(pass),
            section: Some(name),
            current: start_of(base, name),
        },
        LineView::Setting(key, value) => if pass.section is Some {
            Pass { current: with_setting(pass.current, key, value), ..pass }
        } else {
            pass
        },
        LineView::Other => pass,
    }
}

/// The reading after the given lines, begun on the profiles `base`.
pub open spec fn after_lines(
    base: Map<Seq<char>, ProfileView>,
    lines: Seq<Seq<char>>,
    syntax: Syntax,
) -> Pass
    decreases lines.len(),
{
    if lines.len() == 0 {
        Pass { profiles: base, section: None, current: empty_profile() }
    } else {
        after_line(
            base,
            after_lines(base, lines.drop_last(), syntax),
            meaning(lines.last(), syntax),
        )
    }
}

/// The profiles after a file has been read on top of the profiles `base`.
///
/// A section of the file that bears a name from `base` starts from the
/// profile there, so the fields that the file does not set survive and those
/// that it sets win. Within the file a later section of a name takes the
/// place of an earlier one of that name.
pub open spec fn merged(base: Map<Seq<char>, ProfileView>, text: Seq<char>, syntax: Syntax) -> Map<
    Seq<char>,
    ProfileView,
> {
    closed(after_lines(base, lines_of(text), syntax))
}

/// Whether a line can be taken: a setting of it must fit.
pub open spec fn line_fits(line: Seq<char>, syntax: Syntax) -> bool {
    meaning(line, syntax) matches LineView::Setting(key, value) ==> setting_fits(key, value)
}

/// Whether a file can be read: every `region` in it names a region.
pub open spec fn file_fits(text: Seq<char>, syntax: Syntax) -> bool {
    forall|i: int| 0 <= i < lines_of(text).len() ==> line_fits(#[trigger] lines_of(text)[i], syntax)
}

/// The same for a file that may be missing; a missing file is no obstacle.
pub open spec fn source_fits(text: Option<Seq<char>>, syntax: Syntax) -> bool {
    match text {
        Some(t) => file_fits(t, syntax),
        None => true,
    }
}

/// The same for a file that may be missing: it contributes nothing.
pub open spec fn merged_source(
    base: Map<Seq<char>, ProfileView>,
    text: Option<Seq<char>>,
    syntax: Syntax,
) -> Map<Seq<char>, ProfileView> {
    match text {
        Some(t) => merged(base, t, syntax),
        None => base,
    }
}

/// The text of a file that may be missing.
pub open spec fn source_text(text: Option<&str>) -> Option<Seq<char>> {
    match text {
        Some(t) => Some(t@),
        None => None,
    }
}

/// Decides whether a file can be read.
pub fn regions_fit(text: &str, syntax: Syntax) -> (r: bool)
    ensures
        r == file_fits(text@, syntax),
{
    let all = lines(text);
    let mut i: usize = 0;
    while i < all.len()
        invariant
            i <= all.len(),
            texts(all@) == lines_of(text@),
            forall|k: int| 0 <= k < i ==> line_fits(#[trigger] lines_of(text@)[k], syntax),
        decreases all.len() - i,
    {
        assert(lines_of(text@)[i as int] == all@[i as int]@);
        match read_line(all[i].as_str(), syntax) {
            Line::Setting(key, value) => {
                if str_eq(key.as_str(), "region") {
                    if parse_region(value.as_str()).is_err() {
                        return false;
                    }
                }
            },
            _ => {},
        }
        i = i + 1;
    }
    true
}

/// The profiles of the configuration files, by name.
#[derive(Debug)]
pub struct ConfigFileReader {
    config_map: Vec<(String, Profile)>,
}

impl View for ConfigFileReader {
    type V = Map<Seq<char>, ProfileView>;

    closed spec fn view(&self) -> Map<Seq<char>, ProfileView> {
        profiles_of(self.config_map@)
    }
}

impl ConfigFileReader {
    /// A reader that has read nothing.
    pub fn empty() -> (r: ConfigFileReader)
        ensures
            r@ == Map::<Seq<char>, ProfileView>::empty(),
    {
        ConfigFileReader { config_map: Vec::new() }
    }

    /// Reads the provider's file, then the tool's own on top of it. A file
    /// that is missing contributes nothing. Every `region` in them must name
    /// a region.
    pub fn new(aws_config: Option<&str>, our_config: Option<&str>) -> (r: ConfigFileReader)
        requires
            source_fits(source_text(aws_config), Syntax::Aws),
            source_fits(source_text(our_config), Syntax::Plain),
        ensures
            r@ == merged_source(
                merged_source(Map::empty(), source_text(aws_config), Syntax::Aws),
                source_text(our_config),
                Syntax::Plain,
            ),
    {
        let mut reader = ConfigFileReader::empty();
        match aws_config {
            Some(text) => {
                reader.parse(text, Syntax::Aws);
            },
            None => {},
        }
        match our_config {
            Some(text) => {
                reader.parse(text, Syntax::Plain);
            },
            None => {},
        }
        reader
    }

    /// Reads both files as `new` does, if every `region` in them names a
    /// region; `None` if one does not.
    pub fn read(aws_config: Option<&str>, our_config: Option<&str>) -> (r: Option<
        ConfigFileReader,
    >)
        ensures
            match r {
                Some(reader) => {
                    &&& source_fits(source_text(aws_config), Syntax::Aws)
                    &&& source_fits(source_text(our_config), Syntax::Plain)
                    &&& reader@ == merged_source(
                        merged_source(Map::empty(), source_text(aws_config), Syntax::Aws),
                        source_text(our_config),
                        Syntax::Plain,
                    )
                },
                None => !source_fits(source_text(aws_config), Syntax::Aws) || !source_fits(
                    source_text(our_config),
                    Syntax::Plain,
                ),
            },
    {
        let first = match aws_config {
            Some(text) => regions_fit(text, Syntax::Aws),
            None => true,
        };
        let second = match our_config {
            Some(text) => regions_fit(text, Syntax::Plain),
            None => true,
        };
        if first && second {
            Some(ConfigFileReader::new(aws_config, our_config))
        } else {
            None
        }
    }

    fn find(&self, name: &str, limit: usize) -> (r: Option<&Profile>)
        requires
            limit <= self.config_map@.len(),
        ensures
            match r {
                Some(profile) => profiles_of(self.config_map@.take(limit as int)).contains_key(
                    name@,
                ) && profiles_of(self.config_map@.take(limit as int))[name@] == profile@,
                None => !profiles_of(self.config_map@.take(limit as int)).contains_key(name@),
            },
    {
        let ghost whole = profiles_of(self.config_map@.take(limit as int));
        let mut i: usize = limit;
        while i > 0
            invariant
                i <= limit <= self.config_map@.len(),
                whole == profiles_of(self.config_map@.take(limit as int)),
                whole.contains_key(name@) == profiles_of(
                    self.config_map@.take(i as int),
                ).contains_key(name@),
                whole.contains_key(name@) ==> whole[name@] == profiles_of(
                    self.config_map@.take(i as int),
                )[name@],
            decreases i,
        {
            let ghost part = self.config_map@.take(i as int);
            proof {
                assert(part.last() == self.config_map@[i - 1]);
                assert(part.drop_last() =~= self.config_map@.take(i - 1));
            }
            let entry = &self.config_map[i - 1];
            if str_eq(entry.0.as_str(), name) {
                return Some(&entry.1);
            }
            i = i - 1;
        }
        None
    }

    /// Enters a profile under a name, in place of what stood there.
    fn add_profile(&mut self, name: String, profile: Profile)
        ensures
            final(self)@ == old(self)@.insert(name@, profile@),
            final(self).config_map@ == old(self).config_map@.push((name, profile)),
    {
        let ghost before = self.config_map@;
        self.config_map.push((name, profile));
        proof {
            assert(self.config_map@.drop_last() =~= before);
        }
    }

    /// Reads one file on top of what has been read. Every `region` in it
    /// must name a region.
    pub fn parse(&mut self, contents: &str, syntax: Syntax)
        requires
            file_fits(contents@, syntax),
        ensures
            final(self)@ == merged(old(self)@, contents@, syntax),
    {
        let all = lines(contents);
        let limit: usize = self.config_map.len();
        let ghost base = self@;
        let ghost settled = self.config_map@;
        let mut section: Option<String> = None;
        let mut current = Profile::default();
        let mut i: usize = 0;
        proof {
            assert(self.config_map@.take(limit as int) =~= settled);
        }
        while i < all.len()
            invariant
                i <= all.len(),
                texts(all@) == lines_of(contents@),
                file_fits(contents@, syntax),
                limit <= self.config_map@.len(),
                self.config_map@.take(limit as int) == settled,
                base == profiles_of(settled),
                after_lines(base, lines_of(contents@).take(i as int), syntax) == (Pass {
                    profiles: self@,
                    section: opt_text(section),
                    current: current@,
                }),
            decreases all.len() - i,
        {
            let ghost seen = lines_of(contents@).take(i as int);
            let ghost next = lines_of(contents@).take(i + 1);
            proof {
                assert(next.drop_last() =~= seen);
                assert(next.last() == all@[i as int]@);
                assert(line_fits(lines_of(contents@)[i as int], syntax));
            }
            match read_line(all[i].as_str(), syntax) {
                Line::Section(name) => {
                    match section {
                        Some(open) => {
                            self.add_profile(open, current);
                        },
                        None => {},
                    }
                    proof {
                        assert(self.config_map@.take(limit as int) =~= settled);
                    }
                    current = match self.find(name.as_str(), limit) {
                        Some(profile) => profile.clone(),
                        None => Profile::default(),
                    };
                    section = Some(name);
                },
                Line::Setting(key, value) => {
                    if section.is_some() {
                        current.add_value(key.as_str(), value.as_str());
                    }
                },
                Line::Other => {},
            }
            i = i + 1;
        }
        proof {
            assert(lines_of(contents@).take(all.len() as int) =~= lines_of(contents@));
        }
        match section {
            Some(open) => {
                self.add_profile(open, current);
            },
            None => {},
        }
    }

    /// The profile of a name, if the files gave one.
    pub fn get_profile(&self, name: &str) -> (r: Option<&Profile>)
        ensures
            match r {
                Some(profile) => self@.contains_key(name@) && self@[name@] == profile@,
                None => !self@.contains_key(name@),
            },
    {
        proof {
            assert(self.config_map@.take(self.config_map@.len() as int) =~= self.config_map@);
        }
        self.find(name, self.config_map.len())
    }
}

/// The profile of a name, or the error that says that there is none.
pub fn get_profile(profile_name: &str, config_file: &ConfigFileReader) -> (r: Result<
    Profile,
    AwsInstanceError,
>)
    ensures
        match r {
            Ok(profile) => config_file@.contains_key(profile_name@) && config_file@[profile_name@]
                == profile@,
            Err(error) => !config_file@.contains_key(profile_name@) && (error matches AwsInstanceError::ProfileNotFoundError {
                profile_name: missing,
            } && missing@ == profile_name@),
        },
{
    match config_file.get_profile(profile_name) {
        Some(profile) => Ok(profile.clone()),
        None => Err(
            AwsInstanceError::ProfileNotFoundError { profile_name: String::from_str(profile_name) },
        ),
    }
}

/// The name of the profile to use: the one given, else `default`.
pub fn profile_name(given: Option<String>) -> (r: String)
    ensures
        r@ == match given {
            Some(name) => name@,
            None => "default"@,
        },
{
    match given {
        Some(name) => name,
        None => String::from_str("default"),
    }
}

/// The region to work in: the one named on the command line, which must
/// name a region, else that of the profile. `None` leaves the choice to the
/// provider's own default.
pub fn resolve_region(given: &Option<String>, profile: &Profile) -> (r: Result<
    Option<Region>,
    AwsInstanceError,
>)
    ensures
        match given {
            Some(name) => match region_named(name@) {
                Some(region) => r == Ok::<Option<Region>, AwsInstanceError>(Some(region)),
                None => r matches Err(error) && error is ParseRegionError,
            },
            None => r == Ok::<Option<Region>, AwsInstanceError>(profile.region),
        },
{
    match given {
        Some(name) => match parse_region(name.as_str()) {
            Ok(region) => Ok(Some(region)),
            Err(source) => Err(AwsInstanceError::ParseRegionError { source }),
        },
        None => Ok(
            match &profile.region {
                Some(region) => Some(region.clone()),
                None => None,
            },
        ),
    }
}

} // verus!
