use std::io::BufRead;

use aws_instance::error::AwsInstanceError;
use aws_instance::grammar::{lines, read_line, space, Line, Syntax};
use aws_instance::profile::{
    get_aws_config_file_path, get_our_config_file_path, get_profile, profile_name, regions_fit,
    resolve_region, ConfigFileReader, ConfigPath, Profile,
};
use regex::Regex;
use rusoto_core::Region;

fn groups(names: &[&str]) -> Option<Vec<String>> {
    Some(names.iter().map(|n| n.to_string()).collect())
}

#[test]
fn profile_is_read_from_a_config_file() {
    let text = "[default]\nregion = us-west-2\nkeypair = mykey\nsecurity-groups = sg-1, sg-2\n";
    let reader = ConfigFileReader::new(Some(text), None);
    let profile = get_profile("default", &reader).unwrap();
    assert_eq!(profile.region, Some(Region::UsWest2));
    assert_eq!(profile.keypair, Some("mykey".to_string()));
    assert_eq!(profile.security_groups, groups(&["sg-1", "sg-2"]));
    assert_eq!(profile.ssh_key, None);
    assert_eq!(profile.default_instance_type, None);
}

#[test]
fn profile_is_read_from_the_tool_file_too() {
    let text = "[staging]\nregion=eu-west-1\nkey=/home/me/.ssh/id\ninstance-type = t3.micro\n";
    let reader = ConfigFileReader::new(None, Some(text));
    let profile = get_profile("staging", &reader).unwrap();
    assert_eq!(profile.region, Some(Region::EuWest1));
    assert_eq!(profile.ssh_key, Some("/home/me/.ssh/id".to_string()));
    assert_eq!(profile.default_instance_type, Some("t3.micro".to_string()));
}

#[test]
fn missing_profile_is_an_error_that_names_it() {
    let reader = ConfigFileReader::new(Some("[default]\nregion = us-east-1\n"), None);
    match get_profile("prod", &reader) {
        Err(e @ AwsInstanceError::ProfileNotFoundError { .. }) => {
            assert_eq!(e.message(), "Profile named prod not found")
        }
        other => panic!("unexpected: {:?}", other.map(|_| ())),
    }
    let empty = ConfigFileReader::new(None, None);
    assert!(get_profile("default", &empty).is_err());
    assert!(empty.get_profile("default").is_none());
}

#[test]
fn profile_split_across_both_files_is_overlaid_field_by_field() {
    let aws = "[profile work]\nregion = eu-central-1\nkeypair = aws-key\n";
    let ours = "[work]\nkeypair = our-key\nkey = /id\n";
    let reader = ConfigFileReader::new(Some(aws), Some(ours));
    let profile = get_profile("work", &reader).unwrap();
    assert_eq!(profile.region, Some(Region::EuCentral1));
    assert_eq!(profile.keypair, Some("our-key".to_string()));
    assert_eq!(profile.ssh_key, Some("/id".to_string()));
}

#[test]
fn later_section_replaces_earlier_one_within_a_file() {
    let ours = "[a]\nkeypair = first\nkey = /one\n[b]\nkeypair = b\n[a]\nkeypair = second\n";
    let reader = ConfigFileReader::new(None, Some(ours));
    let a = get_profile("a", &reader).unwrap();
    assert_eq!(a.keypair, Some("second".to_string()));
    assert_eq!(a.ssh_key, None);
    assert_eq!(get_profile("b", &reader).unwrap().keypair, Some("b".to_string()));
}

#[test]
fn repeated_section_in_second_file_still_starts_from_the_first_file() {
    let aws = "[a]\nregion = us-east-2\n";
    let ours = "[a]\nkeypair = first\n[a]\nkey = /two\n";
    let reader = ConfigFileReader::new(Some(aws), Some(ours));
    let a = get_profile("a", &reader).unwrap();
    assert_eq!(a.region, Some(Region::UsEast2));
    assert_eq!(a.keypair, None);
    assert_eq!(a.ssh_key, Some("/two".to_string()));
}

#[test]
fn settings_before_the_first_section_and_unknown_keys_are_ignored() {
    let ours = "keypair = stray\n# a comment\n[a]\ncolour = blue\n\nkeypair = k\n";
    let reader = ConfigFileReader::new(None, Some(ours));
    let a = get_profile("a", &reader).unwrap();
    assert_eq!(a.keypair, Some("k".to_string()));
    assert_eq!(a.region, None);
}

#[test]
fn both_header_spellings_are_accepted_in_the_provider_file() {
    let aws = "[default]\nregion = us-east-1\n[profile dev]\nregion = ap-south-1\n";
    let reader = ConfigFileReader::new(Some(aws), None);
    assert_eq!(get_profile("default", &reader).unwrap().region, Some(Region::UsEast1));
    assert_eq!(get_profile("dev", &reader).unwrap().region, Some(Region::ApSouth1));
    let ours = ConfigFileReader::new(None, Some("[profile dev]\nkeypair = k\n"));
    assert!(get_profile("dev", &ours).is_err());
    assert!(get_profile("profile dev", &ours).is_ok());
}

#[test]
fn parse_adds_a_file_to_what_was_read() {
    let mut reader = ConfigFileReader::empty();
    reader.parse("[a]\nkeypair = one\n", Syntax::Plain);
    reader.parse("[b]\nkeypair = two\n", Syntax::Plain);
    reader.parse("[a]\nkey = /k\n", Syntax::Plain);
    let a = reader.get_profile("a").unwrap();
    assert_eq!(a.keypair, Some("one".to_string()));
    assert_eq!(a.ssh_key, Some("/k".to_string()));
    assert_eq!(reader.get_profile("b").unwrap().keypair, Some("two".to_string()));
}

#[test]
fn malformed_region_is_found_before_reading() {
    assert!(regions_fit("[a]\nregion = us-west-2\n", Syntax::Plain));
    assert!(regions_fit("[a]\nregion = USWEST2\n", Syntax::Plain));
    assert!(!regions_fit("[a]\nregion = mars-1\n", Syntax::Plain));
    assert!(!regions_fit("[a]\nkeypair = k\nregion =\n", Syntax::Aws));
    assert!(regions_fit("[region = mars-1]\n", Syntax::Plain));
    assert!(regions_fit("", Syntax::Aws));
    assert!(ConfigFileReader::read(Some("[a]\nregion = nowhere\n"), None).is_none());
    assert!(ConfigFileReader::read(None, Some("[a]\nregion = nowhere\n")).is_none());
    let reader = ConfigFileReader::read(Some("[a]\nregion = sa-east-1\n"), None).unwrap();
    assert_eq!(get_profile("a", &reader).unwrap().region, Some(Region::SaEast1));
}

#[test]
fn add_value_sets_one_field() {
    let mut profile = Profile::default();
    profile.add_value("keypair", "k");
    profile.add_value("key", "/id");
    profile.add_value("instance-type", "t2.micro");
    profile.add_value("security-groups", "a, b,c");
    profile.add_value("region", "cn-north-1");
    profile.add_value("nonsense", "x");
    assert_eq!(profile.keypair, Some("k".to_string()));
    assert_eq!(profile.ssh_key, Some("/id".to_string()));
    assert_eq!(profile.default_instance_type, Some("t2.micro".to_string()));
    assert_eq!(profile.security_groups, groups(&["a", "b,c"]));
    assert_eq!(profile.region, Some(Region::CnNorth1));
}

#[test]
fn try_add_value_refuses_a_bad_region_and_changes_nothing() {
    let mut profile = Profile::default();
    profile.add_value("region", "eu-north-1");
    match profile.try_add_value("region", "atlantis") {
        Err(e @ AwsInstanceError::ParseRegionError { .. }) => {
            assert_eq!(e.message(), "Error parsing region string: Not a valid AWS region: atlantis")
        }
        other => panic!("unexpected: {:?}", other),
    }
    assert_eq!(profile.region, Some(Region::EuNorth1));
    assert!(profile.try_add_value("keypair", "atlantis").is_ok());
}

#[test]
fn profile_clone_keeps_every_field() {
    let mut profile = Profile::default();
    profile.add_value("region", "us-gov-west-1");
    profile.add_value("keypair", "k");
    profile.add_value("security-groups", "a, b");
    let copy = profile.clone();
    assert_eq!(copy.region, Some(Region::UsGovWest1));
    assert_eq!(copy.keypair, profile.keypair);
    assert_eq!(copy.security_groups, profile.security_groups);
    assert_eq!(copy.ssh_key, None);
}

#[test]
fn region_comes_from_the_command_line_first() {
    let mut profile = Profile::default();
    profile.add_value("region", "us-west-1");
    assert_eq!(
        resolve_region(&Some("eu-west-3".to_string()), &profile).unwrap(),
        Some(Region::EuWest3)
    );
    assert_eq!(resolve_region(&None, &profile).unwrap(), Some(Region::UsWest1));
    assert_eq!(resolve_region(&None, &Profile::default()).unwrap(), None);
    assert!(matches!(
        resolve_region(&Some("nowhere".to_string()), &profile),
        Err(AwsInstanceError::ParseRegionError { .. })
    ));
}

#[test]
fn profile_name_defaults_to_default() {
    assert_eq!(profile_name(None), "default");
    assert_eq!(profile_name(Some("work".to_string())), "work");
}

#[test]
fn config_paths_are_chosen_in_order() {
    assert!(matches!(
        get_aws_config_file_path(Some("/env/aws")),
        ConfigPath::Given("/env/aws")
    ));
    match get_aws_config_file_path::<&str>(None) {
        ConfigPath::UnderHome { directory, file } => {
            assert_eq!((directory.as_str(), file.as_str()), (".aws", "config"))
        }
        other => panic!("unexpected: {:?}", other),
    }
    assert!(matches!(
        get_our_config_file_path(Some("/flag"), Some("/env")),
        ConfigPath::Given("/env")
    ));
    assert!(matches!(get_our_config_file_path(None, Some("/env")), ConfigPath::Given("/env")));
    assert!(matches!(get_our_config_file_path(Some("/flag"), None), ConfigPath::Given("/flag")));
    match get_our_config_file_path::<&str>(None, None) {
        ConfigPath::UnderHome { directory, file } => {
            assert_eq!((directory.as_str(), file.as_str()), (".aws-instance", "config"))
        }
        other => panic!("unexpected: {:?}", other),
    }
}

const SAMPLES: [&str; 47] = [
    "",
    " ",
    "[default]",
    "[profile dev]",
    "[profile ]",
    "[profile]",
    "[profile",
    "[]",
    "[",
    "]",
    "[a]b]c",
    "[a] # [b]",
    "[profile a]b] tail",
    " [indented]",
    "[no close",
    "[a=b]",
    "x[a]",
    "region = us-west-2",
    "region=us-west-2",
    "  region   =   us-west-2   # trailing",
    "region = ",
    "region =",
    "= value",
    "=",
    "==",
    "a=b=c",
    "a=b = c",
    "a=b c",
    "a = = b",
    "a b = c",
    "key",
    "key value",
    "key\t=\tvalue",
    "key\u{a0}=\u{a0}value",
    "key\u{2003}= value\u{3000}rest",
    "key\u{200b}= value",
    "security-groups = sg-1,sg-2",
    "security-groups = sg-1,  sg-2",
    "security-groups = sg-1,\tsg-2",
    "security-groups = sg-1 , sg-2",
    "# comment",
    "#region = nowhere",
    "; region = nowhere",
    "a= b=c",
    "\t",
    "\u{85}x = y",
    "x\u{1680}= y\r",
];

fn by_regex(line: &str, syntax: Syntax) -> (Option<String>, Option<(String, String)>) {
    let section = match syntax {
        Syntax::Aws => Regex::new(r"^\[(?:profile )?(.*)\].*$").unwrap(),
        Syntax::Plain => Regex::new(r"^\[([^\]]*)\].*$").unwrap(),
    };
    let value = Regex::new(r"^\s*(\S*)\s*=\s*(\S*).*$").unwrap();
    if let Some(found) = section.captures(line) {
        (Some(found.get(1).unwrap().as_str().to_string()), None)
    } else if let Some(found) = value.captures(line) {
        let key = found.get(1).unwrap().as_str().to_string();
        let val = found.get(2).unwrap().as_str().to_string();
        (None, Some((key, val)))
    } else {
        (None, None)
    }
}

fn by_grammar(line: &str, syntax: Syntax) -> (Option<String>, Option<(String, String)>) {
    match read_line(line, syntax) {
        Line::Section(name) => (Some(name), None),
        Line::Setting(key, value) => (None, Some((key, value))),
        Line::Other => (None, None),
    }
}

#[test]
fn lines_are_read_as_the_patterns_read_them() {
    for line in SAMPLES {
        for syntax in [Syntax::Aws, Syntax::Plain] {
            assert_eq!(by_grammar(line, syntax), by_regex(line, syntax), "{:?} {:?}", line, syntax);
        }
    }
}

#[test]
fn section_name_ends_at_the_first_or_the_last_bracket() {
    assert_eq!(by_grammar("[a]b]c", Syntax::Plain).0, Some("a".to_string()));
    assert_eq!(by_grammar("[a]b]c", Syntax::Aws).0, Some("a]b".to_string()));
    assert_eq!(by_grammar("[profile x]", Syntax::Aws).0, Some("x".to_string()));
    assert_eq!(by_grammar("[profile x]", Syntax::Plain).0, Some("profile x".to_string()));
}

#[test]
fn setting_key_runs_to_the_last_equals_sign_of_its_word() {
    assert_eq!(by_grammar("a=b=c", Syntax::Plain).1, Some(("a=b".to_string(), "c".to_string())));
    assert_eq!(by_grammar("a=b c", Syntax::Plain).1, Some(("a".to_string(), "b".to_string())));
    assert_eq!(by_grammar("k = v w", Syntax::Plain).1, Some(("k".to_string(), "v".to_string())));
    assert_eq!(by_grammar("k =", Syntax::Plain).1, Some(("k".to_string(), "".to_string())));
    assert_eq!(by_grammar("k v", Syntax::Plain).1, None);
}

#[test]
fn setting_value_may_be_a_list() {
    let list = |line: &str| by_grammar(line, Syntax::Plain).1.unwrap().1;
    assert_eq!(list("security-groups = sg-1, sg-2"), "sg-1, sg-2");
    assert_eq!(list("security-groups = sg-1, sg-2, sg-3 # all"), "sg-1, sg-2, sg-3");
    assert_eq!(list("security-groups = sg-1, sg-2,"), "sg-1, sg-2,");
    assert_eq!(list("security-groups = sg-1, sg-2, "), "sg-1, sg-2,");
    assert_eq!(list("security-groups = sg-1,  sg-2"), "sg-1,");
    assert_eq!(list("k=, x"), ", x");
    assert_eq!(list("k = a b, c"), "a");
}

#[test]
fn white_space_is_what_unicode_says() {
    for n in 0u32..0x11000 {
        if let Some(c) = char::from_u32(n) {
            assert_eq!(space(c), c.is_whitespace(), "{:x}", n);
        }
    }
}

#[test]
fn text_is_split_into_lines_as_a_reader_splits_it() {
    for text in [
        "",
        "\n",
        "a",
        "a\n",
        "a\nb",
        "a\r\nb\r\n",
        "a\r",
        "a\r\n",
        "\r\n",
        "\r",
        "a\n\nb\n\n",
        "a\r\r\nb",
        "[x]\nk = v\n",
        "\n\n",
        "a\rb\nc",
    ] {
        let expected: Vec<String> =
            std::io::Cursor::new(text.as_bytes()).lines().map(|l| l.unwrap()).collect();
        assert_eq!(lines(text), expected, "{:?}", text);
    }
}
