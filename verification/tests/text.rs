use aws_instance::cmdline::{OsNames, OsNamesError};
use aws_instance::commands::list_amis::{print_image, print_option, AmiInfo};
use aws_instance::dates::CreationDate;
use aws_instance::error::{command_error, AwsInstanceError, AwsXmlError, CommandKind, ServiceFault};
use aws_instance::model::Image;
use aws_instance::search::SearchPattern;
use aws_instance::text::{
    chars_of, clip, decimal_string, join, pad, row, split, str_eq,
};

#[test]
fn pad_fills_with_spaces_up_to_the_width() {
    assert_eq!(pad("ab", 5), "ab   ");
    assert_eq!(pad("abcde", 5), "abcde");
    assert_eq!(pad("abcdef", 5), "abcdef");
    assert_eq!(pad("", 0), "");
    assert_eq!(pad("", 3), "   ");
    assert_eq!(pad("héé", 5), format!("{: <5}", "héé"));
}

#[test]
fn clip_counts_characters() {
    assert_eq!(clip("abcdef", 3), "abc");
    assert_eq!(clip("abc", 3), "abc");
    assert_eq!(clip("ab", 3), "ab");
    assert_eq!(clip("äöüß", 2), "äö");
    assert_eq!(clip("abc", 0), "");
}

#[test]
fn join_puts_the_separator_between() {
    let parts = vec!["a".to_string(), "".to_string(), "c".to_string()];
    assert_eq!(join(&parts, ", "), "a, , c");
    assert_eq!(join(&vec!["solo".to_string()], ", "), "solo");
    assert_eq!(join(&vec![], ", "), "");
}

#[test]
fn split_matches_the_standard_library() {
    for text in ["", "a", "a,b", ",", "a,,b", ",a,", "sg-1, sg-2", "a, b,c, ", ", ", ",, ,"] {
        for sep in [",", ", "] {
            let expected: Vec<String> = text.split(sep).map(|s| s.to_string()).collect();
            assert_eq!(split(text, sep), expected, "{:?} by {:?}", text, sep);
        }
    }
    assert_eq!(split("aaa", "aa"), vec!["", "a"]);
}

#[test]
fn decimal_matches_display() {
    for n in [0i64, 1, 9, 10, 22, 99, 100, 8080, 65535, -1, -10, -443, i64::MAX, i64::MIN] {
        assert_eq!(decimal_string(n), n.to_string());
    }
}

#[test]
fn row_aligns_each_cell() {
    let cells = vec!["a".to_string(), "bcd".to_string(), "".to_string()];
    assert_eq!(row(&cells, &vec![3, 2, 2]), "a   bcd   ");
    assert_eq!(row(&vec![], &vec![]), "");
}

#[test]
fn strings_compare_by_content() {
    assert!(str_eq("Name", "Name"));
    assert!(!str_eq("Name", "name"));
    assert!(!str_eq("Name", "Name "));
    assert_eq!(chars_of("aé"), vec!['a', 'é']);
}

#[test]
fn os_names_are_read_without_regard_to_case() {
    assert_eq!(OsNames::from_str("AmazonLinux").unwrap(), OsNames::AmazonLinux);
    assert_eq!(OsNames::from_str("CENTOS").unwrap(), OsNames::CentOS);
    assert_eq!(OsNames::from_str("debian").unwrap(), OsNames::Debian);
    assert_eq!(OsNames::from_str("FeDoRa").unwrap(), OsNames::Fedora);
    assert_eq!(OsNames::from_str("Rhel").unwrap(), OsNames::RHEL);
    assert_eq!(OsNames::from_str("SUSE").unwrap(), OsNames::Suse);
    assert_eq!(OsNames::from_str("Ubuntu").unwrap(), OsNames::Ubuntu);
    assert_eq!("uBUNTU".parse::<OsNames>().unwrap(), OsNames::Ubuntu);
}

#[test]
fn unknown_os_name_comes_back_in_the_error() {
    match OsNames::from_str("Plan 9") {
        Err(e @ OsNamesError::ParseError(_)) => assert_eq!(e.to_string(), "Error parsing Plan 9"),
        other => panic!("unexpected: {:?}", other),
    }
    assert!(OsNames::from_str("").is_err());
    assert!(OsNames::from_str(" ubuntu").is_err());
}

#[test]
fn os_names_are_written_as_declared() {
    let all = [
        (OsNames::AmazonLinux, "AmazonLinux"),
        (OsNames::CentOS, "CentOS"),
        (OsNames::Debian, "Debian"),
        (OsNames::Fedora, "Fedora"),
        (OsNames::RHEL, "RHEL"),
        (OsNames::Suse, "Suse"),
        (OsNames::Ubuntu, "Ubuntu"),
    ];
    for (os, name) in all {
        assert_eq!(os.to_string(), name);
        assert_eq!(os.as_str(), name);
        assert_eq!(OsNames::from_str(name).unwrap(), os);
    }
}

#[test]
fn print_option_writes_the_text_or_nothing() {
    assert_eq!(print_option(&Some("x".to_string())), "x");
    assert_eq!(print_option(&None), "");
}

#[test]
fn search_pattern_matches_anywhere() {
    let pattern = SearchPattern::new("b+c").unwrap();
    assert!(pattern.is_match("aabbbcc"));
    assert!(!pattern.is_match("b+c"));
    assert!(!pattern.is_match("abac"));
    assert!(SearchPattern::new("^$").unwrap().is_match(""));
    assert!(matches!(SearchPattern::new("a{"), Err(AwsInstanceError::RegexParseError { .. })));
}

#[test]
fn ami_info_reads_the_creation_date() {
    let image = Image {
        image_id: Some("ami-1".to_string()),
        state: None,
        creation_date: Some("1970-01-01T00:00:01.5Z".to_string()),
        name: Some("n".to_string()),
        description: None,
    };
    let info = AmiInfo::from_aws(image).unwrap();
    assert_eq!(info.creation_date, Some(CreationDate { seconds: 1, nanos: 500_000_000 }));
    assert_eq!(info.ami_id, Some("ami-1".to_string()));
    assert_eq!(info.name, Some("n".to_string()));
    assert_eq!(
        info.print(),
        format!(
            "{0: <15} {1: <15} {2: <25} {3: <50.48} {4: <50.48}",
            "ami-1", "", "1970-01-01T00:00:01.500Z", "n", ""
        )
    );
}

#[test]
fn ami_info_without_date_prints_an_empty_cell() {
    let info = AmiInfo {
        ami_id: None,
        state: Some("pending".to_string()),
        creation_date: None,
        name: None,
        description: Some("d".to_string()),
    };
    assert_eq!(
        info.print(),
        format!("{0: <15} {1: <15} {2: <25} {3: <50.48} {4: <50.48}", "", "pending", "", "", "d")
    );
}

#[test]
fn ami_info_with_a_moment_that_is_no_date_prints_an_empty_cell() {
    let info = AmiInfo {
        ami_id: None,
        state: None,
        creation_date: Some(CreationDate { seconds: i64::MAX, nanos: 0 }),
        name: None,
        description: None,
    };
    assert_eq!(
        info.print(),
        format!("{0: <15} {1: <15} {2: <25} {3: <50.48} {4: <50.48}", "", "", "", "", "")
    );
}

#[test]
fn raw_image_is_printed_with_its_date_as_given() {
    let image = Image {
        image_id: Some("ami-1".to_string()),
        state: Some("available".to_string()),
        creation_date: Some("whenever".to_string()),
        name: None,
        description: Some("d".to_string()),
    };
    assert_eq!(
        print_image(&image),
        format!(
            "{0: <15} {1: <15} {2: <25} {3: <50.48} {4: <50.48}",
            "ami-1", "available", "whenever", "", "d"
        )
    );
}

#[test]
fn faults_become_errors_of_their_kind() {
    assert!(matches!(
        AwsInstanceError::from(ServiceFault::Service("s".to_string())),
        AwsInstanceError::Service { message } if message == "s"
    ));
    assert!(matches!(
        AwsInstanceError::from(ServiceFault::ParseError("p".to_string())),
        AwsInstanceError::RusotoParseError { message } if message == "p"
    ));
    assert!(matches!(
        AwsInstanceError::from(ServiceFault::Validation("v".to_string())),
        AwsInstanceError::Validation { message } if message == "v"
    ));
    assert!(matches!(AwsInstanceError::from(ServiceFault::Blocking), AwsInstanceError::Blocking));
    assert!(matches!(
        AwsInstanceError::from(ServiceFault::HttpDispatch(
            rusoto_core::request::HttpDispatchError::new("down".to_string())
        )),
        AwsInstanceError::HttpDispatch { .. }
    ));
    assert!(matches!(
        AwsInstanceError::from(ServiceFault::Credentials(
            rusoto_credential::CredentialsError::new("none")
        )),
        AwsInstanceError::Credentials { .. }
    ));
    match AwsInstanceError::from(ServiceFault::Unknown {
        errors: vec![AwsXmlError { code: None, message: None }],
        request_id: "r".to_string(),
    }) {
        AwsInstanceError::Unknown { errors, request_id } => {
            assert_eq!(errors.len(), 1);
            assert_eq!(request_id, "r");
        }
        other => panic!("unexpected: {:?}", other),
    }
}

#[test]
fn errors_are_written_as_the_tool_prints_them() {
    let text = |e: AwsInstanceError| e.message();
    assert_eq!(
        text(AwsInstanceError::Service { message: "m".to_string() }),
        "Error in AWS service: m"
    );
    assert_eq!(
        text(AwsInstanceError::RusotoParseError { message: "m".to_string() }),
        "Parse error: m"
    );
    assert_eq!(
        text(AwsInstanceError::Validation { message: "m".to_string() }),
        "Validation error: m"
    );
    assert_eq!(
        text(AwsInstanceError::HttpDispatch {
            source: rusoto_core::request::HttpDispatchError::new("down".to_string())
        }),
        "HTTP Dispatch error: down"
    );
    assert_eq!(
        text(AwsInstanceError::Credentials {
            source: rusoto_credential::CredentialsError::new("none")
        }),
        "Credentials error: none"
    );
    assert_eq!(
        text(command_error(CommandKind::Start, "web", "x")),
        "Error starting instance web: x"
    );
    assert_eq!(
        text(command_error(CommandKind::Stop, "web", "x")),
        "Error stopping instance web: x"
    );
    assert_eq!(
        text(command_error(CommandKind::Create, "web", "x")),
        "Error creating instance web: x"
    );
    assert_eq!(
        text(command_error(CommandKind::Destroy, "web", "x")),
        "Error destroying instance web: x"
    );
    assert_eq!(
        text(AwsInstanceError::ProfileNotFoundError { profile_name: "p".to_string() }),
        "Profile named p not found"
    );
    assert_eq!(
        text(AwsInstanceError::InstanceNotFoundError { instance_name: "i".to_string() }),
        "Instance named i not found"
    );
    assert_eq!(
        text(AwsInstanceError::IPAddressNotFoundError { instance_name: "i".to_string() }),
        "Public IP address not found for i - is it stopped?"
    );
    assert_eq!(text(AwsInstanceError::Blocking), "Blocking error");
    assert_eq!(
        text(AwsInstanceError::Unknown {
            errors: vec![
                AwsXmlError { code: None, message: Some("first".to_string()) },
                AwsXmlError { code: Some("c".to_string()), message: None },
            ],
            request_id: "r-7".to_string(),
        }),
        "Error with request ID r-7: first\nError code: None"
    );
    assert_eq!(
        text(AwsInstanceError::Unknown { errors: vec![], request_id: "r-8".to_string() }),
        "Error with request ID r-8: "
    );
}

#[test]
fn xml_error_is_written_with_its_code() {
    let e = AwsXmlError { code: Some("Oops".to_string()), message: Some("went wrong".to_string()) };
    assert_eq!(e.message(), "went wrong\nError code: Oops");
    assert_eq!(AwsXmlError { code: None, message: None }.message(), "None\nError code: None");
}
