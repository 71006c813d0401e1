use crux::cli::{classify, parse, CliParser, CliParsingCtx, FlagClass, ParseError, ParseResult};

struct Test {
    input: &'static str,
    expected: FlagClass<'static>,
}

#[test]
fn classification() {
    for test in [
        Test {
            input: "--flag",
            expected: FlagClass::Long { flag: "flag" },
        },
        Test {
            input: "--f",
            expected: FlagClass::Long { flag: "f" },
        },
        Test {
            input: "-f",
            expected: FlagClass::Short { flag: "f" },
        },
        Test {
            input: "-fv",
            expected: FlagClass::Short { flag: "fv" },
        },
        Test {
            input: "--flag=true",
            expected: FlagClass::LongAssigned {
                flag: "flag",
                equals_idx: 6,
            },
        },
        Test {
            input: "-f=true",
            expected: FlagClass::ShortAssigned {
                flag: "f",
                equals_idx: 2,
            },
        },
        Test {
            input: "-vf=true",
            expected: FlagClass::ShortAssigned {
                flag: "vf",
                equals_idx: 3,
            },
        },
    ] {
        assert_eq!(classify(test.input), test.expected);
    }
}

#[test]
fn classification_of_subcommands_quotes_and_escapes() {
    assert_eq!(classify("build"), FlagClass::SubcommandOrArgument { raw: "build" });
    assert_eq!(classify(""), FlagClass::SubcommandOrArgument { raw: "" });
    assert_eq!(
        classify("key=value"),
        FlagClass::SubcommandOrArgumentAssigned { raw: "key", equals_idx: 3 }
    );
    assert_eq!(classify("-"), FlagClass::Short { flag: "" });
    assert_eq!(classify("--"), FlagClass::Long { flag: "" });
    // An `=` inside quotes or after a backslash is no assignment.
    assert_eq!(classify("--msg='a=b'"), FlagClass::LongAssigned { flag: "msg", equals_idx: 5 });
    assert_eq!(classify("'a=b'"), FlagClass::SubcommandOrArgument { raw: "'a=b'" });
    assert_eq!(classify("a\\=b"), FlagClass::SubcommandOrArgument { raw: "a\\=b" });
    // The last assignment counts.
    assert_eq!(
        classify("-x=1=2"),
        FlagClass::ShortAssigned { flag: "x=1", equals_idx: 4 }
    );
    // Multi-byte characters in the name are kept whole.
    assert_eq!(classify("--größe"), FlagClass::Long { flag: "größe" });
}

#[test]
fn flag_class_predicates() {
    let short = FlagClass::Short { flag: "v" };
    let long = FlagClass::Long { flag: "verbose" };
    let short_assigned = FlagClass::ShortAssigned { flag: "p", equals_idx: 2 };
    let long_assigned = FlagClass::LongAssigned { flag: "profile", equals_idx: 9 };
    let sub = FlagClass::SubcommandOrArgument { raw: "build" };
    let sub_assigned = FlagClass::SubcommandOrArgumentAssigned { raw: "k", equals_idx: 1 };

    assert!(short.is_flag() && long.is_flag() && short_assigned.is_flag() && long_assigned.is_flag());
    assert!(!sub.is_flag() && !sub_assigned.is_flag());
    assert!(long.is_long() && long_assigned.is_long() && !short.is_long() && !sub.is_long());
    assert!(short.is_short() && short_assigned.is_short() && !long.is_short());
    assert!(short_assigned.is_assigned() && long_assigned.is_assigned());
    assert!(!short.is_assigned() && !sub_assigned.is_assigned());
    assert!(sub.is_subcommand() && sub_assigned.is_subcommand() && !short.is_subcommand());
}

#[derive(PartialEq, Eq, Debug)]
enum Command {
    Build,
    Run,
}

#[derive(PartialEq, Eq, Debug)]
struct MyCli<'a> {
    cmd: Command,
    profile: Option<&'a str>,
    verbosity: u8,
}

impl<'a> CliParser<'a> for MyCli<'a> {
    fn parse(
        &mut self,
        flag: &'a str,
        class: FlagClass<'a>,
        ctx: &mut CliParsingCtx<'a, Self>,
    ) -> ParseResult {
        match flag {
            "build" | "b" => self.cmd = Command::Build,
            "run" | "r" => self.cmd = Command::Run,
            "profile" | "p" if class.is_flag() => {
                let profile = ctx.next_argument(self).expect("Must specify a profile");
                self.profile = Some(profile);
            }
            "verbose" | "v" if class.is_flag() => {
                self.verbosity = self.verbosity.saturating_add(1);
            }
            _ => return ParseResult::NotRecognised,
        }

        ParseResult::Recognised
    }

    fn error(&mut self, error: ParseError<'a>) {
        panic!("CLI error: {error:?}");
    }
}

struct Case {
    flags: &'static [&'static str],
    expected: MyCli<'static>,
}

#[test]
fn cli() {
    for case in [
        // build subcommand
        Case {
            flags: &["b"],
            expected: MyCli { cmd: Command::Build, profile: None, verbosity: 0 },
        },
        Case {
            flags: &["build"],
            expected: MyCli { cmd: Command::Build, profile: None, verbosity: 0 },
        },
        Case {
            flags: &["-b"],
            expected: MyCli { cmd: Command::Build, profile: None, verbosity: 0 },
        },
        Case {
            flags: &["--build"],
            expected: MyCli { cmd: Command::Build, profile: None, verbosity: 0 },
        },
        // run subcommand
        Case {
            flags: &["r"],
            expected: MyCli { cmd: Command::Run, profile: None, verbosity: 0 },
        },
        Case {
            flags: &["run"],
            expected: MyCli { cmd: Command::Run, profile: None, verbosity: 0 },
        },
        Case {
            flags: &["-r"],
            expected: MyCli { cmd: Command::Run, profile: None, verbosity: 0 },
        },
        Case {
            flags: &["--run"],
            expected: MyCli { cmd: Command::Run, profile: None, verbosity: 0 },
        },
        // verbosity flag
        Case {
            flags: &["-v"],
            expected: MyCli { cmd: Command::Build, profile: None, verbosity: 1 },
        },
        Case {
            flags: &["--verbose"],
            expected: MyCli { cmd: Command::Build, profile: None, verbosity: 1 },
        },
        Case {
            flags: &["-vvvv"],
            expected: MyCli { cmd: Command::Build, profile: None, verbosity: 4 },
        },
        Case {
            flags: &["-vvvv", "--verbose"],
            expected: MyCli { cmd: Command::Build, profile: None, verbosity: 5 },
        },
        // profile flag & arg
        Case {
            flags: &["-p", "my-profile"],
            expected: MyCli { cmd: Command::Build, profile: Some("my-profile"), verbosity: 0 },
        },
        Case {
            flags: &["--profile", "my-profile"],
            expected: MyCli { cmd: Command::Build, profile: Some("my-profile"), verbosity: 0 },
        },
        Case {
            flags: &["-p=my-profile"],
            expected: MyCli { cmd: Command::Build, profile: Some("my-profile"), verbosity: 0 },
        },
        Case {
            flags: &["--profile=my-profile"],
            expected: MyCli { cmd: Command::Build, profile: Some("my-profile"), verbosity: 0 },
        },
        // multiple flags
        Case {
            flags: &["r", "-p", "my-profile"],
            expected: MyCli { cmd: Command::Run, profile: Some("my-profile"), verbosity: 0 },
        },
        Case {
            flags: &["r", "-p=my-profile"],
            expected: MyCli { cmd: Command::Run, profile: Some("my-profile"), verbosity: 0 },
        },
        Case {
            flags: &["-rp=my-profile"],
            expected: MyCli { cmd: Command::Run, profile: Some("my-profile"), verbosity: 0 },
        },
        Case {
            flags: &["-rp", "my-profile"],
            expected: MyCli { cmd: Command::Run, profile: Some("my-profile"), verbosity: 0 },
        },
    ] {
        let mut parser = MyCli { cmd: Command::Build, profile: None, verbosity: 0 };
        parse(case.flags, &mut parser);
        assert_eq!(parser, case.expected);
    }
}

#[derive(Default)]
struct Recorder {
    seen: Vec<String>,
    errors: Vec<String>,
}

impl<'a> CliParser<'a> for Recorder {
    fn parse(
        &mut self,
        flag: &'a str,
        _class: FlagClass<'a>,
        _ctx: &mut CliParsingCtx<'a, Self>,
    ) -> ParseResult {
        if flag == "known" || flag == "k" {
            self.seen.push(flag.to_string());
            ParseResult::Recognised
        } else {
            ParseResult::NotRecognised
        }
    }

    fn error(&mut self, error: ParseError<'a>) {
        self.errors.push(format!("{error:?}"));
    }
}

#[test]
fn parse_reports_errors() {
    let mut recorder = Recorder::default();
    parse(&["-", "--", "--other", "--known=1", "k"], &mut recorder);
    assert_eq!(recorder.seen, vec!["known".to_string(), "k".to_string()]);
    assert_eq!(
        recorder.errors,
        vec![
            "NoFlag { num_dashes: 1 }".to_string(),
            "NoFlag { num_dashes: 2 }".to_string(),
            "UnknownFlag { flag: \"other\" }".to_string(),
            "UnusedArgument { flag: \"known\", arg: \"=1\" }".to_string(),
        ]
    );
}
