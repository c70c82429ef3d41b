//! The command line: its grammar, and the check of a request against the
//! platforms found.
use crate::platform::{PlatformKind, PlatformRegistry};
use crate::text::{chars_of, eq_str};
use vstd::prelude::*;

verus! {

/// What the user asked for. Each subcommand may be limited to iOS (`-i`,
/// `--ios`) or Android (`-a`, `--android`).
#[derive(Debug, Clone, Copy, PartialEq, Eq, Structural)]
pub enum Command {
    /// List all simulators/emulators.
    List { ios: bool, android: bool },
    /// Start a simulator/emulator.
    Start { ios: bool, android: bool },
    /// Create a simulator/emulator.
    Create { ios: bool, android: bool },
    /// Delete a simulator/emulator.
    Delete { ios: bool, android: bool },
    /// Erase all settings and content from a simulator/emulator.
    Erase { ios: bool, android: bool },
}

/// A parsed command line.
#[derive(Debug, Clone, Copy, PartialEq, Eq, Structural)]
pub struct Cli {
    pub command: Command,
}

/// Why a command line was not accepted.
#[derive(Debug, Clone, Copy, PartialEq, Eq, Structural)]
pub enum CliError {
    /// No subcommand was given.
    MissingSubcommand,
    /// Help was asked for (`-h`, `--help`, or the `help` subcommand).
    HelpRequested,
    /// The first argument names no subcommand.
    UnrecognizedSubcommand,
    /// An argument is not understood where it stands.
    UnexpectedArgument,
    /// A flag was given twice.
    RepeatedArgument,
}

/// The platform flags of a command.
pub open spec fn command_flags(c: Command) -> (bool, bool) {
    match c {
        Command::List { ios, android } => (ios, android),
        Command::Start { ios, android } => (ios, android),
        Command::Create { ios, android } => (ios, android),
        Command::Delete { ios, android } => (ios, android),
        Command::Erase { ios, android } => (ios, android),
    }
}

/// The subcommand name of a command.
pub open spec fn command_name(c: Command) -> Seq<char> {
    match c {
        Command::List { .. } => "list"@,
        Command::Start { .. } => "start"@,
        Command::Create { .. } => "create"@,
        Command::Delete { .. } => "delete"@,
        Command::Erase { .. } => "erase"@,
    }
}

/// The command that a subcommand name and flags denote, if the name is one.
pub open spec fn command_named(name: Seq<char>, ios: bool, android: bool) -> Option<Command> {
    if name == "list"@ {
        Some(Command::List { ios, android })
    } else if name == "start"@ {
        Some(Command::Start { ios, android })
    } else if name == "create"@ {
        Some(Command::Create { ios, android })
    } else if name == "delete"@ {
        Some(Command::Delete { ios, android })
    } else if name == "erase"@ {
        Some(Command::Erase { ios, android })
    } else {
        None
    }
}

/// The flags set by a cluster of short flags (the characters after one
/// `-`), read left to right from the flags already set.
pub open spec fn short_flags(cs: Seq<char>, ios: bool, android: bool) -> Result<
    (bool, bool),
    CliError,
>
    decreases cs.len(),
{
    if cs.len() == 0 {
        Ok((ios, android))
    } else if cs[0] == 'i' {
        if ios {
            Err(CliError::RepeatedArgument)
        } else {
            short_flags(cs.drop_first(), true, android)
        }
    } else if cs[0] == 'a' {
        if android {
            Err(CliError::RepeatedArgument)
        } else {
            short_flags(cs.drop_first(), ios, true)
        }
    } else if cs[0] == 'h' {
        Err(CliError::HelpRequested)
    } else {
        Err(CliError::UnexpectedArgument)
    }
}

/// The state while reading a subcommand's arguments: the flags set so far,
/// and whether `--` has ended the options.
pub struct FlagState {
    pub ios: bool,
    pub android: bool,
    pub ended: bool,
}

/// The state after one argument of a subcommand.
pub open spec fn flag_step(tok: Seq<char>, st: FlagState) -> Result<FlagState, CliError> {
    if st.ended {
        Err(CliError::UnexpectedArgument)
    } else if tok == "--"@ {
        Ok(FlagState { ended: true, ..st })
    } else if tok == "--ios"@ {
        if st.ios {
            Err(CliError::RepeatedArgument)
        } else {
            Ok(FlagState { ios: true, ..st })
        }
    } else if tok == "--android"@ {
        if st.android {
            Err(CliError::RepeatedArgument)
        } else {
            Ok(FlagState { android: true, ..st })
        }
    } else if tok == "--help"@ {
        Err(CliError::HelpRequested)
    } else if tok.len() >= 2 && tok[0] == '-' && tok[1] != '-' {
        match short_flags(tok.drop_first(), st.ios, st.android) {
            Ok((i, a)) => Ok(FlagState { ios: i, android: a, ended: false }),
            Err(e) => Err(e),
        }
    } else {
        Err(CliError::UnexpectedArgument)
    }
}

/// The state after all of a subcommand's arguments, read left to right.
pub open spec fn flags_after(toks: Seq<Seq<char>>, st: FlagState) -> Result<FlagState, CliError>
    decreases toks.len(),
{
    if toks.len() == 0 {
        Ok(st)
    } else {
        match flag_step(toks[0], st) {
            Ok(next) => flags_after(toks.drop_first(), next),
            Err(e) => Err(e),
        }
    }
}

/// The command line grammar. The first argument is the program's name. The
/// second names the subcommand (`help`, `-h`, `--help`, or a short cluster
/// beginning with `h`, asks for help instead); every later argument is a flag
/// of the subcommand: `-i`/`--ios`, `-a`/`--android` (each at most once, short
/// flags clustered freely), `-h`/`--help`, or a `--` after which nothing may
/// follow.
pub open spec fn parse_spec(args: Seq<Seq<char>>) -> Result<Cli, CliError> {
    if args.len() < 2 {
        Err(CliError::MissingSubcommand)
    } else {
        let t = args[1];
        match command_named(t, false, false) {
            Some(_) => match flags_after(
                args.skip(2),
                FlagState { ios: false, android: false, ended: false },
            ) {
                Ok(st) => Ok(Cli { command: command_named(t, st.ios, st.android).unwrap() }),
                Err(e) => Err(e),
            },
            None => if t == "help"@ || t == "--help"@ || (t.len() >= 2 && t[0] == '-' && t[1]
                == 'h') {
                Err(CliError::HelpRequested)
            } else if t.len() >= 2 && t[0] == '-' {
                Err(CliError::UnexpectedArgument)
            } else {
                Err(CliError::UnrecognizedSubcommand)
            },
        }
    }
}

/// The long flags that set the given platform flags, iOS first.
pub open spec fn long_flags(ios: bool, android: bool) -> Seq<Seq<char>> {
    (if ios {
        seq!["--ios"@]
    } else {
        Seq::empty()
    }) + (if android {
        seq!["--android"@]
    } else {
        Seq::empty()
    })
}

proof fn reveal_words()
    ensures
        "list"@ == seq!['l', 'i', 's', 't'],
        "start"@ == seq!['s', 't', 'a', 'r', 't'],
        "create"@ == seq!['c', 'r', 'e', 'a', 't', 'e'],
        "delete"@ == seq!['d', 'e', 'l', 'e', 't', 'e'],
        "erase"@ == seq!['e', 'r', 'a', 's', 'e'],
        "--"@ == seq!['-', '-'],
        "--ios"@ == seq!['-', '-', 'i', 'o', 's'],
        "--android"@ == seq!['-', '-', 'a', 'n', 'd', 'r', 'o', 'i', 'd'],
        "--help"@ == seq!['-', '-', 'h', 'e', 'l', 'p'],
        "help"@ == seq!['h', 'e', 'l', 'p'],
{
    reveal_strlit("list");
    reveal_strlit("start");
    reveal_strlit("create");
    reveal_strlit("delete");
    reveal_strlit("erase");
    reveal_strlit("--");
    reveal_strlit("--ios");
    reveal_strlit("--android");
    reveal_strlit("--help");
    reveal_strlit("help");
    assert("list"@ =~= seq!['l', 'i', 's', 't']);
    assert("start"@ =~= seq!['s', 't', 'a', 'r', 't']);
    assert("create"@ =~= seq!['c', 'r', 'e', 'a', 't', 'e']);
    assert("delete"@ =~= seq!['d', 'e', 'l', 'e', 't', 'e']);
    assert("erase"@ =~= seq!['e', 'r', 'a', 's', 'e']);
    assert("--"@ =~= seq!['-', '-']);
    assert("--ios"@ =~= seq!['-', '-', 'i', 'o', 's']);
    assert("--android"@ =~= seq!['-', '-', 'a', 'n', 'd', 'r', 'o', 'i', 'd']);
    assert("--help"@ =~= seq!['-', '-', 'h', 'e', 'l', 'p']);
    assert("help"@ =~= seq!['h', 'e', 'l', 'p']);
}

proof fn lemma_named_command(c: Command, ios: bool, android: bool)
    ensures
        command_named(command_name(c), ios, android) == Some(
            match c {
                Command::List { .. } => Command::List { ios, android },
                Command::Start { .. } => Command::Start { ios, android },
                Command::Create { .. } => Command::Create { ios, android },
                Command::Delete { .. } => Command::Delete { ios, android },
                Command::Erase { .. } => Command::Erase { ios, android },
            },
        ),
{
    reveal_words();
}

/// Law: every command, written as the program's name, the subcommand's name
/// and the long flags it carries, parses back to itself.
pub proof fn law_parse_written_command(program: Seq<char>, c: Command)
    ensures
        parse_spec(seq![program, command_name(c)] + long_flags(command_flags(c).0, command_flags(c).1))
            == Ok::<Cli, CliError>(Cli { command: c }),
{
    reveal_words();
    reveal_with_fuel(flags_after, 4);
    let (ios, android) = command_flags(c);
    let args = seq![program, command_name(c)] + long_flags(ios, android);
    lemma_named_command(c, false, false);
    lemma_named_command(c, ios, android);
    assert(args[1] == command_name(c));
    let st0 = FlagState { ios: false, android: false, ended: false };
    let rest = args.skip(2);
    assert(rest =~= long_flags(ios, android));
    let only_ios = FlagState { ios: true, android: false, ended: false };
    let only_android = FlagState { ios: false, android: true, ended: false };
    let both = FlagState { ios: true, android: true, ended: false };
    assert(flag_step("--ios"@, st0) == Ok::<FlagState, CliError>(only_ios));
    assert(flag_step("--android"@, only_ios) == Ok::<FlagState, CliError>(both));
    assert(flag_step("--android"@, st0) == Ok::<FlagState, CliError>(only_android));
    if ios && android {
        assert(rest.drop_first() =~= seq!["--android"@]);
        assert(rest[0] == "--ios"@);
        assert(rest.drop_first()[0] == "--android"@);
        assert(rest.drop_first().drop_first() =~= Seq::<Seq<char>>::empty());
        assert(flags_after(rest.drop_first(), only_ios) == Ok::<FlagState, CliError>(both));
        assert(rest.drop_first().drop_first() =~= Seq::<Seq<char>>::empty());
        assert(flags_after(rest, st0) == Ok::<FlagState, CliError>(FlagState { ios: true, android: true, ended: false }));
    } else if ios {
        assert(rest.drop_first() =~= Seq::<Seq<char>>::empty());
        assert(rest[0] == "--ios"@);
        assert(flags_after(rest, st0) == Ok::<FlagState, CliError>(FlagState { ios: true, android: false, ended: false }));
    } else if android {
        assert(rest.drop_first() =~= Seq::<Seq<char>>::empty());
        assert(rest[0] == "--android"@);
        assert(flags_after(rest, st0) == Ok::<FlagState, CliError>(FlagState { ios: false, android: true, ended: false }));
    } else {
        assert(flags_after(rest, st0) == Ok::<FlagState, CliError>(st0));
    }
    match c {
        Command::List { .. } => {},
        Command::Start { .. } => {},
        Command::Create { .. } => {},
        Command::Delete { .. } => {},
        Command::Erase { .. } => {},
    }
}

/// Law: the two platform flags may be given in either order, long or short,
/// separately or clustered; every such spelling sets both.
pub proof fn law_flag_spellings(program: Seq<char>, name: Seq<char>)
    requires
        command_named(name, false, false) is Some,
    ensures
        ({
            let both = Ok::<Cli, CliError>(Cli { command: command_named(name, true, true).unwrap() });
            &&& parse_spec(seq![program, name, "--ios"@, "--android"@]) == both
            &&& parse_spec(seq![program, name, "--android"@, "--ios"@]) == both
            &&& parse_spec(seq![program, name, seq!['-', 'i'], seq!['-', 'a']]) == both
            &&& parse_spec(seq![program, name, seq!['-', 'a'], seq!['-', 'i']]) == both
            &&& parse_spec(seq![program, name, seq!['-', 'i', 'a']]) == both
            &&& parse_spec(seq![program, name, seq!['-', 'a', 'i']]) == both
        }),
{
    reveal_words();
    reveal_with_fuel(flags_after, 4);
    reveal_with_fuel(short_flags, 4);
    let st0 = FlagState { ios: false, android: false, ended: false };
    let both = FlagState { ios: true, android: true, ended: false };
    let only_ios = FlagState { ios: true, android: false, ended: false };
    let only_android = FlagState { ios: false, android: true, ended: false };
    assert(flag_step("--ios"@, st0) == Ok::<FlagState, CliError>(only_ios));
    assert(flag_step("--android"@, only_ios) == Ok::<FlagState, CliError>(both));
    assert(flag_step("--android"@, st0) == Ok::<FlagState, CliError>(only_android));
    assert(flag_step("--ios"@, only_android) == Ok::<FlagState, CliError>(both));
    let a1 = seq![program, name, "--ios"@, "--android"@];
    assert(a1.skip(2).drop_first().drop_first() =~= Seq::<Seq<char>>::empty());
    assert(a1.skip(2)[0] == "--ios"@);
    assert(a1.skip(2).drop_first()[0] == "--android"@);
    assert(flags_after(a1.skip(2).drop_first(), only_ios) == Ok::<FlagState, CliError>(both));
    assert(flags_after(a1.skip(2), st0) == Ok::<FlagState, CliError>(both));
    let a2 = seq![program, name, "--android"@, "--ios"@];
    assert(a2.skip(2).drop_first().drop_first() =~= Seq::<Seq<char>>::empty());
    assert(a2.skip(2)[0] == "--android"@);
    assert(a2.skip(2).drop_first()[0] == "--ios"@);
    assert(flags_after(a2.skip(2).drop_first(), only_android) == Ok::<FlagState, CliError>(both));
    assert(flags_after(a2.skip(2), st0) == Ok::<FlagState, CliError>(both));
    let i = seq!['-', 'i'];
    let a = seq!['-', 'a'];
    assert(i.drop_first().drop_first() =~= Seq::<char>::empty());
    assert(a.drop_first().drop_first() =~= Seq::<char>::empty());
    let a3 = seq![program, name, i, a];
    assert(a3.skip(2).drop_first().drop_first() =~= Seq::<Seq<char>>::empty());
    assert(flags_after(a3.skip(2), st0) == Ok::<FlagState, CliError>(both));
    let a4 = seq![program, name, a, i];
    assert(a4.skip(2).drop_first().drop_first() =~= Seq::<Seq<char>>::empty());
    assert(flags_after(a4.skip(2), st0) == Ok::<FlagState, CliError>(both));
    let ia = seq!['-', 'i', 'a'];
    let ai = seq!['-', 'a', 'i'];
    assert(ia.drop_first().drop_first().drop_first() =~= Seq::<char>::empty());
    assert(ai.drop_first().drop_first().drop_first() =~= Seq::<char>::empty());
    let a5 = seq![program, name, ia];
    assert(a5.skip(2).drop_first() =~= Seq::<Seq<char>>::empty());
    assert(flags_after(a5.skip(2), st0) == Ok::<FlagState, CliError>(both));
    let a6 = seq![program, name, ai];
    assert(a6.skip(2).drop_first() =~= Seq::<Seq<char>>::empty());
    assert(flags_after(a6.skip(2), st0) == Ok::<FlagState, CliError>(both));
}

/// The views of a sequence of string slices.
pub open spec fn arg_views(args: Seq<&str>) -> Seq<Seq<char>> {
    args.map_values(|a: &str| a@)
}

/// The command that a subcommand name denotes, with both flags clear.
fn subcommand_named(name: &[char]) -> (r: Option<Command>)
    ensures
        r == command_named(name@, false, false),
{
    if eq_str(name, "list") {
        Some(Command::List { ios: false, android: false })
    } else if eq_str(name, "start") {
        Some(Command::Start { ios: false, android: false })
    } else if eq_str(name, "create") {
        Some(Command::Create { ios: false, android: false })
    } else if eq_str(name, "delete") {
        Some(Command::Delete { ios: false, android: false })
    } else if eq_str(name, "erase") {
        Some(Command::Erase { ios: false, android: false })
    } else {
        None
    }
}

/// The same command with the given flags.
fn with_flags(c: Command, ios: bool, android: bool) -> (r: Command)
    ensures
        forall|t: Seq<char>|
            command_named(t, false, false) == Some(c) ==> command_named(t, ios, android) == Some(
                r,
            ),
{
    match c {
        Command::List { .. } => Command::List { ios, android },
        Command::Start { .. } => Command::Start { ios, android },
        Command::Create { .. } => Command::Create { ios, android },
        Command::Delete { .. } => Command::Delete { ios, android },
        Command::Erase { .. } => Command::Erase { ios, android },
    }
}

/// The flags after a cluster of short flags.
fn read_short_flags(cs: &[char], start: usize, ios: bool, android: bool) -> (r: Result<
    (bool, bool),
    CliError,
>)
    requires
        start <= cs@.len(),
    ensures
        r == short_flags(cs@.skip(start as int), ios, android),
    decreases cs@.len() - start,
{
    if start == cs.len() {
        assert(cs@.skip(start as int) =~= Seq::<char>::empty());
        return Ok((ios, android));
    }
    let c = cs[start];
    assert(cs@.skip(start as int)[0] == c);
    assert(cs@.skip(start as int).drop_first() =~= cs@.skip(start + 1));
    if c == 'i' {
        if ios {
            Err(CliError::RepeatedArgument)
        } else {
            read_short_flags(cs, start + 1, true, android)
        }
    } else if c == 'a' {
        if android {
            Err(CliError::RepeatedArgument)
        } else {
            read_short_flags(cs, start + 1, ios, true)
        }
    } else if c == 'h' {
        Err(CliError::HelpRequested)
    } else {
        Err(CliError::UnexpectedArgument)
    }
}

/// The state after one argument of a subcommand.
fn read_flag(tok: &[char], st: FlagState) -> (r: Result<FlagState, CliError>)
    ensures
        r == flag_step(tok@, st),
{
    if st.ended {
        Err(CliError::UnexpectedArgument)
    } else if eq_str(tok, "--") {
        Ok(FlagState { ended: true, ..st })
    } else if eq_str(tok, "--ios") {
        if st.ios {
            Err(CliError::RepeatedArgument)
        } else {
            Ok(FlagState { ios: true, ..st })
        }
    } else if eq_str(tok, "--android") {
        if st.android {
            Err(CliError::RepeatedArgument)
        } else {
            Ok(FlagState { android: true, ..st })
        }
    } else if eq_str(tok, "--help") {
        Err(CliError::HelpRequested)
    } else if tok.len() >= 2 && tok[0] == '-' && tok[1] != '-' {
        let r = read_short_flags(tok, 1, st.ios, st.android);
        assert(tok@.skip(1) =~= tok@.drop_first());
        match r {
            Ok((i, a)) => Ok(FlagState { ios: i, android: a, ended: false }),
            Err(e) => Err(e),
        }
    } else {
        Err(CliError::UnexpectedArgument)
    }
}

impl Cli {
    /// Parses a command line, the program's name first.
    pub fn try_parse_from(args: &[&str]) -> (r: Result<Cli, CliError>)
        ensures
            r == parse_spec(arg_views(args@)),
    {
        let ghost av = arg_views(args@);
        if args.len() < 2 {
            return Err(CliError::MissingSubcommand);
        }
        let t = chars_of(args[1]);
        assert(av[1] == t@);
        match subcommand_named(t.as_slice()) {
            Some(c) => {
                let mut st = FlagState { ios: false, android: false, ended: false };
                let n = args.len();
                let mut i: usize = 2;
                while i < n
                    invariant
                        2 <= i <= n,
                        n == args@.len(),
                        av == arg_views(args@),
                        av[1] == t@,
                        command_named(t@, false, false) == Some(c),
                        flags_after(av.skip(2), FlagState { ios: false, android: false, ended: false })
                            == flags_after(av.skip(i as int), st),
                    decreases n - i,
                {
                    let tok = chars_of(args[i]);
                    assert(av.skip(i as int)[0] == tok@);
                    assert(av.skip(i as int).drop_first() =~= av.skip(i + 1));
                    match read_flag(tok.as_slice(), st) {
                        Ok(next) => {
                            st = next;
                        },
                        Err(e) => {
                            assert(flags_after(av.skip(i as int), st) == Err::<FlagState, CliError>(e));
                            return Err(e);
                        },
                    }
                    i = i + 1;
                }
                assert(av.skip(n as int) =~= Seq::<Seq<char>>::empty());
                Ok(Cli { command: with_flags(c, st.ios, st.android) })
            },
            None => {
                if eq_str(t.as_slice(), "help") || eq_str(t.as_slice(), "--help") || (t.len()
                    >= 2 && t[0] == '-' && t[1] == 'h') {
                    Err(CliError::HelpRequested)
                } else if t.len() >= 2 && t[0] == '-' {
                    Err(CliError::UnexpectedArgument)
                } else {
                    Err(CliError::UnrecognizedSubcommand)
                }
            },
        }
    }
}

/// Why a request for a platform cannot be served, if it cannot: a flag asks
/// for a platform that was not found.
pub open spec fn request_problem(c: Command, available: Seq<PlatformKind>) -> Option<Seq<char>> {
    let (ios, android) = command_flags(c);
    if ios && !available.contains(PlatformKind::Ios) {
        Some("iOS tools are not available. Make sure Xcode is installed."@)
    } else if android && !available.contains(PlatformKind::Android) {
        Some("Android tools are not available. Make sure Android SDK is installed."@)
    } else {
        None
    }
}

/// Checks that each platform a flag asks for was found.
pub fn validate_platform_request(command: &Command, registry: &PlatformRegistry) -> (r: Result<
    (),
    String,
>)
    ensures
        match request_problem(*command, registry@) {
            Some(m) => r matches Err(e) && e@ == m,
            None => r is Ok,
        },
{
    let (ios, android) = match command {
        Command::List { ios, android } => (*ios, *android),
        Command::Start { ios, android } => (*ios, *android),
        Command::Create { ios, android } => (*ios, *android),
        Command::Delete { ios, android } => (*ios, *android),
        Command::Erase { ios, android } => (*ios, *android),
    };
    if ios && registry.get(PlatformKind::Ios).is_none() {
        return Err("iOS tools are not available. Make sure Xcode is installed.".to_string());
    }
    if android && registry.get(PlatformKind::Android).is_none() {
        return Err(
            "Android tools are not available. Make sure Android SDK is installed.".to_string(),
        );
    }
    Ok(())
}

} // verus!
