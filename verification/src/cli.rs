//! The command line: the options netcat knows, what a parsed command line
//! asks for, and the connection that the options describe.
use vstd::prelude::*;
use getopts::{Options, Matches, Fail};

verus! {

/// `getopts::Options`: the options a program knows.
#[verifier::external_type_specification]
#[verifier::external_body]
pub struct ExOptions(getopts::Options);

/// `getopts::Matches`: a command line matched against `Options`.
#[verifier::external_type_specification]
#[verifier::external_body]
pub struct ExMatches(getopts::Matches);

/// One option definition: short name, long name, description, hint,
/// whether it takes an argument, whether it must be given.
pub type OptGroup = (Seq<char>, Seq<char>, Seq<char>, Seq<char>, bool, bool);

/// Why getopts refuses a command line (the variants of `getopts::Fail`).
#[derive(Clone, Copy, Debug, PartialEq, Eq, Structural)]
pub enum FailKind {
    /// The option requires an argument but none was passed.
    ArgumentMissing,
    /// The passed option is not declared among the possible options.
    UnrecognizedOption,
    /// A required option is not present.
    OptionMissing,
    /// A single occurrence option is being used multiple times.
    OptionDuplicated,
    /// There's an argument being passed to a non-argument option.
    UnexpectedArgument,
}

/// Why getopts refused a command line, and the option it names.
#[derive(Debug)]
pub struct ParseFailure {
    pub kind: FailKind,
    pub name: String,
}

/// The option definitions of `opts`, in the order they were made. They
/// describe all that `parse` and `usage` read of `opts` when `in_model(opts)`.
pub uninterp spec fn option_groups(opts: Options) -> Seq<OptGroup>;

/// `opts` keeps getopts' default parsing style (free arguments may stand
/// among options), is not in long-only mode, and holds only options that
/// take no argument or a mandatory one, each given at most once: the
/// options that `option_groups` describes completely.
pub uninterp spec fn in_model(opts: Options) -> bool;

/// The options of a parse result: the names under which they can be asked
/// for, each mapped to whether the option was given.
pub uninterp spec fn match_table(m: Matches) -> Map<Seq<char>, bool>;

/// The free arguments of a parse result, in order.
pub uninterp spec fn free_arguments(m: Matches) -> Seq<Seq<char>>;

/// What `getopts::Options::parse` makes of the arguments `args` for options
/// in the model (see `in_model`) with the definitions `groups`: the table of
/// given options and the free arguments, or why it refuses them.
pub uninterp spec fn getopts_parse(groups: Seq<OptGroup>, args: Seq<Seq<char>>) -> Result<(Map<Seq<char>, bool>, Seq<Seq<char>>), (FailKind, Seq<char>)>;

/// What `getopts::Options::usage` makes of `brief` for options in the model
/// (see `in_model`) with the definitions `groups`.
pub uninterp spec fn getopts_usage(groups: Seq<OptGroup>, brief: Seq<char>) -> Seq<char>;

/// A printable ASCII character other than space.
pub open spec fn printable(c: char) -> bool {
    '!' <= c && c <= '~'
}

/// A short option name: none, or one printable ASCII character.
pub open spec fn valid_short_name(s: Seq<char>) -> bool {
    s.len() == 0 || (s.len() == 1 && printable(s[0]))
}

/// A long option name: none, or at least two printable ASCII characters.
pub open spec fn valid_long_name(s: Seq<char>) -> bool {
    s.len() == 0 || (s.len() >= 2 && forall|i: int| 0 <= i < s.len() ==> printable(#[trigger] s[i]))
}

/// A pair of names that getopts takes: of the right shapes, not both empty.
pub open spec fn valid_names(short: Seq<char>, long: Seq<char>) -> bool {
    valid_short_name(short) && valid_long_name(long) && (short.len() > 0 || long.len() > 0)
}

/// Every definition has names that getopts takes: on these, neither `parse`
/// nor `usage` panics.
pub open spec fn groups_valid(g: Seq<OptGroup>) -> bool {
    forall|i: int| 0 <= i < g.len() ==> valid_names(#[trigger] g[i].0, g[i].1)
}

/// No definition must be given.
pub open spec fn none_required(g: Seq<OptGroup>) -> bool {
    forall|i: int| 0 <= i < g.len() ==> !(#[trigger] g[i]).5
}

/// The nonempty ones of a short and a long name.
pub open spec fn names_of(short: Seq<char>, long: Seq<char>) -> Set<Seq<char>> {
    let s = if short.len() > 0 { set![short] } else { Set::empty() };
    if long.len() > 0 { s.insert(long) } else { s }
}

/// The names under which the definitions can be asked for.
pub open spec fn defined_names(g: Seq<OptGroup>) -> Set<Seq<char>> {
    Set::new(|n: Seq<char>| exists|i: int| 0 <= i < g.len() && #[trigger] names_of(g[i].0, g[i].1).contains(n))
}

/// No option of a parse table was given.
pub open spec fn none_given(t: Map<Seq<char>, bool>) -> bool {
    forall|n: Seq<char>| #[trigger] t.dom().contains(n) ==> !t[n]
}

/// An argument that getopts reads as an option: a `-` and more.
pub open spec fn option_like(a: Seq<char>) -> bool {
    a.len() > 1 && a[0] == '-'
}

/// No argument looks like an option.
pub open spec fn plain_arguments(args: Seq<Seq<char>>) -> bool {
    forall|i: int| 0 <= i < args.len() ==> !option_like(#[trigger] args[i])
}

/// The texts of a sequence of strings.
pub open spec fn texts(v: Seq<String>) -> Seq<Seq<char>> {
    v.map_values(|s: String| s@)
}

/// The message of `getopts::Fail` of kind `k` naming option `n`.
pub open spec fn fail_text(k: FailKind, n: Seq<char>) -> Seq<char> {
    match k {
        FailKind::ArgumentMissing => "Argument to option '"@ + n + "' missing"@,
        FailKind::UnrecognizedOption => "Unrecognized option: '"@ + n + "'"@,
        FailKind::OptionMissing => "Required option '"@ + n + "' missing"@,
        FailKind::OptionDuplicated => "Option '"@ + n + "' given more than once"@,
        FailKind::UnexpectedArgument => "Option '"@ + n + "' does not take an argument"@,
    }
}

/// `getopts::Options::new`: options with none defined.
#[verifier::external_body]
fn options_new() -> (o: Options)
    ensures
        option_groups(o) == Seq::<OptGroup>::empty(),
        in_model(o),
{
    Options::new()
}

/// `getopts::Options::optflag`: defines an optional option without argument
/// (its hint is empty). It panics on names of another shape, which
/// `requires` rules out.
#[verifier::external_body]
fn options_optflag(opts: &mut Options, short_name: &str, long_name: &str, desc: &str)
    requires
        valid_names(short_name@, long_name@),
    ensures
        option_groups(*final(opts)) == option_groups(*old(opts)).push(
            (short_name@, long_name@, desc@, Seq::<char>::empty(), false, false)),
        in_model(*final(opts)) == in_model(*old(opts)),
{
    opts.optflag(short_name, long_name, desc);
}

/// `getopts::Options::optopt`: defines an optional option that takes an
/// argument. Same conditions as for a flag.
#[verifier::external_body]
fn options_optopt(opts: &mut Options, short_name: &str, long_name: &str, desc: &str, hint: &str)
    requires
        valid_names(short_name@, long_name@),
    ensures
        option_groups(*final(opts)) == option_groups(*old(opts)).push(
            (short_name@, long_name@, desc@, hint@, true, false)),
        in_model(*final(opts)) == in_model(*old(opts)),
{
    opts.optopt(short_name, long_name, desc, hint);
}

/// `getopts::Options::parse`: matches `args` against `opts`; a refusal is
/// handed back as its kind and the option it names. For options in the
/// model (`in_model`), which is all that `parse` then reads of them, the
/// result is `getopts_parse` of the definitions and the arguments; a match can be
/// asked for exactly the defined names. When no argument looks like an
/// option and no option must be given, it succeeds with nothing given and
/// every argument free, in order. It panics on a definition without any
/// name, which `requires` rules out.
#[verifier::external_body]
fn options_parse(opts: &Options, args: &[String]) -> (r: Result<Matches, ParseFailure>)
    requires
        in_model(*opts),
        groups_valid(option_groups(*opts)),
    ensures
        r matches Ok(m) ==> getopts_parse(option_groups(*opts), texts(args@)) == parse_success(match_table(m), free_arguments(m)),
        r matches Err(f) ==> getopts_parse(option_groups(*opts), texts(args@)) == parse_refusal(f.kind, f.name@),
        r matches Ok(m) ==> match_table(m).dom() == defined_names(option_groups(*opts)),
        plain_arguments(texts(args@)) && none_required(option_groups(*opts)) ==> plainly_parsed(r, args@),
{
    match opts.parse(args) {
        Ok(m) => Ok(m),
        Err(Fail::ArgumentMissing(name)) => Err(ParseFailure { kind: FailKind::ArgumentMissing, name }),
        Err(Fail::UnrecognizedOption(name)) => Err(ParseFailure { kind: FailKind::UnrecognizedOption, name }),
        Err(Fail::OptionMissing(name)) => Err(ParseFailure { kind: FailKind::OptionMissing, name }),
        Err(Fail::OptionDuplicated(name)) => Err(ParseFailure { kind: FailKind::OptionDuplicated, name }),
        Err(Fail::UnexpectedArgument(name)) => Err(ParseFailure { kind: FailKind::UnexpectedArgument, name }),
    }
}

/// A parse that gave the options of `table` and the free arguments `free`.
pub open spec fn parse_success(table: Map<Seq<char>, bool>, free: Seq<Seq<char>>) -> Result<(Map<Seq<char>, bool>, Seq<Seq<char>>), (FailKind, Seq<char>)> {
    Ok((table, free))
}

/// A parse refused for `kind`, naming option `name`.
pub open spec fn parse_refusal(kind: FailKind, name: Seq<char>) -> Result<(Map<Seq<char>, bool>, Seq<Seq<char>>), (FailKind, Seq<char>)> {
    Err((kind, name))
}

/// `r` succeeded with no option given and every argument free, in order.
pub open spec fn plainly_parsed(r: Result<Matches, ParseFailure>, args: Seq<String>) -> bool {
    r matches Ok(m) && none_given(match_table(m)) && free_arguments(m) == texts(args)
}

/// `getopts::Matches::opt_present`: whether the option was given. It panics
/// on a name that was not defined, which `requires` rules out.
#[verifier::external_body]
fn matches_opt_present(m: &Matches, name: &str) -> (r: bool)
    requires
        match_table(*m).dom().contains(name@),
    ensures
        r == match_table(*m)[name@],
{
    m.opt_present(name)
}

/// The field `getopts::Matches::free`: the arguments that are not options.
#[verifier::external_body]
fn matches_free(m: &Matches) -> (v: Vec<String>)
    ensures
        texts(v@) == free_arguments(*m),
{
    m.free.clone()
}

/// The line that `getopts::Options::usage` puts between the brief and the options.
pub open spec fn options_heading() -> Seq<char> {
    seq!['\n', '\n', 'O', 'p', 't', 'i', 'o', 'n', 's', ':', '\n']
}

/// `getopts::Options::usage`: `brief`, a blank line, `Options:` and a line
/// per option; for options in the model (`in_model`), as a whole,
/// `getopts_usage` of the definitions and `brief`.
/// It panics on a short name wider than one column, which `requires` rules out.
#[verifier::external_body]
fn options_usage(opts: &Options, brief: &str) -> (s: String)
    requires
        in_model(*opts),
        groups_valid(option_groups(*opts)),
    ensures
        s@ == getopts_usage(option_groups(*opts), brief@),
        s@.len() >= brief@.len() + options_heading().len(),
        s@.subrange(0, (brief@.len() + options_heading().len()) as int) == brief@ + options_heading(),
{
    opts.usage(brief)
}

/// The `Display` text of the `getopts::Fail` of kind `kind` naming `name`.
#[verifier::external_body]
fn fail_message(kind: FailKind, name: &str) -> (s: String)
    ensures
        s@ == fail_text(kind, name@),
{
    let name = name.to_string();
    let f = match kind {
        FailKind::ArgumentMissing => Fail::ArgumentMissing(name),
        FailKind::UnrecognizedOption => Fail::UnrecognizedOption(name),
        FailKind::OptionMissing => Fail::OptionMissing(name),
        FailKind::OptionDuplicated => Fail::OptionDuplicated(name),
        FailKind::UnexpectedArgument => Fail::UnexpectedArgument(name),
    };
    f.to_string()
}

/// The option definitions of netcat, in order.
pub open spec fn netcat_groups() -> Seq<OptGroup> {
    let e = Seq::<char>::empty();
    seq![
        ("h"@, "help"@, "Print this help text"@, e, false, false),
        ("l"@, e, "Listen mode, for inbound connects"@, e, false, false),
        ("4"@, e, "Use IPv4"@, e, false, false),
        ("6"@, e, "Use IPv6"@, e, false, false),
        ("U"@, e, "Use UNIX domain socket"@, e, false, false),
        ("u"@, e, "UDP mode"@, e, false, false),
        ("I"@, e, "TCP receive buffer length"@, "length"@, true, false),
        ("O"@, e, "TCP send buffer length"@, "length"@, true, false),
        ("N"@, e, "Shutdown the network socket after EOF on stdin"@, e, false, false),
    ]
}

/// The options netcat knows, by the names they are asked for.
pub open spec fn netcat_option_names() -> Set<Seq<char>> {
    set!["h"@, "help"@, "l"@, "4"@, "6"@, "U"@, "u"@, "I"@, "O"@, "N"@]
}

/// netcat's definitions are valid, none must be given, and they can be
/// asked for by exactly netcat's option names.
pub proof fn lemma_netcat_groups()
    ensures
        groups_valid(netcat_groups()),
        none_required(netcat_groups()),
        defined_names(netcat_groups()) == netcat_option_names(),
{
    reveal_strlit("h");
    reveal_strlit("help");
    reveal_strlit("l");
    reveal_strlit("4");
    reveal_strlit("6");
    reveal_strlit("U");
    reveal_strlit("u");
    reveal_strlit("I");
    reveal_strlit("O");
    reveal_strlit("N");
    let g = netcat_groups();
    assert(names_of(g[0].0, g[0].1) =~= set!["h"@, "help"@]);
    assert(names_of(g[1].0, g[1].1) =~= set!["l"@]);
    assert(names_of(g[2].0, g[2].1) =~= set!["4"@]);
    assert(names_of(g[3].0, g[3].1) =~= set!["6"@]);
    assert(names_of(g[4].0, g[4].1) =~= set!["U"@]);
    assert(names_of(g[5].0, g[5].1) =~= set!["u"@]);
    assert(names_of(g[6].0, g[6].1) =~= set!["I"@]);
    assert(names_of(g[7].0, g[7].1) =~= set!["O"@]);
    assert(names_of(g[8].0, g[8].1) =~= set!["N"@]);
    assert forall|n: Seq<char>| defined_names(g).contains(n) implies #[trigger] netcat_option_names().contains(n) by {
        let i = choose|i: int| 0 <= i < g.len() && #[trigger] names_of(g[i].0, g[i].1).contains(n);
        assert(0 <= i < 9);
    }
    assert forall|n: Seq<char>| #[trigger] netcat_option_names().contains(n) implies defined_names(g).contains(n) by {
        if n == "h"@ || n == "help"@ { assert(names_of(g[0].0, g[0].1).contains(n)); }
        else if n == "l"@ { assert(names_of(g[1].0, g[1].1).contains(n)); }
        else if n == "4"@ { assert(names_of(g[2].0, g[2].1).contains(n)); }
        else if n == "6"@ { assert(names_of(g[3].0, g[3].1).contains(n)); }
        else if n == "U"@ { assert(names_of(g[4].0, g[4].1).contains(n)); }
        else if n == "u"@ { assert(names_of(g[5].0, g[5].1).contains(n)); }
        else if n == "I"@ { assert(names_of(g[6].0, g[6].1).contains(n)); }
        else if n == "O"@ { assert(names_of(g[7].0, g[7].1).contains(n)); }
        else { assert(names_of(g[8].0, g[8].1).contains(n)); }
    }
    assert(defined_names(g) =~= netcat_option_names());
}

/// The options netcat knows.
pub fn netcat_options() -> (o: Options)
    ensures
        option_groups(o) == netcat_groups(),
        in_model(o),
        forall|i: int| 0 <= i < option_groups(o).len() ==> ((#[trigger] option_groups(o)[i]).4
            <==> (option_groups(o)[i].0 == "I"@ || option_groups(o)[i].0 == "O"@)),
{
    proof {
        reveal_strlit("h");
        reveal_strlit("help");
        reveal_strlit("l");
        reveal_strlit("4");
        reveal_strlit("6");
        reveal_strlit("U");
        reveal_strlit("u");
        reveal_strlit("I");
        reveal_strlit("O");
        reveal_strlit("N");
        reveal_strlit("");
    }
    let mut opts = options_new();
    options_optflag(&mut opts, "h", "help", "Print this help text");
    options_optflag(&mut opts, "l", "", "Listen mode, for inbound connects");
    options_optflag(&mut opts, "4", "", "Use IPv4");
    options_optflag(&mut opts, "6", "", "Use IPv6");
    options_optflag(&mut opts, "U", "", "Use UNIX domain socket");
    options_optflag(&mut opts, "u", "", "UDP mode");
    options_optopt(&mut opts, "I", "", "TCP receive buffer length", "length");
    options_optopt(&mut opts, "O", "", "TCP send buffer length", "length");
    options_optflag(&mut opts, "N", "", "Shutdown the network socket after EOF on stdin");
    assert(""@ =~= Seq::<char>::empty());
    assert(option_groups(opts) =~= netcat_groups());
    proof {
        lemma_netcat_flags_take_no_argument();
    }
    opts
}

/// Which options a command line gave.
#[derive(Clone, Copy, Debug, PartialEq, Eq, Structural)]
pub struct Switches {
    /// `-h`, `--help`: print the help text.
    pub help: bool,
    /// `-l`: listen for an inbound connection.
    pub listen: bool,
    /// `-4`: use IPv4.
    pub ipv4: bool,
    /// `-6`: use IPv6.
    pub ipv6: bool,
    /// `-U`: use a UNIX domain socket.
    pub unix: bool,
    /// `-u`: use UDP.
    pub udp: bool,
    /// `-N`: shut the network socket down after the end of standard input.
    pub shutdown: bool,
}

/// The flags that change how the relay runs.
#[derive(Clone, Copy, Debug, PartialEq, Eq, Structural)]
pub struct Flags {
    /// Listen for an inbound connection.
    pub listen: bool,
    /// Shut the network socket down after the end of standard input.
    pub shutdown: bool,
}

/// The address family asked for.
#[derive(Clone, Copy, Debug, PartialEq, Eq, Structural)]
pub enum Family {
    IpV4,
    IpV6,
    Unix,
}

/// The transport protocol.
#[derive(Clone, Copy, Debug, PartialEq, Eq, Structural)]
pub enum Transport {
    Tcp,
    Udp,
}

/// A command line that asks for a relay.
#[derive(Debug)]
pub struct Opts {
    /// The host to connect to; empty in listen mode with a single argument.
    pub host: String,
    /// The port to connect to or listen on.
    pub port: String,
    pub flags: Flags,
    pub family: Option<Family>,
    pub transport: Transport,
}

/// What a command line asks for, apart from the texts.
#[derive(Debug)]
pub enum Decision {
    /// Print the help text and stop.
    Help,
    /// The arguments do not fit: print the usage and fail.
    Usage,
    /// Run the relay.
    Run(Opts),
}

/// What a command line asks for.
#[derive(Debug)]
pub enum Command {
    /// Print this help text and stop.
    Help(String),
    /// Print this usage text and exit with status 1.
    Usage(String),
    /// Run the relay.
    Run(Opts),
}

/// The family asked for: `-4` before `-6` before `-U`.
pub open spec fn family_of(sw: Switches) -> Option<Family> {
    if sw.ipv4 {
        Option::Some(Family::IpV4)
    } else if sw.ipv6 {
        Option::Some(Family::IpV6)
    } else if sw.unix {
        Option::Some(Family::Unix)
    } else {
        Option::None
    }
}

/// The transport asked for: UDP with `-u`, else TCP.
pub open spec fn transport_of(sw: Switches) -> Transport {
    if sw.udp { Transport::Udp } else { Transport::Tcp }
}

/// The free arguments fit: `host port`, or just `port` in listen mode.
pub open spec fn arguments_fit(sw: Switches, free: Seq<Seq<char>>) -> bool {
    free.len() == 2 || (free.len() == 1 && sw.listen)
}

/// `o` is the relay that the switches and free arguments describe.
pub open spec fn opts_for(sw: Switches, free: Seq<Seq<char>>, o: Opts) -> bool {
    &&& o.host@ == (if free.len() == 1 { Seq::<char>::empty() } else { free[0] })
    &&& o.port@ == free[free.len() - 1]
    &&& o.flags == Flags { listen: sw.listen, shutdown: sw.shutdown }
    &&& o.family == family_of(sw)
    &&& o.transport == transport_of(sw)
}

/// `d` is what the switches and free arguments ask for.
pub open spec fn decision_for(sw: Switches, free: Seq<Seq<char>>, d: Decision) -> bool {
    if sw.help {
        d is Help
    } else if !arguments_fit(sw, free) {
        d is Usage
    } else {
        d matches Decision::Run(o) && opts_for(sw, free, o)
    }
}

/// What the given options and free arguments ask for.
pub fn decide(sw: &Switches, free: Vec<String>) -> (d: Decision)
    ensures
        decision_for(*sw, texts(free@), d),
        !sw.help && free@.len() == 2 ==> (d matches Decision::Run(o) && o.host@ == free@[0]@
            && o.port@ == free@[1]@),
        !sw.help && free@.len() == 1 && sw.listen ==> (d matches Decision::Run(o) && o.host@.len() == 0
            && o.port@ == free@[0]@),
        !sw.help && free@.len() == 1 && !sw.listen ==> d is Usage,
        !sw.help && free@.len() != 1 && free@.len() != 2 ==> d is Usage,
        sw.help ==> d is Help,
        d matches Decision::Run(o) ==> {
            &&& o.flags.listen == sw.listen && o.flags.shutdown == sw.shutdown
            &&& (o.transport == Transport::Udp <==> sw.udp)
            &&& sw.ipv4 ==> o.family == Option::Some(Family::IpV4)
            &&& !sw.ipv4 && sw.ipv6 ==> o.family == Option::Some(Family::IpV6)
            &&& !sw.ipv4 && !sw.ipv6 && sw.unix ==> o.family == Option::Some(Family::Unix)
            &&& !sw.ipv4 && !sw.ipv6 && !sw.unix ==> o.family is None
        },
{
    if sw.help {
        return Decision::Help;
    }
    let n = free.len();
    let (host, port) = if n == 1 {
        if !sw.listen {
            return Decision::Usage;
        }
        (String::new(), free[0].clone())
    } else if n == 2 {
        (free[0].clone(), free[1].clone())
    } else {
        return Decision::Usage;
    };
    let family = if sw.ipv4 {
        Option::Some(Family::IpV4)
    } else if sw.ipv6 {
        Option::Some(Family::IpV6)
    } else if sw.unix {
        Option::Some(Family::Unix)
    } else {
        Option::None
    };
    let transport = if sw.udp { Transport::Udp } else { Transport::Tcp };
    Decision::Run(Opts {
        host,
        port,
        flags: Flags { listen: sw.listen, shutdown: sw.shutdown },
        family,
        transport,
    })
}

/// The first line of the usage text of `program`.
pub open spec fn usage_brief(program: Seq<char>) -> Seq<char> {
    "Usage: "@ + program + " [options] [destination] [port]"@
}

/// The usage text of `program` for the definitions `groups`: getopts' usage
/// with the brief line of `program`.
pub open spec fn usage_for(program: Seq<char>, groups: Seq<OptGroup>) -> Seq<char> {
    getopts_usage(groups, usage_brief(program))
}

/// The usage text: the brief line of `program`, then the options.
pub fn usage_text(program: &str, opts: &Options) -> (s: String)
    requires
        in_model(*opts),
        groups_valid(option_groups(*opts)),
    ensures
        s@ == usage_for(program@, option_groups(*opts)),
        s@.len() >= usage_brief(program@).len() + options_heading().len(),
        s@.subrange(0, (usage_brief(program@).len() + options_heading().len()) as int)
            == usage_brief(program@) + options_heading(),
{
    let mut brief = String::from_str("Usage: ");
    brief.append(program);
    brief.append(" [options] [destination] [port]");
    options_usage(opts, brief.as_str())
}

/// `c` is the command for decision `d` of `program` with the definitions
/// `groups`: the help and usage commands carry the usage text.
pub open spec fn command_for(program: Seq<char>, groups: Seq<OptGroup>, d: Decision, c: Command) -> bool {
    match d {
        Decision::Help => c matches Command::Help(t) && t@ == usage_for(program, groups),
        Decision::Usage => c matches Command::Usage(t) && t@ == usage_for(program, groups),
        Decision::Run(o) => c matches Command::Run(o2) && o2.host@ == o.host@ && o2.port@ == o.port@
            && o2.flags == o.flags && o2.family == o.family && o2.transport == o.transport,
    }
}

/// The usage text starts with the brief line of the program.
pub proof fn lemma_usage_starts_with_brief(program: Seq<char>, groups: Seq<OptGroup>, t: Seq<char>)
    requires
        t == usage_for(program, groups),
        t.len() >= usage_brief(program).len() + options_heading().len(),
        t.subrange(0, (usage_brief(program).len() + options_heading().len()) as int)
            == usage_brief(program) + options_heading(),
    ensures
        t.subrange(0, usage_brief(program).len() as int) == usage_brief(program),
{
    assert(t.subrange(0, usage_brief(program).len() as int) =~= (usage_brief(program)
        + options_heading()).subrange(0, usage_brief(program).len() as int));
}

/// The command for decision `d` of `program`, with the options' usage text.
pub fn command(program: &str, opts: &Options, d: Decision) -> (c: Command)
    requires
        in_model(*opts),
        groups_valid(option_groups(*opts)),
    ensures
        command_for(program@, option_groups(*opts), d, c),
{
    match d {
        Decision::Help => Command::Help(usage_text(program, opts)),
        Decision::Usage => Command::Usage(usage_text(program, opts)),
        Decision::Run(o) => Command::Run(o),
    }
}

/// The switches that a parse table of netcat's options gives.
pub open spec fn switches_of(t: Map<Seq<char>, bool>) -> Switches {
    Switches {
        help: t["h"@],
        listen: t["l"@],
        ipv4: t["4"@],
        ipv6: t["6"@],
        unix: t["U"@],
        udp: t["u"@],
        shutdown: t["N"@],
    }
}

/// No option given.
pub open spec fn plain_switches() -> Switches {
    Switches { help: false, listen: false, ipv4: false, ipv6: false, unix: false, udp: false, shutdown: false }
}

/// `r` is what the command line `args` asks for: getopts reads the
/// arguments after the program's name against netcat's options; a refusal
/// gives its message, else the command is what the given options and the
/// free arguments ask for.
pub open spec fn command_line_result(args: Seq<String>, r: Result<Command, String>) -> bool {
    match getopts_parse(netcat_groups(), texts(args.skip(1))) {
        Err((k, n)) => r matches Err(msg) && msg@ == fail_text(k, n),
        Ok((t, free)) => r matches Ok(c) && command_fits(args[0]@, netcat_groups(), switches_of(t), free, c),
    }
}

/// `c` is the command that the switches and free arguments ask for, for
/// `program` with the definitions `groups`.
pub open spec fn command_fits(program: Seq<char>, groups: Seq<OptGroup>, sw: Switches, free: Seq<Seq<char>>, c: Command) -> bool {
    if sw.help {
        c matches Command::Help(t) && t@ == usage_for(program, groups)
    } else if !arguments_fit(sw, free) {
        c matches Command::Usage(t) && t@ == usage_for(program, groups)
    } else {
        c matches Command::Run(o) && opts_for(sw, free, o)
    }
}

/// A decision and the command made of it fit the switches and free arguments.
pub proof fn lemma_command_fits(program: Seq<char>, groups: Seq<OptGroup>, sw: Switches, free: Seq<Seq<char>>, d: Decision, c: Command)
    requires
        decision_for(sw, free, d),
        command_for(program, groups, d, c),
    ensures
        command_fits(program, groups, sw, free, c),
{
}

/// Reads the command line `args` (the program's name first) with getopts.
/// When no argument after the program's name looks like an option, it
/// succeeds, with no option given and all those arguments free.
pub fn parse_command_line(args: &Vec<String>) -> (r: Result<Command, String>)
    requires
        args@.len() >= 1,
    ensures
        command_line_result(args@, r),
        plain_arguments(texts(args@.skip(1))) ==> (r matches Ok(c)
            && command_fits(args@[0]@, netcat_groups(), plain_switches(), texts(args@.skip(1)), c)),
{
    let opts = netcat_options();
    proof {
        lemma_netcat_groups();
    }
    let (_, rest) = args.as_slice().split_at(1);
    assert(rest@ =~= args@.skip(1));
    match options_parse(&opts, rest) {
        Err(f) => {
            let msg = fail_message(f.kind, f.name.as_str());
            assert(getopts_parse(netcat_groups(), texts(args@.skip(1))) == parse_refusal(f.kind, f.name@));
            Err(msg)
        },
        Ok(m) => {
            proof {
                reveal_strlit("h");
                reveal_strlit("l");
                reveal_strlit("4");
                reveal_strlit("6");
                reveal_strlit("U");
                reveal_strlit("u");
                reveal_strlit("N");
                assert(netcat_option_names().contains("h"@));
            }
            let sw = Switches {
                help: matches_opt_present(&m, "h"),
                listen: matches_opt_present(&m, "l"),
                ipv4: matches_opt_present(&m, "4"),
                ipv6: matches_opt_present(&m, "6"),
                unix: matches_opt_present(&m, "U"),
                udp: matches_opt_present(&m, "u"),
                shutdown: matches_opt_present(&m, "N"),
            };
            assert(sw == switches_of(match_table(m)));
            let free = matches_free(&m);
            let ghost free_view = texts(free@);
            let d = decide(&sw, free);
            let ghost dg = d;
            let c = command(args[0].as_str(), &opts, d);
            assert(decision_for(sw, free_view, dg) && command_for(args@[0]@, netcat_groups(), dg, c));
            assert(getopts_parse(netcat_groups(), texts(args@.skip(1))) == parse_success(match_table(m), free_arguments(m)));
            assert(free_view == free_arguments(m));
            proof {
                lemma_command_fits(args@[0]@, netcat_groups(), sw, free_view, dg, c);
            }
            proof {
                if plain_arguments(texts(args@.skip(1))) {
                    assert(match_table(m).dom().contains("h"@));
                    assert(match_table(m).dom().contains("l"@));
                    assert(match_table(m).dom().contains("4"@));
                    assert(match_table(m).dom().contains("6"@));
                    assert(match_table(m).dom().contains("U"@));
                    assert(match_table(m).dom().contains("u"@));
                    assert(match_table(m).dom().contains("N"@));
                    assert(sw == plain_switches());
                }
            }
            Ok(c)
        },
    }
}

/// Two free arguments (and no `-h`) are a host and a port, in listen mode
/// as well as in connect mode; one free argument is a port, in listen mode
/// only.
pub proof fn lemma_free_arguments_are_host_and_port(sw: Switches, free: Seq<Seq<char>>, d: Decision)
    requires
        !sw.help,
        decision_for(sw, free, d),
    ensures
        free.len() == 2 ==> (d matches Decision::Run(o) && o.host@ == free[0] && o.port@ == free[1]),
        free.len() == 1 && sw.listen ==> (d matches Decision::Run(o) && o.host@.len() == 0 && o.port@ == free[0]),
        free.len() == 1 && !sw.listen ==> d is Usage,
        (free.len() == 0 || free.len() > 2) ==> d is Usage,
{
}

/// The address to listen on is `0.0.0.0:` followed by the whole port, unchanged.
pub proof fn lemma_any_address_keeps_port(port: Seq<char>)
    ensures
        any_address(port).len() == 8 + port.len(),
        any_address(port).skip(8) == port,
        any_address(port).take(8) == seq!['0', '.', '0', '.', '0', '.', '0', ':'],
{
    reveal_strlit("0.0.0.0:");
    assert(any_address(port).skip(8) =~= port);
    assert(any_address(port).take(8) =~= seq!['0', '.', '0', '.', '0', '.', '0', ':']);
}

/// Of netcat's options only `-I` and `-O` take an argument; `-h`, `-l`,
/// `-4`, `-6`, `-U`, `-u` and `-N` are flags.
pub proof fn lemma_netcat_flags_take_no_argument()
    ensures
        forall|i: int| 0 <= i < netcat_groups().len() ==> ((#[trigger] netcat_groups()[i]).4
            <==> (netcat_groups()[i].0 == "I"@ || netcat_groups()[i].0 == "O"@)),
        netcat_groups().len() == 9,
        forall|i: int| 0 <= i < 9 ==> !(#[trigger] netcat_groups()[i]).5,
{
    reveal_strlit("h");
    reveal_strlit("l");
    reveal_strlit("4");
    reveal_strlit("6");
    reveal_strlit("U");
    reveal_strlit("u");
    reveal_strlit("I");
    reveal_strlit("O");
    reveal_strlit("N");
    let g = netcat_groups();
    assert forall|i: int| 0 <= i < g.len() implies ((#[trigger] g[i]).4 <==> (g[i].0 == "I"@ || g[i].0 == "O"@)) by {
        assert(0 <= i < 9);
        if i == 0 { assert(g[0].0[0] != "I"@[0] && g[0].0[0] != "O"@[0]); }
        if i == 1 { assert(g[1].0[0] != "I"@[0] && g[1].0[0] != "O"@[0]); }
        if i == 2 { assert(g[2].0[0] != "I"@[0] && g[2].0[0] != "O"@[0]); }
        if i == 3 { assert(g[3].0[0] != "I"@[0] && g[3].0[0] != "O"@[0]); }
        if i == 4 { assert(g[4].0[0] != "I"@[0] && g[4].0[0] != "O"@[0]); }
        if i == 5 { assert(g[5].0[0] != "I"@[0] && g[5].0[0] != "O"@[0]); }
        if i == 8 { assert(g[8].0[0] != "I"@[0] && g[8].0[0] != "O"@[0]); }
    }
}

/// The brief line is `Usage: `, the program's name, then
/// ` [options] [destination] [port]`.
pub proof fn lemma_usage_brief_shape(program: Seq<char>)
    ensures
        usage_brief(program).len() == 7 + program.len() + 31,
        usage_brief(program).take(7) == seq!['U', 's', 'a', 'g', 'e', ':', ' '],
        usage_brief(program).subrange(7, 7 + program.len() as int) == program,
        usage_brief(program).skip(7 + program.len() as int) == " [options] [destination] [port]"@,
{
    reveal_strlit("Usage: ");
    reveal_strlit(" [options] [destination] [port]");
    assert(usage_brief(program).take(7) =~= seq!['U', 's', 'a', 'g', 'e', ':', ' ']);
    assert(usage_brief(program).subrange(7, 7 + program.len() as int) =~= program);
    assert(usage_brief(program).skip(7 + program.len() as int) =~= " [options] [destination] [port]"@);
}

/// How to reach the peer.
#[derive(Debug)]
pub enum Connection {
    /// Accept one TCP connection on `addr`.
    TcpListen { addr: String },
    /// Connect over TCP to `addr`.
    TcpConnect { addr: String },
    /// Bind UDP to `addr` and take as peer the sender of the first
    /// datagram, peeked with a buffer of `peek_len` bytes.
    UdpListen { addr: String, peek_len: usize },
    /// Bind UDP to `local` and send to `remote`.
    UdpConnect { local: String, remote: String },
}

/// The address that listens on `port` on every interface.
pub open spec fn any_address(port: Seq<char>) -> Seq<char> {
    "0.0.0.0:"@ + port
}

/// The address `host:port`.
pub open spec fn host_address(host: Seq<char>, port: Seq<char>) -> Seq<char> {
    host + ":"@ + port
}

/// The size of the buffer that peeks at the first datagram in UDP listen mode.
pub const UDP_PEEK_LEN: usize = 2048;

/// The connection that `opts` describes.
pub fn connection(opts: &Opts) -> (c: Connection)
    ensures
        match (opts.transport, opts.flags.listen) {
            (Transport::Tcp, true) => c matches Connection::TcpListen { addr } && addr@ == any_address(opts.port@),
            (Transport::Tcp, false) => c matches Connection::TcpConnect { addr }
                && addr@ == host_address(opts.host@, opts.port@),
            (Transport::Udp, true) => c matches Connection::UdpListen { addr, peek_len }
                && addr@ == any_address(opts.port@) && peek_len == UDP_PEEK_LEN,
            (Transport::Udp, false) => c matches Connection::UdpConnect { local, remote }
                && local@ == any_address("0"@) && remote@ == host_address(opts.host@, opts.port@),
        },
        c matches Connection::TcpListen { addr } ==> addr@ == "0.0.0.0:"@ + opts.port@,
        c matches Connection::UdpListen { addr, .. } ==> addr@ == "0.0.0.0:"@ + opts.port@,
        c matches Connection::TcpConnect { addr } ==> addr@ == opts.host@ + ":"@ + opts.port@,
        c matches Connection::UdpConnect { remote, .. } ==> remote@ == opts.host@ + ":"@ + opts.port@,
        c matches Connection::UdpConnect { local, .. } ==> local@ == "0.0.0.0:"@ + "0"@,
        c matches Connection::UdpListen { peek_len, .. } ==> peek_len == 2048,
        opts.flags.listen <==> (c is TcpListen || c is UdpListen),
        opts.transport == Transport::Udp <==> (c is UdpListen || c is UdpConnect),
{
    match opts.transport {
        Transport::Tcp => {
            if opts.flags.listen {
                let mut addr = String::from_str("0.0.0.0:");
                addr.append(opts.port.as_str());
                Connection::TcpListen { addr }
            } else {
                let mut addr = opts.host.clone();
                addr.append(":");
                addr.append(opts.port.as_str());
                Connection::TcpConnect { addr }
            }
        },
        Transport::Udp => {
            if opts.flags.listen {
                let mut addr = String::from_str("0.0.0.0:");
                addr.append(opts.port.as_str());
                Connection::UdpListen { addr, peek_len: UDP_PEEK_LEN }
            } else {
                let mut local = String::from_str("0.0.0.0:");
                local.append("0");
                let mut remote = opts.host.clone();
                remote.append(":");
                remote.append(opts.port.as_str());
                Connection::UdpConnect { local, remote }
            }
        },
    }
}

} // verus!
