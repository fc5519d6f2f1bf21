//! The command line of the connection probe.
use vstd::prelude::*;
use vstd::string::*;
use crate::format_text::decimal;
use crate::format_text::decimal_says_its_number;
use crate::probe_proxy::proxy_refusal;
use crate::probe_proxy::validate_proxy_url;
use crate::probe_proxy::ProxyRefusal;
use crate::probe_proxy::ProxyUrlError;
use crate::probe_seconds::decimal_is_read_back;
use crate::probe_seconds::number;
use crate::probe_seconds::parse_seconds;
use crate::probe_seconds::seconds;
use crate::probe_seconds::SecondsError;
use crate::utf8_text::optional_text;
use crate::utf8_text::text_eq;
use crate::utf8_text::texts;

verus! {

/// How long a probe runs when it is not told.
pub const DEFAULT_DURATION_SECONDS: u64 = 600;

/// How long a probe waits between pings when it is not told.
pub const DEFAULT_PING_SECONDS: u64 = 30;

/// What a probe is to do.
#[derive(Debug, Clone, PartialEq, Eq)]
pub struct Options {
    pub id: String,
    pub url: String,
    pub duration_seconds: u64,
    /// The seconds between two pings, if there are to be pings.
    pub ping_interval_seconds: Option<u64>,
    pub proxy_url: Option<String>,
    pub path_label: Option<String>,
}

/// Why a command line is not understood.
#[derive(Debug, Clone, PartialEq, Eq)]
pub enum OptionsError {
    /// The named option stands last, without its value.
    MissingValue(&'static str),
    Proxy(ProxyUrlError),
    UnknownOption(String),
    /// There is no URL to connect to.
    MissingUrl,
    Seconds(SecondsError),
    TooManyArguments,
}

/// What a probe is to do, with its strings as texts.
pub struct Plan {
    pub id: Seq<char>,
    pub url: Seq<char>,
    pub duration_seconds: u64,
    pub ping_interval_seconds: Option<u64>,
    pub proxy_url: Option<Seq<char>>,
    pub path_label: Option<Seq<char>>,
}

/// Why a command line is not understood, with its strings as texts.
pub enum Refusal {
    MissingValue(Seq<char>),
    Proxy(ProxyRefusal),
    UnknownOption(Seq<char>),
    MissingUrl,
    Seconds(SecondsError),
    TooManyArguments,
}

impl View for Options {
    type V = Plan;

    open spec fn view(&self) -> Plan {
        Plan {
            id: self.id@,
            url: self.url@,
            duration_seconds: self.duration_seconds,
            ping_interval_seconds: self.ping_interval_seconds,
            proxy_url: optional_text(self.proxy_url),
            path_label: optional_text(self.path_label),
        }
    }
}

impl View for OptionsError {
    type V = Refusal;

    open spec fn view(&self) -> Refusal {
        match *self {
            OptionsError::MissingValue(option) => Refusal::MissingValue(option@),
            OptionsError::Proxy(error) => Refusal::Proxy(error@),
            OptionsError::UnknownOption(argument) => Refusal::UnknownOption(argument@),
            OptionsError::MissingUrl => Refusal::MissingUrl,
            OptionsError::Seconds(error) => Refusal::Seconds(error),
            OptionsError::TooManyArguments => Refusal::TooManyArguments,
        }
    }
}

/// What the options say, and the arguments that are none.
pub struct Gathered {
    pub id: Seq<char>,
    pub proxy_url: Option<Seq<char>>,
    pub path_label: Option<Seq<char>>,
    pub positional: Seq<Seq<char>>,
}

/// What holds before the first argument.
pub open spec fn nothing_gathered() -> Gathered {
    Gathered { id: "probe"@, proxy_url: None, path_label: None, positional: Seq::empty() }
}

/// Whether an argument looks like an option.
pub open spec fn looks_like_option(argument: Seq<char>) -> bool {
    argument.len() >= 2 && argument[0] == '-' && argument[1] == '-'
}

/// What `arguments` from `k` on add to what was gathered before them. An option takes the argument
/// behind it as its value, whatever that looks like; of an option given twice the last counts.
pub open spec fn gathered(arguments: Seq<Seq<char>>, k: int, so_far: Gathered) -> Result<
    Gathered,
    Refusal,
>
    decreases arguments.len() - k,
{
    if k >= arguments.len() {
        Ok(so_far)
    } else if arguments[k] == "--id"@ {
        if k + 1 < arguments.len() {
            gathered(arguments, k + 2, Gathered { id: arguments[k + 1], ..so_far })
        } else {
            Err(Refusal::MissingValue("--id"@))
        }
    } else if arguments[k] == "--path-label"@ {
        if k + 1 < arguments.len() {
            gathered(arguments, k + 2, Gathered { path_label: Some(arguments[k + 1]), ..so_far })
        } else {
            Err(Refusal::MissingValue("--path-label"@))
        }
    } else if arguments[k] == "--proxy"@ {
        if k + 1 < arguments.len() {
            match proxy_refusal(arguments[k + 1]) {
                Some(refusal) => Err(Refusal::Proxy(refusal)),
                None => gathered(
                    arguments,
                    k + 2,
                    Gathered { proxy_url: Some(arguments[k + 1]), ..so_far },
                ),
            }
        } else {
            Err(Refusal::MissingValue("--proxy"@))
        }
    } else if looks_like_option(arguments[k]) {
        Err(Refusal::UnknownOption(arguments[k]))
    } else {
        gathered(
            arguments,
            k + 1,
            Gathered { positional: so_far.positional.push(arguments[k]), ..so_far },
        )
    }
}

/// The argument at a position, if there are that many.
pub open spec fn at(arguments: Seq<Seq<char>>, k: int) -> Option<Seq<char>> {
    if k < arguments.len() {
        Some(arguments[k])
    } else {
        None
    }
}

/// The plan that gathered arguments make: a URL, and optionally two spans of seconds.
pub open spec fn planned(from: Gathered) -> Result<Plan, Refusal> {
    if from.positional.len() == 0 {
        Err(Refusal::MissingUrl)
    } else {
        match seconds(at(from.positional, 1), DEFAULT_DURATION_SECONDS) {
            Err(error) => Err(Refusal::Seconds(error)),
            Ok(duration) => match seconds(at(from.positional, 2), DEFAULT_PING_SECONDS) {
                Err(error) => Err(Refusal::Seconds(error)),
                Ok(ping) => if from.positional.len() > 3 {
                    Err(Refusal::TooManyArguments)
                } else {
                    Ok(
                        Plan {
                            id: from.id,
                            url: from.positional[0],
                            duration_seconds: duration,
                            ping_interval_seconds: if ping > 0 {
                                Some(ping)
                            } else {
                                None
                            },
                            proxy_url: from.proxy_url,
                            path_label: from.path_label,
                        },
                    )
                },
            },
        }
    }
}

/// The plan that a command line makes.
pub open spec fn plan(arguments: Seq<Seq<char>>) -> Result<Plan, Refusal> {
    match gathered(arguments, 0, nothing_gathered()) {
        Ok(from) => planned(from),
        Err(refusal) => Err(refusal),
    }
}

proof fn lemma_gathered_proxy(arguments: Seq<Seq<char>>, k: int, so_far: Gathered)
    requires
        so_far.proxy_url matches Some(url) ==> proxy_refusal(url) is None,
    ensures
        gathered(arguments, k, so_far) matches Ok(all) ==> (all.proxy_url matches Some(url)
            ==> proxy_refusal(url) is None),
    decreases arguments.len() - k,
{
    if k < arguments.len() {
        if arguments[k] == "--id"@ {
            if k + 1 < arguments.len() {
                lemma_gathered_proxy(
                    arguments,
                    k + 2,
                    Gathered { id: arguments[k + 1], ..so_far },
                );
            }
        } else if arguments[k] == "--path-label"@ {
            if k + 1 < arguments.len() {
                lemma_gathered_proxy(
                    arguments,
                    k + 2,
                    Gathered { path_label: Some(arguments[k + 1]), ..so_far },
                );
            }
        } else if arguments[k] == "--proxy"@ {
            if k + 1 < arguments.len() && proxy_refusal(arguments[k + 1]) is None {
                lemma_gathered_proxy(
                    arguments,
                    k + 2,
                    Gathered { proxy_url: Some(arguments[k + 1]), ..so_far },
                );
            }
        } else if !looks_like_option(arguments[k]) {
            lemma_gathered_proxy(
                arguments,
                k + 1,
                Gathered { positional: so_far.positional.push(arguments[k]), ..so_far },
            );
        }
    }
}

/// A probe never goes through a proxy that may not be used.
pub proof fn planned_proxy_is_allowed(arguments: Seq<Seq<char>>)
    ensures
        plan(arguments) matches Ok(made) ==> (made.proxy_url matches Some(url) ==> proxy_refusal(
            url,
        ) is None),
{
    lemma_gathered_proxy(arguments, 0, nothing_gathered());
}

/// A probe that pings does not ping without a pause.
pub proof fn planned_pings_pause(arguments: Seq<Seq<char>>)
    ensures
        plan(arguments) matches Ok(made) ==> (made.ping_interval_seconds matches Some(seconds)
            ==> seconds > 0),
{
}

fn is_option(argument: &str) -> (yes: bool)
    ensures
        yes == looks_like_option(argument@),
{
    let mut dashes: usize = 0;
    for c in it: argument.chars()
        invariant
            it.seq() == argument@,
            dashes == it.index(),
            dashes < 2,
            forall|i: int| 0 <= i < dashes ==> argument@[i] == '-',
    {
        if c != '-' {
            return false;
        }
        if dashes == 1 {
            return true;
        }
        dashes = dashes + 1;
    }
    false
}

fn argument_at<'a>(arguments: &'a Vec<String>, k: usize) -> (argument: Option<&'a str>)
    ensures
        (match argument {
            Some(text) => Some(text@),
            None => None,
        }) == at(texts(arguments@), k as int),
{
    if k < arguments.len() {
        Some(arguments[k].as_str())
    } else {
        None
    }
}

impl Options {
    /// Reads a command line, without the program's name.
    pub fn parse(arguments: &Vec<String>) -> (result: Result<Self, OptionsError>)
        ensures
            match result {
                Ok(options) => plan(texts(arguments@)) == Ok::<Plan, Refusal>(options@),
                Err(error) => plan(texts(arguments@)) == Err::<Plan, Refusal>(error@),
            },
    {
        let ghost given = texts(arguments@);
        let mut id = "probe".to_owned();
        let mut proxy_url: Option<String> = None;
        let mut path_label: Option<String> = None;
        let mut positional: Vec<String> = Vec::new();
        let mut k: usize = 0;
        proof {
            assert(texts(positional@) =~= Seq::<Seq<char>>::empty());
        }
        while k < arguments.len()
            invariant
                given == texts(arguments@),
                given.len() == arguments@.len(),
                k <= arguments@.len(),
                gathered(given, 0, nothing_gathered()) == gathered(
                    given,
                    k as int,
                    Gathered {
                        id: id@,
                        proxy_url: optional_text(proxy_url),
                        path_label: optional_text(path_label),
                        positional: texts(positional@),
                    },
                ),
            decreases arguments@.len() - k,
        {
            let argument = arguments[k].as_str();
            assert(argument@ == given[k as int]);
            if text_eq(argument, "--id") {
                if k + 1 >= arguments.len() {
                    return Err(OptionsError::MissingValue("--id"));
                }
                id = arguments[k + 1].clone();
                k = k + 2;
            } else if text_eq(argument, "--path-label") {
                if k + 1 >= arguments.len() {
                    return Err(OptionsError::MissingValue("--path-label"));
                }
                path_label = Some(arguments[k + 1].clone());
                k = k + 2;
            } else if text_eq(argument, "--proxy") {
                if k + 1 >= arguments.len() {
                    return Err(OptionsError::MissingValue("--proxy"));
                }
                let value = arguments[k + 1].clone();
                match validate_proxy_url(value.as_str()) {
                    Ok(()) => {},
                    Err(error) => {
                        return Err(OptionsError::Proxy(error));
                    },
                }
                proxy_url = Some(value);
                k = k + 2;
            } else if is_option(argument) {
                return Err(OptionsError::UnknownOption(arguments[k].clone()));
            } else {
                let ghost before = positional@;
                positional.push(arguments[k].clone());
                proof {
                    assert(texts(positional@) =~= texts(before).push(argument@));
                }
                k = k + 1;
            }
        }
        if positional.len() == 0 {
            return Err(OptionsError::MissingUrl);
        }
        let duration_seconds: u64 = match parse_seconds(
            argument_at(&positional, 1),
            DEFAULT_DURATION_SECONDS,
        ) {
            Ok(seconds) => seconds,
            Err(error) => {
                return Err(OptionsError::Seconds(error));
            },
        };
        let ping_seconds: u64 = match parse_seconds(
            argument_at(&positional, 2),
            DEFAULT_PING_SECONDS,
        ) {
            Ok(seconds) => seconds,
            Err(error) => {
                return Err(OptionsError::Seconds(error));
            },
        };
        if positional.len() > 3 {
            return Err(OptionsError::TooManyArguments);
        }
        let url = positional[0].clone();
        let ping_interval_seconds: Option<u64> = if ping_seconds > 0 {
            Some(ping_seconds)
        } else {
            None
        };
        Ok(Options { id, url, duration_seconds, ping_interval_seconds, proxy_url, path_label })
    }

    /// The name under which the probe's way to its target is reported.
    pub open spec fn path_text(&self) -> Seq<char> {
        match (self.path_label, self.proxy_url) {
            (Some(label), _) => label@,
            (None, Some(_)) => "explicit_http_connect"@,
            (None, None) => "system_default"@,
        }
    }

    /// The name under which the probe's way to its target is reported: the given label, or one
    /// that tells whether there is a proxy.
    pub fn proxy_path(&self) -> (path: String)
        ensures
            path@ == self.path_text(),
    {
        match &self.path_label {
            Some(label) => label.clone(),
            None => match &self.proxy_url {
                Some(_) => "explicit_http_connect".to_owned(),
                None => "system_default".to_owned(),
            },
        }
    }
}

impl Refusal {
    /// What the user is told.
    pub open spec fn text(&self) -> Seq<char> {
        match *self {
            Refusal::MissingValue(option) => "missing value for "@ + option,
            Refusal::Proxy(refusal) => refusal.text(),
            Refusal::UnknownOption(argument) => "unknown option: "@ + argument,
            Refusal::MissingUrl =>
                "usage: hmos_wss_probe [--id ID] [--path-label LABEL] [--proxy http://127.0.0.1:PORT] <wss-url> [duration-seconds=600] [ping-seconds=30]"@,
            Refusal::Seconds(error) => error.text(),
            Refusal::TooManyArguments => "too many arguments"@,
        }
    }
}

impl OptionsError {
    /// What the user is told.
    pub fn message(&self) -> (message: String)
        ensures
            message@ == self@.text(),
    {
        match self {
            OptionsError::MissingValue(option) => {
                let mut message = "missing value for ".to_owned();
                message.append(option);
                message
            },
            OptionsError::Proxy(error) => error.message(),
            OptionsError::UnknownOption(argument) => {
                let mut message = "unknown option: ".to_owned();
                message.append(argument.as_str());
                message
            },
            OptionsError::MissingUrl =>
                "usage: hmos_wss_probe [--id ID] [--path-label LABEL] [--proxy http://127.0.0.1:PORT] <wss-url> [duration-seconds=600] [ping-seconds=30]".to_owned(),
            OptionsError::Seconds(error) => error.message().to_owned(),
            OptionsError::TooManyArguments => "too many arguments".to_owned(),
        }
    }
}

proof fn lemma_gathered_shift(a: Seq<Seq<char>>, b: Seq<Seq<char>>, k: int, so_far: Gathered)
    requires
        0 <= k <= b.len(),
    ensures
        gathered(a + b, a.len() + k, so_far) == gathered(b, k, so_far),
    decreases b.len() - k,
{
    let n = a.len() as int;
    if k < b.len() {
        assert((a + b)[n + k] == b[k]);
        if k + 1 < b.len() {
            assert((a + b)[n + k + 1] == b[k + 1]);
            lemma_gathered_shift(a, b, k + 2, Gathered { id: b[k + 1], ..so_far });
            lemma_gathered_shift(a, b, k + 2, Gathered { path_label: Some(b[k + 1]), ..so_far });
            lemma_gathered_shift(a, b, k + 2, Gathered { proxy_url: Some(b[k + 1]), ..so_far });
        }
        lemma_gathered_shift(
            a,
            b,
            k + 1,
            Gathered { positional: so_far.positional.push(b[k]), ..so_far },
        );
    }
}

proof fn lemma_gathered_on(
    a: Seq<Seq<char>>,
    b: Seq<Seq<char>>,
    k: int,
    so_far: Gathered,
    all: Gathered,
)
    requires
        0 <= k <= a.len(),
        gathered(a, k, so_far) == Ok::<Gathered, Refusal>(all),
    ensures
        gathered(a + b, k, so_far) == gathered(b, 0, all),
    decreases a.len() - k,
{
    if k == a.len() {
        lemma_gathered_shift(a, b, 0, so_far);
    } else {
        assert((a + b)[k] == a[k]);
        if a[k] == "--id"@ {
            assert((a + b)[k + 1] == a[k + 1]);
            lemma_gathered_on(a, b, k + 2, Gathered { id: a[k + 1], ..so_far }, all);
        } else if a[k] == "--path-label"@ {
            assert((a + b)[k + 1] == a[k + 1]);
            lemma_gathered_on(
                a,
                b,
                k + 2,
                Gathered { path_label: Some(a[k + 1]), ..so_far },
                all,
            );
        } else if a[k] == "--proxy"@ {
            assert((a + b)[k + 1] == a[k + 1]);
            lemma_gathered_on(
                a,
                b,
                k + 2,
                Gathered { proxy_url: Some(a[k + 1]), ..so_far },
                all,
            );
        } else {
            lemma_gathered_on(
                a,
                b,
                k + 1,
                Gathered { positional: so_far.positional.push(a[k]), ..so_far },
                all,
            );
        }
    }
}

proof fn lemma_option_names()
    ensures
        "--id"@ != "--path-label"@,
        "--id"@ != "--proxy"@,
        "--path-label"@ != "--proxy"@,
        looks_like_option("--id"@),
        looks_like_option("--path-label"@),
        looks_like_option("--proxy"@),
{
    reveal_strlit("--id");
    reveal_strlit("--path-label");
    reveal_strlit("--proxy");
    assert("--id"@.len() == 4 && "--path-label"@.len() == 12 && "--proxy"@.len() == 7);
}

/// Before the first argument the probe is called `probe`, and has no proxy, no label and no other
/// arguments. What is gathered from one list of arguments and then from another is gathered from
/// both together.
pub proof fn arguments_are_gathered_in_order(
    first: Seq<Seq<char>>,
    later: Seq<Seq<char>>,
    all: Gathered,
)
    requires
        gathered(first, 0, nothing_gathered()) == Ok::<Gathered, Refusal>(all),
    ensures
        gathered(first + later, 0, nothing_gathered()) == gathered(later, 0, all),
        nothing_gathered().id == "probe"@,
        nothing_gathered().proxy_url is None,
        nothing_gathered().path_label is None,
        nothing_gathered().positional.len() == 0,
        gathered(Seq::empty(), 0, nothing_gathered()) == Ok::<Gathered, Refusal>(
            nothing_gathered(),
        ),
{
    lemma_gathered_on(first, later, 0, nothing_gathered(), all);
}

/// An option with its value behind whatever was given sets what the option is for and nothing else;
/// without a value it is refused. A proxy that may not be used is refused, whatever follows.
pub proof fn options_may_stand_anywhere(
    given: Seq<Seq<char>>,
    value: Seq<char>,
    more: Seq<Seq<char>>,
    all: Gathered,
)
    requires
        gathered(given, 0, nothing_gathered()) == Ok::<Gathered, Refusal>(all),
    ensures
        gathered(given + seq!["--id"@, value], 0, nothing_gathered()) == Ok::<Gathered, Refusal>(
            Gathered {
                id: value,
                proxy_url: all.proxy_url,
                path_label: all.path_label,
                positional: all.positional,
            },
        ),
        gathered(given + seq!["--path-label"@, value], 0, nothing_gathered()) == Ok::<
            Gathered,
            Refusal,
        >(
            Gathered {
                id: all.id,
                proxy_url: all.proxy_url,
                path_label: Some(value),
                positional: all.positional,
            },
        ),
        proxy_refusal(value) is None ==> gathered(
            given + seq!["--proxy"@, value],
            0,
            nothing_gathered(),
        ) == Ok::<Gathered, Refusal>(
            Gathered {
                id: all.id,
                proxy_url: Some(value),
                path_label: all.path_label,
                positional: all.positional,
            },
        ),
        proxy_refusal(value) matches Some(refusal) ==> gathered(
            given + (seq!["--proxy"@, value] + more),
            0,
            nothing_gathered(),
        ) == Err::<Gathered, Refusal>(Refusal::Proxy(refusal)),
        gathered(given + seq!["--id"@], 0, nothing_gathered()) == Err::<Gathered, Refusal>(
            Refusal::MissingValue("--id"@),
        ),
        gathered(given + seq!["--path-label"@], 0, nothing_gathered()) == Err::<Gathered, Refusal>(
            Refusal::MissingValue("--path-label"@),
        ),
        gathered(given + seq!["--proxy"@], 0, nothing_gathered()) == Err::<Gathered, Refusal>(
            Refusal::MissingValue("--proxy"@),
        ),
{
    lemma_option_names();
    reveal_with_fuel(gathered, 2);
    lemma_gathered_on(given, seq!["--id"@, value], 0, nothing_gathered(), all);
    lemma_gathered_on(given, seq!["--path-label"@, value], 0, nothing_gathered(), all);
    lemma_gathered_on(given, seq!["--proxy"@, value], 0, nothing_gathered(), all);
    lemma_gathered_on(given, seq!["--proxy"@, value] + more, 0, nothing_gathered(), all);
    lemma_gathered_on(given, seq!["--id"@], 0, nothing_gathered(), all);
    lemma_gathered_on(given, seq!["--path-label"@], 0, nothing_gathered(), all);
    lemma_gathered_on(given, seq!["--proxy"@], 0, nothing_gathered(), all);
    let refused = seq!["--proxy"@, value] + more;
    assert(refused[0] == "--proxy"@ && refused[1] == value);
}

/// An argument behind whatever was given that does not begin with two dashes is kept in its place;
/// one that does, and is no option with a value, is refused, whatever follows.
pub proof fn other_arguments_keep_their_order(
    given: Seq<Seq<char>>,
    argument: Seq<char>,
    more: Seq<Seq<char>>,
    all: Gathered,
)
    requires
        gathered(given, 0, nothing_gathered()) == Ok::<Gathered, Refusal>(all),
    ensures
        !(argument.len() >= 2 && argument[0] == '-' && argument[1] == '-') ==> gathered(
            given + seq![argument],
            0,
            nothing_gathered(),
        ) == Ok::<Gathered, Refusal>(
            Gathered {
                id: all.id,
                proxy_url: all.proxy_url,
                path_label: all.path_label,
                positional: all.positional.push(argument),
            },
        ),
        argument.len() >= 2 && argument[0] == '-' && argument[1] == '-' && argument != "--id"@
            && argument != "--path-label"@ && argument != "--proxy"@ ==> gathered(
            given + (seq![argument] + more),
            0,
            nothing_gathered(),
        ) == Err::<Gathered, Refusal>(Refusal::UnknownOption(argument)),
{
    lemma_option_names();
    reveal_with_fuel(gathered, 2);
    lemma_gathered_on(given, seq![argument], 0, nothing_gathered(), all);
    lemma_gathered_on(given, seq![argument] + more, 0, nothing_gathered(), all);
    assert((seq![argument] + more)[0] == argument);
}

/// A plan is made exactly of one to three other arguments, of which the second and the third are
/// numbers: the first is the target, the second the duration, the third the pause between pings,
/// zero meaning no pings; without them the duration is 600 and the pause 30 seconds. All else is as
/// gathered.
pub proof fn plans_follow_the_arguments(from: Gathered)
    ensures
        planned(from) is Ok <==> {
            &&& 1 <= from.positional.len() <= 3
            &&& from.positional.len() >= 2 ==> number(from.positional[1]) is Ok
            &&& from.positional.len() >= 3 ==> number(from.positional[2]) is Ok
        },
        planned(from) matches Ok(made) ==> {
            &&& made.id == from.id && made.proxy_url == from.proxy_url
            &&& made.path_label == from.path_label && made.url == from.positional[0]
            &&& from.positional.len() == 1 ==> made.duration_seconds == 600
            &&& from.positional.len() >= 2 ==> number(from.positional[1]) == Ok::<u64, SecondsError>(
                made.duration_seconds,
            )
            &&& from.positional.len() <= 2 ==> made.ping_interval_seconds == Some(30u64)
            &&& from.positional.len() == 3 && made.ping_interval_seconds is Some ==> number(
                from.positional[2],
            ) == Ok::<u64, SecondsError>(made.ping_interval_seconds->Some_0)
            &&& from.positional.len() == 3 ==> (made.ping_interval_seconds is None <==> number(
                from.positional[2],
            ) == Ok::<u64, SecondsError>(0))
        },
{
}

/// A plan fails for the first of these reasons that holds: there is no target, the second argument
/// is no number, the third is none, or there is a fourth.
pub proof fn plans_fail_for_the_first_fault(from: Gathered)
    ensures
        from.positional.len() == 0 ==> planned(from) == Err::<Plan, Refusal>(Refusal::MissingUrl),
        from.positional.len() >= 2 ==> (number(from.positional[1]) matches Err(error) ==> planned(
            from,
        ) == Err::<Plan, Refusal>(Refusal::Seconds(error))),
        from.positional.len() >= 3 && number(from.positional[1]) is Ok ==> (number(
            from.positional[2],
        ) matches Err(error) ==> planned(from) == Err::<Plan, Refusal>(Refusal::Seconds(error))),
        from.positional.len() > 3 && number(from.positional[1]) is Ok && number(from.positional[2])
            is Ok ==> planned(from) == Err::<Plan, Refusal>(Refusal::TooManyArguments),
{
}

/// The plan of a command line is made of what is gathered from it, and fails as gathering fails.
pub proof fn plans_are_made_of_what_is_gathered(arguments: Seq<Seq<char>>)
    ensures
        gathered(arguments, 0, nothing_gathered()) matches Ok(all) ==> plan(arguments) == planned(
            all,
        ),
        gathered(arguments, 0, nothing_gathered()) matches Err(refusal) ==> plan(arguments) == Err::<
            Plan,
            Refusal,
        >(refusal),
{
}

/// An option with its value behind a command line that makes a plan changes that one thing of the
/// plan, whatever it was before.
pub proof fn options_change_one_thing(
    arguments: Seq<Seq<char>>,
    value: Seq<char>,
    made: Plan,
)
    requires
        plan(arguments) == Ok::<Plan, Refusal>(made),
    ensures
        plan(arguments + seq!["--id"@, value]) == Ok::<Plan, Refusal>(
            Plan {
                id: value,
                url: made.url,
                duration_seconds: made.duration_seconds,
                ping_interval_seconds: made.ping_interval_seconds,
                proxy_url: made.proxy_url,
                path_label: made.path_label,
            },
        ),
        plan(arguments + seq!["--path-label"@, value]) == Ok::<Plan, Refusal>(
            Plan {
                id: made.id,
                url: made.url,
                duration_seconds: made.duration_seconds,
                ping_interval_seconds: made.ping_interval_seconds,
                proxy_url: made.proxy_url,
                path_label: Some(value),
            },
        ),
        proxy_refusal(value) is None ==> plan(arguments + seq!["--proxy"@, value]) == Ok::<
            Plan,
            Refusal,
        >(
            Plan {
                id: made.id,
                url: made.url,
                duration_seconds: made.duration_seconds,
                ping_interval_seconds: made.ping_interval_seconds,
                proxy_url: Some(value),
                path_label: made.path_label,
            },
        ),
{
    let all = gathered(arguments, 0, nothing_gathered())->Ok_0;
    options_may_stand_anywhere(arguments, value, Seq::empty(), all);
}

proof fn lemma_decimal_is_no_option(n: u64)
    ensures
        !looks_like_option(decimal(n as nat)),
        number(decimal(n as nat)) == Ok::<u64, SecondsError>(n),
{
    decimal_says_its_number(n as nat);
    decimal_is_read_back(n);
    assert('0' <= decimal(n as nat)[0]);
}

/// A target, a duration and a pause are taken as they are given: a pause of zero means no pings,
/// and what is not given has its default.
pub proof fn given_numbers_are_used(url: Seq<char>, duration: u64, pause: u64)
    requires
        !(url.len() >= 2 && url[0] == '-' && url[1] == '-'),
    ensures
        plan(seq![url]) matches Ok(made) && made.id == "probe"@ && made.url == url
            && made.duration_seconds == 600 && made.ping_interval_seconds == Some(30u64)
            && made.proxy_url is None && made.path_label is None,
        plan(seq![url, decimal(duration as nat)]) matches Ok(made) && made.id == "probe"@ && made.url
            == url && made.duration_seconds == duration && made.ping_interval_seconds == Some(30u64)
            && made.proxy_url is None && made.path_label is None,
        plan(seq![url, decimal(duration as nat), decimal(pause as nat)]) matches Ok(made) && made.id
            == "probe"@ && made.url == url && made.duration_seconds == duration
            && made.ping_interval_seconds == (if pause > 0 {
            Some(pause)
        } else {
            None
        }) && made.proxy_url is None && made.path_label is None,
{
    let none = nothing_gathered();
    let d = decimal(duration as nat);
    let p = decimal(pause as nat);
    lemma_decimal_is_no_option(duration);
    lemma_decimal_is_no_option(pause);
    other_arguments_keep_their_order(Seq::empty(), url, Seq::empty(), none);
    assert(Seq::empty() + seq![url] =~= seq![url]);
    let one = Gathered { positional: none.positional.push(url), ..none };
    other_arguments_keep_their_order(seq![url], d, Seq::empty(), one);
    assert(seq![url] + seq![d] =~= seq![url, d]);
    let two = Gathered { positional: one.positional.push(d), ..one };
    other_arguments_keep_their_order(seq![url, d], p, Seq::empty(), two);
    assert(seq![url, d] + seq![p] =~= seq![url, d, p]);
}

/// Options keep all parts of their plan, and name the way to the target by the label, or else by
/// whether there is a proxy.
pub proof fn options_keep_their_plan(options: Options)
    ensures
        options@.id == options.id@ && options@.url == options.url@,
        options@.duration_seconds == options.duration_seconds,
        options@.ping_interval_seconds == options.ping_interval_seconds,
        options.proxy_url is None <==> options@.proxy_url is None,
        options.proxy_url matches Some(url) ==> options@.proxy_url == Some(url@),
        options.path_label is None <==> options@.path_label is None,
        options.path_label matches Some(label) ==> options@.path_label == Some(label@),
        options.path_label matches Some(label) ==> options.path_text() == label@,
        options.path_label is None && options.proxy_url is Some ==> options.path_text()
            == "explicit_http_connect"@,
        options.path_label is None && options.proxy_url is None ==> options.path_text()
            == "system_default"@,
{
}

/// An error tells its own fault, in words of its own.
pub proof fn option_errors_tell_their_fault(error: OptionsError)
    ensures
        error matches OptionsError::MissingValue(option) ==> error@ == Refusal::MissingValue(option@)
            && error@.text() == "missing value for "@ + option@,
        error matches OptionsError::Proxy(fault) ==> error@ == Refusal::Proxy(fault@)
            && error@.text() == fault@.text(),
        error matches OptionsError::UnknownOption(argument) ==> error@ == Refusal::UnknownOption(
            argument@,
        ) && error@.text() == "unknown option: "@ + argument@,
        error is MissingUrl ==> error@ == Refusal::MissingUrl,
        error matches OptionsError::Seconds(fault) ==> error@ == Refusal::Seconds(fault)
            && error@.text() == fault.text(),
        error is TooManyArguments ==> error@ == Refusal::TooManyArguments && error@.text()
            == "too many arguments"@,
{
}

} // verus!
