//! The program's configuration: a token for the feed and a list of repositories.
//!
//! There are two sources, the environment and a fixed set for unit tests, and the caller
//! says which one it wants. The library never reads the environment itself: the caller
//! hands over what the two variables held at startup.

use vstd::prelude::*;

verus! {

/// The environment variable that holds the token.
pub const TOKEN_VARIABLE: &'static str = "RUST_WORKSHOP_TOKEN";

/// The environment variable that holds the repositories, separated by commas.
pub const REPOS_VARIABLE: &'static str = "RUST_WORKSHOP_REPOS";

/// The token used where the environment has none.
pub const DEFAULT_TOKEN: &'static str = "DEFAULT";

/// The repositories used where the environment names none.
pub const DEFAULT_REPOS: &'static str = "vector,pipeline-service";

/// The token of the unit-test configuration.
pub const UNIT_TEST_TOKEN: &'static str = "UNIT TEST TOKEN";

/// The first repository of the unit-test configuration.
pub const UNIT_TEST_REPO_A: &'static str = "repo_a";

/// The second repository of the unit-test configuration.
pub const UNIT_TEST_REPO_B: &'static str = "repo_b";

/// What separates two repositories in the raw list.
pub const REPO_SEPARATOR: char = ',';

/// The values that a configuration yields.
pub struct ConfView {
    pub token: Seq<char>,
    pub repos: Seq<Seq<char>>,
}

/// The views of a run of strings, in the same order.
pub open spec fn string_views(items: Seq<String>) -> Seq<Seq<char>> {
    items.map_values(|s: String| s@)
}

/// A source of configuration values.
pub trait ConfValues {
    /// The values that this source yields.
    spec fn values(&self) -> ConfView;

    /// The token that authenticates the program to the feed.
    fn github_token(&self) -> (token: String)
        ensures
            token@ == self.values().token,
    ;

    /// The repositories whose notifications matter.
    fn allowed_repos(&self) -> (repos: Vec<String>)
        ensures
            string_views(repos@) == self.values().repos,
    ;
}

/// Whether a character is white space, as Unicode defines it.
pub open spec fn is_space(c: char) -> bool {
    let code = c as u32;
    ||| 0x09 <= code <= 0x0D
    ||| code == 0x20
    ||| code == 0x85
    ||| code == 0xA0
    ||| code == 0x1680
    ||| 0x2000 <= code <= 0x200A
    ||| code == 0x2028
    ||| code == 0x2029
    ||| code == 0x202F
    ||| code == 0x205F
    ||| code == 0x3000
}

/// A text without the white space at its start.
pub open spec fn trim_start_spec(text: Seq<char>) -> Seq<char>
    decreases text.len(),
{
    if text.len() > 0 && is_space(text[0]) {
        trim_start_spec(text.skip(1))
    } else {
        text
    }
}

/// A text without the white space at its end.
pub open spec fn trim_end_spec(text: Seq<char>) -> Seq<char>
    decreases text.len(),
{
    if text.len() > 0 && is_space(text.last()) {
        trim_end_spec(text.drop_last())
    } else {
        text
    }
}

/// A text without the white space at either end.
pub open spec fn trim_spec(text: Seq<char>) -> Seq<char> {
    trim_end_spec(trim_start_spec(text))
}

/// Where the first separator of a text stands; the text's length where it has none.
pub open spec fn first_separator(text: Seq<char>) -> int
    decreases text.len(),
{
    if text.len() == 0 || text[0] == REPO_SEPARATOR {
        0
    } else {
        1 + first_separator(text.skip(1))
    }
}

/// The pieces of a text between its separators. A text without a separator is one piece,
/// the empty text too; two separators in a row hold an empty piece between them.
pub open spec fn split_spec(text: Seq<char>) -> Seq<Seq<char>>
    decreases text.len(),
{
    let at = first_separator(text);
    if 0 <= at < text.len() {
        seq![text.take(at)] + split_spec(text.skip(at + 1))
    } else {
        seq![text]
    }
}

/// The repositories that a raw list names: its pieces, each without the white space
/// around it.
pub open spec fn repos_spec(raw: Seq<char>) -> Seq<Seq<char>> {
    split_spec(raw).map_values(|piece: Seq<char>| trim_spec(piece))
}

/// Whether a character is white space.
pub fn is_space_char(c: char) -> (space: bool)
    ensures
        space == is_space(c),
{
    let code: u32 = c as u32;
    (0x09 <= code && code <= 0x0D) || code == 0x20 || code == 0x85 || code == 0xA0 || code
        == 0x1680 || (0x2000 <= code && code <= 0x200A) || code == 0x2028 || code == 0x2029
        || code == 0x202F || code == 0x205F || code == 0x3000
}

/// Only white space is cut from the start: what is left begins where the first other
/// character stands.
proof fn lemma_trim_start(text: Seq<char>, skipped: int)
    requires
        0 <= skipped <= text.len(),
        forall|i: int| 0 <= i < skipped ==> is_space(#[trigger] text[i]),
        skipped == text.len() || !is_space(text[skipped]),
    ensures
        trim_start_spec(text) == text.skip(skipped),
    decreases skipped,
{
    if skipped > 0 {
        lemma_trim_start(text.skip(1), skipped - 1);
    }
}

/// Only white space is cut from the end: what is left ends where the last other character
/// stands.
proof fn lemma_trim_end(text: Seq<char>, kept: int)
    requires
        0 <= kept <= text.len(),
        forall|i: int| kept <= i < text.len() ==> is_space(#[trigger] text[i]),
        kept == 0 || !is_space(text[kept - 1]),
    ensures
        trim_end_spec(text) == text.take(kept),
    decreases text.len() - kept,
{
    if kept < text.len() {
        lemma_trim_end(text.drop_last(), kept);
    }
}

/// The first separator stands where no separator stands before it.
proof fn lemma_first_separator(text: Seq<char>, at: int)
    requires
        0 <= at <= text.len(),
        forall|i: int| 0 <= i < at ==> #[trigger] text[i] != REPO_SEPARATOR,
        at == text.len() || text[at] == REPO_SEPARATOR,
    ensures
        first_separator(text) == at,
    decreases at,
{
    if at > 0 {
        lemma_first_separator(text.skip(1), at - 1);
    }
}

/// The piece of `raw` from `from` up to `to`, without the white space around it.
fn trimmed_piece(raw: &str, from: usize, to: usize) -> (piece: String)
    requires
        from <= to <= raw@.len(),
    ensures
        piece@ == trim_spec(raw@.subrange(from as int, to as int)),
{
    let ghost whole = raw@.subrange(from as int, to as int);
    let mut start = from;
    while start < to && is_space_char(raw.get_char(start))
        invariant
            from <= start <= to <= raw@.len(),
            forall|i: int| from <= i < start ==> is_space(#[trigger] raw@[i]),
        decreases to - start,
    {
        start += 1;
    }
    let mut end = to;
    while start < end && is_space_char(raw.get_char(end - 1))
        invariant
            start <= end <= to <= raw@.len(),
            forall|i: int| end <= i < to ==> is_space(#[trigger] raw@[i]),
        decreases end - start,
    {
        end -= 1;
    }
    proof {
        lemma_trim_start(whole, start - from);
        lemma_trim_end(whole.skip(start - from), end - start);
    }
    raw.substring_char(start, end).to_owned()
}

/// The repositories that a raw, comma-separated list names.
pub fn parse_repos(raw: &str) -> (repos: Vec<String>)
    ensures
        string_views(repos@) == repos_spec(raw@),
{
    let len = raw.unicode_len();
    let ghost trim = |piece: Seq<char>| trim_spec(piece);
    let mut repos: Vec<String> = Vec::new();
    let mut from: usize = 0;
    let mut at: usize = 0;
    assert(raw@.skip(0) =~= raw@);
    while at < len
        invariant
            from <= at <= len == raw@.len(),
            trim == |piece: Seq<char>| trim_spec(piece),
            forall|i: int| from <= i < at ==> #[trigger] raw@[i] != REPO_SEPARATOR,
            repos_spec(raw@) == string_views(repos@) + split_spec(raw@.skip(from as int)).map_values(
                trim,
            ),
        decreases len - at,
    {
        if raw.get_char(at) == REPO_SEPARATOR {
            let piece = trimmed_piece(raw, from, at);
            proof {
                // The piece ends at the first separator of what is left.
                let rest = raw@.skip(from as int);
                lemma_first_separator(rest, at - from);
                assert(rest.take(at - from) =~= raw@.subrange(from as int, at as int));
                assert(rest.skip(at - from + 1) =~= raw@.skip(at + 1));
            }
            repos.push(piece);
            from = at + 1;
        }
        at += 1;
    }
    let piece = trimmed_piece(raw, from, len);
    proof {
        // No separator is left: the rest is the last piece.
        lemma_first_separator(raw@.skip(from as int), len - from);
    }
    repos.push(piece);
    repos
}

/// What the two variables of the environment held when the program started. A variable
/// that was not set, or that held no Unicode text, counts as absent.
#[derive(Debug)]
pub struct EnvConf {
    pub token: Option<String>,
    pub repos: Option<String>,
}

/// The environment's two variables as contracts see them.
pub struct EnvConfView {
    pub token: Option<Seq<char>>,
    pub repos: Option<Seq<char>>,
}

impl View for EnvConf {
    type V = EnvConfView;

    open spec fn view(&self) -> EnvConfView {
        EnvConfView {
            token: match self.token {
                Some(t) => Some(t@),
                None => None,
            },
            repos: match self.repos {
                Some(r) => Some(r@),
                None => None,
            },
        }
    }
}

/// The values that the environment yields: each variable's own where it is present, the
/// default where it is not.
pub open spec fn env_values(env: EnvConfView) -> ConfView {
    ConfView {
        token: match env.token {
            Some(t) => t,
            None => DEFAULT_TOKEN@,
        },
        repos: repos_spec(
            match env.repos {
                Some(r) => r,
                None => DEFAULT_REPOS@,
            },
        ),
    }
}

/// The fixed values for unit tests.
pub open spec fn unit_test_values() -> ConfView {
    ConfView { token: UNIT_TEST_TOKEN@, repos: seq![UNIT_TEST_REPO_A@, UNIT_TEST_REPO_B@] }
}

/// The values of the configuration that the caller asked for.
pub open spec fn selected_values(should_mock: bool, env: EnvConfView) -> ConfView {
    if should_mock {
        unit_test_values()
    } else {
        env_values(env)
    }
}

impl ConfValues for EnvConf {
    open spec fn values(&self) -> ConfView {
        env_values(self@)
    }

    fn github_token(&self) -> (token: String) {
        match &self.token {
            Some(t) => t.clone(),
            None => DEFAULT_TOKEN.to_owned(),
        }
    }

    fn allowed_repos(&self) -> (repos: Vec<String>) {
        match &self.repos {
            Some(r) => parse_repos(r.as_str()),
            None => parse_repos(DEFAULT_REPOS),
        }
    }
}

/// The configuration with hard-coded values, for unit tests.
#[derive(Debug)]
pub struct UnitTestConf;

impl ConfValues for UnitTestConf {
    open spec fn values(&self) -> ConfView {
        unit_test_values()
    }

    fn github_token(&self) -> (token: String) {
        UNIT_TEST_TOKEN.to_owned()
    }

    fn allowed_repos(&self) -> (repos: Vec<String>) {
        let mut repos: Vec<String> = Vec::new();
        repos.push(UNIT_TEST_REPO_A.to_owned());
        repos.push(UNIT_TEST_REPO_B.to_owned());
        repos
    }
}

/// The configuration that was selected.
#[derive(Debug)]
pub enum Conf {
    /// The values come from the environment.
    Env(EnvConf),
    /// The values are the fixed ones for unit tests.
    UnitTest(UnitTestConf),
}

impl ConfValues for Conf {
    open spec fn values(&self) -> ConfView {
        match self {
            Conf::Env(env) => env.values(),
            Conf::UnitTest(fixed) => fixed.values(),
        }
    }

    fn github_token(&self) -> (token: String) {
        match self {
            Conf::Env(env) => env.github_token(),
            Conf::UnitTest(fixed) => fixed.github_token(),
        }
    }

    fn allowed_repos(&self) -> (repos: Vec<String>) {
        match self {
            Conf::Env(env) => env.allowed_repos(),
            Conf::UnitTest(fixed) => fixed.allowed_repos(),
        }
    }
}

/// Selects the configuration. The flag alone decides: with `should_mock` the fixed values
/// for unit tests are used and `env` is not looked at; without it the values come from
/// `env`.
pub fn get_conf(should_mock: bool, env: EnvConf) -> (conf: Conf)
    ensures
        conf.values() == selected_values(should_mock, env@),
        should_mock ==> conf.values() == unit_test_values(),
        should_mock <==> conf is UnitTest,
{
    if should_mock {
        return Conf::UnitTest(UnitTestConf {  });
    }
    Conf::Env(env)
}

/// The fixed configuration does not depend on the environment: whatever the two variables
/// hold, selecting it yields the unit-test token and the two unit-test repositories.
pub proof fn law_mock_ignores_the_environment(env: EnvConfView, other: EnvConfView)
    ensures
        selected_values(true, env) == selected_values(true, other),
        selected_values(true, env).token == UNIT_TEST_TOKEN@,
        selected_values(true, env).repos == seq![UNIT_TEST_REPO_A@, UNIT_TEST_REPO_B@],
{
}

} // verus!
