//! The command table: commands, their destinations, query matching and
//! completion.
use vstd::prelude::*;

use crate::text::{same_text, starts_with, suffix_from, with_space};

verus! {

/// Where a command with no configured destination sends its caller.
pub const CMD_NOTFOUND_URL: &'static str = "/404";

/// Google's search page; the query goes after `?q=`.
pub const GOOGLE_SEARCH_URL: &'static str = "https://www.google.com/search";

/// The organisation's build dashboard.
pub const LI_BUILDKITE_BASE: &'static str = "https://buildkite.com/ludumipsum";

/// The organisation's page on GitHub.
pub const LI_GITHUB_BASE: &'static str = "https://www.github.com/ludumipsum";

/// The organisation's main repository.
pub const LI_MAIN_REPO: &'static str = "repo";

/// How a matched command turns its trailing arguments into a URL.
pub enum Destination {
    /// No target configured: resolves to the not-found URL.
    NoTarget,
    /// Always `url`, whatever the arguments.
    RedirectNoArgs { url: String },
    /// `url` without arguments, else `url_with_args` followed by the arguments verbatim.
    RedirectArgsString { url: String, url_with_args: String },
}

impl Destination {
    /// The URL this destination gives for the argument string `args`.
    pub open spec fn resolve(&self, args: Seq<char>) -> Seq<char> {
        match self {
            Destination::NoTarget => CMD_NOTFOUND_URL@,
            Destination::RedirectNoArgs { url } => url@,
            Destination::RedirectArgsString { url, url_with_args } => {
                if args.len() == 0 {
                    url@
                } else {
                    url_with_args@ + args
                }
            },
        }
    }

    /// This destination redirects to `to`, ignoring arguments.
    pub open spec fn is_fixed(&self, to: Seq<char>) -> bool {
        match self {
            Destination::RedirectNoArgs { url } => url@ == to,
            _ => false,
        }
    }

    /// This destination redirects to `bare` without arguments and appends them to `prefix`.
    pub open spec fn is_with_args(&self, bare: Seq<char>, prefix: Seq<char>) -> bool {
        match self {
            Destination::RedirectArgsString { url, url_with_args } => url@ == bare
                && url_with_args@ == prefix,
            _ => false,
        }
    }
}

impl Default for Destination {
    fn default() -> (r: Destination)
        ensures
            r is NoTarget,
    {
        Destination::NoTarget
    }
}

/// One dispatchable action: its trigger tokens, what it is for, and where it leads.
pub struct BunnyCommand {
    pub matchers: Vec<String>,
    pub example: String,
    pub description: String,
    pub destination: Destination,
}

impl BunnyCommand {
    /// The trigger tokens, in declared order.
    pub open spec fn matcher_seq(&self) -> Seq<Seq<char>> {
        self.matchers@.map_values(|m: String| m@)
    }

    /// This command has exactly these matchers, description, example and destination.
    pub open spec fn is(
        &self,
        matchers: Seq<Seq<char>>,
        description: Seq<char>,
        example: Seq<char>,
        destination: spec_fn(Destination) -> bool,
    ) -> bool {
        &&& self.matcher_seq() == matchers
        &&& self.description@ == description
        &&& self.example@ == example
        &&& destination(self.destination)
    }

    /// A command with no matchers, placeholder texts and no destination.
    pub fn new() -> (r: BunnyCommand)
        ensures
            r.matchers@.len() == 0,
            r.example@ == "[missing_example]"@,
            r.description@ == "[missing_description]"@,
            r.destination is NoTarget,
    {
        BunnyCommand::default()
    }

    /// Resolves this command's destination for the trailing arguments `args`.
    pub fn run(&self, args: &str) -> (r: String)
        ensures
            r@ == self.destination.resolve(args@),
    {
        match &self.destination {
            Destination::NoTarget => String::from_str(CMD_NOTFOUND_URL),
            Destination::RedirectNoArgs { url } => url.clone(),
            Destination::RedirectArgsString { url, url_with_args } => {
                if args.unicode_len() == 0 {
                    url.clone()
                } else {
                    url_with_args.clone().concat(args)
                }
            },
        }
    }
}

impl Default for BunnyCommand {
    fn default() -> (r: BunnyCommand)
        ensures
            r.matchers@.len() == 0,
            r.example@ == "[missing_example]"@,
            r.description@ == "[missing_description]"@,
            r.destination is NoTarget,
    {
        BunnyCommand {
            matchers: Vec::new(),
            example: String::from_str("[missing_example]"),
            description: String::from_str("[missing_description]"),
            destination: Destination::NoTarget,
        }
    }
}

/// The command that searches google with its arguments.
pub open spec fn is_google_cmd(c: BunnyCommand) -> bool {
    c.is(
        seq!["g"@, "google"@],
        "search google with your arguments"@,
        "g red rex rabbits"@,
        |d: Destination| d.is_with_args(GOOGLE_SEARCH_URL@, GOOGLE_SEARCH_URL@ + "?q="@),
    )
}

/// The built-in commands, in the order in which they take precedence.
pub open spec fn is_default_registry(cmds: Seq<BunnyCommand>) -> bool {
    &&& cmds.len() == 6
    &&& is_google_cmd(cmds[0])
    &&& cmds[1].is(
        seq!["bunny"@],
        "open turbobunny's homepage"@,
        "bunny"@,
        |d: Destination| d.is_fixed("/index"@),
    )
    &&& cmds[2].is(
        seq!["gh"@],
        "open the corresponding LI git repo"@,
        "gh repo"@,
        |d: Destination| d.is_with_args(LI_GITHUB_BASE@, LI_GITHUB_BASE@ + "/"@),
    )
    &&& cmds[3].is(
        seq!["ghi"@],
        "open the given github issue in ludumipsum/repo"@,
        "ghi 192"@,
        |d: Destination|
            d.is_with_args(
                LI_GITHUB_BASE@ + "/"@ + LI_MAIN_REPO@ + "/issues/"@,
                LI_GITHUB_BASE@ + "/"@ + LI_MAIN_REPO@ + "/issues/"@,
            ),
    )
    &&& cmds[4].is(
        seq!["pr"@, "prs"@],
        "open the given pr in ludumipsum/repo"@,
        "ghi 192"@,
        |d: Destination|
            d.is_with_args(
                LI_GITHUB_BASE@ + "/"@ + LI_MAIN_REPO@ + "/pulls"@,
                LI_GITHUB_BASE@ + "/"@ + LI_MAIN_REPO@ + "/pull/"@,
            ),
    )
    &&& cmds[5].is(
        seq!["bk"@],
        "open our buildkite dashboard"@,
        "bk global-ci"@,
        |d: Destination| d.is_with_args(LI_BUILDKITE_BASE@, LI_BUILDKITE_BASE@ + "/"@),
    )
}

/// Builds a command from its texts and destination.
fn command(matchers: Vec<String>, description: &str, example: &str, destination: Destination) -> (r:
    BunnyCommand)
    ensures
        r.matchers == matchers,
        r.description@ == description@,
        r.example@ == example@,
        r.destination == destination,
{
    BunnyCommand {
        matchers,
        example: String::from_str(example),
        description: String::from_str(description),
        destination,
    }
}

/// `base` followed by `tail`.
fn joined(base: &str, tail: &str) -> (r: String)
    ensures
        r@ == base@ + tail@,
{
    String::from_str(base).concat(tail)
}

/// The address of the main repository's page `tail`.
fn repo_url(tail: &str) -> (r: String)
    ensures
        r@ == LI_GITHUB_BASE@ + "/"@ + LI_MAIN_REPO@ + tail@,
{
    String::from_str(LI_GITHUB_BASE).concat("/").concat(LI_MAIN_REPO).concat(tail)
}

/// The google search command, also the table's fallback.
pub fn gen_google_cmd() -> (r: BunnyCommand)
    ensures
        is_google_cmd(r),
{
    let r = command(
        vec![String::from_str("g"), String::from_str("google")],
        "search google with your arguments",
        "g red rex rabbits",
        Destination::RedirectArgsString {
            url: String::from_str(GOOGLE_SEARCH_URL),
            url_with_args: joined(GOOGLE_SEARCH_URL, "?q="),
        },
    );
    assert(r.matcher_seq() =~= seq!["g"@, "google"@]);
    r
}

/// The built-in command list.
pub fn gen_cmd_list() -> (r: Vec<BunnyCommand>)
    ensures
        is_default_registry(r@),
{
    let bunny = command(
        vec![String::from_str("bunny")],
        "open turbobunny's homepage",
        "bunny",
        Destination::RedirectNoArgs { url: String::from_str("/index") },
    );
    assert(bunny.matcher_seq() =~= seq!["bunny"@]);
    let gh = command(
        vec![String::from_str("gh")],
        "open the corresponding LI git repo",
        "gh repo",
        Destination::RedirectArgsString {
            url: String::from_str(LI_GITHUB_BASE),
            url_with_args: joined(LI_GITHUB_BASE, "/"),
        },
    );
    assert(gh.matcher_seq() =~= seq!["gh"@]);
    let ghi = command(
        vec![String::from_str("ghi")],
        "open the given github issue in ludumipsum/repo",
        "ghi 192",
        Destination::RedirectArgsString { url: repo_url("/issues/"), url_with_args: repo_url("/issues/") },
    );
    assert(ghi.matcher_seq() =~= seq!["ghi"@]);
    let pr = command(
        vec![String::from_str("pr"), String::from_str("prs")],
        "open the given pr in ludumipsum/repo",
        "ghi 192",
        Destination::RedirectArgsString { url: repo_url("/pulls"), url_with_args: repo_url("/pull/") },
    );
    assert(pr.matcher_seq() =~= seq!["pr"@, "prs"@]);
    let bk = command(
        vec![String::from_str("bk")],
        "open our buildkite dashboard",
        "bk global-ci",
        Destination::RedirectArgsString {
            url: String::from_str(LI_BUILDKITE_BASE),
            url_with_args: joined(LI_BUILDKITE_BASE, "/"),
        },
    );
    assert(bk.matcher_seq() =~= seq!["bk"@]);
    vec![gen_google_cmd(), bunny, gh, ghi, pr, bk]
}

/// The argument string left when `matcher` matches `query`: empty on an
/// exact match, the rest after `matcher` and one space on a match with
/// arguments, and nothing when `matcher` does not match.
pub open spec fn leftover(matcher: Seq<char>, query: Seq<char>) -> Option<Seq<char>> {
    if query == matcher {
        Some(Seq::empty())
    } else if with_space(matcher).is_prefix_of(query) {
        Some(query.subrange(matcher.len() as int + 1, query.len() as int))
    } else {
        None
    }
}

/// Matches one matcher against a query.
pub fn match_one(matcher: &str, query: &str) -> (r: Option<String>)
    ensures
        r matches Some(a) ==> leftover(matcher@, query@) == Some(a@),
        r is None ==> leftover(matcher@, query@) is None,
{
    if same_text(query, matcher) {
        return Some(String::new());
    }
    let m: usize = matcher.unicode_len();
    if m < query.unicode_len() && starts_with(query, matcher) && query.get_char(m) == ' ' {
        proof {
            assert(with_space(matcher@) =~= query@.subrange(0, m + 1));
        }
        return Some(suffix_from(query, m + 1));
    }
    proof {
        if with_space(matcher@).is_prefix_of(query@) {
            assert(query@.subrange(0, m as int) =~= matcher@);
            assert(query@[m as int] == with_space(matcher@)[m as int]);
        }
    }
    None
}

/// `(i1, j1)` comes before `(i2, j2)` in table order, then matcher order.
pub open spec fn before(i1: int, j1: int, i2: int, j2: int) -> bool {
    i1 < i2 || (i1 == i2 && j1 < j2)
}

/// The path of the template and static assets, carried for the HTTP layer.
#[verifier::external_type_specification]
#[verifier::external_body]
pub struct ExPathBuf(std::path::PathBuf);

/// Relies on `PathBuf::clone`: the copy holds the same path.
pub assume_specification[ <std::path::PathBuf as Clone>::clone ](p: &std::path::PathBuf) -> (r: std::path::PathBuf)
    ensures
        r == *p,
;

/// The ordered commands, an optional fallback, and where the service runs.
pub struct BunnyCommandTable {
    pub commands: Vec<BunnyCommand>,
    pub fallback: Option<BunnyCommand>,
    pub fqdn: String,
    pub resources_path: std::path::PathBuf,
}

impl BunnyCommandTable {
    /// The table of built-in commands, with google search as its fallback.
    pub fn new(fqdn: &str, resources_path: &std::path::PathBuf) -> (r: BunnyCommandTable)
        ensures
            is_default_registry(r.commands@),
            r.fallback matches Some(f) && is_google_cmd(f),
            r.fqdn@ == fqdn@,
            r.resources_path == *resources_path,
    {
        BunnyCommandTable {
            commands: gen_cmd_list(),
            fallback: Some(gen_google_cmd()),
            fqdn: String::from_str(fqdn),
            resources_path: resources_path.clone(),
        }
    }

    /// Matcher `j` of command `i`.
    pub open spec fn matcher_at(&self, i: int, j: int) -> Seq<char> {
        self.commands@[i].matchers@[j]@
    }

    /// `(i, j)` names a matcher of the table.
    pub open spec fn is_pair(&self, i: int, j: int) -> bool {
        0 <= i < self.commands@.len() && 0 <= j < self.commands@[i].matchers@.len()
    }

    /// Matcher `j` of command `i` matches `q`.
    pub open spec fn hits(&self, i: int, j: int, q: Seq<char>) -> bool {
        self.is_pair(i, j) && leftover(self.matcher_at(i, j), q) is Some
    }

    /// `(i, j)` matches `q` and no matcher before it does.
    pub open spec fn is_first_hit(&self, i: int, j: int, q: Seq<char>) -> bool {
        &&& self.hits(i, j, q)
        &&& forall|i2: int, j2: int| before(i2, j2, i, j) ==> !#[trigger] self.hits(i2, j2, q)
    }

    /// The position of the first matcher, in table order, that matches `q`.
    pub open spec fn first_hit(&self, q: Seq<char>) -> Option<(int, int)> {
        if exists|i: int, j: int| self.is_first_hit(i, j, q) {
            Some(choose|i: int, j: int| self.is_first_hit(i, j, q))
        } else {
            None
        }
    }

    /// The command that `q` selects, with the arguments left after its matcher.
    pub open spec fn match_spec(&self, q: Seq<char>) -> Option<(BunnyCommand, Seq<char>)> {
        match self.first_hit(q) {
            Some((i, j)) => Some((self.commands@[i], leftover(self.matcher_at(i, j), q)->0)),
            None => None,
        }
    }

    /// The first hit is the only position that is a first hit.
    pub proof fn lemma_first_hit_unique(&self, q: Seq<char>, i: int, j: int)
        requires
            self.is_first_hit(i, j, q),
        ensures
            self.first_hit(q) == Some((i, j)),
    {
        let (i2, j2) = choose|i2: int, j2: int| self.is_first_hit(i2, j2, q);
        assert(!before(i, j, i2, j2));
        assert(!before(i2, j2, i, j));
    }

    /// A matcher that matches `q` leaves a first hit at or before it.
    pub proof fn lemma_first_hit_exists(&self, q: Seq<char>, i: int, j: int)
        requires
            self.hits(i, j, q),
        ensures
            self.first_hit(q) matches Some((i2, j2)) && !before(i, j, i2, j2),
        decreases i, j,
    {
        if self.is_first_hit(i, j, q) {
            self.lemma_first_hit_unique(q, i, j);
        } else {
            let (i2, j2) = choose|i2: int, j2: int| before(i2, j2, i, j) && self.hits(i2, j2, q);
            self.lemma_first_hit_exists(q, i2, j2);
        }
    }

    /// Every (command, matcher) pair of the table, in table order, then matcher order.
    pub open spec fn pairs(&self) -> Seq<(BunnyCommand, Seq<char>)> {
        pairs_of(self.commands@)
    }

    /// The pairs whose matcher starts with `p`, in table order.
    pub open spec fn completion_spec(&self, p: Seq<char>) -> Seq<(BunnyCommand, Seq<char>)> {
        self.pairs().filter(completes(p))
    }

    /// The first command, in table order, one of whose matchers matches
    /// `query`, with the arguments left after that matcher.
    pub fn match_query(&self, query: &str) -> (r: Option<(&BunnyCommand, String)>)
        ensures
            match r {
                None => self.match_spec(query@) is None,
                Some((c, a)) => self.match_spec(query@) == Some((*c, a@)),
            },
    {
        let n: usize = self.commands.len();
        let mut i: usize = 0;
        while i < n
            invariant
                n == self.commands@.len(),
                i <= n,
                forall|i2: int, j2: int| 0 <= i2 < i ==> !#[trigger] self.hits(i2, j2, query@),
            decreases n - i,
        {
            let command = &self.commands[i];
            let m: usize = command.matchers.len();
            let mut j: usize = 0;
            while j < m
                invariant
                    n == self.commands@.len(),
                    i < n,
                    *command == self.commands@[i as int],
                    m == command.matchers@.len(),
                    j <= m,
                    forall|i2: int, j2: int| 0 <= i2 < i ==> !#[trigger] self.hits(i2, j2, query@),
                    forall|j2: int| 0 <= j2 < j ==> !#[trigger] self.hits(i as int, j2, query@),
                decreases m - j,
            {
                if let Some(a) = match_one(command.matchers[j].as_str(), query) {
                    proof {
                        assert(self.is_first_hit(i as int, j as int, query@));
                        self.lemma_first_hit_unique(query@, i as int, j as int);
                    }
                    return Some((command, a));
                }
                j = j + 1;
            }
            i = i + 1;
        }
        None
    }

    /// Every matcher that starts with `query`, with its command, in table
    /// order, then matcher order.
    pub fn completions(&self, query: &str) -> (r: Vec<(&BunnyCommand, &str)>)
        ensures
            r@.len() == self.completion_spec(query@).len(),
            forall|k: int|
                0 <= k < r@.len() ==> (*r@[k].0, r@[k].1@) == #[trigger] self.completion_spec(
                    query@,
                )[k],
    {
        let ghost f = completes(query@);
        let mut ret: Vec<(&BunnyCommand, &str)> = Vec::new();
        let n: usize = self.commands.len();
        let mut i: usize = 0;
        while i < n
            invariant
                n == self.commands@.len(),
                i <= n,
                f == completes(query@),
                ret@.len() == pairs_of(self.commands@.take(i as int)).filter(f).len(),
                forall|k: int|
                    0 <= k < ret@.len() ==> (*ret@[k].0, ret@[k].1@) == #[trigger] pairs_of(
                        self.commands@.take(i as int),
                    ).filter(f)[k],
            decreases n - i,
        {
            let command = &self.commands[i];
            let ghost before_cmd = pairs_of(self.commands@.take(i as int)).filter(f);
            let ghost own = pairs_in(*command);
            let m: usize = command.matchers.len();
            let mut j: usize = 0;
            while j < m
                invariant
                    n == self.commands@.len(),
                    i < n,
                    *command == self.commands@[i as int],
                    own == pairs_in(*command),
                    m == command.matchers@.len(),
                    j <= m,
                    f == completes(query@),
                    ret@.len() == (before_cmd + own.take(j as int).filter(f)).len(),
                    forall|k: int|
                        0 <= k < ret@.len() ==> (*ret@[k].0, ret@[k].1@) == #[trigger] (before_cmd
                            + own.take(j as int).filter(f))[k],
                decreases m - j,
            {
                let matcher: &str = command.matchers[j].as_str();
                proof {
                    assert(own.take(j + 1) =~= own.take(j as int).push(own[j as int]));
                    own.take(j as int).lemma_filter_push(own[j as int], f);
                }
                assert(own[j as int] == (*command, matcher@));
                if starts_with(matcher, query) {
                    ret.push((command, matcher));
                    proof {
                        assert(before_cmd + own.take(j + 1).filter(f) =~= (before_cmd + own.take(
                            j as int,
                        ).filter(f)).push(own[j as int]));
                    }
                } else {
                    proof {
                        assert(before_cmd + own.take(j + 1).filter(f) =~= before_cmd + own.take(
                            j as int,
                        ).filter(f));
                    }
                }
                j = j + 1;
            }
            proof {
                assert(own.take(m as int) =~= own);
                let taken = self.commands@.take(i + 1);
                assert(taken.drop_last() =~= self.commands@.take(i as int));
                Seq::filter_distributes_over_add(
                    pairs_of(self.commands@.take(i as int)),
                    own,
                    f,
                );
            }
            i = i + 1;
        }
        proof {
            assert(self.commands@.take(n as int) =~= self.commands@);
        }
        ret
    }
}

/// The characters of a query, when one was given.
pub open spec fn query_view(q: Option<&str>) -> Option<Seq<char>> {
    match q {
        Some(q) => Some(q@),
        None => None,
    }
}

impl BunnyCommandTable {
    /// Where the query `q` leads: the matched command resolved with its
    /// leftover arguments, else the fallback resolved with the whole query,
    /// else nowhere.
    pub open spec fn dispatch_spec(&self, q: Option<Seq<char>>) -> Option<Seq<char>> {
        match q {
            None => None,
            Some(q) => match self.match_spec(q) {
                Some((c, a)) => Some(c.destination.resolve(a)),
                None => match self.fallback {
                    Some(f) => Some(f.destination.resolve(q)),
                    None => None,
                },
            },
        }
    }

    /// The URL that the query `query` redirects to, or `None` when the
    /// caller is to answer with not-found.
    pub fn dispatch(&self, query: Option<&str>) -> (r: Option<String>)
        ensures
            r matches Some(u) ==> self.dispatch_spec(query_view(query)) == Some(u@),
            r is None ==> self.dispatch_spec(query_view(query)) is None,
    {
        match query {
            None => None,
            Some(q) => match self.match_query(q) {
                Some((command, leftover_args)) => Some(command.run(leftover_args.as_str())),
                None => match &self.fallback {
                    Some(fallback) => Some(fallback.run(q)),
                    None => None,
                },
            },
        }
    }

    /// The address at which this service runs the command `matcher`.
    pub open spec fn suggestion_url_spec(&self, matcher: Seq<char>) -> Seq<char> {
        "https://"@ + self.fqdn@ + "/cmd?q="@ + matcher
    }

    /// The address at which this service runs the command `matcher`.
    pub fn suggestion_url(&self, matcher: &str) -> (r: String)
        ensures
            r@ == self.suggestion_url_spec(matcher@),
    {
        String::from_str("https://").concat(self.fqdn.as_str()).concat("/cmd?q=").concat(matcher)
    }

    /// The typeahead lists for `query`: each completing matcher, its
    /// command's description, and the address that runs it, in completion order.
    pub fn suggestions(&self, query: &str) -> (r: (Vec<String>, Vec<String>, Vec<String>))
        ensures
            r.0@.len() == self.completion_spec(query@).len(),
            r.1@.len() == self.completion_spec(query@).len(),
            r.2@.len() == self.completion_spec(query@).len(),
            forall|k: int|
                0 <= k < r.0@.len() ==> {
                    let (c, m) = #[trigger] self.completion_spec(query@)[k];
                    &&& r.0@[k]@ == m
                    &&& r.1@[k]@ == c.description@
                    &&& r.2@[k]@ == self.suggestion_url_spec(m)
                },
    {
        let found = self.completions(query);
        let mut matchers: Vec<String> = Vec::new();
        let mut descriptions: Vec<String> = Vec::new();
        let mut urls: Vec<String> = Vec::new();
        let mut k: usize = 0;
        while k < found.len()
            invariant
                found@.len() == self.completion_spec(query@).len(),
                forall|x: int|
                    0 <= x < found@.len() ==> (*found@[x].0, found@[x].1@)
                        == #[trigger] self.completion_spec(query@)[x],
                k <= found@.len(),
                matchers@.len() == k,
                descriptions@.len() == k,
                urls@.len() == k,
                forall|x: int|
                    0 <= x < k ==> {
                        let (c, m) = #[trigger] self.completion_spec(query@)[x];
                        &&& matchers@[x]@ == m
                        &&& descriptions@[x]@ == c.description@
                        &&& urls@[x]@ == self.suggestion_url_spec(m)
                    },
            decreases found@.len() - k,
        {
            let (command, matcher) = found[k];
            assert((*command, matcher@) == self.completion_spec(query@)[k as int]);
            matchers.push(String::from_str(matcher));
            descriptions.push(command.description.clone());
            urls.push(self.suggestion_url(matcher));
            k = k + 1;
        }
        (matchers, descriptions, urls)
    }
}

/// The pairs of one command, in matcher order.
pub open spec fn pairs_in(c: BunnyCommand) -> Seq<(BunnyCommand, Seq<char>)> {
    c.matcher_seq().map_values(|m: Seq<char>| (c, m))
}

/// The pairs of a sequence of commands, in order.
pub open spec fn pairs_of(cmds: Seq<BunnyCommand>) -> Seq<(BunnyCommand, Seq<char>)>
    decreases cmds.len(),
{
    if cmds.len() == 0 {
        Seq::empty()
    } else {
        pairs_of(cmds.drop_last()) + pairs_in(cmds.last())
    }
}

/// A pair is a completion of `p` when its matcher starts with `p`.
pub open spec fn completes(p: Seq<char>) -> spec_fn((BunnyCommand, Seq<char>)) -> bool {
    |pr: (BunnyCommand, Seq<char>)| p.is_prefix_of(pr.1)
}

} // verus!
