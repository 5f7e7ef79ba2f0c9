use std::path::PathBuf;

use turbobunny::commands::{gen_cmd_list, gen_google_cmd, BunnyCommand, BunnyCommandTable, Destination};

fn default_table() -> BunnyCommandTable {
    BunnyCommandTable::new("bunny.example.com", &PathBuf::from("./resources"))
}

fn cmd(matchers: &[&str], url: &str) -> BunnyCommand {
    BunnyCommand {
        matchers: matchers.iter().map(|m| m.to_string()).collect(),
        example: "example".to_string(),
        description: format!("goes to {}", url),
        destination: Destination::RedirectNoArgs { url: url.to_string() },
    }
}

fn table(commands: Vec<BunnyCommand>, fallback: Option<BunnyCommand>) -> BunnyCommandTable {
    BunnyCommandTable {
        commands,
        fallback,
        fqdn: "host".to_string(),
        resources_path: PathBuf::from("."),
    }
}

fn matched(t: &BunnyCommandTable, q: &str) -> Option<(Vec<String>, String)> {
    t.match_query(q).map(|(c, a)| (c.matchers.clone(), a))
}

fn strings(v: &[&str]) -> Vec<String> {
    v.iter().map(|s| s.to_string()).collect()
}

#[test]
fn every_matcher_alone_matches_its_command() {
    let t = default_table();
    for c in &t.commands {
        for m in &c.matchers {
            let (found, args) = t.match_query(m.as_str()).unwrap();
            assert_eq!(found.matchers, c.matchers);
            assert_eq!(args, "");
        }
    }
}

#[test]
fn matcher_with_args_keeps_args_whole() {
    let t = default_table();
    for c in &t.commands {
        for m in &c.matchers {
            let q = format!("{} red  rex rabbits ", m);
            let (found, args) = t.match_query(q.as_str()).unwrap();
            assert_eq!(found.matchers, c.matchers);
            assert_eq!(args, "red  rex rabbits ");
        }
    }
}

#[test]
fn prefix_without_space_does_not_match() {
    let t = default_table();
    assert!(t.match_query("github").is_none());
    assert!(t.match_query("gx").is_none());
    assert!(t.match_query("bunnyhop").is_none());
}

#[test]
fn prefix_without_space_falls_to_longer_matcher() {
    let t = default_table();
    assert_eq!(matched(&t, "ghi 12"), Some((strings(&["ghi"]), "12".to_string())));
    assert_eq!(matched(&t, "prs"), Some((strings(&["pr", "prs"]), "".to_string())));
}

#[test]
fn earlier_command_wins_on_shared_matcher() {
    let t = table(vec![cmd(&["a", "x"], "/first"), cmd(&["x"], "/second")], None);
    let (c, args) = t.match_query("x").unwrap();
    assert_eq!(c.run(args.as_str()), "/first");
    let (c, args) = t.match_query("x more").unwrap();
    assert_eq!(c.run(args.as_str()), "/first");
    assert_eq!(args, "more");
}

#[test]
fn completions_of_empty_are_all_matchers() {
    let t = default_table();
    let all: Vec<&str> = t.completions("").iter().map(|(_, m)| *m).collect();
    assert_eq!(all, vec!["g", "google", "bunny", "gh", "ghi", "pr", "prs", "bk"]);
}

#[test]
fn completions_keep_table_order_and_prefix() {
    let t = default_table();
    let found = t.completions("g");
    let ms: Vec<&str> = found.iter().map(|(_, m)| *m).collect();
    assert_eq!(ms, vec!["g", "google", "gh", "ghi"]);
    assert_eq!(found[2].0.description, "open the corresponding LI git repo");
    let ms: Vec<&str> = t.completions("gh").iter().map(|(_, m)| *m).collect();
    assert_eq!(ms, vec!["gh", "ghi"]);
    let ms: Vec<&str> = t.completions("p").iter().map(|(_, m)| *m).collect();
    assert_eq!(ms, vec!["pr", "prs"]);
}

#[test]
fn completions_of_unknown_are_empty() {
    let t = default_table();
    assert!(t.completions("zzz").is_empty());
    assert!(t.completions("G").is_empty());
    assert!(t.completions("google ").is_empty());
}

#[test]
fn resolve_fixed_ignores_args() {
    let c = cmd(&["i"], "/index");
    assert_eq!(c.run("anything"), "/index");
    assert_eq!(c.run(""), "/index");
}

#[test]
fn resolve_with_args() {
    let c = BunnyCommand {
        matchers: vec!["u".to_string()],
        example: "u".to_string(),
        description: "u".to_string(),
        destination: Destination::RedirectArgsString {
            url: "U".to_string(),
            url_with_args: "U?q=".to_string(),
        },
    };
    assert_eq!(c.run(""), "U");
    assert_eq!(c.run("red rex"), "U?q=red rex");
}

#[test]
fn resolve_without_target_is_not_found() {
    let c = BunnyCommand::new();
    assert_eq!(c.run(""), "/404");
    assert_eq!(c.run("x"), "/404");
}

#[test]
fn new_command_has_placeholders() {
    let c = BunnyCommand::new();
    assert!(c.matchers.is_empty());
    assert_eq!(c.example, "[missing_example]");
    assert_eq!(c.description, "[missing_description]");
    assert!(matches!(c.destination, Destination::NoTarget));
    assert!(matches!(Destination::default(), Destination::NoTarget));
}

#[test]
fn fallback_gets_whole_query() {
    let t = default_table();
    assert!(t.match_query("zzz unknown").is_none());
    assert_eq!(
        t.dispatch(Some("zzz unknown")),
        Some("https://www.google.com/search?q=zzz unknown".to_string())
    );
    assert_eq!(
        t.dispatch(Some("github rust")),
        Some("https://www.google.com/search?q=github rust".to_string())
    );
}

#[test]
fn no_match_no_fallback_is_not_found() {
    let t = table(vec![cmd(&["a"], "/a")], None);
    assert_eq!(t.dispatch(Some("zzz unknown")), None);
    assert_eq!(t.dispatch(None), None);
    assert_eq!(default_table().dispatch(None), None);
    assert_eq!(t.dispatch(Some("a b")), Some("/a".to_string()));
}

#[test]
fn google_query_end_to_end() {
    let t = default_table();
    let (c, args) = t.match_query("g red rex rabbits").unwrap();
    assert_eq!(c.matchers, strings(&["g", "google"]));
    assert_eq!(args, "red rex rabbits");
    assert_eq!(c.run(args.as_str()), "https://www.google.com/search?q=red rex rabbits");
    assert_eq!(
        t.dispatch(Some("g red rex rabbits")),
        Some("https://www.google.com/search?q=red rex rabbits".to_string())
    );
}

#[test]
fn matcher_and_space_gives_empty_args() {
    let t = default_table();
    let (c, args) = t.match_query("g ").unwrap();
    assert_eq!(args, "");
    assert_eq!(c.run(args.as_str()), "https://www.google.com/search");
    let (_, args) = t.match_query("g  x").unwrap();
    assert_eq!(args, " x");
}

#[test]
fn args_with_non_ascii_characters() {
    let t = default_table();
    assert_eq!(
        t.dispatch(Some("g héllo wörld")),
        Some("https://www.google.com/search?q=héllo wörld".to_string())
    );
    assert!(t.match_query("gé").is_none());
}

#[test]
fn default_registry_urls() {
    let t = default_table();
    assert_eq!(t.dispatch(Some("bunny")), Some("/index".to_string()));
    assert_eq!(t.dispatch(Some("bunny extra")), Some("/index".to_string()));
    assert_eq!(t.dispatch(Some("gh")), Some("https://www.github.com/ludumipsum".to_string()));
    assert_eq!(t.dispatch(Some("gh repo")), Some("https://www.github.com/ludumipsum/repo".to_string()));
    assert_eq!(
        t.dispatch(Some("ghi 192")),
        Some("https://www.github.com/ludumipsum/repo/issues/192".to_string())
    );
    assert_eq!(
        t.dispatch(Some("ghi")),
        Some("https://www.github.com/ludumipsum/repo/issues/".to_string())
    );
    assert_eq!(t.dispatch(Some("pr")), Some("https://www.github.com/ludumipsum/repo/pulls".to_string()));
    assert_eq!(
        t.dispatch(Some("prs 7")),
        Some("https://www.github.com/ludumipsum/repo/pull/7".to_string())
    );
    assert_eq!(t.dispatch(Some("bk")), Some("https://buildkite.com/ludumipsum".to_string()));
    assert_eq!(
        t.dispatch(Some("bk global-ci")),
        Some("https://buildkite.com/ludumipsum/global-ci".to_string())
    );
}

#[test]
fn table_new_sets_fields() {
    let t = default_table();
    assert_eq!(t.fqdn, "bunny.example.com");
    assert_eq!(t.resources_path, PathBuf::from("./resources"));
    assert_eq!(t.commands.len(), 6);
    assert_eq!(t.fallback.as_ref().unwrap().matchers, strings(&["g", "google"]));
    assert_eq!(gen_cmd_list().len(), 6);
    assert_eq!(gen_google_cmd().example, "g red rex rabbits");
}

#[test]
fn suggestion_lists() {
    let t = default_table();
    assert_eq!(t.suggestion_url("gh"), "https://bunny.example.com/cmd?q=gh");
    let (ms, ds, us) = t.suggestions("b");
    assert_eq!(ms, strings(&["bunny", "bk"]));
    assert_eq!(ds, strings(&["open turbobunny's homepage", "open our buildkite dashboard"]));
    assert_eq!(
        us,
        strings(&["https://bunny.example.com/cmd?q=bunny", "https://bunny.example.com/cmd?q=bk"])
    );
    let (ms, ds, us) = t.suggestions("x");
    assert!(ms.is_empty() && ds.is_empty() && us.is_empty());
}
