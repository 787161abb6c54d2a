use charoite::pipeline::{accepts_proceed, advance, dependency_present, merged_flags, Stage};
use charoite::search::{search_results, search_url, top_items, SearchItem};
use charoite::text::{contains_str, join_with, parse_usize, split_str, str_eq, trim_str};

#[test]
fn string_equality_and_search() {
    assert!(str_eq("abc", "abc"));
    assert!(!str_eq("abc", "abd"));
    assert!(!str_eq("abc", "ab"));
    assert!(contains_str("find_package(PkgConfig REQUIRED)", "PkgConfig"));
    assert!(!contains_str("short", "much longer needle"));
    assert!(contains_str("anything", ""));
}

#[test]
fn trimming_and_splitting() {
    assert_eq!(trim_str("  zlib \t\n"), "zlib");
    assert_eq!(trim_str(""), "");
    assert_eq!(trim_str(" \t "), "");
    assert_eq!(split_str("a,b,c", ','), vec!["a", "b", "c"]);
    assert_eq!(split_str("a,,b", ','), vec!["a", "", "b"]);
    assert_eq!(split_str("", ','), vec![""]);
    assert_eq!(join_with(&vec!["-j4".to_string(), "V=1".to_string()], " "), "-j4 V=1");
    assert_eq!(join_with(&Vec::new(), " "), "");
}

#[test]
fn operator_numbers_parse_strictly() {
    assert_eq!(parse_usize("42"), 42);
    assert_eq!(parse_usize(" 7 \n"), 7);
    assert_eq!(parse_usize("abc"), 0);
    assert_eq!(parse_usize(""), 0);
    assert_eq!(parse_usize("1x"), 0);
    assert_eq!(parse_usize("99999999999999999999999999999"), 0);
}

#[test]
fn proceed_prompt_accepts_only_a_lone_y() {
    assert!(accepts_proceed("y"));
    assert!(accepts_proceed("Y\n"));
    assert!(accepts_proceed("  y  "));
    assert!(!accepts_proceed("yes"));
    assert!(!accepts_proceed("n"));
    assert!(!accepts_proceed(""));
}

#[test]
fn the_pipeline_runs_in_order_and_aborts_for_good() {
    let mut s = Stage::CleanPrior;
    for expected in [
        Stage::Clone,
        Stage::Patch,
        Stage::Detect,
        Stage::Confirm,
        Stage::DepsCheck,
        Stage::Build,
        Stage::PostBuild,
        Stage::Install,
        Stage::RecordLedger,
        Stage::Done,
    ] {
        s = advance(s, true);
        assert_eq!(s, expected);
    }
    assert_eq!(advance(Stage::Done, false), Stage::Done);
    // failed detection aborts: no later outcome reaches a build or install
    let mut s = advance(Stage::Detect, false);
    assert_eq!(s, Stage::Aborted);
    for ok in [true, false, true] {
        s = advance(s, ok);
        assert_eq!(s, Stage::Aborted);
    }
    // a failing patch is reported but does not halt the pipeline
    assert_eq!(advance(Stage::Patch, false), Stage::Detect);
}

#[test]
fn operator_flags_come_last() {
    let merged = merged_flags(
        vec!["--from-manifest".to_string()],
        &vec!["--operator".to_string()],
    );
    assert_eq!(merged, vec!["--from-manifest".to_string(), "--operator".to_string()]);
}

#[test]
fn search_urls_are_percent_encoded() {
    assert_eq!(
        search_url("hello world"),
        "https://api.github.com/search/repositories?q=hello%20world",
    );
    assert_eq!(search_url("abc"), "https://api.github.com/search/repositories?q=abc");
}

#[test]
fn search_responses_are_read() {
    let text = r#"{"items":[
        {"full_name":"a/tool","stargazers_count":12,"forks_count":3},
        {"nameless":true},
        {"full_name":"b/tool"}
    ]}"#;
    let items = search_results(text, 10).unwrap();
    assert_eq!(items.len(), 2);
    assert_eq!(items[0].full_name, "a/tool");
    assert_eq!(items[0].stars, 12);
    assert_eq!(items[0].forks, 3);
    assert_eq!(items[1].full_name, "b/tool");
    assert_eq!(items[1].stars, 0);
    assert!(search_results(r#"{"message":"rate limited"}"#, 10).is_none());
    assert!(search_results("junk", 10).is_none());
}

#[test]
fn only_the_top_results_are_shown() {
    let items: Vec<SearchItem> = (0..15)
        .map(|i| SearchItem { full_name: format!("r/{}", i), stars: i, forks: 0 })
        .collect();
    let top = top_items(items, 10);
    assert_eq!(top.len(), 10);
    assert_eq!(top[9].full_name, "r/9");
    let few = top_items(
        vec![SearchItem { full_name: "only".to_string(), stars: 1, forks: 1 }],
        10,
    );
    assert_eq!(few.len(), 1);
}

#[test]
fn dependency_presence_decision() {
    // pkg-config itself goes by its own probe alone
    assert!(dependency_present(true, true, false, false));
    assert!(!dependency_present(true, false, true, true));
    // another tool: found directly, or through an available pkg-config
    assert!(dependency_present(false, true, false, false));
    assert!(dependency_present(false, false, true, true));
    assert!(!dependency_present(false, false, true, false));
    assert!(!dependency_present(false, false, false, true));
}
