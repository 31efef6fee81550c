use gitexplore::Cli;
use gitexplore::Config;
use gitexplore::Data;
use gitexplore::OptionMap;
use gitexplore::OptionValue;
use gitexplore::Outcome;

fn node1(label: &str, value: &str) -> OptionValue {
    OptionValue::TierOne {
        label: label.to_string(),
        value: value.to_string(),
    }
}

fn node2(label: &str, value: &str, usage: &str) -> OptionValue {
    OptionValue::TierTwo {
        label: label.to_string(),
        value: value.to_string(),
        usage: usage.to_string(),
    }
}

fn node3(label: &str, value: &str, usage: &str, nb: &str) -> OptionValue {
    OptionValue::TierThree {
        label: label.to_string(),
        value: value.to_string(),
        usage: usage.to_string(),
        nb: nb.to_string(),
    }
}

fn sample_data() -> Data {
    Data {
        primary: vec![
            node1("add", "add"),
            node1("delete", "delete"),
            node1("show", "show"),
        ],
        secondary: OptionMap {
            entries: vec![
                (
                    "add".to_string(),
                    vec![
                        node1("a new branch", "add-branch"),
                        node2("a new remote", "add-remote", "git remote add <name> <url>"),
                    ],
                ),
                (
                    "delete".to_string(),
                    vec![
                        node1("a branch", "delete-branch"),
                        node2("a remote", "delete-remote", "git remote rm <name>"),
                    ],
                ),
                (
                    "show".to_string(),
                    vec![node2("commit history", "show-history", "git log")],
                ),
            ],
        },
        tertiary: OptionMap {
            entries: vec![
                (
                    "add-branch".to_string(),
                    vec![
                        node2(
                            "but remain in current branch",
                            "add-branch-stay",
                            "git branch <branchname>",
                        ),
                        node3(
                            "and switch to it",
                            "add-branch-switch",
                            "git checkout -b <branchname>",
                            "Also works for new tags",
                        ),
                    ],
                ),
                (
                    "delete-branch".to_string(),
                    vec![
                        node2("locally", "delete-branch-local", "git branch -d <branchname>"),
                        node3(
                            "on a remote",
                            "delete-branch-remote",
                            "git push <remote> :<branchname>",
                            "Works for tags too",
                        ),
                    ],
                ),
            ],
        },
    }
}

fn config_for(terms: Vec<&str>) -> Config {
    let search_terms = terms.into_iter().map(|t| t.to_string()).collect();
    Config::new(
        Cli {
            verbose: false,
            search_terms,
        },
        sample_data(),
    )
    .unwrap()
}

#[test]
fn second_pass_test() {
    let search_terms = vec![
        "add".to_string(),
        "new".to_string(),
        "branch".to_string(),
        "remain".to_string(),
        "current".to_string(),
    ];
    let cfg = Config::new(
        Cli {
            verbose: false,
            search_terms,
        },
        sample_data(),
    )
    .unwrap();
    if let Some(fp_result) = gitexplore::first_pass(&cfg) {
        let _ = gitexplore::second_pass(&cfg, fp_result);
    }
}

#[test]
fn second_pass_delete_test() {
    let search_terms = vec!["delete".to_string(), "a".to_string(), "branch".to_string()];
    let cfg = Config::new(
        Cli {
            verbose: false,
            search_terms,
        },
        sample_data(),
    )
    .unwrap();
    if let Some(fp_result) = gitexplore::first_pass(&cfg) {
        println!("{:?}", fp_result);
        let _ = gitexplore::second_pass(&cfg, fp_result);
    }
}

#[test]
fn combine_test() {
    let search_terms = vec!["add".to_string(), "new".to_string(), "branch".to_string()];
    let cfg = Config::new(
        Cli {
            verbose: false,
            search_terms,
        },
        sample_data(),
    )
    .unwrap();

    println!("\nAdd Test");
    let add_terms = gitexplore::combined_options(&cfg, &cfg.search[0]);
    println!("{:?}", add_terms);

    println!("\nShow Test");
    let show_terms = gitexplore::combined_options(&cfg, &String::from("show"));
    println!("{:?}", show_terms);

    println!("\nDelete Test");
    let show_terms = gitexplore::combined_options(&cfg, &String::from("delete"));
    println!("{:?}", show_terms);
}

#[test]
fn combiner_expands_tiers_in_order() {
    let cfg = config_for(vec!["add"]);
    let pairs = gitexplore::combined_options(&cfg, &"add".to_string());
    let phrases: Vec<&str> = pairs.iter().map(|p| p.0.as_str()).collect();
    assert_eq!(
        phrases,
        vec![
            "add a new branch but remain in current branch",
            "add a new branch and switch to it",
            "add a new remote",
        ]
    );
    // A tertiary expansion is tagged with the tertiary entry; a terminal
    // secondary entry is tagged with itself.
    assert_eq!(pairs[0].1.get_usage().as_str(), "git branch <branchname>");
    assert_eq!(pairs[2].1.get_usage().as_str(), "git remote add <name> <url>");
}

#[test]
fn score_counts_each_token_once() {
    let phrase = "add a new branch but remain in current branch".to_string();
    let terms = vec![
        "add".to_string(),
        "branch".to_string(),
        "branch".to_string(),
        "missing".to_string(),
    ];
    // "branch" occurs twice in the phrase but each token occurrence scores
    // at most 1; the duplicate token occurrence scores again.
    assert_eq!(gitexplore::score_of(&phrase, &terms), 3);
    assert_eq!(gitexplore::score_of(&phrase, &vec!["xyz".to_string()]), 0);
}

#[test]
fn unique_top_score_is_definitive() {
    // Scores are 5, 3 and 2: exactly one candidate attains the maximum.
    let cfg = config_for(vec!["add", "new", "branch", "remain", "current"]);
    match gitexplore::run(&cfg) {
        Ok(Outcome::Definitive(node)) => {
            assert_eq!(node.get_usage().as_str(), "git branch <branchname>");
        }
        _ => panic!("expected a definitive result"),
    }
}

#[test]
fn shared_top_score_enumerates_all_tied() {
    // Both branch candidates score 2 and the remote candidate scores 1:
    // all and only the tied candidates appear, in emission order.
    let cfg = config_for(vec!["delete", "a", "branch"]);
    match gitexplore::run(&cfg) {
        Ok(Outcome::Ambiguous(nodes)) => {
            assert_eq!(nodes.len(), 2);
            assert_eq!(nodes[0].get_usage().as_str(), "git branch -d <branchname>");
            assert_eq!(
                nodes[1].get_usage().as_str(),
                "git push <remote> :<branchname>"
            );
            assert!(matches!(
                nodes[1],
                OptionValue::TierThree { .. }
            ));
        }
        _ => panic!("expected an ambiguous result"),
    }
}

#[test]
fn note_survives_to_the_result() {
    // A switch-to-it query singles out the TierThree candidate, whose nb
    // caveat rides along with the usage string.
    let cfg = config_for(vec!["add", "branch", "switch"]);
    match gitexplore::run(&cfg) {
        Ok(Outcome::Definitive(node)) => match node {
            OptionValue::TierThree { usage, nb, .. } => {
                assert_eq!(usage, "git checkout -b <branchname>");
                assert_eq!(nb, "Also works for new tags");
            }
            _ => panic!("expected the noted entry"),
        },
        _ => panic!("expected a definitive result"),
    }
}
