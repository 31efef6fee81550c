use gitexplore::Cli;
use gitexplore::Config;
use gitexplore::Data;
use gitexplore::Error;
use gitexplore::OptionMap;
use gitexplore::OptionValue;

fn empty_data() -> Data {
    Data {
        primary: Vec::new(),
        secondary: OptionMap { entries: Vec::new() },
        tertiary: OptionMap { entries: Vec::new() },
    }
}

#[test]
fn verify_args_length() {
    let search_terms = vec!["add".to_string(), "a".to_string(), "commit".to_string()];
    let cfg = Config::new(
        Cli {
            verbose: false,
            search_terms,
        },
        empty_data(),
    )
    .unwrap();

    assert_eq!(2, cfg.search.len())
}

#[test]
fn verify_lowercase() {
    let search_terms = vec!["AdD".to_string(), "ComMit".to_string()];
    let cfg = Config::new(
        Cli {
            verbose: false,
            search_terms,
        },
        empty_data(),
    )
    .unwrap();

    assert_eq!(vec!["add".to_string(), "commit".to_string(),], cfg.search)
}

#[test]
fn verify_stripping_articles() {
    let search_terms = vec![
        "add".to_string(),
        "a".to_string(),
        "commit".to_string(),
        "to".to_string(),
        "the".to_string(),
        "repo".to_string(),
    ];
    let cfg = Config::new(
        Cli {
            verbose: false,
            search_terms,
        },
        empty_data(),
    )
    .unwrap();

    assert_eq!(
        vec![
            "add".to_string(),
            "commit".to_string(),
            "to".to_string(),
            "repo".to_string()
        ],
        cfg.search
    )
}

#[test]
fn normalize_length_formula() {
    // Three of the six tokens lowercase to a filler word, so exactly three
    // survive, all lowercased, in order.
    let terms = vec![
        "An".to_string(),
        "Apple".to_string(),
        "THE".to_string(),
        "a".to_string(),
        "Day".to_string(),
        "keeps".to_string(),
    ];
    let normalized = gitexplore::normalize_terms(&terms);
    assert_eq!(normalized.len(), terms.len() - 3);
    assert_eq!(
        normalized,
        vec!["apple".to_string(), "day".to_string(), "keeps".to_string()]
    );
}

#[test]
fn normalize_idempotent() {
    let terms = vec![
        "The".to_string(),
        "WEIRD".to_string(),
        "An".to_string(),
        "Commit".to_string(),
    ];
    let once = gitexplore::normalize_terms(&terms);
    let twice = gitexplore::normalize_terms(&once);
    assert_eq!(once, twice);
}

#[test]
fn empty_query_rejected() {
    let r = Config::new(
        Cli {
            verbose: false,
            search_terms: Vec::new(),
        },
        empty_data(),
    );
    assert_eq!(r.err(), Some(Error::EmptyQuery));
}

#[test]
fn all_filler_query_becomes_empty() {
    // A non-empty query of filler words alone is accepted; the post-filter
    // result is the permissible empty-after-filter state.
    let cfg = Config::new(
        Cli {
            verbose: false,
            search_terms: vec!["a".to_string(), "THE".to_string(), "An".to_string()],
        },
        empty_data(),
    )
    .unwrap();
    assert!(cfg.search.is_empty());
}

#[test]
fn not_article_classification() {
    assert!(!gitexplore::not_article(&"a".to_string()));
    assert!(!gitexplore::not_article(&"an".to_string()));
    assert!(!gitexplore::not_article(&"the".to_string()));
    assert!(gitexplore::not_article(&"and".to_string()));
    assert!(gitexplore::not_article(&"they".to_string()));
}

#[test]
fn error_messages() {
    assert_eq!(Error::EmptyQuery.message(), "No search terms used");
    assert_eq!(Error::NoPrimaryMatch.message(), "Invalid search term");
    assert_eq!(Error::NoSecondaryMatch.message(), "No match found");
}

#[test]
fn validate_accepts_well_formed_store() {
    let data = Data {
        primary: vec![OptionValue::TierOne {
            label: "add".to_string(),
            value: "add".to_string(),
        }],
        secondary: OptionMap {
            entries: vec![(
                "add".to_string(),
                vec![OptionValue::TierTwo {
                    label: "a remote".to_string(),
                    value: "add-remote".to_string(),
                    usage: "git remote add <name> <url>".to_string(),
                }],
            )],
        },
        tertiary: OptionMap { entries: Vec::new() },
    };
    assert!(data.validate());
}

#[test]
fn validate_rejects_empty_label() {
    let data = Data {
        primary: vec![OptionValue::TierOne {
            label: "add".to_string(),
            value: "add".to_string(),
        }],
        secondary: OptionMap { entries: Vec::new() },
        tertiary: OptionMap {
            entries: vec![(
                "add-branch".to_string(),
                vec![OptionValue::TierTwo {
                    label: "".to_string(),
                    value: "add-branch-stay".to_string(),
                    usage: "git branch <branchname>".to_string(),
                }],
            )],
        },
    };
    assert!(!data.validate());
}

#[test]
fn validate_rejects_empty_value() {
    let data = Data {
        primary: vec![OptionValue::TierThree {
            label: "compare".to_string(),
            value: "".to_string(),
            usage: "git diff".to_string(),
            nb: "pipe it through less".to_string(),
        }],
        secondary: OptionMap { entries: Vec::new() },
        tertiary: OptionMap { entries: Vec::new() },
    };
    assert!(!data.validate());
}
