use crates_mirror::error::Error;
use crates_mirror::index::Config;
use crates_mirror::index::DiffLine;
use crates_mirror::index::OpenStep;
use crates_mirror::index::added_crates;
use crates_mirror::index::check_head_direct;
use crates_mirror::index::json_escape;
use crates_mirror::index::mirror_commit_message;
use crates_mirror::index::parse_config;
use crates_mirror::index::parse_index_line;
use crates_mirror::index::plan_open;
use crates_mirror::index::render_config_json;

fn added(line: &str) -> DiffLine {
    DiffLine { origin: '+', old_lineno: None, content: line.as_bytes().to_vec() }
}

#[test]
fn default_config_points_at_the_registry() {
    let c = Config::default();
    assert_eq!(c.dl, "https://crates.io/api/v1/crates");
    assert_eq!(c.api, "https://crates.io");
}

#[test]
fn rendered_config_is_pretty_printed_with_trailing_newline() {
    let c = Config::default();
    let text = render_config_json(&c);
    assert_eq!(
        text,
        "{\n  \"dl\": \"https://crates.io/api/v1/crates\",\n  \"api\": \"https://crates.io\"\n}\n"
    );
}

#[test]
fn escaping_matches_json_string_rules() {
    assert_eq!(json_escape("plain"), "plain");
    assert_eq!(json_escape("a\"b"), "a\\\"b");
    assert_eq!(json_escape("a\\b"), "a\\\\b");
    assert_eq!(json_escape("a\nb\tc\rd"), "a\\nb\\tc\\rd");
    assert_eq!(json_escape("\u{8}\u{c}"), "\\b\\f");
    assert_eq!(json_escape("\u{1}\u{1f}"), "\\u0001\\u001f");
    assert_eq!(json_escape("caf\u{e9}"), "caf\u{e9}");
}

#[test]
fn rendered_config_parses_back_to_itself() {
    let c = Config {
        dl: "https://static.crates-io.cn/{crate}/{version}".to_string(),
        api: "https://crates.io".to_string(),
    };
    let text = render_config_json(&c);
    let back = parse_config(&text).expect("rendered config must parse");
    assert_eq!(back.dl, c.dl);
    assert_eq!(back.api, c.api);
}

#[test]
fn malformed_config_is_a_json_error() {
    assert_eq!(parse_config("not json at all").unwrap_err(), Error::Json);
    assert_eq!(parse_config("{\"dl\": \"x\"}").unwrap_err(), Error::Json);
    assert_eq!(parse_config("{\"api\": \"x\"}").unwrap_err(), Error::Json);
    assert_eq!(parse_config("{\"dl\": 5, \"api\": \"x\"}").unwrap_err(), Error::Json);
}

#[test]
fn equal_config_needs_no_commit() {
    let desired = Config::default();
    let disk = render_config_json(&desired);
    match plan_open(&disk, &desired).expect("plan must succeed") {
        OpenStep::Keep => {}
        OpenStep::Commit(_) => panic!("no commit expected for an equal config"),
    }
}

#[test]
fn differing_config_is_rewritten_and_committed() {
    let desired = Config {
        dl: "https://new/{crate}/{version}".to_string(),
        api: "https://crates.io".to_string(),
    };
    let disk = "{\n  \"dl\": \"https://old/\",\n  \"api\": \"https://crates.io\"\n}\n";
    match plan_open(disk, &desired).expect("plan must succeed") {
        OpenStep::Keep => panic!("a differing config must be rewritten"),
        OpenStep::Commit(contents) => {
            assert_eq!(contents, render_config_json(&desired));
            assert!(contents.contains("https://new/{crate}/{version}"));
        }
    }
    assert_eq!(mirror_commit_message(), "Add mirror");
}

#[test]
fn malformed_disk_config_fails_open() {
    let desired = Config::default();
    assert_eq!(plan_open("{]", &desired).unwrap_err(), Error::Json);
}

#[test]
fn symbolic_head_refuses_commit() {
    assert_eq!(check_head_direct(false).unwrap_err(), Error::SymbolicReference);
    assert!(check_head_direct(true).is_ok());
}

#[test]
fn index_lines_parse_with_aliases() {
    let a = parse_index_line("{\"name\":\"hello\",\"vers\":\"1.0.0\"}").expect("must parse");
    assert_eq!(a.name, "hello");
    assert_eq!(a.version, "1.0.0");
    let b = parse_index_line("{\"crate\":\"hello\",\"version\":\"1.0.0\"}").expect("must parse");
    assert_eq!(b.name, "hello");
    assert_eq!(b.version, "1.0.0");
    let c = parse_index_line(
        "{\"name\":\"hello\",\"vers\":\"1.0.0\",\"deps\":[],\"cksum\":\"aa\",\"yanked\":false}"
    ).expect("extra fields are ignored");
    assert_eq!(c.name, "hello");
    assert!(parse_index_line("{\"name\":\"hello\"}").is_none());
    assert!(parse_index_line("{\"vers\":\"1.0.0\"}").is_none());
    assert!(parse_index_line("not json").is_none());
    assert!(parse_index_line("{\"name\":5,\"vers\":\"1.0.0\"}").is_none());
}

#[test]
fn diff_walk_collects_added_lines_in_order() {
    let lines = vec![
        added("{\"name\":\"hello\",\"vers\":\"1.0.0\"}"),
        DiffLine {
            origin: ' ',
            old_lineno: Some(3),
            content: b"{\"name\":\"kept\",\"vers\":\"0.1.0\"}".to_vec(),
        },
        DiffLine {
            origin: '+',
            old_lineno: Some(9),
            content: b"{\"name\":\"moved\",\"vers\":\"0.1.0\"}".to_vec(),
        },
        added("not a json line"),
        DiffLine { origin: '+', old_lineno: None, content: vec![0xff, 0xfe, 0x80] },
        added("{\"crate\":\"world\",\"version\":\"2.0.0\"}"),
    ];
    let work = added_crates(&lines);
    assert_eq!(work.len(), 2);
    assert_eq!(work[0].name, "hello");
    assert_eq!(work[0].version, "1.0.0");
    assert_eq!(work[1].name, "world");
    assert_eq!(work[1].version, "2.0.0");
}

#[test]
fn empty_diff_yields_no_work() {
    let lines: Vec<DiffLine> = Vec::new();
    assert!(added_crates(&lines).is_empty());
}
