//! The package-index side of the mirror: the registry `config.json`, its
//! rendering and reconciliation, and the parsing of index lines added
//! upstream into work items.

use vstd::prelude::*;
use vstd::utf8::{decode_utf8, valid_utf8};

use crate::error::Error;
use crate::json::json_str_field;
use crate::json::get_json_str_field;
use crate::req::CrateReq;
use crate::strutil::hex_digit;
use crate::strutil::hex_digit_str;

verus! {

/// The registry's `config.json`: the download URL template and the API root.
#[derive(Clone, Debug)]
pub struct Config {
    pub dl: String,
    pub api: String,
}

impl View for Config {
    type V = (Seq<char>, Seq<char>);

    open spec fn view(&self) -> (Seq<char>, Seq<char>) {
        (self.dl@, self.api@)
    }
}

impl Default for Config {
    /// The stock upstream registry configuration.
    fn default() -> (c: Config)
        ensures
            c.dl@ == "https://crates.io/api/v1/crates"@,
            c.api@ == "https://crates.io"@,
    {
        Config {
            dl: "https://crates.io/api/v1/crates".to_owned(),
            api: "https://crates.io".to_owned(),
        }
    }
}

impl Config {
    /// Whether two configurations hold the same contents.
    pub fn same(&self, other: &Config) -> (r: bool)
        ensures
            r == (self@ == other@),
    {
        let eq = self.dl == other.dl && self.api == other.api;
        proof {
            if eq {
                assert(self@ == other@);
            }
        }
        eq
    }
}

/// The fields a well-formed `config.json` document carries, if it parses.
pub open spec fn parsed_config(s: Seq<char>) -> Option<(Seq<char>, Seq<char>)> {
    if json_str_field(s, "dl"@) is Some && json_str_field(s, "api"@) is Some {
        Some((json_str_field(s, "dl"@)->0, json_str_field(s, "api"@)->0))
    } else {
        None
    }
}

/// Reads `{ dl, api }` from a `config.json` document. A document without
/// both string fields is the `Json` error: a malformed on-disk config is
/// fatal at startup.
pub fn parse_config(s: &str) -> (r: Result<Config, Error>)
    ensures
        r is Ok <==> parsed_config(s@) is Some,
        r matches Ok(c) ==> (c.dl@, c.api@) == parsed_config(s@)->0,
        r is Err ==> r == Result::<Config, Error>::Err(Error::Json),
{
    let dl = match get_json_str_field(s, "dl") {
        Some(v) => v,
        None => {
            return Err(Error::Json);
        },
    };
    let api = match get_json_str_field(s, "api") {
        Some(v) => v,
        None => {
            return Err(Error::Json);
        },
    };
    Ok(Config { dl, api })
}

/// How one character is written inside a JSON string: quotes and backslashes
/// get a backslash escape, the named control characters their short escapes,
/// other control characters a `\u00XX` escape, and everything else stands
/// as itself.
pub open spec fn json_escape_char(c: char) -> Seq<char> {
    if c == '"' {
        seq!['\\', '"']
    } else if c == '\\' {
        seq!['\\', '\\']
    } else if c == '\u{8}' {
        seq!['\\', 'b']
    } else if c == '\u{9}' {
        seq!['\\', 't']
    } else if c == '\u{a}' {
        seq!['\\', 'n']
    } else if c == '\u{c}' {
        seq!['\\', 'f']
    } else if c == '\u{d}' {
        seq!['\\', 'r']
    } else if (c as u32) < 0x20 {
        seq!['\\', 'u', '0', '0', hex_digit((c as u32 / 16) as nat), hex_digit(
            (c as u32 % 16) as nat,
        )]
    } else {
        seq![c]
    }
}

/// A whole string escaped for a JSON string literal.
pub open spec fn json_escape_seq(s: Seq<char>) -> Seq<char>
    decreases s.len(),
{
    if s.len() == 0 {
        Seq::empty()
    } else {
        json_escape_seq(s.drop_last()) + json_escape_char(s.last())
    }
}

/// Escapes `s` for use inside a JSON string literal.
pub fn json_escape(s: &str) -> (r: String)
    ensures
        r@ == json_escape_seq(s@),
{
    let mut out = String::new();
    let n = s.unicode_len();
    proof {
        assert(s@.take(0) =~= Seq::<char>::empty());
    }
    for i in 0..n
        invariant
            n == s@.len(),
            out@ == json_escape_seq(s@.take(i as int)),
    {
        let c = s.get_char(i);
        let u = c as u32;
        if c == '"' {
            proof {
                reveal_strlit("\\\"");
            }
            out.append("\\\"");
        } else if c == '\\' {
            proof {
                reveal_strlit("\\\\");
            }
            out.append("\\\\");
        } else if u == 0x8 {
            proof {
                reveal_strlit("\\b");
            }
            out.append("\\b");
        } else if u == 0x9 {
            proof {
                reveal_strlit("\\t");
            }
            out.append("\\t");
        } else if u == 0xa {
            proof {
                reveal_strlit("\\n");
            }
            out.append("\\n");
        } else if u == 0xc {
            proof {
                reveal_strlit("\\f");
            }
            out.append("\\f");
        } else if u == 0xd {
            proof {
                reveal_strlit("\\r");
            }
            out.append("\\r");
        } else if u < 0x20 {
            proof {
                reveal_strlit("\\u00");
            }
            out.append("\\u00");
            out.append(hex_digit_str(u / 16));
            out.append(hex_digit_str(u % 16));
        } else {
            out.append(s.substring_char(i, i + 1));
            proof {
                assert(s@.subrange(i as int, i + 1) =~= seq![s@[i as int]]);
            }
        }
        proof {
            assert(s@.take(i + 1).drop_last() =~= s@.take(i as int));
            assert(s@.take(i + 1).last() == s@[i as int]);
        }
    }
    proof {
        assert(s@.take(n as int) =~= s@);
    }
    out
}

/// The exact text written to `config.json`: the pretty-printed two-field
/// object and a trailing newline.
pub open spec fn config_json(dl: Seq<char>, api: Seq<char>) -> Seq<char> {
    "{\n  \"dl\": \""@ + json_escape_seq(dl) + "\",\n  \"api\": \""@ + json_escape_seq(api)
        + "\"\n}\n"@
}

/// Renders a configuration as the text its `config.json` file holds.
pub fn render_config_json(c: &Config) -> (r: String)
    ensures
        r@ == config_json(c.dl@, c.api@),
{
    let mut out = "{\n  \"dl\": \"".to_owned();
    let dl = json_escape(c.dl.as_str());
    out.append(dl.as_str());
    out.append("\",\n  \"api\": \"");
    let api = json_escape(c.api.as_str());
    out.append(api.as_str());
    out.append("\"\n}\n");
    out
}

/// Whether reconciling the on-disk config with the desired one requires a
/// commit: exactly when the two differ.
pub open spec fn needs_commit(local: Config, desired: Config) -> bool {
    local@ != desired@
}

/// Reconciling a desired configuration equal to the on-disk one makes no
/// commit: opening the index twice with the same desired config is
/// idempotent.
pub proof fn lemma_equal_config_makes_no_commit(local: Config, desired: Config)
    requires
        local@ == desired@,
    ensures
        !needs_commit(local, desired),
{
}

/// What opening the index does after the on-disk `config.json` is read:
/// leave the repository alone, or reset it and commit the rewritten file.
#[derive(Debug)]
pub enum OpenStep {
    Keep,
    Commit(String),
}

/// The commit message used when the mirror rewrites `config.json`.
pub fn mirror_commit_message() -> (r: String)
    ensures
        r@ == "Add mirror"@,
{
    "Add mirror".to_owned()
}

/// Decides what opening the index must do, from the on-disk `config.json`
/// text and the desired configuration: a malformed document is fatal; a
/// matching one needs nothing; a differing one is rewritten — with the exact
/// file contents this returns — staged and committed.
pub fn plan_open(disk_json: &str, desired: &Config) -> (r: Result<OpenStep, Error>)
    ensures
        parsed_config(disk_json@) is None ==> r == Result::<OpenStep, Error>::Err(Error::Json),
        (parsed_config(disk_json@) matches Some(p) && p == desired@) ==> (r matches Ok(s)
            && s is Keep),
        (parsed_config(disk_json@) matches Some(p) && p != desired@) ==> (r matches Ok(s) && (
        s matches OpenStep::Commit(t) && t@ == config_json(desired.dl@, desired.api@))),
{
    let local = match parse_config(disk_json) {
        Ok(c) => c,
        Err(e) => {
            return Err(e);
        },
    };
    if local.same(desired) {
        Ok(OpenStep::Keep)
    } else {
        Ok(OpenStep::Commit(render_config_json(desired)))
    }
}

/// The commit that reconciliation makes requires a direct `HEAD`: when the
/// repository's `HEAD` does not point at a commit id, the operation fails
/// with `SymbolicReference` and nothing is committed.
pub fn check_head_direct(head_is_direct: bool) -> (r: Result<(), Error>)
    ensures
        r is Ok <==> head_is_direct,
        !head_is_direct ==> r == Result::<(), Error>::Err(Error::SymbolicReference),
{
    if head_is_direct {
        Ok(())
    } else {
        Err(Error::SymbolicReference)
    }
}

/// One line of the index diff, as the diff walk reports it: the line origin
/// marker, the line number the line had on the old side if any, and the raw
/// line content.
pub struct DiffLine {
    pub origin: char,
    pub old_lineno: Option<u32>,
    pub content: Vec<u8>,
}

/// A diff line that was added upstream: no old line number, origin `+`.
pub open spec fn line_added(l: DiffLine) -> bool {
    l.old_lineno is None && l.origin == '+'
}

/// The name field of an index line: `name`, or its alias `crate`.
pub open spec fn index_line_name(s: Seq<char>) -> Option<Seq<char>> {
    if json_str_field(s, "name"@) is Some {
        json_str_field(s, "name"@)
    } else {
        json_str_field(s, "crate"@)
    }
}

/// The version field of an index line: `vers`, or its alias `version`.
pub open spec fn index_line_version(s: Seq<char>) -> Option<Seq<char>> {
    if json_str_field(s, "vers"@) is Some {
        json_str_field(s, "vers"@)
    } else {
        json_str_field(s, "version"@)
    }
}

/// The work item an index line describes, if it parses: both a name and a
/// version, aliases accepted, other fields ignored.
pub open spec fn index_line_req(s: Seq<char>) -> Option<(Seq<char>, Seq<char>)> {
    if index_line_name(s) is Some && index_line_version(s) is Some {
        Some((index_line_name(s)->0, index_line_version(s)->0))
    } else {
        None
    }
}

/// Parses one index line into a work item; lines that do not parse are
/// dropped by the caller.
pub fn parse_index_line(s: &str) -> (r: Option<CrateReq>)
    ensures
        r is Some <==> index_line_req(s@) is Some,
        r matches Some(c) ==> (c.name@, c.version@) == index_line_req(s@)->0,
{
    let name = match get_json_str_field(s, "name") {
        Some(v) => v,
        None => match get_json_str_field(s, "crate") {
            Some(v) => v,
            None => {
                return None;
            },
        },
    };
    let version = match get_json_str_field(s, "vers") {
        Some(v) => v,
        None => match get_json_str_field(s, "version") {
            Some(v) => v,
            None => {
                return None;
            },
        },
    };
    Some(CrateReq { name, version })
}

/// Relies on std::str::from_utf8, described by vstd's UTF-8 model: the call
/// succeeds exactly on valid UTF-8 and yields its decoding.
#[verifier::external_body]
fn utf8_to_string(b: &[u8]) -> (r: Option<String>)
    ensures
        r is Some <==> valid_utf8(b@),
        r matches Some(v) ==> v@ == decode_utf8(b@),
{
    std::str::from_utf8(b).ok().map(|t| t.to_owned())
}

/// The work item one diff line contributes: it must be an added line, valid
/// UTF-8, and a parseable index record.
pub open spec fn line_req(l: DiffLine) -> Option<(Seq<char>, Seq<char>)> {
    if line_added(l) && valid_utf8(l.content@) {
        index_line_req(decode_utf8(l.content@))
    } else {
        None
    }
}

/// The work items a diff contributes, in the order encountered.
pub open spec fn added_reqs(lines: Seq<DiffLine>) -> Seq<(Seq<char>, Seq<char>)>
    decreases lines.len(),
{
    if lines.len() == 0 {
        Seq::empty()
    } else {
        added_reqs(lines.drop_last()) + match line_req(lines.last()) {
            Some(k) => seq![k],
            None => Seq::empty(),
        }
    }
}

/// Collects the work items of a diff: every added line that decodes and
/// parses, in order; lines that fail to decode or parse are dropped
/// silently.
pub fn added_crates(lines: &Vec<DiffLine>) -> (r: Vec<CrateReq>)
    ensures
        r@.map_values(|c: CrateReq| c.key()) == added_reqs(lines@),
{
    let mut out: Vec<CrateReq> = Vec::new();
    let n = lines.len();
    proof {
        assert(lines@.take(0) =~= Seq::<DiffLine>::empty());
        assert(out@.map_values(|c: CrateReq| c.key()) =~= added_reqs(lines@.take(0)));
    }
    for i in 0..n
        invariant
            n == lines@.len(),
            out@.map_values(|c: CrateReq| c.key()) == added_reqs(lines@.take(i as int)),
    {
        let line = &lines[i];
        if line.old_lineno.is_none() && line.origin == '+' {
            match utf8_to_string(line.content.as_slice()) {
                Some(text) => {
                    match parse_index_line(text.as_str()) {
                        Some(req) => {
                            out.push(req);
                        },
                        None => {},
                    }
                },
                None => {},
            }
        }
        proof {
            assert(lines@.take(i + 1).drop_last() =~= lines@.take(i as int));
            assert(lines@.take(i + 1).last() == lines@[i as int]);
            assert(out@.map_values(|c: CrateReq| c.key()) =~= added_reqs(lines@.take(i + 1)));
        }
    }
    proof {
        assert(lines@.take(n as int) =~= lines@);
    }
    out
}

/// Running the update with no upstream changes: an empty diff yields an
/// empty work list, so the second of two back-to-back updates returns
/// nothing.
pub proof fn lemma_empty_diff_yields_no_work(lines: Seq<DiffLine>)
    requires
        lines.len() == 0,
    ensures
        added_reqs(lines).len() == 0,
{
}

} // verus!
