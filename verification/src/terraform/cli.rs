use vstd::prelude::*;
use vstd::string::*;
use crate::aws::policy::{json_parsed, parse_json};
use crate::json::{jv, jv_list, lemma_jv_list, Json, JsonV};
use crate::text::{chars_of, is_whitespace, owned, starts_with, str_eq, str_starts_with, string_of, unicode_whitespace};

verus! {

/// The Terraform version found on this machine.
#[derive(Debug)]
pub struct TerraformVersion {
    pub version: String,
    pub available: bool,
}

/// What `terraform validate` reported.
#[derive(Debug)]
pub struct ValidationResult {
    pub valid: bool,
    pub errors: Vec<String>,
    pub warnings: Vec<String>,
}

/// What `terraform fmt -check` reported.
#[derive(Debug)]
pub struct FormatResult {
    pub formatted: bool,
    pub diff: Option<String>,
    pub files_changed: Vec<String>,
}

/// Reads what the `terraform` command prints.
pub struct TerraformCli;

/// A line without a carriage return at its end.
pub open spec fn strip_cr(l: Seq<char>) -> Seq<char> {
    if l.len() > 0 && l.last() == '\r' {
        l.drop_last()
    } else {
        l
    }
}

/// The finished lines and the line being read after reading `s`.
pub open spec fn line_scan(s: Seq<char>) -> (Seq<Seq<char>>, Seq<char>)
    decreases s.len(),
{
    if s.len() == 0 {
        (Seq::empty(), Seq::empty())
    } else {
        let (ls, cur) = line_scan(s.drop_last());
        if s.last() == '\n' {
            (ls.push(strip_cr(cur)), Seq::empty())
        } else {
            (ls, cur.push(s.last()))
        }
    }
}

/// The lines of a text as `str::lines` gives them: split at `\n`, a `\r`
/// before it dropped, no empty line after a final `\n`.
pub open spec fn lines_spec(s: Seq<char>) -> Seq<Seq<char>> {
    let (ls, cur) = line_scan(s);
    if cur.len() == 0 {
        ls
    } else {
        ls.push(cur)
    }
}

/// The finished words and the word being read after reading `s`.
pub open spec fn word_scan(s: Seq<char>) -> (Seq<Seq<char>>, Seq<char>)
    decreases s.len(),
{
    if s.len() == 0 {
        (Seq::empty(), Seq::empty())
    } else {
        let (ws, cur) = word_scan(s.drop_last());
        if unicode_whitespace(s.last()) {
            if cur.len() > 0 {
                (ws.push(cur), Seq::empty())
            } else {
                (ws, cur)
            }
        } else {
            (ws, cur.push(s.last()))
        }
    }
}

/// The words of a text as `str::split_whitespace` gives them.
pub open spec fn words_spec(s: Seq<char>) -> Seq<Seq<char>> {
    let (ws, cur) = word_scan(s);
    if cur.len() == 0 {
        ws
    } else {
        ws.push(cur)
    }
}

/// The files that a `terraform fmt -diff` output names: the second word
/// of each line that starts with `---` or `+++`.
pub open spec fn changed_files(ls: Seq<Seq<char>>) -> Seq<Seq<char>>
    decreases ls.len(),
{
    if ls.len() == 0 {
        Seq::empty()
    } else {
        let rest = changed_files(ls.drop_last());
        let l = ls.last();
        if (starts_with(l, "---"@) || starts_with(l, "+++"@)) && words_spec(l).len() >= 2 {
            rest.push(words_spec(l)[1])
        } else {
            rest
        }
    }
}

/// The version `terraform version -json` reports: its
/// `terraform_version`, `unknown` when the output has none; nothing when
/// the command failed.
pub open spec fn version_spec(success: bool, stdout: Seq<char>) -> (Seq<char>, bool) {
    if success {
        (
            match json_parsed(stdout) {
                Some(v) => match v.str_field("terraform_version"@) {
                    Some(s) => s,
                    None => "unknown"@,
                },
                None => "unknown"@,
            },
            true,
        )
    } else {
        (Seq::empty(), false)
    }
}

/// The message of a diagnostic: its summary, followed by its detail when
/// there is one.
pub open spec fn diagnostic_message(d: JsonV) -> Seq<char> {
    let summary = match d.str_field("summary"@) {
        Some(s) => s,
        None => Seq::empty(),
    };
    let detail = match d.str_field("detail"@) {
        Some(s) => s,
        None => Seq::empty(),
    };
    if detail.len() == 0 {
        summary
    } else {
        summary + ": "@ + detail
    }
}

/// The messages of the diagnostics of a severity, in order.
pub open spec fn messages_of(ds: Seq<JsonV>, severity: Seq<char>) -> Seq<Seq<char>>
    decreases ds.len(),
{
    if ds.len() == 0 {
        Seq::empty()
    } else {
        let rest = messages_of(ds.drop_last(), severity);
        if ds.last().str_field("severity"@) == Some(severity) {
            rest.push(diagnostic_message(ds.last()))
        } else {
            rest
        }
    }
}

/// The diagnostics of a `terraform validate -json` output.
pub open spec fn diagnostics_of(out: Seq<char>) -> Seq<JsonV> {
    match json_parsed(out) {
        Some(v) => match v.get("diagnostics"@) {
            Some(JsonV::Array(a)) => a,
            _ => Seq::empty(),
        },
        None => Seq::empty(),
    }
}

/// Whether a `terraform validate -json` output says the code is valid.
pub open spec fn valid_of(out: Seq<char>) -> bool {
    match json_parsed(out) {
        Some(v) => v.get("valid"@) == Some(JsonV::Bool(true)),
        None => false,
    }
}

/// The lines of a text.
pub fn text_lines(s: &str) -> (r: Vec<String>)
    ensures
        r@.map_values(|l: String| l@) == lines_spec(s@),
{
    let cs = chars_of(s);
    let mut out: Vec<String> = Vec::new();
    let mut cur: Vec<char> = Vec::new();
    let mut i: usize = 0;
    while i < cs.len()
        invariant
            i <= cs.len(),
            cs@ == s@,
            line_scan(cs@.take(i as int)) == (out@.map_values(|l: String| l@), cur@),
        decreases cs.len() - i,
    {
        assert(cs@.take(i + 1).drop_last() =~= cs@.take(i as int));
        assert(cs@.take(i + 1).last() == cs@[i as int]);
        if cs[i] == '\n' {
            if cur.len() > 0 && cur[cur.len() - 1] == '\r' {
                cur.pop();
            }
            let line = string_of(&cur);
            let ghost prev = out@;
            out.push(line);
            assert(out@.map_values(|l: String| l@) =~= prev.map_values(|l: String| l@).push(line@));
            cur = Vec::new();
        } else {
            cur.push(cs[i]);
        }
        i = i + 1;
    }
    assert(cs@.take(cs.len() as int) =~= cs@);
    if cur.len() > 0 {
        let line = string_of(&cur);
        let ghost prev = out@;
        out.push(line);
        assert(out@.map_values(|l: String| l@) =~= prev.map_values(|l: String| l@).push(line@));
    }
    out
}

/// The words of a text.
pub fn text_words(s: &str) -> (r: Vec<String>)
    ensures
        r@.map_values(|l: String| l@) == words_spec(s@),
{
    let cs = chars_of(s);
    let mut out: Vec<String> = Vec::new();
    let mut cur: Vec<char> = Vec::new();
    let mut i: usize = 0;
    while i < cs.len()
        invariant
            i <= cs.len(),
            cs@ == s@,
            word_scan(cs@.take(i as int)) == (out@.map_values(|l: String| l@), cur@),
        decreases cs.len() - i,
    {
        assert(cs@.take(i + 1).drop_last() =~= cs@.take(i as int));
        assert(cs@.take(i + 1).last() == cs@[i as int]);
        if is_whitespace(cs[i]) {
            if cur.len() > 0 {
                let w = string_of(&cur);
                let ghost prev = out@;
                out.push(w);
                assert(out@.map_values(|l: String| l@) =~= prev.map_values(|l: String| l@).push(w@));
                cur = Vec::new();
            }
        } else {
            cur.push(cs[i]);
        }
        i = i + 1;
    }
    assert(cs@.take(cs.len() as int) =~= cs@);
    if cur.len() > 0 {
        let w = string_of(&cur);
        let ghost prev = out@;
        out.push(w);
        assert(out@.map_values(|l: String| l@) =~= prev.map_values(|l: String| l@).push(w@));
    }
    out
}

/// The message of a diagnostic.
fn diagnostic_message_of(d: &Json) -> (r: String)
    ensures
        r@ == diagnostic_message(d@),
{
    let summary = match d.str_field("summary") {
        Some(s) => s.clone(),
        None => String::new(),
    };
    let detail = match d.str_field("detail") {
        Some(s) => s.clone(),
        None => String::new(),
    };
    if detail.unicode_len() == 0 {
        summary
    } else {
        let mut m = summary;
        m.append(": ");
        m.append(detail.as_str());
        m
    }
}

impl TerraformCli {
    /// The version reported by `terraform version -json`, given whether the
    /// command succeeded and what it printed.
    pub fn version(success: bool, stdout: &str) -> (r: TerraformVersion)
        ensures
            (r.version@, r.available) == version_spec(success, stdout@),
    {
        if !success {
            return TerraformVersion { version: String::new(), available: false };
        }
        let version = match parse_json(stdout) {
            Some(v) => match v.str_field("terraform_version") {
                Some(s) => s.clone(),
                None => owned("unknown"),
            },
            None => owned("unknown"),
        };
        TerraformVersion { version, available: true }
    }

    /// The result of `terraform validate -json`, given what it printed:
    /// valid only when the output says so; the messages of its error and
    /// warning diagnostics, in order.
    pub fn validate(stdout: &str) -> (r: ValidationResult)
        ensures
            r.valid == valid_of(stdout@),
            r.errors@.map_values(|s: String| s@) == messages_of(diagnostics_of(stdout@), "error"@),
            r.warnings@.map_values(|s: String| s@) == messages_of(diagnostics_of(stdout@), "warning"@),
    {
        let mut errors: Vec<String> = Vec::new();
        let mut warnings: Vec<String> = Vec::new();
        let parsed = parse_json(stdout);
        let valid = match &parsed {
            Some(v) => match v.get("valid") {
                Some(Json::Bool(b)) => *b,
                _ => false,
            },
            None => false,
        };
        match &parsed {
            Some(v) => match v.get("diagnostics") {
                Some(Json::Array(ds)) => {
                    let ghost dv = jv_list(ds@);
                    proof {
                        lemma_jv_list(ds@);
                    }
                    let mut i: usize = 0;
                    while i < ds.len()
                        invariant
                            i <= ds.len(),
                            dv == jv_list(ds@),
                            dv.len() == ds@.len(),
                            forall|k: int| 0 <= k < ds@.len() ==> #[trigger] dv[k] == jv(ds@[k]),
                            errors@.map_values(|s: String| s@) == messages_of(dv.take(i as int), "error"@),
                            warnings@.map_values(|s: String| s@) == messages_of(dv.take(i as int), "warning"@),
                        decreases ds.len() - i,
                    {
                        assert(dv.take(i + 1).drop_last() =~= dv.take(i as int));
                        assert(dv.take(i + 1).last() == ds@[i as int]@);
                        let d = &ds[i];
                        let severity: Option<&String> = d.str_field("severity");
                        let is_error = match severity {
                            Some(s) => str_eq(s.as_str(), "error"),
                            None => false,
                        };
                        let is_warning = match severity {
                            Some(s) => str_eq(s.as_str(), "warning"),
                            None => false,
                        };
                        proof {
                            reveal_strlit("error");
                            reveal_strlit("warning");
                            assert("error"@ != "warning"@) by {
                                assert("error"@.len() != "warning"@.len());
                            }
                        }
                        if is_error {
                            let m = diagnostic_message_of(d);
                            let ghost prev = errors@;
                            errors.push(m);
                            assert(errors@.map_values(|s: String| s@) =~= prev.map_values(|s: String| s@).push(m@));
                        } else if is_warning {
                            let m = diagnostic_message_of(d);
                            let ghost prev = warnings@;
                            warnings.push(m);
                            assert(warnings@.map_values(|s: String| s@) =~= prev.map_values(|s: String| s@).push(m@));
                        }
                        i = i + 1;
                    }
                    assert(dv.take(ds.len() as int) =~= dv);
                },
                _ => {},
            },
            None => {},
        }
        ValidationResult { valid, errors, warnings }
    }

    /// The result of `terraform fmt -check -diff`, given whether it
    /// succeeded and what it printed: formatted when it succeeded; otherwise
    /// its output as the diff and the files the diff names.
    pub fn fmt_check(success: bool, stdout: &str) -> (r: FormatResult)
        ensures
            r.formatted == success,
            success ==> r.diff is None && r.files_changed@.len() == 0,
            !success ==> r.diff is Some && r.diff.unwrap()@ == stdout@ && r.files_changed@.map_values(
                |s: String| s@,
            ) == changed_files(lines_spec(stdout@)),
    {
        if success {
            return FormatResult { formatted: true, diff: None, files_changed: Vec::new() };
        }
        let lines = text_lines(stdout);
        let ghost lv = lines@.map_values(|l: String| l@);
        let mut files: Vec<String> = Vec::new();
        let mut i: usize = 0;
        while i < lines.len()
            invariant
                i <= lines.len(),
                lv == lines@.map_values(|l: String| l@),
                files@.map_values(|s: String| s@) == changed_files(lv.take(i as int)),
            decreases lines.len() - i,
        {
            assert(lv.take(i + 1).drop_last() =~= lv.take(i as int));
            assert(lv.take(i + 1).last() == lines@[i as int]@);
            let l = lines[i].as_str();
            if str_starts_with(l, "---") || str_starts_with(l, "+++") {
                let words = text_words(l);
                if words.len() >= 2 {
                    let w = words[1].clone();
                    assert(words@.map_values(|s: String| s@)[1] == w@);
                    let ghost prev = files@;
                    files.push(w);
                    assert(files@.map_values(|s: String| s@) =~= prev.map_values(|s: String| s@).push(w@));
                }
            }
            i = i + 1;
        }
        assert(lv.take(lines.len() as int) =~= lv);
        FormatResult { formatted: false, diff: Some(owned(stdout)), files_changed: files }
    }

    /// The files `terraform fmt` reports, one per line of its output; the
    /// error, with what it printed to standard error, when it failed.
    pub fn fmt(success: bool, stdout: &str, stderr: &str) -> (r: Result<Vec<String>, String>)
        ensures
            success ==> r is Ok && r.unwrap()@.map_values(|s: String| s@) == lines_spec(stdout@),
            !success ==> r is Err && r->Err_0@ == "terraform fmt failed: "@ + stderr@,
    {
        if !success {
            return Err(crate::text::concat2("terraform fmt failed: ", stderr));
        }
        Ok(text_lines(stdout))
    }

    /// The outcome of `terraform init`: the error, with what it printed to
    /// standard error, when it failed.
    pub fn init(success: bool, stderr: &str) -> (r: Result<(), String>)
        ensures
            success <==> r is Ok,
            !success ==> r->Err_0@ == "terraform init failed: "@ + stderr@,
    {
        if !success {
            return Err(crate::text::concat2("terraform init failed: ", stderr));
        }
        Ok(())
    }
}

} // verus!
