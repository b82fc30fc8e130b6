use vstd::prelude::*;
use vstd::string::*;
use crate::json::{jv_list, lemma_jv_list, Json, JsonV};

verus! {

/// Renders Terraform templates.
pub struct TemplateManager;

/// The text that rendering a Jinja template with a context gives (minijinja,
/// with block trimming on), or none when the template does not parse or
/// rendering fails.
pub uninterp spec fn rendered(name: Seq<char>, template: Seq<char>, ctx: JsonV) -> Option<Seq<char>>;

/// Trusted: moves a JSON document into a `serde_json::Value`, one variant
/// for one variant (a number's text is read back as a `serde_json` number,
/// and kept as a string if it does not read as one). Nothing is stated: it
/// is only called by `render_text`, whose contract names the result.
#[verifier::external_body]
fn serde_value_of(j: &Json) -> serde_json::Value {
    match j {
        Json::Null => serde_json::Value::Null,
        Json::Bool(b) => serde_json::Value::Bool(*b),
        Json::Number(t) => match serde_json::from_str::<serde_json::Number>(t) {
            Ok(n) => serde_json::Value::Number(n),
            Err(_) => serde_json::Value::String(t.clone()),
        },
        Json::Str(s) => serde_json::Value::String(s.clone()),
        Json::Array(a) => serde_json::Value::Array(a.iter().map(serde_value_of).collect()),
        Json::Object(e) => serde_json::Value::Object(
            e.iter().map(|(k, v)| (k.clone(), serde_value_of(v))).collect(),
        ),
    }
}

/// Trusted: renders a template with `minijinja` (an `Environment` with
/// `trim_blocks` and `lstrip_blocks` on, `add_template`, `get_template`,
/// `render`). The result is a function of the template's name, text and
/// context, named `rendered`.
#[verifier::external_body]
fn render_text(name: &str, template: &str, ctx: &Json) -> (r: Option<String>)
    ensures
        match r {
            Some(t) => rendered(name@, template@, ctx@) == Some(t@),
            None => rendered(name@, template@, ctx@) is None,
        },
{
    let mut env = minijinja::Environment::new();
    env.set_trim_blocks(true);
    env.set_lstrip_blocks(true);
    let value = serde_value_of(ctx);
    if env.add_template(name, template).is_err() {
        return None;
    }
    match env.get_template(name) {
        Ok(t) => t.render(&value).ok(),
        Err(_) => None,
    }
}

/// The text of a file rendered from a template, one resource after the
/// other, each followed by a blank line when `sep` holds; none when some
/// rendering fails.
pub open spec fn file_text(name: Seq<char>, template: Seq<char>, ctxs: Seq<JsonV>, sep: bool) -> Option<Seq<char>>
    decreases ctxs.len(),
{
    if ctxs.len() == 0 {
        Some(Seq::empty())
    } else {
        match file_text(name, template, ctxs.drop_last(), sep) {
            None => None,
            Some(t) => match rendered(name, template, ctxs.last()) {
                None => None,
                Some(r) => Some(
                    if sep {
                        t + r + "\n\n"@
                    } else {
                        t + r
                    },
                ),
            },
        }
    }
}

proof fn lemma_file_text_none(name: Seq<char>, template: Seq<char>, s: Seq<JsonV>, k: int, sep: bool)
    requires
        0 <= k <= s.len(),
        file_text(name, template, s.take(k), sep) is None,
    ensures
        file_text(name, template, s, sep) is None,
    decreases s.len() - k,
{
    if k < s.len() {
        assert(s.take(k + 1).drop_last() =~= s.take(k));
        lemma_file_text_none(name, template, s, k + 1, sep);
    } else {
        assert(s.take(k) =~= s);
    }
}

impl TemplateManager {
    /// Renders one template with one context; none when it fails.
    pub fn render_template(template_name: &str, template_content: &str, context: &Json) -> (r: Option<String>)
        ensures
            match r {
                Some(t) => rendered(template_name@, template_content@, context@) == Some(t@),
                None => rendered(template_name@, template_content@, context@) is None,
            },
    {
        render_text(template_name, template_content, context)
    }

    /// The text of a file with one rendering of the template per context,
    /// each followed by a blank line when `separated` holds; none when some
    /// rendering fails.
    pub fn render_file(template_name: &str, template_content: &str, contexts: &Vec<Json>, separated: bool) -> (r: Option<String>)
        ensures
            match r {
                Some(t) => file_text(template_name@, template_content@, jv_list(contexts@), separated) == Some(t@),
                None => file_text(template_name@, template_content@, jv_list(contexts@), separated) is None,
            },
    {
        let ghost cv = jv_list(contexts@);
        proof {
            lemma_jv_list(contexts@);
        }
        let mut out = String::new();
        let mut i: usize = 0;
        assert(cv.take(0) =~= Seq::<JsonV>::empty());
        while i < contexts.len()
            invariant
                i <= contexts.len(),
                cv == jv_list(contexts@),
                cv.len() == contexts@.len(),
                forall|j: int| 0 <= j < contexts@.len() ==> #[trigger] cv[j] == contexts@[j]@,
                file_text(template_name@, template_content@, cv.take(i as int), separated) == Some(out@),
            decreases contexts.len() - i,
        {
            assert(cv.take(i + 1).drop_last() =~= cv.take(i as int));
            assert(cv.take(i + 1).last() == contexts@[i as int]@);
            match render_text(template_name, template_content, &contexts[i]) {
                Some(t) => {
                    out.append(t.as_str());
                    if separated {
                        out.append("\n\n");
                    }
                },
                None => {
                    proof {
                        lemma_file_text_none(template_name@, template_content@, cv, i as int + 1, separated);
                    }
                    return None;
                },
            }
            i = i + 1;
        }
        assert(cv.take(contexts.len() as int) =~= cv);
        Some(out)
    }
}

} // verus!
