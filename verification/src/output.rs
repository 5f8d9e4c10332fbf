//! Render inference responses to the configured output format.

use vstd::prelude::*;

use crate::client::InferenceResponse;
use crate::config::OutputFormat;
use crate::text::{decimal, decimal_spec};
use crate::trusted::{json_escape, json_escape_char, json_string, json_string_spec};

verus! {

/// The rendered output: the raw text, or a one-line JSON object holding the
/// text under `result` and the metrics, keys in sorted order.
pub open spec fn render_spec(resp: InferenceResponse, format: OutputFormat) -> Seq<char> {
    match format {
        OutputFormat::Text => resp.text@,
        OutputFormat::Json => "{\"model\":"@ + json_string_spec(resp.model@) + ",\"result\":"@
            + json_string_spec(resp.text@) + ",\"time_ms\":"@ + decimal_spec(resp.time_ms as nat)
            + ",\"tokens\":"@ + decimal_spec(resp.tokens as nat) + "}"@,
    }
}

/// Render an `InferenceResponse` to a plain string suitable for `println!`.
///
/// - `OutputFormat::Text` returns the raw text from the model.
/// - `OutputFormat::Json` returns a single-line JSON object with all response fields.
pub fn render(resp: &InferenceResponse, format: OutputFormat) -> (r: String)
    ensures
        r@ == render_spec(*resp, format),
{
    match format {
        OutputFormat::Text => resp.text.clone(),
        OutputFormat::Json => {
            let model = json_string(resp.model.as_str());
            let text = json_string(resp.text.as_str());
            let time_ms = decimal(resp.time_ms);
            let tokens = decimal(resp.tokens as u64);
            let mut r = String::from_str("{\"model\":");
            r.append(model.as_str());
            r.append(",\"result\":");
            r.append(text.as_str());
            r.append(",\"time_ms\":");
            r.append(time_ms.as_str());
            r.append(",\"tokens\":");
            r.append(tokens.as_str());
            r.append("}");
            r
        },
    }
}

proof fn lemma_escape_has_no_newline(s: Seq<char>)
    ensures
        !json_escape(s).contains('\n'),
    decreases s.len(),
{
    if s.len() > 0 {
        lemma_escape_has_no_newline(s.drop_last());
        let a = json_escape(s.drop_last());
        let b = json_escape_char(s.last());
        assert(!b.contains('\n'));
        assert(json_escape(s) == a + b);
        if (a + b).contains('\n') {
            let i = choose|i: int| 0 <= i < (a + b).len() && (a + b)[i] == '\n';
            if i < a.len() {
                assert(a[i] == '\n');
            } else {
                assert(b[i - a.len()] == '\n');
            }
        }
    }
}

proof fn lemma_decimal_has_no_newline(n: nat)
    ensures
        !decimal_spec(n).contains('\n'),
    decreases n,
{
    if n >= 10 {
        lemma_decimal_has_no_newline(n / 10);
        let a = decimal_spec(n / 10);
        let c = crate::text::digit_char((n % 10) as int);
        assert(decimal_spec(n) == a.push(c));
        if a.push(c).contains('\n') {
            let i = choose|i: int| 0 <= i < a.push(c).len() && a.push(c)[i] == '\n';
            if i < a.len() {
                assert(a[i] == '\n');
            }
        }
    } else {
        assert(decimal_spec(n) == seq![crate::text::digit_char(n as int)]);
    }
}

proof fn lemma_concat_no_newline(a: Seq<char>, b: Seq<char>)
    requires
        !a.contains('\n'),
        !b.contains('\n'),
    ensures
        !(a + b).contains('\n'),
{
    if (a + b).contains('\n') {
        let i = choose|i: int| 0 <= i < (a + b).len() && (a + b)[i] == '\n';
        if i < a.len() {
            assert(a[i] == '\n');
        } else {
            assert(b[i - a.len()] == '\n');
        }
    }
}

proof fn lemma_literal_no_newline(s: Seq<char>)
    requires
        forall|i: int| 0 <= i < s.len() ==> s[i] != '\n',
    ensures
        !s.contains('\n'),
{
}

/// JSON output is a single line: the rendered object holds no line feed, whatever
/// the model's text holds.
pub proof fn law_json_output_is_single_line(resp: InferenceResponse)
    ensures
        !render_spec(resp, OutputFormat::Json).contains('\n'),
{
    reveal_strlit("{\"model\":");
    reveal_strlit(",\"result\":");
    reveal_strlit(",\"time_ms\":");
    reveal_strlit(",\"tokens\":");
    reveal_strlit("}");
    let q = seq!['"'];
    lemma_literal_no_newline(q);
    lemma_escape_has_no_newline(resp.model@);
    lemma_escape_has_no_newline(resp.text@);
    lemma_concat_no_newline(q, json_escape(resp.model@));
    lemma_concat_no_newline(q + json_escape(resp.model@), q);
    lemma_concat_no_newline(q, json_escape(resp.text@));
    lemma_concat_no_newline(q + json_escape(resp.text@), q);
    lemma_decimal_has_no_newline(resp.time_ms as nat);
    lemma_decimal_has_no_newline(resp.tokens as nat);
    let p1 = "{\"model\":"@;
    let p2 = ",\"result\":"@;
    let p3 = ",\"time_ms\":"@;
    let p4 = ",\"tokens\":"@;
    let p5 = "}"@;
    lemma_literal_no_newline(p1);
    lemma_literal_no_newline(p2);
    lemma_literal_no_newline(p3);
    lemma_literal_no_newline(p4);
    lemma_literal_no_newline(p5);
    let m = json_string_spec(resp.model@);
    let t = json_string_spec(resp.text@);
    let d1 = decimal_spec(resp.time_ms as nat);
    let d2 = decimal_spec(resp.tokens as nat);
    lemma_concat_no_newline(p1, m);
    lemma_concat_no_newline(p1 + m, p2);
    lemma_concat_no_newline(p1 + m + p2, t);
    lemma_concat_no_newline(p1 + m + p2 + t, p3);
    lemma_concat_no_newline(p1 + m + p2 + t + p3, d1);
    lemma_concat_no_newline(p1 + m + p2 + t + p3 + d1, p4);
    lemma_concat_no_newline(p1 + m + p2 + t + p3 + d1 + p4, d2);
    lemma_concat_no_newline(p1 + m + p2 + t + p3 + d1 + p4 + d2, p5);
}

/// Text output is the model's text exactly; JSON output is one object with the
/// model, the text under `result`, the time and the token count, each key once,
/// in sorted order, the strings escaped as JSON and the numbers in decimal.
pub proof fn law_render_fields(resp: InferenceResponse)
    ensures
        render_spec(resp, OutputFormat::Text) == resp.text@,
        render_spec(resp, OutputFormat::Json) == "{\"model\":"@ + json_string_spec(resp.model@)
            + ",\"result\":"@ + json_string_spec(resp.text@) + ",\"time_ms\":"@ + decimal_spec(
            resp.time_ms as nat,
        ) + ",\"tokens\":"@ + decimal_spec(resp.tokens as nat) + "}"@,
{
}

} // verus!
