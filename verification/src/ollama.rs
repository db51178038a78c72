//! Ollama fallback: the request URLs, the model list it reports, and cleanup
//! of the text a model answers with.
use vstd::prelude::*;
use crate::config::views;
use crate::order::{lemma_lex_lt_transitive, lemma_lex_not_lt, lex_lt, str_lt};
use crate::text::{
    drop_lead, drop_lead_chars, drop_trail, drop_trail_chars, ends_with, ends_with_lit, from_chars,
    push_str_chars, replace, replace_lit, rsplit_once, rsplit_once_lit, split_once,
    split_once_lit, starts_with, starts_with_lit, strip_prefix, strip_prefix_lit, to_chars, trim,
    trim_chars, trim_start, CharClass, lemma_no_first_char, lemma_replace_absent, lemma_split_absent,
    lemma_trim_of_trimmed, trimmed,
};

verus! {

/// `strip_code_fence`: the body of a ``` fenced block, without the info line.
pub open spec fn spec_strip_code_fence(output: Seq<char>) -> Option<Seq<char>> {
    let t = trim(output);
    if !starts_with(t, "```"@) || !ends_with(t, "```"@) {
        None
    } else {
        let without_start = drop_lead(t, CharClass::Exactly('`'));
        let without_end = trim(drop_trail(without_start, CharClass::Exactly('`')));
        match split_once(without_end, seq!['\n']) {
            Some((_, content)) => Some(content),
            None => Some(without_end),
        }
    }
}

/// Removes the first of the answer labels that starts the text.
pub open spec fn spec_strip_label(c: Seq<char>) -> Seq<char> {
    match strip_prefix(c, "Corrected:"@) {
        Some(rest) => trim_start(rest),
        None => match strip_prefix(c, "Correction:"@) {
            Some(rest) => trim_start(rest),
            None => match strip_prefix(c, "Fixed:"@) {
                Some(rest) => trim_start(rest),
                None => match strip_prefix(c, "Output:"@) {
                    Some(rest) => trim_start(rest),
                    None => c,
                },
            },
        },
    }
}

/// `clean_model_output`: trims, unwraps a code fence, keeps what follows the
/// last `</think>`, removes think tags and a leading answer label.
pub open spec fn spec_clean_model_output(output: Seq<char>) -> Seq<char> {
    let c0 = trim(output);
    let c1 = match spec_strip_code_fence(c0) {
        Some(x) => trim(x),
        None => c0,
    };
    let c2 = match rsplit_once(c1, "</think>"@) {
        Some((_, after)) => trim(after),
        None => c1,
    };
    let c3 = trim(replace(c2, "<think>"@, Seq::empty()));
    let c4 = trim(replace(c3, "</think>"@, Seq::empty()));
    spec_strip_label(c4)
}

/// Each answer label, followed by anything: the label goes, and what
/// follows loses its leading whitespace.
pub proof fn lemma_strip_label_drops_label(rest: Seq<char>)
    ensures
        spec_strip_label("Corrected:"@ + rest) == trim_start(rest),
        spec_strip_label("Correction:"@ + rest) == trim_start(rest),
        spec_strip_label("Fixed:"@ + rest) == trim_start(rest),
        spec_strip_label("Output:"@ + rest) == trim_start(rest),
{
    reveal_strlit("Corrected:");
    reveal_strlit("Correction:");
    reveal_strlit("Fixed:");
    reveal_strlit("Output:");
    let a = "Corrected:"@;
    let b = "Correction:"@;
    let c = "Fixed:"@;
    let d = "Output:"@;
    assert((a + rest).take(a.len() as int) =~= a);
    assert((a + rest).skip(a.len() as int) =~= rest);
    assert((b + rest).take(b.len() as int) =~= b);
    assert((b + rest).skip(b.len() as int) =~= rest);
    assert((c + rest).take(c.len() as int) =~= c);
    assert((c + rest).skip(c.len() as int) =~= rest);
    assert((d + rest).take(d.len() as int) =~= d);
    assert((d + rest).skip(d.len() as int) =~= rest);
    assert(!starts_with(b + rest, a)) by {
        if starts_with(b + rest, a) {
            assert((b + rest).take(a.len() as int)[7] == a[7]);
        }
    }
    assert(!starts_with(c + rest, a)) by {
        if starts_with(c + rest, a) {
            assert((c + rest).take(a.len() as int)[0] == a[0]);
        }
    }
    assert(!starts_with(c + rest, b)) by {
        if starts_with(c + rest, b) {
            assert((c + rest).take(b.len() as int)[0] == b[0]);
        }
    }
    assert(!starts_with(d + rest, a)) by {
        if starts_with(d + rest, a) {
            assert((d + rest).take(a.len() as int)[0] == a[0]);
        }
    }
    assert(!starts_with(d + rest, b)) by {
        if starts_with(d + rest, b) {
            assert((d + rest).take(b.len() as int)[0] == b[0]);
        }
    }
    assert(!starts_with(d + rest, c)) by {
        if starts_with(d + rest, c) {
            assert((d + rest).take(c.len() as int)[0] == c[0]);
        }
    }
}

/// An answer made of an answer label, a space and plain text (no `<`, so
/// no reasoning tags; neither starting nor ending with whitespace) cleans
/// to the text alone.
pub proof fn lemma_clean_drops_label(label: Seq<char>, t: Seq<char>)
    requires
        label == "Corrected:"@ || label == "Correction:"@ || label == "Fixed:"@ || label
            == "Output:"@,
        trimmed(t),
        !t.contains('<'),
    ensures
        spec_clean_model_output(label + " "@ + t) == t,
{
    reveal_strlit("Corrected:");
    reveal_strlit("Correction:");
    reveal_strlit("Fixed:");
    reveal_strlit("Output:");
    reveal_strlit(" ");
    reveal_strlit("```");
    reveal_strlit("</think>");
    reveal_strlit("<think>");
    assert(label.len() >= 6);
    assert(label[0] == 'C' || label[0] == 'F' || label[0] == 'O');
    assert(label.last() == ':');
    assert(forall|i: int| 0 <= i < label.len() ==> label[i] != '<');
    let s = label + " "@ + t;
    let c0 = if t.len() == 0 {
        label
    } else {
        s
    };
    if t.len() == 0 {
        assert(s.drop_last() =~= label);
        assert(trim_start(s) == s);
        assert(trim(s) == label);
    } else {
        assert(s[0] == label[0]);
        assert(s.last() == t.last());
        lemma_trim_of_trimmed(s);
    }
    assert(trim(s) == c0);
    assert(c0[0] == label[0]);
    assert(c0.last() == ':' || c0.last() == t.last());
    assert(trimmed(c0));
    assert(!c0.contains('<')) by {
        assert forall|i: int| 0 <= i < c0.len() implies c0[i] != '<' by {
            if i < label.len() {
                assert(c0[i] == label[i]);
            } else if i > label.len() {
                assert(c0[i] == t[i - label.len() - 1]);
            }
        }
    }
    lemma_trim_of_trimmed(c0);
    assert(!starts_with(c0, "```"@)) by {
        if starts_with(c0, "```"@) {
            assert(c0.take(3)[0] == c0[0]);
        }
    }
    assert(spec_strip_code_fence(c0) is None);
    lemma_no_first_char(c0, "</think>"@);
    lemma_split_absent(c0, "</think>"@);
    lemma_no_first_char(c0, "<think>"@);
    lemma_replace_absent(c0, "<think>"@, Seq::empty());
    lemma_replace_absent(c0, "</think>"@, Seq::empty());
    let rest = if t.len() == 0 {
        Seq::<char>::empty()
    } else {
        " "@ + t
    };
    assert(c0 =~= label + rest);
    lemma_strip_label_drops_label(rest);
    if t.len() > 0 {
        assert(rest.drop_first() =~= t);
        assert(trim_start(t) == t);
    }
}

/// A plain answer is left as it is: text that neither starts nor ends with
/// whitespace, holds no `<` (so no reasoning tags), does not open a code
/// fence and starts with no answer label.
pub proof fn lemma_clean_keeps_plain_answer(t: Seq<char>)
    requires
        trimmed(t),
        !t.contains('<'),
        t.len() == 0 || t[0] != '`',
        !starts_with(t, "Corrected:"@),
        !starts_with(t, "Correction:"@),
        !starts_with(t, "Fixed:"@),
        !starts_with(t, "Output:"@),
    ensures
        spec_clean_model_output(t) == t,
{
    reveal_strlit("```");
    reveal_strlit("</think>");
    reveal_strlit("<think>");
    lemma_trim_of_trimmed(t);
    assert(!starts_with(t, "```"@)) by {
        if starts_with(t, "```"@) {
            assert(t.take(3)[0] == t[0]);
        }
    }
    assert(spec_strip_code_fence(t) is None);
    lemma_no_first_char(t, "</think>"@);
    lemma_split_absent(t, "</think>"@);
    lemma_no_first_char(t, "<think>"@);
    lemma_replace_absent(t, "<think>"@, Seq::empty());
    lemma_replace_absent(t, "</think>"@, Seq::empty());
}

fn strip_code_fence_chars(output: &Vec<char>) -> (r: Option<Vec<char>>)
    ensures
        r matches Some(x) ==> spec_strip_code_fence(output@) == Some(x@),
        r is None ==> spec_strip_code_fence(output@) is None,
{
    let t = trim_chars(output);
    if !starts_with_lit(&t, "```") || !ends_with_lit(&t, "```") {
        return None;
    }
    let without_start = drop_lead_chars(&t, CharClass::Exactly('`'));
    let without_end = trim_chars(&drop_trail_chars(&without_start, CharClass::Exactly('`')));
    proof {
        assert("\n"@ =~= seq!['\n']) by {
            reveal_strlit("\n");
        }
    }
    match split_once_lit(&without_end, "\n") {
        Some((_, content)) => Some(content),
        None => Some(without_end),
    }
}

/// The body of a ``` fenced block, without its info line, when the whole
/// trimmed output is one.
pub fn strip_code_fence(output: &str) -> (r: Option<String>)
    ensures
        r matches Some(x) ==> spec_strip_code_fence(output@) == Some(x@),
        r is None ==> spec_strip_code_fence(output@) is None,
{
    match strip_code_fence_chars(&to_chars(output)) {
        Some(x) => Some(from_chars(&x)),
        None => None,
    }
}

fn strip_label_chars(c: &Vec<char>) -> (r: Vec<char>)
    ensures
        r@ == spec_strip_label(c@),
{
    if let Some(rest) = strip_prefix_lit(c, "Corrected:") {
        return drop_lead_chars(&rest, CharClass::Whitespace);
    }
    if let Some(rest) = strip_prefix_lit(c, "Correction:") {
        return drop_lead_chars(&rest, CharClass::Whitespace);
    }
    if let Some(rest) = strip_prefix_lit(c, "Fixed:") {
        return drop_lead_chars(&rest, CharClass::Whitespace);
    }
    if let Some(rest) = strip_prefix_lit(c, "Output:") {
        return drop_lead_chars(&rest, CharClass::Whitespace);
    }
    crate::text::copy_chars(c)
}

/// Cleanup of a model answer, on characters.
pub fn clean_model_output_chars(output: &Vec<char>) -> (r: Vec<char>)
    ensures
        r@ == spec_clean_model_output(output@),
{
    proof {
        reveal_strlit("<think>");
        reveal_strlit("</think>");
    }
    let c0 = trim_chars(output);
    let c1 = match strip_code_fence_chars(&c0) {
        Some(x) => trim_chars(&x),
        None => c0,
    };
    let c2 = match rsplit_once_lit(&c1, "</think>") {
        Some((_, after)) => trim_chars(&after),
        None => c1,
    };
    let c3 = trim_chars(&replace_lit(&c2, "<think>", ""));
    let c4 = trim_chars(&replace_lit(&c3, "</think>", ""));
    proof {
        assert(""@ =~= Seq::<char>::empty()) by {
            reveal_strlit("");
        }
    }
    strip_label_chars(&c4)
}

/// Cleans what a model answered: surrounding whitespace, a code fence,
/// reasoning in `<think>` tags, and a leading "Corrected:"-style label.
pub fn clean_model_output(output: &str) -> (r: String)
    ensures
        r@ == spec_clean_model_output(output@),
{
    from_chars(&clean_model_output_chars(&to_chars(output)))
}

pub open spec fn spec_api_url(endpoint: Seq<char>, route: Seq<char>) -> Seq<char> {
    drop_trail(endpoint, CharClass::Exactly('/')) + "/api/"@ + route
}

/// `{endpoint}/api/{route}`, with trailing slashes of the endpoint removed.
pub fn api_url(endpoint: &str, route: &str) -> (r: String)
    ensures
        r@ == spec_api_url(endpoint@, route@),
{
    let mut out = drop_trail_chars(&to_chars(endpoint), CharClass::Exactly('/'));
    push_str_chars(&mut out, "/api/");
    push_str_chars(&mut out, route);
    from_chars(&out)
}

/// `s` is in strictly increasing string order.
pub open spec fn strictly_sorted(s: Seq<Seq<char>>) -> bool {
    forall|i: int, j: int| 0 <= i < j < s.len() ==> lex_lt(#[trigger] s[i], #[trigger] s[j])
}

/// The model names Ollama reported, sorted by character codes with
/// repeated names removed: exactly the names given, each once, in order.
pub fn normalize_model_names(names: Vec<String>) -> (r: Vec<String>)
    ensures
        strictly_sorted(views(r@)),
        forall|x: Seq<char>| views(r@).contains(x) <==> views(names@).contains(x),
{
    let mut out: Vec<String> = Vec::new();
    let mut k: usize = 0;
    while k < names.len()
        invariant
            k <= names.len(),
            strictly_sorted(views(out@)),
            forall|x: Seq<char>|
                views(out@).contains(x) <==> views(names@).take(k as int).contains(x),
        decreases names.len() - k,
    {
        let x = names[k].clone();
        let ghost before = views(out@);
        let mut i: usize = 0;
        while i < out.len() && str_lt(out[i].as_str(), x.as_str())
            invariant
                i <= out.len(),
                before == views(out@),
                forall|j: int| 0 <= j < i ==> lex_lt(#[trigger] before[j], x@),
            decreases out.len() - i,
        {
            i = i + 1;
        }
        let present = i < out.len() && out[i] == x;
        if !present {
            proof {
                if i < out.len() {
                    lemma_lex_not_lt(x@, before[i as int]);
                }
            }
            out.insert(i, x);
            proof {
                let now = views(out@);
                assert(now =~= before.insert(i as int, x@));
                assert forall|a: int, b: int| 0 <= a < b < now.len() implies lex_lt(
                    #[trigger] now[a],
                    #[trigger] now[b],
                ) by {
                    if b < i {
                    } else if b == i {
                    } else if a == i {
                        if b > i + 1 {
                            lemma_lex_lt_transitive(x@, before[i as int], before[b - 1]);
                        }
                    } else if a < i {
                        lemma_lex_lt_transitive(before[a], x@, now[b]);
                        if b > i + 1 {
                            lemma_lex_lt_transitive(x@, before[i as int], before[b - 1]);
                        }
                    }
                }
                assert forall|y: Seq<char>| now.contains(y) implies before.contains(y) || y == x@ by {
                    let j = choose|j: int| 0 <= j < now.len() && now[j] == y;
                    if j < i {
                        assert(before[j] == y);
                    } else if j > i {
                        assert(before[j - 1] == y);
                    }
                }
                assert(now[i as int] == x@);
                assert forall|y: Seq<char>| before.contains(y) implies now.contains(y) by {
                    let j = choose|j: int| 0 <= j < before.len() && before[j] == y;
                    if j < i {
                        assert(now[j] == y);
                    } else {
                        assert(now[j + 1] == y);
                    }
                }
            }
        }
        proof {
            let t0 = views(names@).take(k as int);
            let t1 = views(names@).take(k + 1);
            assert(t1 =~= t0.push(x@));
            assert(present ==> before.contains(x@)) by {
                if present {
                    assert(before[i as int] == x@);
                }
            }
            assert(views(out@).contains(x@)) by {
                if present {
                    assert(views(out@)[i as int] == x@);
                } else {
                    assert(views(out@)[i as int] == x@);
                }
            }
            assert forall|y: Seq<char>| views(out@).contains(y) <==> t1.contains(y) by {
                if t1.contains(y) {
                    let j = choose|j: int| 0 <= j < t1.len() && t1[j] == y;
                    if j < k {
                        assert(t0[j] == y);
                    }
                }
                if t0.contains(y) {
                    let j = choose|j: int| 0 <= j < t0.len() && t0[j] == y;
                    assert(t1[j] == y);
                }
                assert(t1[k as int] == x@);
            }
        }
        k = k + 1;
    }
    proof {
        assert(views(names@).take(names.len() as int) =~= views(names@));
    }
    out
}

/// The correction an Ollama chat answer holds: its cleaned text, which
/// must not be empty.
pub fn finish_chat_output(content: &str) -> (r: Result<String, String>)
    ensures
        match r {
            Ok(s) => s@ == spec_clean_model_output(content@) && s@.len() > 0,
            Err(e) => spec_clean_model_output(content@).len() == 0 && e@
                == "Ollama returned an empty correction"@,
        },
{
    let fixed = clean_model_output(content);
    if fixed.unicode_len() == 0 {
        Err(String::from_str("Ollama returned an empty correction"))
    } else {
        Ok(fixed)
    }
}

} // verus!
