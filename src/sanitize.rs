//! The XML sanitizer: strips the namespace prefixes that the devices mix
//! freely and un-escapes embedded metadata, so that tags can be found by their
//! local names.
use vstd::prelude::*;
use crate::text::{chars_of, replace_all, replace_chars, string_of};

verus! {

/// The textual rewrites of one cleaning pass, applied in this order: each
/// pair is a pattern and what replaces it.
pub open spec fn cleaning_rules() -> Seq<(Seq<char>, Seq<char>)> {
    seq![
        ("<s:"@, "<"@),
        ("</s:"@, "</"@),
        (" xmlns:s=\"http://schemas.xmlsoap.org/soap/envelope/\""@, ""@),
        (" s:encodingStyle=\"http://schemas.xmlsoap.org/soap/encoding/\""@, ""@),
        ("<u:"@, "<"@),
        ("</u:"@, "</"@),
        ("&quot;"@, "\""@),
        ("&lt;"@, "<"@),
        ("&gt;"@, ">"@),
        ("xmlns:dc=\"http://purl.org/dc/elements/1.1/\""@, ""@),
        (" xmlns:upnp=\"urn:schemas-upnp-org:metadata-1-0/upnp/\""@, ""@),
        (" xmlns:r=\"urn:schemas-rinconnetworks-com:metadata-1-0/\""@, ""@),
        (" xmlns=\"urn:schemas-upnp-org:metadata-1-0/DIDL-Lite/\""@, ""@),
        ("<dc:"@, "<"@),
        ("<upnp:"@, "<"@),
        ("<r:"@, "<"@),
        ("</dc:"@, "</"@),
        ("</upnp:"@, "</"@),
        ("</r:"@, "</"@),
    ]
}

/// `s` after applying each rewrite of `rules` in turn to the whole text.
pub open spec fn apply_rules(s: Seq<char>, rules: Seq<(Seq<char>, Seq<char>)>) -> Seq<char>
    decreases rules.len(),
{
    if rules.len() == 0 {
        s
    } else {
        apply_rules(replace_all(s, rules[0].0, rules[0].1), rules.drop_first())
    }
}

/// One cleaning pass over `s`.
pub open spec fn clean_pass(s: Seq<char>) -> Seq<char> {
    apply_rules(s, cleaning_rules())
}

/// The sanitized form of `s`: cleaning passes are repeated for as long as
/// they shorten the text, so the result is left unchanged by a further pass.
pub open spec fn sanitized(s: Seq<char>) -> Seq<char>
    decreases s.len(),
{
    let t = clean_pass(s);
    if t.len() < s.len() {
        sanitized(t)
    } else {
        s
    }
}

/// Every rewrite replaces its pattern by something strictly shorter.
pub open spec fn rules_shrink(rules: Seq<(Seq<char>, Seq<char>)>) -> bool {
    forall|k: int| 0 <= k < rules.len() ==> #[trigger] rules[k].1.len() < rules[k].0.len()
}

proof fn lemma_cleaning_rules_shrink()
    ensures
        rules_shrink(cleaning_rules()),
{
    reveal_strlit("<s:");
    reveal_strlit("<");
    reveal_strlit("</s:");
    reveal_strlit("</");
    reveal_strlit(" xmlns:s=\"http://schemas.xmlsoap.org/soap/envelope/\"");
    reveal_strlit("");
    reveal_strlit(" s:encodingStyle=\"http://schemas.xmlsoap.org/soap/encoding/\"");
    reveal_strlit("<u:");
    reveal_strlit("</u:");
    reveal_strlit("&quot;");
    reveal_strlit("\"");
    reveal_strlit("&lt;");
    reveal_strlit("&gt;");
    reveal_strlit(">");
    reveal_strlit("xmlns:dc=\"http://purl.org/dc/elements/1.1/\"");
    reveal_strlit(" xmlns:upnp=\"urn:schemas-upnp-org:metadata-1-0/upnp/\"");
    reveal_strlit(" xmlns:r=\"urn:schemas-rinconnetworks-com:metadata-1-0/\"");
    reveal_strlit(" xmlns=\"urn:schemas-upnp-org:metadata-1-0/DIDL-Lite/\"");
    reveal_strlit("<dc:");
    reveal_strlit("<upnp:");
    reveal_strlit("<r:");
    reveal_strlit("</dc:");
    reveal_strlit("</upnp:");
    reveal_strlit("</r:");
}

/// A replacement by something shorter either changes nothing or shortens the text.
proof fn lemma_replace_shrinks(s: Seq<char>, pat: Seq<char>, rep: Seq<char>)
    requires
        rep.len() < pat.len(),
    ensures
        replace_all(s, pat, rep).len() <= s.len(),
        replace_all(s, pat, rep).len() == s.len() ==> replace_all(s, pat, rep) == s,
    decreases s.len(),
{
    if s.len() < pat.len() {
    } else if s.subrange(0, pat.len() as int) == pat {
        lemma_replace_shrinks(s.subrange(pat.len() as int, s.len() as int), pat, rep);
    } else {
        let tail = s.subrange(1, s.len() as int);
        lemma_replace_shrinks(tail, pat, rep);
        assert(s =~= seq![s[0]] + tail);
    }
}

proof fn lemma_rules_shrink(s: Seq<char>, rules: Seq<(Seq<char>, Seq<char>)>)
    requires
        rules_shrink(rules),
    ensures
        apply_rules(s, rules).len() <= s.len(),
        apply_rules(s, rules).len() == s.len() ==> apply_rules(s, rules) == s,
    decreases rules.len(),
{
    if rules.len() > 0 {
        assert(rules[0].1.len() < rules[0].0.len());
        lemma_replace_shrinks(s, rules[0].0, rules[0].1);
        let rest = rules.drop_first();
        assert forall|k: int| 0 <= k < rest.len() implies #[trigger] rest[k].1.len() < rest[k].0.len() by {
            assert(rest[k] == rules[k + 1]);
        }
        lemma_rules_shrink(replace_all(s, rules[0].0, rules[0].1), rest);
    }
}

/// A cleaning pass never lengthens the text, and leaves it unchanged unless it shortens it.
pub proof fn lemma_clean_pass_shrinks(s: Seq<char>)
    ensures
        clean_pass(s).len() <= s.len(),
        clean_pass(s).len() == s.len() ==> clean_pass(s) == s,
{
    lemma_cleaning_rules_shrink();
    lemma_rules_shrink(s, cleaning_rules());
}

/// The sanitized text is left unchanged by a further cleaning pass.
pub proof fn lemma_sanitized_is_clean(s: Seq<char>)
    ensures
        clean_pass(sanitized(s)) == sanitized(s),
    decreases s.len(),
{
    lemma_clean_pass_shrinks(s);
    if clean_pass(s).len() < s.len() {
        lemma_sanitized_is_clean(clean_pass(s));
    }
}

/// Sanitizing is idempotent: sanitizing sanitized text changes nothing.
pub proof fn lemma_sanitize_idempotent(s: Seq<char>)
    ensures
        sanitized(sanitized(s)) == sanitized(s),
{
    lemma_sanitized_is_clean(s);
}

/// The rewrites of a cleaning pass, as character vectors.
fn cleaning_rules_exec() -> (r: Vec<(Vec<char>, Vec<char>)>)
    ensures
        r@.len() == cleaning_rules().len(),
        forall|k: int|
            0 <= k < r@.len() ==> (#[trigger] r@[k]).0@ == cleaning_rules()[k].0 && r@[k].1@
                == cleaning_rules()[k].1,
{
    let mut r: Vec<(Vec<char>, Vec<char>)> = Vec::new();
    r.push((chars_of("<s:"), chars_of("<")));
    r.push((chars_of("</s:"), chars_of("</")));
    r.push((chars_of(" xmlns:s=\"http://schemas.xmlsoap.org/soap/envelope/\""), chars_of("")));
    r.push((chars_of(" s:encodingStyle=\"http://schemas.xmlsoap.org/soap/encoding/\""), chars_of("")));
    r.push((chars_of("<u:"), chars_of("<")));
    r.push((chars_of("</u:"), chars_of("</")));
    r.push((chars_of("&quot;"), chars_of("\"")));
    r.push((chars_of("&lt;"), chars_of("<")));
    r.push((chars_of("&gt;"), chars_of(">")));
    r.push((chars_of("xmlns:dc=\"http://purl.org/dc/elements/1.1/\""), chars_of("")));
    r.push((chars_of(" xmlns:upnp=\"urn:schemas-upnp-org:metadata-1-0/upnp/\""), chars_of("")));
    r.push((chars_of(" xmlns:r=\"urn:schemas-rinconnetworks-com:metadata-1-0/\""), chars_of("")));
    r.push((chars_of(" xmlns=\"urn:schemas-upnp-org:metadata-1-0/DIDL-Lite/\""), chars_of("")));
    r.push((chars_of("<dc:"), chars_of("<")));
    r.push((chars_of("<upnp:"), chars_of("<")));
    r.push((chars_of("<r:"), chars_of("<")));
    r.push((chars_of("</dc:"), chars_of("</")));
    r.push((chars_of("</upnp:"), chars_of("</")));
    r.push((chars_of("</r:"), chars_of("</")));
    r
}

/// One cleaning pass: each rewrite of `rules` applied in turn.
fn clean_pass_exec(s: &Vec<char>, rules: &Vec<(Vec<char>, Vec<char>)>) -> (r: Vec<char>)
    requires
        rules@.len() == cleaning_rules().len(),
        forall|k: int|
            0 <= k < rules@.len() ==> (#[trigger] rules@[k]).0@ == cleaning_rules()[k].0
                && rules@[k].1@ == cleaning_rules()[k].1,
    ensures
        r@ == clean_pass(s@),
{
    let mut cur: Vec<char> = s.clone();
    let mut k: usize = 0;
    assert(cleaning_rules().subrange(0, 0) =~= Seq::<(Seq<char>, Seq<char>)>::empty());
    assert(cleaning_rules().subrange(0, cleaning_rules().len() as int) =~= cleaning_rules());
    while k < rules.len()
        invariant
            k <= rules@.len(),
            rules@.len() == cleaning_rules().len(),
            forall|j: int|
                0 <= j < rules@.len() ==> (#[trigger] rules@[j]).0@ == cleaning_rules()[j].0
                    && rules@[j].1@ == cleaning_rules()[j].1,
            apply_rules(cur@, cleaning_rules().subrange(k as int, cleaning_rules().len() as int))
                == clean_pass(s@),
        decreases rules.len() - k,
    {
        let ghost rest = cleaning_rules().subrange(k as int, cleaning_rules().len() as int);
        assert(rest.drop_first() =~= cleaning_rules().subrange(k + 1, cleaning_rules().len() as int));
        cur = replace_chars(&cur, &rules[k].0, &rules[k].1);
        k += 1;
    }
    cur
}

/// Sanitizes a response before it is parsed: strips the SOAP envelope (`s:`),
/// action (`u:`) and metadata (`dc:`, `upnp:`, `r:`, DIDL-Lite) namespace
/// prefixes and declarations, and un-escapes `&quot;`, `&lt;` and `&gt;`.
/// The result is a fixed point of the cleaning pass, so sanitizing twice
/// gives the same text as sanitizing once.
pub fn clean_response_xml(xml: String) -> (r: String)
    ensures
        r@ == sanitized(xml@),
{
    let rules = cleaning_rules_exec();
    let mut cur = chars_of(xml.as_str());
    loop
        invariant
            sanitized(cur@) == sanitized(xml@),
            rules@.len() == cleaning_rules().len(),
            forall|j: int|
                0 <= j < rules@.len() ==> (#[trigger] rules@[j]).0@ == cleaning_rules()[j].0
                    && rules@[j].1@ == cleaning_rules()[j].1,
        ensures
            cur@ == sanitized(xml@),
        decreases cur@.len(),
    {
        let next = clean_pass_exec(&cur, &rules);
        if next.len() < cur.len() {
            assert(sanitized(cur@) == sanitized(next@));
            cur = next;
        } else {
            assert(sanitized(cur@) == cur@);
            break;
        }
    }
    string_of(cur.as_slice())
}

} // verus!
