//! Model names: the variants that clients write, brought to the names that
//! the upstream knows.

use vstd::prelude::*;
use crate::image::find_char;
use crate::state::CodexState;
use crate::text::{
    chars_of, first_index_of, is_blank, is_white_space, lemma_first_index_is_first,
    lemma_first_index_of, lemma_trimmed_fixed, lemma_trimmed_shape, text_of, trim_bounds, trimmed,
};

verus! {

/// `c` is `e`, or the upper-case letter whose lower case is `e`.
pub open spec fn is_letter_of(c: char, e: char) -> bool {
    c == e || ('A' <= c <= 'Z' && c as u32 + 32 == e as u32)
}

/// `s` ends with `sep` and then `effort`, whatever the case of its letters.
/// `effort` is written in lower case.
pub open spec fn has_effort_suffix(s: Seq<char>, sep: char, effort: Seq<char>) -> bool {
    &&& s.len() >= effort.len() + 1
    &&& s[s.len() - effort.len() - 1] == sep
    &&& forall|i: int|
        0 <= i < effort.len() ==> is_letter_of(
            #[trigger] s[s.len() - effort.len() + i],
            effort[i],
        )
}

/// `s` without `sep` and the `n` characters of an effort at its end.
pub open spec fn cut(s: Seq<char>, n: nat) -> Seq<char> {
    s.take(s.len() - n - 1)
}

/// `s` without one effort suffix `sep` + `minimal`, `low`, `medium` or
/// `high`, if it ends with one.
pub open spec fn without_effort(s: Seq<char>, sep: char) -> Seq<char> {
    if has_effort_suffix(s, sep, "minimal"@) {
        cut(s, "minimal"@.len())
    } else if has_effort_suffix(s, sep, "low"@) {
        cut(s, "low"@.len())
    } else if has_effort_suffix(s, sep, "medium"@) {
        cut(s, "medium"@.len())
    } else if has_effort_suffix(s, sep, "high"@) {
        cut(s, "high"@.len())
    } else {
        s
    }
}

/// The name under which the upstream knows a base name.
pub open spec fn alias_of(base: Seq<char>) -> Seq<char> {
    if base == "gpt5"@ || base == "gpt-5-latest"@ || base == "gpt-5"@ {
        "gpt-5"@
    } else if base == "codex"@ || base == "codex-mini"@ || base == "codex-mini-latest"@ {
        "codex-mini-latest"@
    } else {
        base
    }
}

/// The base name of a name that is not blank: what stands before its first
/// `:`, trimmed, without one effort suffix after `-` and then without one
/// after `_`.
pub open spec fn base_name(name: Seq<char>) -> Seq<char> {
    let t = trimmed(name);
    let head = trimmed(t.take(first_index_of(t, ':')));
    without_effort(without_effort(head, '-'), '_')
}

/// The normal form of a model name: `gpt-5` for a missing or blank name, and
/// else the alias of its base name.
pub open spec fn normalized_model(name: Option<Seq<char>>) -> Seq<char> {
    match name {
        Some(n) => if is_blank(n) {
            "gpt-5"@
        } else {
            alias_of(base_name(n))
        },
        None => "gpt-5"@,
    }
}

/// A name is settled: it is not empty, neither begins nor ends with white
/// space, holds no `:`, ends with no effort suffix, and is its own alias.
pub open spec fn is_settled_name(name: Seq<char>) -> bool {
    &&& name.len() > 0
    &&& !is_white_space(name[0])
    &&& !is_white_space(name.last())
    &&& first_index_of(name, ':') == name.len()
    &&& without_effort(name, '-') == name
    &&& without_effort(name, '_') == name
    &&& alias_of(name) == name
}

/// Dropping an effort suffix makes a name shorter or leaves it as it is.
proof fn lemma_without_effort_shorter(s: Seq<char>, sep: char)
    ensures
        without_effort(s, sep).len() <= s.len(),
        without_effort(s, sep).len() == s.len() ==> without_effort(s, sep) == s,
{
}

/// A settled name is its own normal form.
pub proof fn lemma_settled_name_is_fixed(name: Seq<char>)
    requires
        is_settled_name(name),
    ensures
        normalized_model(Some(name)) == name,
{
    lemma_trimmed_fixed(name);
    assert(name.take(name.len() as int) =~= name);
}

/// The two names that the alias table leads to are settled.
pub proof fn lemma_known_names_are_settled()
    ensures
        is_settled_name("gpt-5"@),
        is_settled_name("codex-mini-latest"@),
{
    reveal_strlit("gpt-5");
    reveal_strlit("codex-mini-latest");
    reveal_strlit("minimal");
    reveal_strlit("low");
    reveal_strlit("medium");
    reveal_strlit("high");
    reveal_strlit("gpt5");
    reveal_strlit("gpt-5-latest");
    reveal_strlit("codex");
    reveal_strlit("codex-mini");
    let a = "gpt-5"@;
    let b = "codex-mini-latest"@;
    lemma_first_index_of(a, ':', 5);
    lemma_first_index_of(b, ':', 17);
    assert(!has_effort_suffix(b, '-', "medium"@)) by {
        assert(!is_letter_of(b[17 - 6 + 0], "medium"@[0]));
    }
}

/// Normalising a model name twice gives what normalising it once gives,
/// wherever the first result is settled. That is so for every missing or
/// blank name and for every name whose base name is in the alias table.
pub proof fn lemma_normalize_model_name_idempotent(name: Option<Seq<char>>)
    requires
        is_settled_name(normalized_model(name)),
    ensures
        normalized_model(Some(normalized_model(name))) == normalized_model(name),
{
    lemma_settled_name_is_fixed(normalized_model(name));
}

/// A name that is not settled is not its own normal form: the settled names
/// are all the names that normalising leaves as they are.
pub proof fn lemma_unsettled_name_changes(name: Seq<char>)
    requires
        !is_settled_name(name),
    ensures
        normalized_model(Some(name)) != name,
{
    lemma_known_names_are_settled();
    if is_blank(name) {
        reveal_strlit("gpt-5");
    } else {
        let t = trimmed(name);
        let k = first_index_of(t, ':');
        let h = trimmed(t.take(k));
        let b1 = without_effort(h, '-');
        lemma_trimmed_shape(name);
        lemma_first_index_is_first(t, ':');
        lemma_trimmed_shape(t.take(k));
        lemma_without_effort_shorter(h, '-');
        lemma_without_effort_shorter(b1, '_');
    }
}

/// Every missing or blank name has the normal form `gpt-5`.
pub proof fn lemma_blank_name_is_default(name: Option<Seq<char>>)
    requires
        name matches Some(n) ==> is_blank(n),
    ensures
        normalized_model(name) == "gpt-5"@,
{
}

/// A name whose base name is not in the alias table has its base name as
/// normal form, unchanged.
pub proof fn lemma_other_names_pass_through(name: Seq<char>)
    requires
        !is_blank(name),
        base_name(name) != "gpt5"@,
        base_name(name) != "gpt-5-latest"@,
        base_name(name) != "gpt-5"@,
        base_name(name) != "codex"@,
        base_name(name) != "codex-mini"@,
        base_name(name) != "codex-mini-latest"@,
    ensures
        normalized_model(Some(name)) == base_name(name),
{
}

/// A name whose base name is in the alias table has the normal form that the
/// table gives.
pub proof fn lemma_alias_table(name: Seq<char>)
    requires
        !is_blank(name),
    ensures
        base_name(name) == "gpt5"@ || base_name(name) == "gpt-5-latest"@ || base_name(name)
            == "gpt-5"@ ==> normalized_model(Some(name)) == "gpt-5"@,
        base_name(name) == "codex"@ || base_name(name) == "codex-mini"@ || base_name(name)
            == "codex-mini-latest"@ ==> normalized_model(Some(name)) == "codex-mini-latest"@,
{
    reveal_strlit("gpt-5");
    reveal_strlit("gpt5");
    reveal_strlit("gpt-5-latest");
    reveal_strlit("codex");
    reveal_strlit("codex-mini");
    reveal_strlit("codex-mini-latest");
    let b = base_name(name);
    if b == "codex"@ || b == "codex-mini"@ || b == "codex-mini-latest"@ {
        assert(b[0] == 'c');
    }
}

/// Whether `c` is `e` or the upper-case letter of `e`.
fn letter_of(c: char, e: char) -> (r: bool)
    ensures
        r == is_letter_of(c, e),
{
    c == e || ('A' <= c && c <= 'Z' && c as u32 + 32 == e as u32)
}

/// Whether `v[..len]` ends with `sep` and then `effort`.
fn ends_with_effort(v: &Vec<char>, len: usize, sep: char, effort: &str) -> (r: Option<usize>)
    requires
        len <= v.len(),
    ensures
        r is Some == has_effort_suffix(v@.take(len as int), sep, effort@),
        r matches Some(n) ==> n <= len && v@.take(n as int) == cut(
            v@.take(len as int),
            effort@.len(),
        ),
{
    let e = chars_of(effort);
    let ghost s = v@.take(len as int);
    if len <= e.len() {
        return None;
    }
    let start: usize = len - e.len();
    if v[start - 1] != sep {
        return None;
    }
    let mut i: usize = 0;
    while i < e.len()
        invariant
            i <= e.len(),
            start + e.len() == len <= v.len(),
            e@ == effort@,
            s == v@.take(len as int),
            forall|j: int| 0 <= j < i ==> is_letter_of(#[trigger] s[s.len() - e.len() + j], e@[j]),
        decreases e.len() - i,
    {
        if !letter_of(v[start + i], e[i]) {
            assert(!is_letter_of(s[s.len() - e.len() + i], e@[i as int]));
            return None;
        }
        i += 1;
    }
    Some(start - 1)
}

/// The length of `v[..len]` without one effort suffix after `sep`.
fn strip_effort(v: &Vec<char>, len: usize, sep: char) -> (n: usize)
    requires
        len <= v.len(),
    ensures
        n <= len,
        v@.take(n as int) == without_effort(v@.take(len as int), sep),
{
    if let Some(n) = ends_with_effort(v, len, sep, "minimal") {
        return n;
    }
    if let Some(n) = ends_with_effort(v, len, sep, "low") {
        return n;
    }
    if let Some(n) = ends_with_effort(v, len, sep, "medium") {
        return n;
    }
    if let Some(n) = ends_with_effort(v, len, sep, "high") {
        return n;
    }
    len
}

/// The models that the gateway lists: the two names that the alias table
/// leads to.
pub open spec fn listed_model_names() -> Seq<Seq<char>> {
    seq!["gpt-5"@, "codex-mini-latest"@]
}

/// The ids of the models that the gateway lists. Each is listed as an object
/// of the kind `model`, owned by `owner`.
pub fn listed_models() -> (ids: Vec<String>)
    ensures
        ids.deep_view() == listed_model_names(),
{
    let mut ids: Vec<String> = Vec::new();
    ids.push("gpt-5".to_string());
    ids.push("codex-mini-latest".to_string());
    ids
}

/// Every listed model is settled: asking for it by its listed name asks the
/// upstream for that very name.
pub proof fn lemma_listed_models_are_settled()
    ensures
        forall|i: int|
            0 <= i < listed_model_names().len() ==> normalized_model(
                Some(#[trigger] listed_model_names()[i]),
            ) == listed_model_names()[i],
{
    lemma_known_names_are_settled();
    lemma_settled_name_is_fixed("gpt-5"@);
    lemma_settled_name_is_fixed("codex-mini-latest"@);
}

impl CodexState {
    /// The normal form of a model name.
    ///
    /// A missing or blank name is `gpt-5`. Of any other name, what stands
    /// before the first `:` is trimmed and loses one effort suffix (`-` and
    /// then `_`, followed by `minimal`, `low`, `medium` or `high` in any
    /// case); `gpt5`, `gpt-5-latest` and `gpt-5` then become `gpt-5`, `codex`,
    /// `codex-mini` and `codex-mini-latest` become `codex-mini-latest`, and
    /// everything else stays as it is.
    pub fn normalize_model_name(&self, name: Option<&str>) -> (r: String)
        ensures
            r@ == normalized_model(name.deep_view()),
    {
        let name = match name {
            Some(n) => n,
            None => {
                return "gpt-5".to_string();
            },
        };
        let v = chars_of(name);
        let (a, b) = trim_bounds(&v);
        if a == b {
            return "gpt-5".to_string();
        }
        let mut t: Vec<char> = Vec::new();
        let mut i: usize = a;
        while i < b
            invariant
                a <= i <= b <= v.len(),
                t@ == v@.subrange(a as int, i as int),
            decreases b - i,
        {
            t.push(v[i]);
            i += 1;
        }
        let k = find_char(&t, ':');
        let mut h: Vec<char> = Vec::new();
        let mut j: usize = 0;
        while j < k
            invariant
                j <= k <= t.len(),
                h@ == t@.take(j as int),
            decreases k - j,
        {
            h.push(t[j]);
            j += 1;
        }
        let (c, d) = trim_bounds(&h);
        let mut head: Vec<char> = Vec::new();
        let mut m: usize = c;
        while m < d
            invariant
                c <= m <= d <= h.len(),
                head@ == h@.subrange(c as int, m as int),
            decreases d - m,
        {
            head.push(h[m]);
            m += 1;
        }
        proof {
            assert(head@.take(head.len() as int) =~= head@);
        }
        let n1 = strip_effort(&head, head.len(), '-');
        let n2 = strip_effort(&head, n1, '_');
        let base = text_of(&head, 0, n2);
        let s = base.as_str();
        if s.eq("gpt5") || s.eq("gpt-5-latest") || s.eq("gpt-5") {
            "gpt-5".to_string()
        } else if s.eq("codex") || s.eq("codex-mini") || s.eq("codex-mini-latest") {
            "codex-mini-latest".to_string()
        } else {
            base
        }
    }
}

} // verus!
