//! Framing around plan generation: the materials text handed to the
//! completion service, and the extraction of the JSON document from its
//! reply, which may come wrapped in a markdown code fence.
use vstd::prelude::*;
use crate::text::{chars_of, decimal, decimal_string, is_whitespace, is_ws};

verus! {

/// Whether a code fence (three backticks) starts at `i`.
pub open spec fn is_fence_at(s: Seq<char>, i: int) -> bool {
    0 <= i && i + 3 <= s.len() && s[i] == '`' && s[i + 1] == '`' && s[i + 2] == '`'
}

/// The position of the first code fence at or after `from`.
pub open spec fn first_fence(s: Seq<char>, from: int) -> Option<int>
    decreases s.len() - from,
{
    if from < 0 || from + 3 > s.len() {
        None
    } else if is_fence_at(s, from) {
        Some(from)
    } else {
        first_fence(s, from + 1)
    }
}

/// The range between the first and second code fence (or the end), or the
/// whole text when it holds no fence.
pub open spec fn fenced_range(s: Seq<char>) -> (int, int) {
    match first_fence(s, 0) {
        None => (0, s.len() as int),
        Some(p) => match first_fence(s, p + 3) {
            None => (p + 3, s.len() as int),
            Some(q) => (p + 3, q),
        },
    }
}

/// Skips any number of leading `json` language tags in `[i, e)`.
pub open spec fn skip_json_tags(s: Seq<char>, i: int, e: int) -> int
    decreases e - i,
{
    if 0 <= i && i + 4 <= e && e <= s.len() && s.subrange(i, i + 4) == "json"@ {
        skip_json_tags(s, i + 4, e)
    } else {
        i
    }
}

/// Skips leading white space in `[i, e)`.
pub open spec fn skip_ws(s: Seq<char>, i: int, e: int) -> int
    decreases e - i,
{
    if 0 <= i < e && e <= s.len() && is_ws(s[i]) {
        skip_ws(s, i + 1, e)
    } else {
        i
    }
}

/// Drops trailing white space from `[i, e)`.
pub open spec fn drop_ws(s: Seq<char>, i: int, e: int) -> int
    decreases e - i,
{
    if 0 <= i < e && e <= s.len() && is_ws(s[e - 1]) {
        drop_ws(s, i, e - 1)
    } else {
        e
    }
}

/// The JSON text inside a completion: the trimmed body of the first fenced
/// block, without its `json` tag, or the whole trimmed reply if it holds no
/// fence.
pub open spec fn json_block(s: Seq<char>) -> Seq<char> {
    let (a, b) = fenced_range(s);
    let a1 = if first_fence(s, 0) is Some { skip_json_tags(s, a, b) } else { a };
    let a2 = skip_ws(s, a1, b);
    let b2 = drop_ws(s, a2, b);
    s.subrange(a2, b2)
}

proof fn lemma_first_fence_bounds(s: Seq<char>, from: int)
    ensures
        first_fence(s, from) matches Some(p) ==> from <= p && p + 3 <= s.len() && is_fence_at(s, p),
    decreases s.len() - from,
{
    if !(from < 0 || from + 3 > s.len()) && !is_fence_at(s, from) {
        lemma_first_fence_bounds(s, from + 1);
    }
}

proof fn lemma_skips_bounded(s: Seq<char>, i: int, e: int)
    requires
        0 <= i <= e <= s.len(),
    ensures
        i <= skip_json_tags(s, i, e) <= e,
        i <= skip_ws(s, i, e) <= e,
        i <= drop_ws(s, i, e) <= e,
    decreases e - i,
{
    if i + 4 <= e && s.subrange(i, i + 4) == "json"@ {
        lemma_skips_bounded(s, i + 4, e);
    }
    if i < e && is_ws(s[i]) {
        lemma_skips_bounded(s, i + 1, e);
    }
    if i < e && is_ws(s[e - 1]) {
        lemma_skips_bounded(s, i, e - 1);
    }
}

/// The first code fence at or after `from`.
fn find_fence(cs: &Vec<char>, from: usize) -> (r: Option<usize>)
    ensures
        match first_fence(cs@, from as int) {
            None => r is None,
            Some(p) => r == Some(p as usize),
        },
{
    let n = cs.len();
    let mut i = from;
    while i < n && n - i >= 3
        invariant
            n == cs@.len(),
            from <= i,
            first_fence(cs@, i as int) == first_fence(cs@, from as int),
        decreases n - i,
    {
        if cs[i] == '`' && cs[i + 1] == '`' && cs[i + 2] == '`' {
            return Some(i);
        }
        i = i + 1;
    }
    None
}

/// Extracts the JSON document from a completion that may wrap it in a
/// markdown code fence (optionally tagged `json`), trimming white space.
pub fn extract_json_block(response: &str) -> (r: String)
    ensures
        r@ == json_block(response@),
{
    let cs = chars_of(response);
    let ghost s = response@;
    let n = cs.len();
    let first = find_fence(&cs, 0);
    proof {
        lemma_first_fence_bounds(s, 0);
    }
    let mut a: usize;
    let b: usize;
    match first {
        None => {
            a = 0;
            b = n;
        },
        Some(p) => {
            let second = find_fence(&cs, p + 3);
            proof {
                lemma_first_fence_bounds(s, p + 3);
            }
            a = p + 3;
            match second {
                None => {
                    b = n;
                },
                Some(q) => {
                    b = q;
                },
            }
        },
    }
    assert(fenced_range(s) == (a as int, b as int));
    if first.is_some() {
        let ghost a0 = a as int;
        while b - a >= 4 && cs[a] == 'j' && cs[a + 1] == 's' && cs[a + 2] == 'o' && cs[a + 3] == 'n'
            invariant
                n == s.len(),
                cs@ == s,
                a0 <= a <= b <= n,
                skip_json_tags(s, a as int, b as int) == skip_json_tags(s, a0, b as int),
            decreases b - a,
        {
            proof {
                reveal_strlit("json");
                assert(s.subrange(a as int, a + 4) =~= "json"@);
            }
            a = a + 4;
        }
        proof {
            reveal_strlit("json");
            if a + 4 <= b {
                if s.subrange(a as int, a + 4) == "json"@ {
                    assert(s.subrange(a as int, a + 4)[0] == 'j');
                    assert(s.subrange(a as int, a + 4)[1] == 's');
                    assert(s.subrange(a as int, a + 4)[2] == 'o');
                    assert(s.subrange(a as int, a + 4)[3] == 'n');
                }
            }
        }
    }
    let ghost a1 = a as int;
    assert(a1 == if first_fence(s, 0) is Some { skip_json_tags(s, fenced_range(s).0, b as int) } else { fenced_range(s).0 });
    while a < b && is_whitespace(cs[a])
        invariant
            n == s.len(),
            cs@ == s,
            a1 <= a <= b <= n,
            skip_ws(s, a as int, b as int) == skip_ws(s, a1, b as int),
        decreases b - a,
    {
        a = a + 1;
    }
    let mut e = b;
    while e > a && is_whitespace(cs[e - 1])
        invariant
            n == s.len(),
            cs@ == s,
            a <= e <= b <= n,
            drop_ws(s, a as int, e as int) == drop_ws(s, a as int, b as int),
        decreases e - a,
    {
        e = e - 1;
    }
    String::from_str(response.substring_char(a, e))
}

/// One source's block in the materials text.
pub open spec fn source_block(name: Seq<char>, text: Seq<char>) -> Seq<char> {
    "=== "@ + name + " ===\n"@ + text
}

/// The blocks of the first `n` sources, separated by `sep`.
pub open spec fn materials_text(sources: Seq<(Seq<char>, Seq<char>)>, sep: Seq<char>, n: nat) -> Seq<char>
    decreases n,
{
    if n == 0 {
        Seq::empty()
    } else if n == 1 {
        source_block(sources[0].0, sources[0].1)
    } else {
        materials_text(sources, sep, (n - 1) as nat) + sep + source_block(sources[n - 1].0, sources[n - 1].1)
    }
}

/// Joins (file name, text) pairs into the materials text handed to the
/// completion service: a `=== name ===` header above each text, blocks
/// separated by `sep`.
pub fn build_materials(sources: &Vec<(String, String)>, sep: &str) -> (r: String)
    ensures
        r@ == materials_text(sources@.map_values(|p: (String, String)| (p.0@, p.1@)), sep@, sources@.len()),
{
    let ghost v = sources@.map_values(|p: (String, String)| (p.0@, p.1@));
    let mut out = String::new();
    let n = sources.len();
    let mut i: usize = 0;
    while i < n
        invariant
            n == sources@.len(),
            v == sources@.map_values(|p: (String, String)| (p.0@, p.1@)),
            i <= n,
            out@ == materials_text(v, sep@, i as nat),
        decreases n - i,
    {
        if i > 0 {
            out.append(sep);
        }
        out.append("=== ");
        out.append(sources[i].0.as_str());
        out.append(" ===\n");
        out.append(sources[i].1.as_str());
        assert(v[i as int] == (sources@[i as int].0@, sources@[i as int].1@));
        if i == 0 {
            assert(out@ =~= materials_text(v, sep@, 1));
        } else {
            assert(out@ =~= materials_text(v, sep@, (i + 1) as nat));
        }
        i = i + 1;
    }
    out
}

/// `s` with every occurrence of `key` replaced by `value`, matching left to
/// right without overlap, as `str::replace` does; an empty key matches
/// before every character and at the end.
pub open spec fn replaced(s: Seq<char>, key: Seq<char>, value: Seq<char>) -> Seq<char>
    decreases s.len(),
{
    if key.len() == 0 {
        if s.len() == 0 {
            value
        } else {
            value + seq![s[0]] + replaced(s.drop_first(), key, value)
        }
    } else if s.len() < key.len() {
        s
    } else if s.take(key.len() as int) == key {
        value + replaced(s.skip(key.len() as int), key, value)
    } else {
        seq![s[0]] + replaced(s.drop_first(), key, value)
    }
}

/// Whether `key` occurs in `s` at position `i`.
fn occurs_at(s: &Vec<char>, key: &Vec<char>, i: usize) -> (r: bool)
    requires
        key@.len() > 0,
        i <= s@.len(),
    ensures
        r == (s@.len() - i >= key@.len() && s@.skip(i as int).take(key@.len() as int) == key@),
{
    let n = s.len();
    let m = key.len();
    if n - i < m {
        return false;
    }
    let mut j: usize = 0;
    while j < m
        invariant
            n == s@.len(),
            m == key@.len(),
            n - i >= m,
            j <= m,
            forall|t: int| 0 <= t < j ==> s@[i + t] == key@[t],
        decreases m - j,
    {
        if s[i + j] != key[j] {
            assert(s@.skip(i as int).take(m as int)[j as int] != key@[j as int]);
            return false;
        }
        j = j + 1;
    }
    assert(s@.skip(i as int).take(m as int) =~= key@);
    true
}

/// `value` before every character of `template` and at its end.
fn interleave(template: &str, value: &str) -> (r: String)
    ensures
        r@ == replaced(template@, Seq::empty(), value@),
{
    let ghost s = template@;
    let ghost v = value@;
    let n = template.unicode_len();
    let mut out = String::new();
    let mut i: usize = 0;
    proof {
        assert(s.skip(0) =~= s);
    }
    while i < n
        invariant
            s == template@,
            v == value@,
            n == s.len(),
            i <= n,
            out@ + replaced(s.skip(i as int), Seq::empty(), v) == replaced(s, Seq::empty(), v),
        decreases n - i,
    {
        out.append(value);
        let piece = template.substring_char(i, i + 1);
        out.append(piece);
        proof {
            let t = s.skip(i as int);
            assert(piece@ =~= seq![t[0]]);
            assert(t.drop_first() =~= s.skip(i + 1));
        }
        i = i + 1;
    }
    out.append(value);
    proof {
        assert(s.skip(n as int) =~= Seq::<char>::empty());
    }
    out
}

/// Fills a prompt template: replaces every occurrence of the placeholder
/// `key` by `value`.
pub fn fill_template(template: &str, key: &str, value: &str) -> (r: String)
    ensures
        r@ == replaced(template@, key@, value@),
{
    let ks = chars_of(key);
    if ks.len() == 0 {
        proof {
            assert(key@ =~= Seq::<char>::empty());
        }
        return interleave(template, value);
    }
    let cs = chars_of(template);
    let ghost s = template@;
    let ghost k = key@;
    let ghost v = value@;
    let n = cs.len();
    let m = ks.len();
    let mut out = String::new();
    let mut last: usize = 0;
    let mut i: usize = 0;
    proof {
        assert(s.skip(0) =~= s);
        assert(out@ + s.subrange(0, 0) =~= Seq::<char>::empty());
    }
    while i < n
        invariant
            s == template@,
            k == key@,
            v == value@,
            cs@ == s,
            ks@ == k,
            n == s.len(),
            m == k.len(),
            m > 0,
            last <= i <= n,
            out@ + s.subrange(last as int, i as int) + replaced(s.skip(i as int), k, v) == replaced(s, k, v),
        decreases n - i,
    {
        let hit = occurs_at(&cs, &ks, i);
        proof {
            let t = s.skip(i as int);
            assert(t.len() >= k.len() ==> (t.take(k.len() as int) == k) == hit);
        }
        if hit {
            let chunk = template.substring_char(last, i);
            out.append(chunk);
            out.append(value);
            proof {
                let t = s.skip(i as int);
                assert(t.skip(k.len() as int) =~= s.skip(i + m));
                assert(s.subrange(last as int, i as int) + replaced(t, k, v) =~= s.subrange(last as int, i as int) + v + replaced(s.skip(i + m), k, v));
                assert(s.subrange((i + m) as int, (i + m) as int) =~= Seq::<char>::empty());
            }
            i = i + m;
            last = i;
        } else if n - i < m {
            proof {
                assert(replaced(s.skip(i as int), k, v) == s.skip(i as int));
                assert(s.subrange(last as int, i as int) + s.skip(i as int) =~= s.subrange(last as int, n as int));
                assert(s.skip(n as int) =~= Seq::<char>::empty());
                assert(replaced(s.skip(n as int), k, v) =~= Seq::<char>::empty());
                assert(s.subrange(last as int, n as int) + Seq::<char>::empty() =~= s.subrange(last as int, n as int));
            }
            i = n;
        } else {
            proof {
                let t = s.skip(i as int);
                assert(t.drop_first() =~= s.skip(i + 1));
                assert(s.subrange(last as int, i as int) + seq![s[i as int]] =~= s.subrange(last as int, i + 1));
                assert(s.subrange(last as int, i as int) + replaced(t, k, v) =~= s.subrange(last as int, i + 1) + replaced(s.skip(i + 1), k, v));
            }
            i = i + 1;
        }
    }
    proof {
        assert(s.skip(n as int) =~= Seq::<char>::empty());
        assert(replaced(Seq::<char>::empty(), k, v) =~= Seq::<char>::empty());
    }
    let tail = template.substring_char(last, n);
    out.append(tail);
    proof {
        assert(out@ =~= replaced(s, k, v));
    }
    out
}

/// The plan text handed to the review chat's welcome job: the plan's
/// markdown followed by how many of its topics are completed.
pub open spec fn review_plan_text(plan: Seq<char>, completed: nat, total: nat) -> Seq<char> {
    plan + "\n"@ + decimal(completed) + " of "@ + decimal(total) + " topics completed."@
}

/// Builds the review chat's plan text.
pub fn review_plan(plan: &str, completed: usize, total: usize) -> (r: String)
    ensures
        r@ == review_plan_text(plan@, completed as nat, total as nat),
{
    let mut out = String::from_str(plan);
    out.append("\n");
    let c = decimal_string(completed as u64);
    out.append(c.as_str());
    out.append(" of ");
    let t = decimal_string(total as u64);
    out.append(t.as_str());
    out.append(" topics completed.");
    out
}

} // verus!
