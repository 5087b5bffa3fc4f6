//! Angle-bracket path patterns (`<converter:name>` or `<name>`), as Flask and Django write
//! them, turned into `{name}` templates.

use vstd::prelude::*;

use crate::adapter::route::path_params;
use crate::text::{
    chars_of, find_char, find_char_from, first_index, lemma_first_index, split_at_first, string_from,
    sub_chars, trim_chars, trimmed,
};

verus! {

/// The name and the optional converter of the text between `<` and `>`: split at the first
/// `:` when there is one, each side trimmed.
pub open spec fn angle_param(seg: Seq<char>) -> (Seq<char>, Option<Seq<char>>) {
    match first_index(seg, ':') {
        Option::Some(c) => (trimmed(seg.skip(c + 1)), Option::Some(trimmed(seg.take(c)))),
        Option::None => (trimmed(seg), Option::None),
    }
}

/// `s` with each `<...>` replaced by `{name}`, and the parameters met on the way. A `<` without
/// a closing `>` takes the rest of the text as its parameter.
pub open spec fn normalize_angles(s: Seq<char>) -> (Seq<char>, Seq<(Seq<char>, Option<Seq<char>>)>)
    decreases s.len(),
{
    if s.len() == 0 {
        (Seq::empty(), Seq::empty())
    } else if s[0] == '<' {
        proof {
            lemma_first_index(s.drop_first(), '>');
        }
        let (seg, tail) = split_at_first(s.drop_first(), '>');
        let (name, hint) = angle_param(seg);
        let rest = normalize_angles(tail);
        (seq!['{'] + name + seq!['}'] + rest.0, seq![(name, hint)] + rest.1)
    } else {
        let rest = normalize_angles(s.drop_first());
        (seq![s[0]] + rest.0, rest.1)
    }
}

/// No `{` or `}` occurs in `s`.
pub open spec fn no_braces(s: Seq<char>) -> bool {
    forall|i: int| 0 <= i < s.len() ==> s[i] != '{' && s[i] != '}'
}

/// The names among `ps` that are not empty, in order.
pub open spec fn nonempty_names(ps: Seq<(Seq<char>, Option<Seq<char>>)>) -> Seq<Seq<char>>
    decreases ps.len(),
{
    if ps.len() == 0 {
        Seq::empty()
    } else if ps[0].0.len() > 0 {
        seq![ps[0].0] + nonempty_names(ps.drop_first())
    } else {
        nonempty_names(ps.drop_first())
    }
}

/// A stretch of a text without braces has none.
proof fn lemma_no_braces_subrange(s: Seq<char>, a: int, b: int)
    requires
        no_braces(s),
        0 <= a <= b <= s.len(),
    ensures
        no_braces(s.subrange(a, b)),
{
    assert forall|i: int| 0 <= i < b - a implies s.subrange(a, b)[i] != '{' && s.subrange(a, b)[i] != '}' by {
        assert(s.subrange(a, b)[i] == s[a + i]);
    }
}

/// The name and converter of a segment without braces have none.
proof fn lemma_angle_param_no_braces(seg: Seq<char>)
    requires
        no_braces(seg),
    ensures
        no_braces(angle_param(seg).0),
{
    lemma_first_index(seg, ':');
    match first_index(seg, ':') {
        Option::Some(c) => {
            lemma_no_braces_subrange(seg, c + 1, seg.len() as int);
            assert(seg.skip(c + 1) =~= seg.subrange(c + 1, seg.len() as int));
            let part = seg.skip(c + 1);
            crate::text::lemma_trimmed_within(part);
            let (a, b) = choose|a: int, b: int| 0 <= a <= b <= part.len() && trimmed(part) == part.subrange(a, b);
            lemma_no_braces_subrange(part, a, b);
        },
        Option::None => {
            crate::text::lemma_trimmed_within(seg);
            let (a, b) = choose|a: int, b: int| 0 <= a <= b <= seg.len() && trimmed(seg) == seg.subrange(a, b);
            lemma_no_braces_subrange(seg, a, b);
        },
    }
}

/// The `{param}` names of a normalized text followed by `t` are the non-empty parameter names
/// met while normalizing, then those of `t`.
proof fn lemma_params_of_normalized(s: Seq<char>, t: Seq<char>)
    requires
        no_braces(s),
    ensures
        path_params(normalize_angles(s).0 + t) == nonempty_names(normalize_angles(s).1) + path_params(t),
    decreases s.len(),
{
    if s.len() == 0 {
        assert(normalize_angles(s).0 + t =~= t);
        assert(nonempty_names(normalize_angles(s).1) + path_params(t) =~= path_params(t));
    } else if s[0] != '<' {
        let rest = normalize_angles(s.drop_first());
        lemma_no_braces_subrange(s, 1, s.len() as int);
        assert(s.drop_first() =~= s.subrange(1, s.len() as int));
        lemma_params_of_normalized(s.drop_first(), t);
        let x = normalize_angles(s).0 + t;
        assert(x =~= seq![s[0]] + (rest.0 + t));
        assert(x[0] == s[0]);
        assert(x.drop_first() =~= rest.0 + t);
    } else {
        lemma_first_index(s.drop_first(), '>');
        let (seg, tail) = split_at_first(s.drop_first(), '>');
        let (name, hint) = angle_param(seg);
        let rest = normalize_angles(tail);
        let d = s.drop_first();
        lemma_no_braces_subrange(s, 1, s.len() as int);
        assert(d =~= s.subrange(1, s.len() as int));
        match first_index(d, '>') {
            Option::Some(k) => {
                lemma_no_braces_subrange(d, 0, k);
                assert(seg =~= d.subrange(0, k));
                lemma_no_braces_subrange(d, k + 1, d.len() as int);
                assert(tail =~= d.subrange(k + 1, d.len() as int));
            },
            Option::None => {
                assert(seg =~= d.subrange(0, d.len() as int));
                assert(no_braces(tail));
            },
        }
        lemma_angle_param_no_braces(seg);
        lemma_params_of_normalized(tail, t);
        let y = rest.0 + t;
        let x = normalize_angles(s).0 + t;
        assert(x =~= seq!['{'] + (name + seq!['}'] + y));
        let xd = x.drop_first();
        assert(xd =~= name + seq!['}'] + y);
        assert(xd[name.len() as int] == '}');
        assert forall|j: int| 0 <= j < name.len() implies xd[j] != '}' by {
            assert(xd[j] == name[j]);
        }
        crate::text::lemma_first_index_at(xd, '}', name.len() as int);
        assert(xd.take(name.len() as int) =~= name);
        assert(xd.skip(name.len() as int + 1) =~= y);
        let ps = normalize_angles(s).1;
        assert(ps =~= seq![(name, hint)] + rest.1);
        assert(ps.drop_first() =~= rest.1);
        if name.len() > 0 {
            assert(nonempty_names(ps) + path_params(t) =~= seq![name] + (nonempty_names(rest.1) + path_params(t)));
        }
    }
}

/// Every `<` opens a segment without another `<` in it: between a `<` and the `>` that closes it
/// (or the end of the text, when none does) no `<` occurs.
pub open spec fn angles_clean(s: Seq<char>) -> bool
    decreases s.len(),
{
    if s.len() == 0 {
        true
    } else if s[0] == '<' {
        proof {
            lemma_first_index(s.drop_first(), '>');
        }
        let (seg, tail) = split_at_first(s.drop_first(), '>');
        !seg.contains('<') && angles_clean(tail)
    } else {
        angles_clean(s.drop_first())
    }
}

/// The name of a segment is made of the segment's characters.
proof fn lemma_angle_name_chars(seg: Seq<char>, c: char)
    requires
        !seg.contains(c),
    ensures
        !angle_param(seg).0.contains(c),
{
    lemma_first_index(seg, ':');
    let (x, a, b) = match first_index(seg, ':') {
        Option::Some(k) => {
            let part = seg.skip(k + 1);
            crate::text::lemma_trimmed_within(part);
            let (a, b) = choose|a: int, b: int| 0 <= a <= b <= part.len() && trimmed(part) == part.subrange(a, b);
            assert forall|i: int| 0 <= i < part.len() implies part[i] != c by {
                assert(part[i] == seg[k + 1 + i]);
            }
            (part, a, b)
        },
        Option::None => {
            crate::text::lemma_trimmed_within(seg);
            let (a, b) = choose|a: int, b: int| 0 <= a <= b <= seg.len() && trimmed(seg) == seg.subrange(a, b);
            (seg, a, b)
        },
    };
    assert(angle_param(seg).0 == x.subrange(a, b));
    assert forall|i: int| 0 <= i < b - a implies x.subrange(a, b)[i] != c by {
        assert(x.subrange(a, b)[i] == x[a + i]);
        if x[a + i] == c {
            assert(x.contains(c));
            if x != seg {
                let k = choose|k: int| first_index(seg, ':') == Option::Some(k);
                assert(seg[k + 1 + a + i] == c);
            }
        }
    }
}

/// Normalizing a text whose segments hold no `<` leaves no `<`.
pub proof fn lemma_normalized_has_no_angle(s: Seq<char>)
    requires
        angles_clean(s),
    ensures
        !normalize_angles(s).0.contains('<'),
    decreases s.len(),
{
    let n = normalize_angles(s).0;
    if s.len() == 0 {
    } else if s[0] != '<' {
        let rest = normalize_angles(s.drop_first());
        lemma_normalized_has_no_angle(s.drop_first());
        assert(n =~= seq![s[0]] + rest.0);
        assert forall|i: int| 0 <= i < n.len() implies n[i] != '<' by {
            if i > 0 {
                assert(n[i] == rest.0[i - 1]);
            }
        }
    } else {
        lemma_first_index(s.drop_first(), '>');
        let (seg, tail) = split_at_first(s.drop_first(), '>');
        let (name, hint) = angle_param(seg);
        let rest = normalize_angles(tail);
        lemma_angle_name_chars(seg, '<');
        match first_index(s.drop_first(), '>') {
            Option::Some(k) => {},
            Option::None => {},
        }
        lemma_normalized_has_no_angle(tail);
        assert(n =~= seq!['{'] + name + seq!['}'] + rest.0);
        assert forall|i: int| 0 <= i < n.len() implies n[i] != '<' by {
            if 1 <= i <= name.len() {
                assert(n[i] == name[i - 1]);
            } else if i > name.len() + 1 {
                assert(n[i] == rest.0[i - name.len() - 2]);
            }
        }
    }
}

/// A text without `<` normalizes to itself, with no parameters.
pub proof fn lemma_normalize_without_angles(s: Seq<char>)
    requires
        !s.contains('<'),
    ensures
        normalize_angles(s).0 == s,
        normalize_angles(s).1 == Seq::<(Seq<char>, Option<Seq<char>>)>::empty(),
    decreases s.len(),
{
    if s.len() > 0 {
        assert(s[0] != '<') by {
            assert(s.contains(s[0]));
        }
        assert forall|i: int| 0 <= i < s.drop_first().len() implies s.drop_first()[i] != '<' by {
            assert(s.drop_first()[i] == s[i + 1]);
            assert(s.contains(s[i + 1]));
        }
        lemma_normalize_without_angles(s.drop_first());
        assert(seq![s[0]] + s.drop_first() =~= s);
    }
}

/// A normalized text ends in two slashes only when the text itself does.
pub proof fn lemma_normalized_double_slash(s: Seq<char>)
    requires
        normalize_angles(s).0.len() >= 2,
        normalize_angles(s).0.last() == '/',
        normalize_angles(s).0[normalize_angles(s).0.len() - 2] == '/',
    ensures
        s.len() >= 2,
        s.last() == '/',
        s[s.len() - 2] == '/',
    decreases s.len(),
{
    let n = normalize_angles(s).0;
    if s[0] != '<' {
        let d = s.drop_first();
        let rest = normalize_angles(d);
        assert(n =~= seq![s[0]] + rest.0);
        if rest.0.len() >= 2 {
            assert(rest.0.last() == n.last());
            assert(rest.0[rest.0.len() - 2] == n[n.len() - 2]);
            lemma_normalized_double_slash(d);
            assert(s.last() == d.last());
            assert(s[s.len() - 2] == d[d.len() - 2]);
        } else {
            assert(rest.0.len() == 1);
            assert(d.len() > 0);
            if d[0] == '<' {
                lemma_first_index(d.drop_first(), '>');
                assert(rest.0.len() >= 2);
            } else if d.len() > 1 {
                let dd = d.drop_first();
                if dd[0] == '<' {
                    lemma_first_index(dd.drop_first(), '>');
                }
                assert(normalize_angles(dd).0.len() >= 1);
                assert(rest.0 =~= seq![d[0]] + normalize_angles(dd).0);
            }
            assert(rest.0 == seq![d[0]]);
            assert(s.len() == 2);
        }
    } else {
        lemma_first_index(s.drop_first(), '>');
        let (seg, tail) = split_at_first(s.drop_first(), '>');
        let (name, hint) = angle_param(seg);
        let rest = normalize_angles(tail);
        assert(n =~= seq!['{'] + name + seq!['}'] + rest.0);
        if rest.0.len() < 2 {
            if rest.0.len() == 0 {
                assert(n.last() == '}');
            } else {
                assert(n[n.len() - 2] == '}');
            }
        }
        assert(rest.0.last() == n.last());
        assert(rest.0[rest.0.len() - 2] == n[n.len() - 2]);
        lemma_normalized_double_slash(tail);
        match first_index(s.drop_first(), '>') {
            Option::Some(k) => {
                assert(tail =~= s.skip(k + 2));
                assert(s.last() == tail.last());
                assert(s[s.len() - 2] == tail[tail.len() - 2]);
            },
            Option::None => {
                assert(tail.len() == 0);
            },
        }
    }
}

/// `{name}` followed by `y` reads as `name`, when it is not empty, then the names of `y`.
proof fn lemma_params_after_brace(name: Seq<char>, y: Seq<char>)
    requires
        no_braces(name),
    ensures
        path_params(seq!['{'] + name + seq!['}'] + y) == (if name.len() > 0 {
            seq![name]
        } else {
            Seq::<Seq<char>>::empty()
        }) + path_params(y),
{
    let x = seq!['{'] + name + seq!['}'] + y;
    assert(x[0] == '{');
    let xd = x.drop_first();
    assert(xd =~= name + seq!['}'] + y);
    assert(xd[name.len() as int] == '}');
    assert forall|j: int| 0 <= j < name.len() implies xd[j] != '}' by {
        assert(xd[j] == name[j]);
    }
    crate::text::lemma_first_index_at(xd, '}', name.len() as int);
    assert(xd.take(name.len() as int) =~= name);
    assert(xd.skip(name.len() as int + 1) =~= y);
    if name.len() == 0 {
        assert(Seq::<Seq<char>>::empty() + path_params(y) =~= path_params(y));
    }
}

/// A normalized text that ends in `/` keeps its `{param}` names without that `/`.
pub proof fn lemma_params_of_normalized_but_last(s: Seq<char>)
    requires
        no_braces(s),
        normalize_angles(s).0.len() > 0,
        normalize_angles(s).0.last() == '/',
    ensures
        path_params(normalize_angles(s).0.drop_last()) == nonempty_names(normalize_angles(s).1),
    decreases s.len(),
{
    let n = normalize_angles(s).0;
    if s[0] != '<' {
        let d = s.drop_first();
        let rest = normalize_angles(d);
        lemma_no_braces_subrange(s, 1, s.len() as int);
        assert(d =~= s.subrange(1, s.len() as int));
        assert(n =~= seq![s[0]] + rest.0);
        if rest.0.len() == 0 {
            if d.len() > 0 {
                assert(rest.0.len() > 0);
            }
            assert(n.drop_last() =~= Seq::<char>::empty());
            assert(rest.1 =~= Seq::<(Seq<char>, Option<Seq<char>>)>::empty());
        } else {
            lemma_params_of_normalized_but_last(d);
            let x = n.drop_last();
            assert(x =~= seq![s[0]] + rest.0.drop_last());
            assert(x[0] == s[0]);
            assert(x.drop_first() =~= rest.0.drop_last());
        }
    } else {
        lemma_first_index(s.drop_first(), '>');
        let (seg, tail) = split_at_first(s.drop_first(), '>');
        let (name, hint) = angle_param(seg);
        let rest = normalize_angles(tail);
        let d = s.drop_first();
        lemma_no_braces_subrange(s, 1, s.len() as int);
        assert(d =~= s.subrange(1, s.len() as int));
        match first_index(d, '>') {
            Option::Some(k) => {
                lemma_no_braces_subrange(d, 0, k);
                assert(seg =~= d.subrange(0, k));
                lemma_no_braces_subrange(d, k + 1, d.len() as int);
                assert(tail =~= d.subrange(k + 1, d.len() as int));
            },
            Option::None => {
                assert(seg =~= d.subrange(0, d.len() as int));
                assert(no_braces(tail));
            },
        }
        lemma_angle_param_no_braces(seg);
        assert(n =~= seq!['{'] + name + seq!['}'] + rest.0);
        assert(rest.0.len() > 0);
        assert(rest.0.last() == n.last());
        lemma_params_of_normalized_but_last(tail);
        assert(n.drop_last() =~= seq!['{'] + name + seq!['}'] + rest.0.drop_last());
        lemma_params_after_brace(name, rest.0.drop_last());
        let ps = normalize_angles(s).1;
        assert(ps =~= seq![(name, hint)] + rest.1);
        assert(ps.drop_first() =~= rest.1);
        if name.len() > 0 {
            assert(nonempty_names(ps) =~= seq![name] + nonempty_names(rest.1));
        } else {
            assert(Seq::<Seq<char>>::empty() + nonempty_names(rest.1) =~= nonempty_names(rest.1));
        }
    }
}

/// Normalizing a path without braces yields a `{param}` template whose parameters, as
/// `extract_path_params` reads them, are the parameters found, those with a name.
pub proof fn law_normalized_path_params(path: Seq<char>)
    requires
        no_braces(path),
    ensures
        path_params(normalize_angles(path).0) == nonempty_names(normalize_angles(path).1),
{
    lemma_params_of_normalized(path, Seq::empty());
    assert(normalize_angles(path).0 + Seq::<char>::empty() =~= normalize_angles(path).0);
    assert(path_params(Seq::<char>::empty()) =~= Seq::<Seq<char>>::empty());
    assert(nonempty_names(normalize_angles(path).1) + Seq::<Seq<char>>::empty() =~= nonempty_names(
        normalize_angles(path).1,
    ));
}

/// The character sequence of an optional string.
pub open spec fn opt_view(o: Option<String>) -> Option<Seq<char>> {
    match o {
        Option::Some(x) => Option::Some(x@),
        Option::None => Option::None,
    }
}

/// A copy of an optional string.
pub fn clone_opt(o: &Option<String>) -> (r: Option<String>)
    ensures
        r == *o,
{
    match o {
        Some(x) => Some(x.clone()),
        None => None,
    }
}

/// The character sequences of parsed parameters.
pub open spec fn param_views(v: Seq<(String, Option<String>)>) -> Seq<(Seq<char>, Option<Seq<char>>)> {
    v.map_values(|p: (String, Option<String>)| (p.0@, opt_view(p.1)))
}

proof fn lemma_normalize_step(v: Seq<char>, i: int)
    requires
        0 <= i < v.len(),
    ensures
        v[i] != '<' ==> normalize_angles(v.skip(i)) == ({
            let rest = normalize_angles(v.skip(i + 1));
            (seq![v[i]] + rest.0, rest.1)
        }),
        v[i] == '<' ==> {
            let k = match first_index(v.skip(i + 1), '>') {
                Option::Some(k) => i + 1 + k,
                Option::None => v.len() as int,
            };
            let next = match first_index(v.skip(i + 1), '>') {
                Option::Some(k) => i + 1 + k + 1,
                Option::None => v.len() as int,
            };
            let (name, hint) = angle_param(v.subrange(i + 1, k));
            let rest = normalize_angles(v.skip(next));
            &&& i + 1 <= k <= v.len()
            &&& k < next ==> v[k] == '>'
            &&& next <= v.len()
            &&& normalize_angles(v.skip(i)) == (seq!['{'] + name + seq!['}'] + rest.0, seq![(name, hint)]
                + rest.1)
        },
{
    let s = v.skip(i);
    assert(s.drop_first() == v.skip(i + 1));
    lemma_first_index(v.skip(i + 1), '>');
    match first_index(v.skip(i + 1), '>') {
        Option::Some(k) => {
            assert(v.skip(i + 1).take(k) == v.subrange(i + 1, i + 1 + k));
            assert(v.skip(i + 1).skip(k + 1) == v.skip(i + 1 + k + 1));
            assert(v.skip(i + 1)[k] == v[i + 1 + k]);
        },
        Option::None => {
            assert(v.skip(i + 1) == v.subrange(i + 1, v.len() as int));
            assert(v.skip(v.len() as int) == Seq::<char>::empty());
        },
    }
}

/// The name and converter of a segment, as `angle_param` describes.
fn parse_segment(seg: &[char]) -> (r: (String, Option<String>))
    ensures
        (r.0@, opt_view(r.1)) == angle_param(seg@),
{
    match find_char(seg, ':') {
        Some(c) => {
            proof { lemma_first_index(seg@, ':'); }
            assert(c < seg.len());
            let hint = trim_chars(sub_chars(seg, 0, c).as_slice());
            let name = trim_chars(sub_chars(seg, c + 1, seg.len()).as_slice());
            assert(seg@.subrange(0, c as int) == seg@.take(c as int));
            assert(seg@.subrange(c + 1, seg@.len() as int) == seg@.skip(c + 1));
            (string_from(name.as_slice()), Some(string_from(hint.as_slice())))
        },
        None => {
            let name = trim_chars(seg);
            (string_from(name.as_slice()), None)
        },
    }
}

/// Rewrites `<converter:name>` and `<name>` into `{name}` and collects the parameters.
pub fn normalize_angle_path(path: &str) -> (r: (Vec<char>, Vec<(String, Option<String>)>))
    ensures
        (r.0@, param_views(r.1@)) == normalize_angles(path@),
{
    let v = crate::text::chars_of(path);
    let mut out: Vec<char> = Vec::new();
    let mut params: Vec<(String, Option<String>)> = Vec::new();
    let mut i: usize = 0;
    assert(v@.skip(0) == v@);
    while i < v.len()
        invariant
            i <= v@.len(),
            v@ == path@,
            out@ + normalize_angles(v@.skip(i as int)).0 == normalize_angles(v@).0,
            param_views(params@) + normalize_angles(v@.skip(i as int)).1 == normalize_angles(v@).1,
        decreases v@.len() - i,
    {
        proof { lemma_normalize_step(v@, i as int); }
        let c = v[i];
        if c == '<' {
            let (k, next) = match find_char_from(v.as_slice(), i + 1, '>') {
                Some(k) => (k, k + 1),
                None => (v.len(), v.len()),
            };
            let seg = sub_chars(v.as_slice(), i + 1, k);
            let (name, hint) = parse_segment(seg.as_slice());
            let ghost rest = normalize_angles(v@.skip(next as int));
            let ghost out0 = out@;
            let ghost pv0 = param_views(params@);
            out.push('{');
            let nv = crate::text::chars_of(name.as_str());
            let mut j: usize = 0;
            while j < nv.len()
                invariant
                    j <= nv@.len(),
                    out@ == out0 + seq!['{'] + nv@.take(j as int),
                decreases nv@.len() - j,
            {
                out.push(nv[j]);
                assert(nv@.take(j + 1) == nv@.take(j as int).push(nv@[j as int]));
                j = j + 1;
            }
            assert(nv@.take(nv@.len() as int) == nv@);
            out.push('}');
            params.push((name, hint));
            assert(param_views(params@) == pv0.push((nv@, opt_view(params@.last().1))));
            assert(out@ + rest.0 == out0 + (seq!['{'] + nv@ + seq!['}'] + rest.0));
            assert(param_views(params@) + rest.1 == pv0 + (seq![(nv@, opt_view(params@.last().1))] + rest.1));
            i = next;
        } else {
            let ghost out0 = out@;
            out.push(c);
            assert(out@ + normalize_angles(v@.skip(i + 1)).0 == out0 + (seq![c] + normalize_angles(v@.skip(i + 1)).0));
            i = i + 1;
        }
    }
    assert(v@.skip(i as int) == Seq::<char>::empty());
    (out, params)
}

/// The first quoted string of a decorator: quoting starts at the first quote character, `"`
/// or `'`, whichever comes first, and runs to the next copy of the same quote.
pub open spec fn quoted_path(d: Seq<char>) -> Option<Seq<char>> {
    let start = match (first_index(d, '"'), first_index(d, '\'')) {
        (Option::Some(a), Option::Some(b)) => if a < b {
            Option::Some((a, '"'))
        } else {
            Option::Some((b, '\''))
        },
        (Option::Some(a), Option::None) => Option::Some((a, '"')),
        (Option::None, Option::Some(b)) => Option::Some((b, '\'')),
        (Option::None, Option::None) => Option::None,
    };
    match start {
        Option::Some((s, q)) => match first_index(d.skip(s + 1), q) {
            Option::Some(e) => Option::Some(d.subrange(s + 1, s + 1 + e)),
            Option::None => Option::None,
        },
        Option::None => Option::None,
    }
}

/// The first quoted string of `decorator`, as `quoted_path` describes.
pub fn extract_quoted(decorator: &str) -> (r: Option<String>)
    ensures
        match r {
            Option::Some(p) => quoted_path(decorator@) == Option::Some(p@),
            Option::None => quoted_path(decorator@) is None,
        },
{
    let d = chars_of(decorator);
    proof {
        lemma_first_index(d@, '"');
        lemma_first_index(d@, '\'');
    }
    let (start, quote) = match (find_char(d.as_slice(), '"'), find_char(d.as_slice(), '\'')) {
        (Some(a), Some(b)) => if a < b {
            (a, '"')
        } else {
            (b, '\'')
        },
        (Some(a), None) => (a, '"'),
        (None, Some(b)) => (b, '\''),
        (None, None) => {
            return None;
        },
    };
    assert(start < d.len());
    match find_char_from(d.as_slice(), start + 1, quote) {
        Some(e) => {
            let p = sub_chars(d.as_slice(), start + 1, e);
            Some(string_from(p.as_slice()))
        },
        None => None,
    }
}

} // verus!
