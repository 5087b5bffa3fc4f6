use vstd::prelude::*;

use crate::adapter::pattern::{
    angles_clean, clone_opt, law_normalized_path_params, lemma_normalize_without_angles,
    lemma_normalized_double_slash, lemma_normalized_has_no_angle, lemma_params_of_normalized_but_last, no_braces, nonempty_names,
    normalize_angle_path, normalize_angles, opt_view, param_views,
};
use crate::adapter::route::path_params;
use crate::hir::TypeAnnotation;
use crate::text::{ends_with, str_equal, string_from};

verus! {

/// A Django path converter such as `<int:id>`: name `id`, converter `int`.
#[derive(Debug, Clone, PartialEq)]
pub struct DjangoPathParam {
    pub name: String,
    pub converter: Option<String>,
}

/// The character sequences of Django path parameters.
pub open spec fn django_param_views(v: Seq<DjangoPathParam>) -> Seq<(Seq<char>, Option<Seq<char>>)> {
    v.map_values(|p: DjangoPathParam| (p.name@, opt_view(p.converter)))
}

/// The type that a Django converter gives its parameter.
pub open spec fn django_converter_type(conv: Option<Seq<char>>) -> TypeAnnotation {
    match conv {
        Option::None => TypeAnnotation::Str,
        Option::Some(c) => if c == "int"@ {
            TypeAnnotation::Int
        } else if c == "str"@ || c == "slug"@ || c == "uuid"@ || c == "path"@ {
            TypeAnnotation::Str
        } else {
            TypeAnnotation::Any
        },
    }
}

/// Django's built-in converters that match text.
pub open spec fn django_string_converters() -> Seq<Seq<char>> {
    seq!["str"@, "slug"@, "uuid"@, "path"@]
}

/// A Django path parameter is a string when it has no converter or one of the built-in string
/// converters `str`, `slug`, `uuid`, `path`; an integer exactly when its converter is `int`;
/// and untyped (`Any`) for every other converter.
pub proof fn law_django_converter_types(conv: Option<Seq<char>>)
    ensures
        (django_converter_type(conv) == TypeAnnotation::Str) <==> (conv is None || django_string_converters().contains(
            conv->0,
        )),
        (django_converter_type(conv) == TypeAnnotation::Int) <==> conv == Option::Some("int"@),
        (django_converter_type(conv) == TypeAnnotation::Any) <==> (conv is Some && conv->0 != "int"@
            && !django_string_converters().contains(conv->0)),
{
    reveal_strlit("int");
    reveal_strlit("str");
    reveal_strlit("slug");
    reveal_strlit("uuid");
    reveal_strlit("path");
    let cs = django_string_converters();
    assert(cs[0] == "str"@ && cs[1] == "slug"@ && cs[2] == "uuid"@ && cs[3] == "path"@);
    match conv {
        Option::Some(c) => {
            if cs.contains(c) {
                let k = choose|k: int| 0 <= k < cs.len() && cs[k] == c;
                assert(k == 0 || k == 1 || k == 2 || k == 3);
                assert("int"@[0] == 'i');
                assert(c[0] != 'i');
                assert(c != "int"@);
            }
            if c == "str"@ || c == "slug"@ || c == "uuid"@ || c == "path"@ {
                assert(cs.contains(c)) by {
                    if c == "str"@ {
                        assert(cs[0] == c);
                    } else if c == "slug"@ {
                        assert(cs[1] == c);
                    } else if c == "uuid"@ {
                        assert(cs[2] == c);
                    } else {
                        assert(cs[3] == c);
                    }
                }
            }
        },
        Option::None => {},
    }
}

/// The normalized Django path: `{name}` templates, a leading `/`, and no trailing `/` unless
/// the path is just `/`.
pub open spec fn normalized_django_path(s: Seq<char>) -> Seq<char> {
    let n = normalize_angles(s).0;
    let n1 = if n.len() > 0 && n[0] == '/' {
        n
    } else {
        seq!['/'] + n
    };
    if n1.len() > 1 && n1.last() == '/' {
        n1.drop_last()
    } else {
        n1
    }
}

/// A normalized Django path starts with `/`; it ends with `/` only when it is `/` itself or
/// when the pattern's converted text ends with two slashes, as only one is dropped.
pub proof fn law_django_path_shape(pattern: Seq<char>)
    ensures
        normalized_django_path(pattern).len() > 0,
        normalized_django_path(pattern)[0] == '/',
        ({
            let n = normalize_angles(pattern).0;
            !(n.len() >= 2 && n[n.len() - 1] == '/' && n[n.len() - 2] == '/')
        }) ==> normalized_django_path(pattern).len() == 1 || normalized_django_path(pattern).last() != '/',
{
}

/// Normalizing a Django path without braces yields a `{param}` template whose parameters, as
/// `extract_path_params` reads them, are the converters found, those with a name.
pub proof fn law_django_path_params(pattern: Seq<char>)
    requires
        no_braces(pattern),
    ensures
        path_params(normalized_django_path(pattern)) == nonempty_names(normalize_angles(pattern).1),
{
    let n = normalize_angles(pattern).0;
    law_normalized_path_params(pattern);
    let slash = seq!['/'];
    if !(n.len() > 0 && n[0] == '/') {
        let n1 = slash + n;
        assert(n1[0] == '/');
        assert(n1.drop_first() =~= n);
        if n1.len() > 1 && n1.last() == '/' {
            assert(n.last() == n1.last());
            lemma_params_of_normalized_but_last(pattern);
            let m = n1.drop_last();
            assert(m =~= slash + n.drop_last());
            assert(m[0] == '/');
            assert(m.drop_first() =~= n.drop_last());
        }
    } else if n.len() > 1 && n.last() == '/' {
        lemma_params_of_normalized_but_last(pattern);
    }
}

/// Normalizing an already normalized Django path gives it back, with no parameters, when no
/// `<...>` segment of the original pattern holds a `<` and the pattern does not end in `//`.
pub proof fn law_django_normalization_idempotent(pattern: Seq<char>)
    requires
        angles_clean(pattern),
        !ends_with(pattern, "//"@),
    ensures
        normalized_django_path(normalized_django_path(pattern)) == normalized_django_path(pattern),
        normalize_angles(normalized_django_path(pattern)).1 == Seq::<(Seq<char>, Option<Seq<char>>)>::empty(),
{
    reveal_strlit("//");
    let n = normalize_angles(pattern).0;
    let m = normalized_django_path(pattern);
    lemma_normalized_has_no_angle(pattern);
    let n1 = if n.len() > 0 && n[0] == '/' { n } else { seq!['/'] + n };
    assert(!n1.contains('<')) by {
        if !(n.len() > 0 && n[0] == '/') {
            assert forall|i: int| 0 <= i < n1.len() implies n1[i] != '<' by {
                if i > 0 {
                    assert(n1[i] == n[i - 1]);
                    assert(n.contains(n[i - 1]));
                }
            }
        }
    }
    assert(!m.contains('<')) by {
        if m != n1 {
            assert forall|i: int| 0 <= i < m.len() implies m[i] != '<' by {
                assert(m[i] == n1[i]);
                assert(n1.contains(n1[i]));
            }
        }
    }
    lemma_normalize_without_angles(m);
    law_django_path_shape(pattern);
    if n.len() >= 2 && n[n.len() - 1] == '/' && n[n.len() - 2] == '/' {
        lemma_normalized_double_slash(pattern);
        assert(pattern.subrange(pattern.len() - 2, pattern.len() as int) =~= "//"@);
    }
}

impl DjangoPathParam {
    /// The type annotation that the parameter's converter implies.
    pub fn to_type_annotation(&self) -> (r: TypeAnnotation)
        ensures
            r == django_converter_type(opt_view(self.converter)),
    {
        proof {
            reveal_strlit("int");
            reveal_strlit("str");
            reveal_strlit("slug");
            reveal_strlit("uuid");
            reveal_strlit("path");
        }
        match &self.converter {
            None => TypeAnnotation::Str,
            Some(t) => {
                let t = t.as_str();
                if str_equal(t, "int") {
                    TypeAnnotation::Int
                } else if str_equal(t, "str") || str_equal(t, "slug") || str_equal(t, "uuid")
                    || str_equal(t, "path") {
                    TypeAnnotation::Str
                } else {
                    TypeAnnotation::Any
                }
            },
        }
    }
}

/// Normalizes a Django path pattern (`<converter:name>` or `<name>`) to the `{name}` form,
/// with a leading `/` and without a trailing one, and returns the parameters it found.
pub fn normalize_django_path(django_path: &str) -> (r: (String, Vec<DjangoPathParam>))
    ensures
        r.0@ == normalized_django_path(django_path@),
        django_param_views(r.1@) == normalize_angles(django_path@).1,
{
    let (chars, raw) = normalize_angle_path(django_path);
    let mut params: Vec<DjangoPathParam> = Vec::new();
    let mut i: usize = 0;
    while i < raw.len()
        invariant
            i <= raw@.len(),
            django_param_views(params@) == param_views(raw@).take(i as int),
        decreases raw@.len() - i,
    {
        let p = DjangoPathParam { name: raw[i].0.clone(), converter: clone_opt(&raw[i].1) };
        params.push(p);
        assert(param_views(raw@).take(i + 1) == param_views(raw@).take(i as int).push(
            param_views(raw@)[i as int],
        ));
        i = i + 1;
    }
    assert(param_views(raw@).take(raw@.len() as int) == param_views(raw@));
    let mut n: Vec<char> = chars;
    if !(n.len() > 0 && n[0] == '/') {
        n.insert(0, '/');
    }
    if n.len() > 1 && n[n.len() - 1] == '/' {
        n.pop();
    }
    (string_from(n.as_slice()), params)
}

} // verus!
