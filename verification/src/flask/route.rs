use vstd::prelude::*;

pub use crate::adapter::route::extract_path_params;
pub use crate::adapter::{HttpMethod, ParamSource, RouteInfo, RouteParam};
use crate::adapter::pattern::{clone_opt, normalize_angle_path, normalize_angles, opt_view, param_views};
use crate::hir::TypeAnnotation;
use crate::text::{str_equal, string_from};

verus! {

/// A path parameter written in Flask's angle-bracket syntax.
#[derive(Debug, Clone, PartialEq)]
pub struct FlaskPathParam {
    pub name: String,
    /// The Flask converter, such as `int`, `float`, `string`, `path` or `uuid`.
    pub flask_type: Option<String>,
}

/// The character sequences of Flask path parameters.
pub open spec fn flask_param_views(v: Seq<FlaskPathParam>) -> Seq<(Seq<char>, Option<Seq<char>>)> {
    v.map_values(|p: FlaskPathParam| (p.name@, opt_view(p.flask_type)))
}

/// The type that a Flask converter gives its parameter.
pub open spec fn flask_converter_type(conv: Option<Seq<char>>) -> TypeAnnotation {
    match conv {
        Option::None => TypeAnnotation::Str,
        Option::Some(c) => if c == "int"@ {
            TypeAnnotation::Int
        } else if c == "float"@ {
            TypeAnnotation::Float
        } else if c == "string"@ || c == "path"@ || c == "uuid"@ {
            TypeAnnotation::Str
        } else {
            TypeAnnotation::Any
        },
    }
}

/// Flask's built-in converters that match text.
pub open spec fn flask_string_converters() -> Seq<Seq<char>> {
    seq!["string"@, "path"@, "uuid"@]
}

/// A Flask path parameter is a string when it has no converter or one of the text converters
/// `string`, `path`, `uuid`; an integer exactly for `int`, a float exactly for `float`; and
/// untyped (`Any`) for every other converter.
pub proof fn law_flask_converter_types(conv: Option<Seq<char>>)
    ensures
        (flask_converter_type(conv) == TypeAnnotation::Str) <==> (conv is None || flask_string_converters().contains(
            conv->0,
        )),
        (flask_converter_type(conv) == TypeAnnotation::Int) <==> conv == Option::Some("int"@),
        (flask_converter_type(conv) == TypeAnnotation::Float) <==> conv == Option::Some("float"@),
        (flask_converter_type(conv) == TypeAnnotation::Any) <==> (conv is Some && conv->0 != "int"@ && conv->0
            != "float"@ && !flask_string_converters().contains(conv->0)),
{
    reveal_strlit("int");
    reveal_strlit("float");
    reveal_strlit("string");
    reveal_strlit("path");
    reveal_strlit("uuid");
    let cs = flask_string_converters();
    assert(cs[0] == "string"@ && cs[1] == "path"@ && cs[2] == "uuid"@);
    assert("int"@[0] == 'i' && "float"@[0] == 'f' && "int"@ != "float"@);
    match conv {
        Option::Some(c) => {
            if cs.contains(c) {
                let k = choose|k: int| 0 <= k < cs.len() && cs[k] == c;
                assert(k == 0 || k == 1 || k == 2);
                assert(c[0] != 'i' && c[0] != 'f');
            }
            if c == "string"@ || c == "path"@ || c == "uuid"@ {
                assert(cs.contains(c)) by {
                    if c == "string"@ {
                        assert(cs[0] == c);
                    } else if c == "path"@ {
                        assert(cs[1] == c);
                    } else {
                        assert(cs[2] == c);
                    }
                }
            }
        },
        Option::None => {},
    }
}

/// Converts a Flask path (`<type:param>` or `<param>`) to the `{param}` form, and returns
/// the parameters it found.
pub fn normalize_flask_path(flask_path: &str) -> (r: (String, Vec<FlaskPathParam>))
    ensures
        (r.0@, flask_param_views(r.1@)) == normalize_angles(flask_path@),
{
    let (chars, raw) = normalize_angle_path(flask_path);
    let mut params: Vec<FlaskPathParam> = Vec::new();
    let mut i: usize = 0;
    while i < raw.len()
        invariant
            i <= raw@.len(),
            flask_param_views(params@) == param_views(raw@).take(i as int),
        decreases raw@.len() - i,
    {
        let p = FlaskPathParam { name: raw[i].0.clone(), flask_type: clone_opt(&raw[i].1) };
        params.push(p);
        assert(param_views(raw@).take(i + 1) == param_views(raw@).take(i as int).push(
            param_views(raw@)[i as int],
        ));
        i = i + 1;
    }
    assert(param_views(raw@).take(raw@.len() as int) == param_views(raw@));
    (string_from(chars.as_slice()), params)
}

impl FlaskPathParam {
    /// The type annotation that the parameter's converter implies.
    pub fn to_type_annotation(&self) -> (r: TypeAnnotation)
        ensures
            r == flask_converter_type(opt_view(self.flask_type)),
    {
        proof {
            reveal_strlit("int");
            reveal_strlit("float");
            reveal_strlit("string");
            reveal_strlit("path");
            reveal_strlit("uuid");
        }
        match &self.flask_type {
            None => TypeAnnotation::Str,
            Some(t) => {
                let t = t.as_str();
                if str_equal(t, "int") {
                    TypeAnnotation::Int
                } else if str_equal(t, "float") {
                    TypeAnnotation::Float
                } else if str_equal(t, "string") || str_equal(t, "path") || str_equal(t, "uuid") {
                    TypeAnnotation::Str
                } else {
                    TypeAnnotation::Any
                }
            },
        }
    }
}

} // verus!
