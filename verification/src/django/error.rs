use vstd::prelude::*;

verus! {

broadcast use vstd::string::group_string_axioms;

/// Failures of Django route extraction.
#[derive(Debug, PartialEq, Eq)]
pub enum DjangoError {
    NoUrlPatterns,
    InvalidUrlPattern(String),
}

impl DjangoError {
    /// The error's message.
    pub open spec fn text(self) -> Seq<char> {
        match self {
            DjangoError::NoUrlPatterns => "no urlpatterns found in module"@,
            DjangoError::InvalidUrlPattern(s) => "invalid URL pattern: "@ + s@,
        }
    }

    /// The error's message.
    pub fn describe(&self) -> (r: String)
        ensures
            r@ == self.text(),
    {
        proof {
            reveal_strlit("no urlpatterns found in module");
            reveal_strlit("invalid URL pattern: ");
        }
        match self {
            DjangoError::NoUrlPatterns => "no urlpatterns found in module".to_string(),
            DjangoError::InvalidUrlPattern(s) => {
                let mut m = "invalid URL pattern: ".to_string();
                m.append(s.as_str());
                m
            },
        }
    }
}

} // verus!
