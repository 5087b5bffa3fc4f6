use vstd::prelude::*;

use super::types::TypeAnnotation;
use crate::text::{ends_with, str_ends_with, str_equal};

verus! {

/// What the type system knows of a class definition.
#[derive(Debug, PartialEq)]
pub struct ClassDef {
    pub name: String,
    pub bases: Vec<String>,
    pub fields: Vec<(String, TypeAnnotation)>,
    pub methods: Vec<String>,
}

/// A base name that marks a pydantic model: `BaseModel` itself or a dotted path ending in it.
pub open spec fn is_base_model_name(b: Seq<char>) -> bool {
    b == "BaseModel"@ || ends_with(b, ".BaseModel"@)
}

impl ClassDef {
    /// Index of the first field named `field_name`, if any.
    pub open spec fn field_index(self, field_name: Seq<char>) -> Option<int> {
        if exists|k: int| 0 <= k < self.fields@.len() && #[trigger] self.fields@[k].0@ == field_name {
            Option::Some(choose|k: int| 0 <= k < self.fields@.len() && self.fields@[k].0@ == field_name
                && forall|j: int| 0 <= j < k ==> #[trigger] self.fields@[j].0@ != field_name)
        } else {
            Option::None
        }
    }

    /// A class with no bases, fields or methods.
    pub fn new(name: &str) -> (c: ClassDef)
        ensures
            c.name@ == name@,
            c.bases@.len() == 0,
            c.fields@.len() == 0,
            c.methods@.len() == 0,
    {
        ClassDef { name: name.to_string(), bases: Vec::new(), fields: Vec::new(), methods: Vec::new() }
    }

    /// The type of the first field named `field_name`.
    pub fn field_type(&self, field_name: &str) -> (r: Option<&TypeAnnotation>)
        ensures
            match self.field_index(field_name@) {
                Option::Some(k) => r == Some(&self.fields@[k].1),
                Option::None => r is None,
            },
    {
        let mut i: usize = 0;
        while i < self.fields.len()
            invariant
                i <= self.fields@.len(),
                forall|j: int| 0 <= j < i ==> #[trigger] self.fields@[j].0@ != field_name@,
            decreases self.fields@.len() - i,
        {
            if str_equal(self.fields[i].0.as_str(), field_name) {
                let ghost k = self.field_index(field_name@)->0;
                proof {
                    assert(self.fields@[i as int].0@ == field_name@);
                    if k < i {
                    } else if k > i {
                    }
                }
                return Some(&self.fields[i].1);
            }
            i = i + 1;
        }
        None
    }

    /// Whether `base_name` is among the bases.
    pub fn has_base(&self, base_name: &str) -> (r: bool)
        ensures
            r == exists|k: int| 0 <= k < self.bases@.len() && #[trigger] self.bases@[k]@ == base_name@,
    {
        let mut i: usize = 0;
        while i < self.bases.len()
            invariant
                i <= self.bases@.len(),
                forall|j: int| 0 <= j < i ==> #[trigger] self.bases@[j]@ != base_name@,
            decreases self.bases@.len() - i,
        {
            if str_equal(self.bases[i].as_str(), base_name) {
                return true;
            }
            i = i + 1;
        }
        false
    }

    /// Whether some base is `BaseModel` or ends with `.BaseModel`.
    pub fn is_pydantic_model(&self) -> (r: bool)
        ensures
            r == exists|k: int| 0 <= k < self.bases@.len() && is_base_model_name(#[trigger] self.bases@[k]@),
    {
        let mut i: usize = 0;
        while i < self.bases.len()
            invariant
                i <= self.bases@.len(),
                forall|j: int| 0 <= j < i ==> !is_base_model_name(#[trigger] self.bases@[j]@),
            decreases self.bases@.len() - i,
        {
            let b = self.bases[i].as_str();
            if str_equal(b, "BaseModel") || str_ends_with(b, ".BaseModel") {
                return true;
            }
            i = i + 1;
        }
        false
    }
}

} // verus!
