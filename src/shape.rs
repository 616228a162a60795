//! A description of an aggregate type's declaration: what the reset
//! generator reads of a struct, tuple struct, enum or union.
use vstd::prelude::*;

use crate::text::seq_contains;

verus! {

/// The text whose presence in a field's type marks the field as a stat.
pub open spec fn stat_marker() -> Seq<char> {
    seq!['S', 't', 'a', 't']
}

/// The name of the attribute that forces a field to be treated as a stat.
pub open spec fn include_attr() -> Seq<char> {
    seq!['s', 't', 'a', 't']
}

/// The name of the attribute that forces a field to be left alone.
pub open spec fn exclude_attr() -> Seq<char> {
    seq!['s', 't', 'a', 't', '_', 'i', 'g', 'n', 'o', 'r', 'e']
}

/// One field of a struct or of an enum variant.
#[derive(Clone, Debug, PartialEq)]
pub struct FieldShape {
    /// The field's name, or `None` for a positional field.
    pub ident: Option<String>,
    /// The field's declared type, as source text.
    pub ty: String,
    /// The names of the field's attributes whose path is a single identifier.
    pub attrs: Vec<String>,
}

/// One variant of an enum, with its fields (none for a unit variant).
#[derive(Clone, Debug, PartialEq)]
pub struct VariantShape {
    pub ident: String,
    pub fields: Vec<FieldShape>,
}

/// The body of a type declaration.
#[derive(Clone, Debug, PartialEq)]
pub enum ShapeData {
    /// A struct with named or positional fields.
    Struct(Vec<FieldShape>),
    /// An enum with its variants in declaration order.
    Enum(Vec<VariantShape>),
    /// A union, whose live field cannot be known.
    Union,
}

/// A type declaration: its name and its body.
#[derive(Clone, Debug, PartialEq)]
pub struct Declaration {
    pub ident: String,
    pub data: ShapeData,
}

impl FieldShape {
    /// Holds when the field carries an attribute called `name`.
    pub open spec fn has_attr(self, name: Seq<char>) -> bool {
        exists|i: int| 0 <= i < self.attrs@.len() && #[trigger] self.attrs@[i]@ == name
    }

    /// Holds when the field's type text contains the stat marker.
    pub open spec fn type_is_stat(self) -> bool {
        seq_contains(self.ty@, stat_marker())
    }

    pub open spec fn explicit_include(self) -> bool {
        self.has_attr(include_attr())
    }

    pub open spec fn explicit_exclude(self) -> bool {
        self.has_attr(exclude_attr())
    }

    /// Holds when a reset of the enclosing type must reach this field:
    /// its type names a stat or it is marked for inclusion, and it is not
    /// marked for exclusion, which wins over everything else.
    pub open spec fn is_stat_field(self) -> bool {
        (self.type_is_stat() || self.explicit_include()) && !self.explicit_exclude()
    }

    /// Holds when the field is marked both for inclusion and for exclusion.
    pub open spec fn has_conflict(self) -> bool {
        self.explicit_include() && self.explicit_exclude()
    }

    /// Holds when the field is marked for inclusion although its type
    /// already names a stat.
    pub open spec fn has_redundant_include(self) -> bool {
        self.explicit_include() && self.type_is_stat()
    }

    /// A named field.
    pub fn named(ident: String, ty: String, attrs: Vec<String>) -> (r: FieldShape)
        ensures
            r == (FieldShape { ident: Some(ident), ty, attrs }),
    {
        FieldShape { ident: Some(ident), ty, attrs }
    }

    /// A positional field.
    pub fn positional(ty: String, attrs: Vec<String>) -> (r: FieldShape)
        ensures
            r == (FieldShape { ident: None, ty, attrs }),
    {
        FieldShape { ident: None, ty, attrs }
    }
}

} // verus!
