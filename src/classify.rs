//! Deciding which fields of a declaration are stats.
use vstd::prelude::*;

use crate::shape::{exclude_attr, include_attr, stat_marker, FieldShape};
use crate::text::{chars_of, contains_chars, same_chars};

verus! {

/// What the generator reads of one field.
#[derive(Clone, Debug, PartialEq)]
pub struct FieldOptions {
    /// The field's name, or `None` for a positional field.
    pub ident: Option<String>,
    /// Whether the field's type text contains the stat marker.
    pub stat_type: bool,
    /// Whether the field is marked for inclusion.
    pub marked_stat: bool,
    /// Whether the field is marked for exclusion.
    pub marked_ignore: bool,
}

impl FieldOptions {
    /// Holds when the options make the field a stat.
    pub open spec fn is_stat_spec(self) -> bool {
        (self.marked_stat || self.stat_type) && !self.marked_ignore
    }

    /// Whether the field is a stat. Exclusion wins over inclusion.
    pub fn is_stat(&self) -> (r: bool)
        ensures
            r == self.is_stat_spec(),
    {
        (self.marked_stat || self.stat_type) && !self.marked_ignore
    }

    /// Whether the field is marked both for inclusion and for exclusion.
    pub fn is_conflicting(&self) -> (r: bool)
        ensures
            r == (self.marked_stat && self.marked_ignore),
    {
        self.marked_stat && self.marked_ignore
    }

    /// Whether the field is marked for inclusion although its type already
    /// names a stat.
    pub fn is_redundant(&self) -> (r: bool)
        ensures
            r == (self.marked_stat && self.stat_type),
    {
        self.marked_stat && self.stat_type
    }

    /// Reads the options of a field from its type text and attributes.
    pub fn from_field(field: &FieldShape) -> (r: FieldOptions)
        ensures
            r.ident == field.ident,
            r.stat_type == field.type_is_stat(),
            r.marked_stat == field.explicit_include(),
            r.marked_ignore == field.explicit_exclude(),
            r.is_stat_spec() == field.is_stat_field(),
    {
        let ident = match &field.ident {
            Some(name) => Some(name.clone()),
            None => None,
        };
        let marker: Vec<char> = vec!['S', 't', 'a', 't'];
        let include_name: Vec<char> = vec!['s', 't', 'a', 't'];
        let exclude_name: Vec<char> = vec!['s', 't', 'a', 't', '_', 'i', 'g', 'n', 'o', 'r', 'e'];
        proof {
            assert(marker@ =~= stat_marker());
            assert(include_name@ =~= include_attr());
            assert(exclude_name@ =~= exclude_attr());
        }
        let ty = chars_of(field.ty.as_str());
        let stat_type = contains_chars(&ty, &marker);
        let mut marked_stat = false;
        let mut marked_ignore = false;
        let mut i: usize = 0;
        while i < field.attrs.len()
            invariant
                i <= field.attrs@.len(),
                marked_stat == exists|k: int| 0 <= k < i && #[trigger] field.attrs@[k]@ == include_attr(),
                marked_ignore == exists|k: int| 0 <= k < i && #[trigger] field.attrs@[k]@ == exclude_attr(),
                include_name@ == include_attr(),
                exclude_name@ == exclude_attr(),
            decreases field.attrs@.len() - i,
        {
            let name = chars_of(field.attrs[i].as_str());
            if same_chars(&name, &include_name) {
                marked_stat = true;
            } else if same_chars(&name, &exclude_name) {
                marked_ignore = true;
            }
            proof {
                assert(include_attr() != exclude_attr());
            }
            i = i + 1;
        }
        FieldOptions { ident, stat_type, marked_stat, marked_ignore }
    }
}

} // verus!
