//! A generic sorting directive: a sortable field together with a direction.

use vstd::prelude::*;
use vstd::string::*;

use crate::params::ParamValue;

verus! {

/// A sorting directive over any sortable-field value. Ascending encodes as
/// the bare field name; descending prefixes it with a hyphen.
#[derive(Debug, Clone, Copy, PartialEq, Eq)]
pub enum SortBy<T> {
    Asc(T),
    Desc(T),
}

impl<T: ParamValue + Default> Default for SortBy<T> {
    /// The default directive sorts ascending by the field's own default.
    fn default() -> (r: Self)
        ensures
            r is Asc,
    {
        SortBy::Asc(T::default())
    }
}

/// An ascending directive encodes as the bare field text; a descending
/// one prefixes a single hyphen to it.
pub proof fn lemma_sort_encoding<T: ParamValue>(field: T)
    ensures
        SortBy::Asc(field).value_spec() == field.value_spec(),
        SortBy::Desc(field).value_spec() == seq!['-'] + field.value_spec(),
{
}

impl<T: ParamValue> ParamValue for SortBy<T> {
    /// Ascending yields the field's own text; descending prefixes `-`.
    open spec fn value_spec(&self) -> Seq<char> {
        match self {
            SortBy::Asc(v) => v.value_spec(),
            SortBy::Desc(v) => seq!['-'] + v.value_spec(),
        }
    }

    fn as_value(&self) -> (r: String) {
        match self {
            SortBy::Asc(v) => v.as_value(),
            SortBy::Desc(v) => {
                let mut s = String::from_str("-");
                let inner = v.as_value();
                s.append(inner.as_str());
                proof {
                    reveal_strlit("-");
                    assert(s@ =~= self.value_spec());
                }
                s
            },
        }
    }
}

} // verus!
