//! The names of the modules that an image imports.

use crate::extract::{import_names, import_text};
use crate::text::no_texts;
use vstd::prelude::*;

verus! {

/// Renders the module names of an import table, in table order, with
/// `" | "` between them. A table without entries gives the empty text.
pub fn get_import_names(names: &Vec<String>) -> (s: String)
    ensures
        s@ == import_text(names.deep_view(), Seq::empty()),
{
    let none = no_texts();
    import_names(names, &none)
}

} // verus!
