//! Cache file names of the plain endpoint queries.

use vstd::prelude::*;

verus! {

use crate::api::schema::{item, people};

/// A query whose response is cached in one file under the shared cache root.
pub trait Cacheable {
    /// The name of the query's cache file.
    spec fn spec_file_path(&self) -> Seq<char>;

    /// The name of the query's cache file.
    fn file_path(&self) -> (r: String)
        ensures
            r@ == self.spec_file_path(),
    ;
}

impl Cacheable for item::Quely {
    open spec fn spec_file_path(&self) -> Seq<char> {
        "item.json"@
    }

    fn file_path(&self) -> (r: String) {
        String::from_str("item.json")
    }
}

impl Cacheable for people::Request {
    open spec fn spec_file_path(&self) -> Seq<char> {
        "people.json"@
    }

    fn file_path(&self) -> (r: String) {
        String::from_str("people.json")
    }
}

} // verus!
