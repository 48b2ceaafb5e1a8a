//! Cache location shared by every endpoint, and the default refresh interval.

use vstd::prelude::*;

pub mod cache;
pub mod item;
pub mod item_definition;
pub mod model;
pub mod people;
pub mod schema;

verus! {

/// Directory under which every cache file of this crate lives.
pub open spec fn api_cache_root_spec() -> Seq<char> {
    "data\\api\\cache"@
}

fn api_cache_root() -> (r: &'static str)
    ensures
        r@ == api_cache_root_spec(),
{
    "data\\api\\cache"
}

/// Relative location of one cache file under the shared cache root.
pub open spec fn file_path_spec(filename: Seq<char>) -> Seq<char> {
    api_cache_root_spec() + seq!['/'] + filename
}

/// Joins the shared cache root with one cache file name.
pub fn get_file_path(filename: &str) -> (r: String)
    ensures
        r@ == file_path_spec(filename@),
{
    let mut r = String::from_str(api_cache_root());
    r.append("/");
    r.append(filename);
    proof {
        reveal_strlit("/");
        assert(r@ =~= file_path_spec(filename@));
    }
    r
}

/// Minimum number of milliseconds a cached response stays fresh unless an
/// endpoint overrides it: one hour.
pub fn api_call_default_interval() -> (r: u64)
    ensures
        r == 3_600_000u64,
{
    3_600_000
}

} // verus!
