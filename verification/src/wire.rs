//! The text that the backend sends: finding the type tag in it, and from
//! the tag where the object belongs.

use crate::family::Class;
use crate::family::Family;
use rtdlib::types::detect_td_type;
use vstd::prelude::*;

verus! {

/// The type tag that `rtdlib::types::detect_td_type` finds in the text
/// `json`: the string under `@type`, where the text is a JSON object that
/// has one, and `None` otherwise. What counts as JSON is the grammar of the
/// parser behind it, which is not written out here.
pub uninterp spec fn json_type_tag(json: Seq<char>) -> Option<Seq<char>>;

/// Calls `rtdlib::types::detect_td_type`. Claimed: what it returns depends
/// on the characters of `json` alone.
#[verifier::external_body]
pub(crate) fn detect_tag(json: &str) -> (r: Option<String>)
    ensures
        match r {
            Some(tag) => json_type_tag(json@) == Some(tag@),
            None => json_type_tag(json@) is None,
        },
{
    detect_td_type(json)
}

/// Where a tagged object belongs.
#[derive(Debug, Clone, Copy, PartialEq, Eq, Hash, Structural)]
pub enum Route {
    /// The object is a member of a family.
    Member(Family),
    /// The object is of a class that stands alone.
    Alone(Class),
    /// The tag is none that this library decodes.
    Unknown,
}

/// Where an object tagged `tag` belongs.
pub open spec fn spec_route(tag: Seq<char>) -> Route {
    match Family::spec_of_tag(tag) {
        Some(family) => Route::Member(family),
        None => match Class::spec_of_tag(tag) {
            Some(class) => Route::Alone(class),
            None => Route::Unknown,
        },
    }
}

/// Finds where an object tagged `tag` belongs. The tag is compared letter
/// for letter with the tags of the families and classes.
pub fn route_tag(tag: &str) -> (r: Route)
    ensures
        r == spec_route(tag@),
{
    match Family::of_tag(tag) {
        Some(family) => Route::Member(family),
        None => match Class::of_tag(tag) {
            Some(class) => Route::Alone(class),
            None => Route::Unknown,
        },
    }
}

/// Finds where the object written in `json` belongs, or `None` where the
/// text carries no type tag.
pub fn route(json: &str) -> (r: Option<Route>)
    ensures
        r == match json_type_tag(json@) {
            Some(tag) => Some(spec_route(tag)),
            None => None,
        },
{
    match detect_tag(json) {
        Some(tag) => Some(route_tag(tag.as_str())),
        None => None,
    }
}

} // verus!
