//! The type names under which loggable values are announced.

use vstd::prelude::*;

verus! {

/// A value type the telemetry collaborator can record. The type name
/// travels in the `Register` message.
pub trait TypeInfo {
    /// The type's wire name, as seen by specifications.
    spec fn spec_type_str() -> Seq<char>;

    /// The type's wire name.
    fn type_str() -> (r: &'static str)
        ensures
            r@ == Self::spec_type_str(),
    ;
}

impl TypeInfo for i32 {
    open spec fn spec_type_str() -> Seq<char> {
        "int"@
    }

    fn type_str() -> (r: &'static str) {
        "int"
    }
}

impl TypeInfo for bool {
    open spec fn spec_type_str() -> Seq<char> {
        "bool"@
    }

    fn type_str() -> (r: &'static str) {
        "bool"
    }
}

} // verus!
