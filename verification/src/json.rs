//! Outside types that protocol values carry through unchanged.

use serde_json::Error as JsonError;
use std::io::Error as IoError;
use vstd::prelude::*;

verus! {

/// `serde_json::Value`: an arbitrary JSON value (request params, results,
/// error data), carried through opaquely.
#[verifier::external_type_specification]
#[verifier::external_body]
pub struct ExJsonValue(serde_json::Value);

/// `serde_json::Map`: a JSON object's members, carried through opaquely.
#[verifier::external_type_specification]
#[verifier::external_body]
#[verifier::reject_recursive_types(K)]
#[verifier::reject_recursive_types(V)]
pub struct ExJsonMap<K, V>(serde_json::Map<K, V>);

/// `<serde_json::Value as Clone>::clone` (derived): the copy equals the
/// value cloned.
pub assume_specification[ <serde_json::Value as Clone>::clone ](v: &serde_json::Value) -> (r:
    serde_json::Value)
    ensures
        r == *v,
;

/// `<serde_json::Map<String, Value> as Clone>::clone`: clones the
/// underlying map, so the copy equals the map cloned.
pub assume_specification[ <serde_json::Map<String, serde_json::Value> as Clone>::clone ](
    m: &serde_json::Map<String, serde_json::Value>,
) -> (r: serde_json::Map<String, serde_json::Value>)
    ensures
        r == *m,
;

/// An empty JSON object (`serde_json::Map::new`). Nothing is claimed of
/// its contents.
#[verifier::external_body]
pub(crate) fn empty_json_object() -> serde_json::Map<String, serde_json::Value> {
    serde_json::Map::new()
}

/// `serde_json::Error`: a (de)serialization failure.
#[verifier::external_type_specification]
#[verifier::external_body]
pub struct ExJsonError(JsonError);

/// `std::io::Error`: a transport failure.
#[verifier::external_type_specification]
#[verifier::external_body]
pub struct ExIoError(IoError);

} // verus!
