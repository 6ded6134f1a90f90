//! Outside types that values of the crate carry: the JSON values and
//! errors of `serde_json`, the errors of `toml` and of `std::io`.
use vstd::prelude::*;

verus! {

#[verifier::external_type_specification]
#[verifier::external_body]
pub struct ExJsonValue(serde_json::Value);

#[verifier::external_type_specification]
#[verifier::external_body]
pub struct ExJsonNumber(serde_json::Number);

#[verifier::external_type_specification]
#[verifier::external_body]
pub struct ExJsonError(serde_json::Error);

#[verifier::external_type_specification]
#[verifier::external_body]
pub struct ExTomlError(toml::de::Error);

#[verifier::external_type_specification]
#[verifier::external_body]
pub struct ExIoError(std::io::Error);

/// `serde_json::Value::clone` (derived); nothing is stated of the copy.
pub assume_specification[ <serde_json::Value as Clone>::clone ](v: &serde_json::Value) -> serde_json::Value;

/// `serde_json::Number::clone` (derived); nothing is stated of the copy.
pub assume_specification[ <serde_json::Number as Clone>::clone ](n: &serde_json::Number) -> serde_json::Number;

} // verus!
