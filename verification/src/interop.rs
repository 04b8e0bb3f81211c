//! Declarations for the structured-value collaborator types, and the
//! trusted serialization call that error conversion embeds an origin with.

use vstd::prelude::*;

verus! {

#[verifier::external_type_specification]
#[verifier::external_body]
pub struct ExValue(serde_value::Value);

#[verifier::external_type_specification]
#[verifier::external_body]
pub struct ExSerializerError(serde_value::SerializerError);

/// The structured value that a cross-boundary error container with the
/// given class and message, its details cleared, serializes to.
pub uninterp spec fn origin_value(class: Seq<char>, message: Seq<char>) -> serde_value::Value;

/// Relies on serde_value::to_value applied to an oxiderr::Error whose
/// details field is cleared: oxiderr marks the kind field as skipped for
/// serialization and the details field here is always empty, so the
/// structured value is a function of the class and message strings alone.
/// The call returns Ok: for this shape — a struct of two strings and an
/// absent option — every branch of serde_value's serializer succeeds.
#[verifier::external_body]
pub(crate) fn serialize_cleared(class: &String, message: &String) -> (r: Result<
    serde_value::Value,
    serde_value::SerializerError,
>)
    ensures
        r is Ok,
        r matches Ok(v) ==> v == origin_value(class@, message@),
{
    let cleared = oxiderr::Error {
        kind: oxiderr::ErrorKind("", "", 0, ""),
        class: class.clone(),
        message: message.clone(),
        details: None,
    };
    serde_value::to_value(cleared)
}

} // verus!
