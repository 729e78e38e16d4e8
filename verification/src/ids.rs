use vstd::prelude::*;

verus! {

/// A fresh identifier: `uuid::Uuid::new_v4()` written by its `Display` impl,
/// which is the hyphenated lower-case form of 36 characters. The value is
/// random: only its length is stated, not that it differs from earlier ones.
/// `uuid` panics when the operating system's random source fails; that
/// depends on the machine, not on any argument.
#[verifier::external_body]
pub(crate) fn new_id() -> (id: String)
    ensures
        id@.len() == 36,
{
    uuid::Uuid::new_v4().to_string()
}

} // verus!
