//! Injection of the adapter into the host runtime.
//!
//! The host's registration call takes a tagged dynamic value: a
//! discriminant plus a payload that must always agree. [`HostValue`]
//! makes the two one atomic value, so a mismatch cannot be constructed,
//! and [`HostValue::into_payload`] hands the nested reference out exactly
//! when the discriminant says one is present. [`inject`] wraps an adapter,
//! passes ownership to the host's registration routine under the fixed
//! global name, and maps the routine's status code to the caller's
//! result. The transfer is one-way: the adapter is consumed whether or
//! not registration succeeds, and is never reclaimed afterward.

use vstd::prelude::*;
use crate::adapter::DispatchAdapter;

verus! {

/// Wire discriminant of a tagged value with no payload.
pub const EMPTY_TAG: u16 = 0;

/// Wire discriminant of a tagged value carrying a scriptable-object
/// reference.
pub const DISPATCH_TAG: u16 = 9;

/// Registration with the host runtime failed; carries the host's status
/// code.
#[derive(Clone, Copy, PartialEq, Eq, Structural, Debug)]
pub struct HostRegistrationError {
    pub code: i32,
}

/// The tagged dynamic value handed to the host runtime. Discriminant and
/// payload are one value, constructed together.
pub enum HostValue<W, F> {
    /// No payload.
    Empty,
    /// A scriptable-object reference, owned by this value.
    Dispatch(DispatchAdapter<W, F>),
}

impl<W, F> HostValue<W, F> {
    /// The wire discriminant this value carries.
    pub open spec fn spec_tag(&self) -> u16 {
        match self {
            HostValue::Empty => EMPTY_TAG,
            HostValue::Dispatch(_) => DISPATCH_TAG,
        }
    }

    /// Reads the wire discriminant; it always matches the payload.
    pub fn tag(&self) -> (r: u16)
        ensures
            r == self.spec_tag(),
            r == DISPATCH_TAG <==> self is Dispatch,
    {
        match self {
            HostValue::Empty => EMPTY_TAG,
            HostValue::Dispatch(_) => DISPATCH_TAG,
        }
    }

    /// Wraps an adapter's scriptable-object reference with the matching
    /// discriminant.
    pub fn wrap_adapter(adapter: DispatchAdapter<W, F>) -> (v: Self)
        ensures
            v == HostValue::Dispatch(adapter),
            v.spec_tag() == DISPATCH_TAG,
    {
        HostValue::Dispatch(adapter)
    }

    /// Releases the tagged value: the nested reference comes out if and
    /// only if the discriminant indicates one is present, exactly once —
    /// the value itself is consumed.
    pub fn into_payload(self) -> (r: Option<DispatchAdapter<W, F>>)
        ensures
            self is Dispatch <==> r is Some,
            self matches HostValue::Dispatch(a) ==> r == Some(a),
    {
        match self {
            HostValue::Empty => None,
            HostValue::Dispatch(a) => Some(a),
        }
    }
}

/// The fixed global name the adapter is registered under in the script
/// environment.
pub fn host_object_name() -> (s: String)
    ensures
        s@ == "ipc"@,
{
    "ipc".to_owned()
}

/// Maps the host's registration status code to the injection result:
/// non-negative codes report success, negative codes failure, as the
/// host's calling convention defines them.
pub fn registration_result(code: i32) -> (r: Result<(), HostRegistrationError>)
    ensures
        code >= 0 <==> r is Ok,
        code < 0 ==> r == Err::<(), HostRegistrationError>(HostRegistrationError { code }),
{
    if code >= 0 {
        Ok(())
    } else {
        Err(HostRegistrationError { code })
    }
}

/// Injects an adapter into a host: wraps it in the tagged value with the
/// matching discriminant, hands ownership to the given registration
/// routine, and reports failure exactly when the routine's status code
/// does. The routine receives the tagged value itself, so it is released
/// on every path by whoever ends up owning it.
pub fn inject<W, F, G: FnOnce(HostValue<W, F>) -> i32>(
    adapter: DispatchAdapter<W, F>,
    register: G,
) -> (r: Result<(), HostRegistrationError>)
    requires
        call_requires(register, (HostValue::Dispatch(adapter),)),
    ensures
        exists|code: i32|
            {
                &&& #[trigger] call_ensures(register, (HostValue::Dispatch(adapter),), code)
                &&& (code >= 0 <==> r is Ok)
                &&& (code < 0 ==> r == Err::<(), HostRegistrationError>(
                    HostRegistrationError { code },
                ))
            },
{
    let tagged = HostValue::wrap_adapter(adapter);
    let code = register(tagged);
    registration_result(code)
}

} // verus!
