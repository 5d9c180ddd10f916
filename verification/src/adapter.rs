//! The dispatch adapter: the generic scriptable-object surface.
//!
//! The engine only knows how to ask an object for its type metadata,
//! resolve names to dispatch ids, and invoke a method by id with boxed
//! arguments. [`DispatchAdapter`] answers those queries by delegating to
//! the singleton [`TypeDescriptor`] and implements the one concrete
//! exposed method, [`DispatchAdapter::post_sync_message`]: decode the
//! UTF-16 argument, call the native callback synchronously, encode its
//! response. Malformed argument bytes give an empty result and the
//! callback is not called — a deliberate, lenient policy.
//!
//! All entry points run on the engine's one thread; a callback may
//! re-enter [`DispatchAdapter::post_sync_message`] before returning,
//! which is ordinary same-thread recursion (recursion depth is the
//! caller's responsibility).

use vstd::prelude::*;
use crate::descriptor::TypeDescriptor;
use crate::descriptor::is_sync_descriptor;
use crate::descriptor::sync_descriptor;
use crate::descriptor::DescriptorConstructionError;
use crate::utf16::decode_utf16;
use crate::utf16::encode_utf16;
use crate::utf16::utf16_well_formed;
use crate::utf16::utf16_to_string;
use crate::utf16::string_to_utf16;

verus! {

/// Identifier scoping a generic call to an interface. Every call must be
/// scoped to the default (all-zero) identifier; anything else fails with
/// `UnknownInterface`.
#[derive(Clone, Copy, PartialEq, Eq, Structural, Debug)]
pub struct InterfaceId {
    pub data1: u32,
    pub data2: u16,
    pub data3: u16,
    pub data4: u64,
}

impl InterfaceId {
    /// The default/null identifier, the only one this object accepts.
    pub open spec fn is_default(&self) -> bool {
        self.data1 == 0 && self.data2 == 0 && self.data3 == 0 && self.data4 == 0
    }

    /// The default/null identifier value.
    pub fn default_id() -> (r: InterfaceId)
        ensures
            r.is_default(),
    {
        InterfaceId { data1: 0, data2: 0, data3: 0, data4: 0 }
    }

    /// The one place the accepted-identifier check is made: a generic
    /// call is in scope exactly when it names the default identifier.
    pub fn is_accepted(&self) -> (r: bool)
        ensures
            r == self.is_default(),
    {
        self.data1 == 0 && self.data2 == 0 && self.data3 == 0 && self.data4 == 0
    }
}

/// A boxed dynamic value as the engine passes arguments and takes
/// results.
pub enum ScriptValue {
    Empty,
    Number(i32),
    Text(Vec<u16>),
}

impl ScriptValue {
    /// The kind tag of this value.
    pub open spec fn kind(&self) -> crate::descriptor::ValueKind {
        match self {
            ScriptValue::Empty => crate::descriptor::ValueKind::Empty,
            ScriptValue::Number(_) => crate::descriptor::ValueKind::Number,
            ScriptValue::Text(_) => crate::descriptor::ValueKind::Text,
        }
    }
}

/// Argument/return marshaling failures of the generic invocation
/// routine; they propagate unmodified to the engine.
#[derive(Clone, Copy, PartialEq, Eq, Structural, Debug)]
pub enum MarshalingError {
    /// A name did not resolve against the descriptor's name table.
    UnknownName,
    /// The dispatch id or the call flags name no invokable member.
    MemberNotFound,
    /// The call did not pass exactly the declared parameters.
    BadParameterCount,
    /// An argument had the wrong kind; carries the argument's position.
    TypeMismatch { arg: u32 },
}

/// Failures of the generic scriptable-object surface.
#[derive(Clone, Copy, PartialEq, Eq, Structural, Debug)]
pub enum DispatchError {
    /// Type-info lookup with an index other than 0.
    IndexOutOfRange,
    /// A generic call scoped to a non-default interface identifier.
    UnknownInterface,
    /// Propagated from the argument-marshaling routine.
    Marshaling(MarshalingError),
}

/// Flag bit the engine sets to invoke a member as a method.
pub const METHOD_CALL_FLAG: u16 = 1;

/// The scriptable adapter: owns the native callback, shares the window
/// context with the rest of the application, and holds the singleton
/// descriptor.
pub struct DispatchAdapter<W, F> {
    /// Immutable reflection descriptor, built once at construction.
    pub descriptor: TypeDescriptor,
    /// Shared window/application context, passed through to the callback
    /// unmodified and never mutated here.
    pub window: W,
    /// The native callback, owned exclusively by the adapter.
    pub handler: F,
}

impl<W, F: Fn(&W, String) -> String> DispatchAdapter<W, F> {
    /// Well-formed adapter: the descriptor is the singleton
    /// `PostSyncMessage` descriptor and the callback accepts any window
    /// context and message.
    pub open spec fn wf(&self) -> bool {
        &&& is_sync_descriptor(&self.descriptor)
        &&& self.descriptor.wf()
        &&& forall|args: (&W, String)| #[trigger] call_requires(self.handler, args)
    }

    /// What `post_sync_message` returns for a given argument: the empty
    /// unit sequence when the argument is not well-formed UTF-16 (the
    /// callback is then never consulted); otherwise the encoding of a
    /// response the callback can give for the decoded message.
    pub open spec fn message_result(&self, message: Seq<u16>, out: Seq<u16>) -> bool {
        if utf16_well_formed(message) {
            exists|m: String, resp: String|
                m@ == decode_utf16(message) && #[trigger] call_ensures(
                    self.handler,
                    (&self.window, m),
                    resp,
                ) && out == encode_utf16(resp@)
        } else {
            out == Seq::<u16>::empty()
        }
    }

    /// Law: on well-formed input the method's result is exactly the
    /// callback's response, re-encoded. When every response the callback
    /// can give to the decoded message reads `resp_view`, the result is
    /// its encoding and decodes back to it — nothing is added, lost or
    /// reordered on the way out.
    pub proof fn lemma_message_result_exact(
        &self,
        message: Seq<u16>,
        out: Seq<u16>,
        resp_view: Seq<char>,
    )
        requires
            utf16_well_formed(message),
            self.message_result(message, out),
            forall|m: String, resp: String|
                (m@ == decode_utf16(message) && #[trigger] call_ensures(
                    self.handler,
                    (&self.window, m),
                    resp,
                )) ==> resp@ == resp_view,
        ensures
            out == encode_utf16(resp_view),
            decode_utf16(out) == resp_view,
    {
        let (m, resp) = choose|m: String, resp: String|
            m@ == decode_utf16(message) && #[trigger] call_ensures(
                self.handler,
                (&self.window, m),
                resp,
            ) && out == encode_utf16(resp@);
        assert(resp@ == resp_view);
        crate::utf16::lemma_encode_utf16_round_trip(resp_view);
    }

    /// Constructs an adapter: builds the singleton descriptor and binds
    /// the window context and the callback. The fixed metadata is well
    /// formed, so construction succeeds.
    pub fn new(window: W, handler: F) -> (r: Result<Self, DescriptorConstructionError>)
        requires
            forall|args: (&W, String)| #[trigger] call_requires(handler, args),
        ensures
            r matches Ok(a) && a.window == window && a.handler == handler && a.wf(),
    {
        let descriptor = sync_descriptor();
        Ok(DispatchAdapter { descriptor, window, handler })
    }

    /// The number of type descriptors this object offers: always one.
    pub fn count_type_info(&self) -> (r: u32)
        ensures
            r == 1,
    {
        1
    }

    /// The singleton descriptor for index 0; `IndexOutOfRange` for every
    /// other index.
    pub fn get_type_info(&self, index: u32) -> (r: Result<&TypeDescriptor, DispatchError>)
        ensures
            index == 0 ==> (r matches Ok(d) && d == &self.descriptor),
            index != 0 ==> r == Err::<&TypeDescriptor, DispatchError>(
                DispatchError::IndexOutOfRange,
            ),
    {
        if index != 0 {
            Err(DispatchError::IndexOutOfRange)
        } else {
            Ok(&self.descriptor)
        }
    }

    /// Law: type-info lookup is stable. Every lookup for index 0 returns
    /// the one descriptor the adapter was built with, so any two such
    /// results are the same descriptor.
    pub proof fn lemma_type_info_stable(
        &self,
        r1: Result<&TypeDescriptor, DispatchError>,
        r2: Result<&TypeDescriptor, DispatchError>,
    )
        requires
            r1 matches Ok(d) && d == &self.descriptor,
            r2 matches Ok(d) && d == &self.descriptor,
        ensures
            r1 == r2,
    {
    }

    /// Resolves each name to its dispatch id against the descriptor's
    /// name table. Fails with `UnknownInterface` for any non-default
    /// interface identifier, whatever the names; a name that resolves to
    /// nothing fails the whole call with `UnknownName`.
    pub fn resolve_names(&self, interface_id: &InterfaceId, names: &Vec<Vec<u16>>) -> (r: Result<
        Vec<i32>,
        DispatchError,
    >)
        requires
            self.wf(),
        ensures
            !interface_id.is_default() ==> r == Err::<Vec<i32>, DispatchError>(
                DispatchError::UnknownInterface,
            ),
            interface_id.is_default() && (forall|i: int|
                0 <= i < names@.len() ==> (#[trigger] self.descriptor.spec_resolve(names@[i]@))
                    is Some) ==> (r matches Ok(ids) && ids@.len() == names@.len() && (forall|i: int|
                0 <= i < names@.len() ==> Some(#[trigger] ids@[i])
                    == self.descriptor.spec_resolve(names@[i]@))),
            interface_id.is_default() && (exists|i: int|
                0 <= i < names@.len() && (#[trigger] self.descriptor.spec_resolve(names@[i]@))
                    is None) ==> r == Err::<Vec<i32>, DispatchError>(
                DispatchError::Marshaling(MarshalingError::UnknownName),
            ),
    {
        if !interface_id.is_accepted() {
            return Err(DispatchError::UnknownInterface);
        }
        let n = names.len();
        let mut ids: Vec<i32> = Vec::new();
        let mut i: usize = 0;
        while i < n
            invariant
                self.wf(),
                interface_id.is_default(),
                n == names@.len(),
                i <= n,
                ids@.len() == i,
                forall|j: int|
                    0 <= j < i ==> Some(#[trigger] ids@[j]) == self.descriptor.spec_resolve(
                        names@[j]@,
                    ),
            decreases n - i,
        {
            match self.descriptor.resolve_name(&names[i]) {
                Some(id) => ids.push(id),
                None => {
                    return Err(DispatchError::Marshaling(MarshalingError::UnknownName));
                },
            }
            i = i + 1;
        }
        proof {
            assert forall|j: int| 0 <= j < names@.len() implies (#[trigger] self.descriptor.spec_resolve(
                names@[j]@,
            )) is Some by {
                assert(Some(ids@[j]) == self.descriptor.spec_resolve(names@[j]@));
            }
        }
        Ok(ids)
    }

    /// Generic invocation: validates the interface identifier, the
    /// dispatch id, the call flags and the arguments against the
    /// descriptor, then calls the one exposed method and boxes its
    /// result. Marshaling errors are returned unmodified.
    pub fn invoke(
        &self,
        dispatch_id: i32,
        interface_id: &InterfaceId,
        flags: u16,
        args: &Vec<ScriptValue>,
    ) -> (r: Result<ScriptValue, DispatchError>)
        requires
            self.wf(),
        ensures
            !interface_id.is_default() ==> r == Err::<ScriptValue, DispatchError>(
                DispatchError::UnknownInterface,
            ),
            interface_id.is_default() ==> {
                if dispatch_id != 0 || flags & METHOD_CALL_FLAG == 0 {
                    r == Err::<ScriptValue, DispatchError>(
                        DispatchError::Marshaling(MarshalingError::MemberNotFound),
                    )
                } else if args@.len() != 1 {
                    r == Err::<ScriptValue, DispatchError>(
                        DispatchError::Marshaling(MarshalingError::BadParameterCount),
                    )
                } else if !(args@[0] is Text) {
                    r == Err::<ScriptValue, DispatchError>(
                        DispatchError::Marshaling(MarshalingError::TypeMismatch { arg: 0 }),
                    )
                } else {
                    r matches Ok(v) && v matches ScriptValue::Text(out) && self.message_result(
                        args@[0]->Text_0@,
                        out@,
                    )
                }
            },
    {
        if !interface_id.is_accepted() {
            return Err(DispatchError::UnknownInterface);
        }
        if dispatch_id != self.descriptor.methods[0].dispatch_id || flags & METHOD_CALL_FLAG == 0 {
            return Err(DispatchError::Marshaling(MarshalingError::MemberNotFound));
        }
        if args.len() != 1 {
            return Err(DispatchError::Marshaling(MarshalingError::BadParameterCount));
        }
        match &args[0] {
            ScriptValue::Text(units) => {
                let out = self.post_sync_message(units);
                Ok(ScriptValue::Text(out))
            },
            _ => Err(DispatchError::Marshaling(MarshalingError::TypeMismatch { arg: 0 })),
        }
    }

    /// The one exposed method. Decodes the message; on malformed input
    /// returns the empty text and never consults the callback. On
    /// well-formed input calls the native callback synchronously with the
    /// shared window context and the decoded message, blocking until it
    /// returns, and hands back the UTF-16 encoding of its response.
    pub fn post_sync_message(&self, message: &Vec<u16>) -> (r: Vec<u16>)
        requires
            self.wf(),
        ensures
            self.message_result(message@, r@),
    {
        match utf16_to_string(message) {
            Some(m) => {
                let ghost gm = m;
                let resp = (self.handler)(&self.window, m);
                let out = string_to_utf16(&resp);
                proof {
                    assert(gm@ == decode_utf16(message@));
                    assert(call_ensures(self.handler, (&self.window, gm), resp));
                    assert(self.message_result(message@, out@));
                }
                out
            },
            None => Vec::new(),
        }
    }
}

} // verus!


