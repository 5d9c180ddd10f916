//! Reflection metadata for the one exposed method.
//!
//! The script engine has no compile-time knowledge of the native object's
//! signature; it asks for a descriptor and resolves names against it. A
//! [`TypeDescriptor`] holds exactly one [`MethodDescriptor`]. Name lookup
//! uses a fixed, locale-independent folding: ASCII letters compare
//! case-insensitively, every other code unit compares exactly, so
//! resolution is identical regardless of the host machine's locale.

use vstd::prelude::*;
use crate::utf16::encode_utf16;
use crate::utf16::str_to_utf16;

verus! {

/// Kind tag of a value crossing the script/native boundary.
#[derive(Clone, Copy, PartialEq, Eq, Structural, Debug)]
pub enum ValueKind {
    Empty,
    Number,
    Text,
}

/// Calling convention recorded in a method's reflection entry.
#[derive(Clone, Copy, PartialEq, Eq, Structural, Debug)]
pub enum CallConvention {
    StdCall,
}

/// The reflection metadata could not be built; adapter construction must
/// be abandoned, there is no partial descriptor state.
#[derive(Clone, Copy, PartialEq, Eq, Structural, Debug)]
pub struct DescriptorConstructionError;

/// One parameter of the exposed method: its name (UTF-16 code units, as
/// the engine sends names) and the kind of value it binds.
pub struct ParamDescriptor {
    pub name: Vec<u16>,
    pub kind: ValueKind,
}

/// One method of the exposed interface.
pub struct MethodDescriptor {
    /// Method name as UTF-16 code units.
    pub name: Vec<u16>,
    /// Id the engine uses to invoke the method after name resolution.
    pub dispatch_id: i32,
    /// Ordinal position in the exposed interface's call table, counted
    /// after the slots of the base reference-counting interface.
    pub call_slot: u32,
    /// Parameters, in call order.
    pub params: Vec<ParamDescriptor>,
    pub call_convention: CallConvention,
    pub return_kind: ValueKind,
}

/// Immutable reflection descriptor: exactly one method, dispatch id 0.
/// Built once through [`build_type_descriptor`] and never mutated.
pub struct TypeDescriptor {
    pub methods: Vec<MethodDescriptor>,
}

/// Number of call-table slots taken by the base reference-counting
/// interface that every scriptable object starts with.
pub const BASE_INTERFACE_SLOTS: u32 = 3;

/// A member name is usable when it is not empty.
pub open spec fn valid_member_name(name: Seq<u16>) -> bool {
    name.len() > 0
}

/// The locale-independent folding used for name resolution: ASCII capital
/// letters fold to lower case, all other code units are left alone.
pub open spec fn fold_unit(u: u16) -> u16 {
    if 0x41 <= u <= 0x5A {
        (u + 0x20) as u16
    } else {
        u
    }
}

/// True when two names are the same under [`fold_unit`].
pub open spec fn names_match(a: Seq<u16>, b: Seq<u16>) -> bool {
    a.len() == b.len() && forall|i: int| 0 <= i < a.len() ==> fold_unit(a[i]) == fold_unit(b[i])
}

/// Compares two names under the locale-independent folding.
pub fn name_units_match(a: &Vec<u16>, b: &Vec<u16>) -> (r: bool)
    ensures
        r == names_match(a@, b@),
{
    if a.len() != b.len() {
        return false;
    }
    let n = a.len();
    let mut i: usize = 0;
    while i < n
        invariant
            n == a@.len() == b@.len(),
            i <= n,
            forall|j: int| 0 <= j < i ==> fold_unit(a@[j]) == fold_unit(b@[j]),
        decreases n - i,
    {
        let ua = a[i];
        let ub = b[i];
        let fa = if 0x41 <= ua && ua <= 0x5A {
            ua + 0x20
        } else {
            ua
        };
        let fb = if 0x41 <= ub && ub <= 0x5A {
            ub + 0x20
        } else {
            ub
        };
        if fa != fb {
            return false;
        }
        i = i + 1;
    }
    true
}

impl TypeDescriptor {
    /// Shape every descriptor of this system has: one method under
    /// dispatch id 0, with usable member names.
    pub open spec fn wf(&self) -> bool {
        &&& self.methods@.len() == 1
        &&& self.methods@[0].dispatch_id == 0
        &&& valid_member_name(self.methods@[0].name@)
        &&& forall|i: int|
            0 <= i < self.methods@[0].params@.len() ==> valid_member_name(
                #[trigger] self.methods@[0].params@[i].name@,
            )
    }

    /// The dispatch id a name resolves to against this descriptor's name
    /// table, if any.
    pub open spec fn spec_resolve(&self, name: Seq<u16>) -> Option<i32> {
        if names_match(name, self.methods@[0].name@) {
            Some(self.methods@[0].dispatch_id)
        } else {
            None
        }
    }

    /// Resolves one name against the descriptor's name table.
    pub fn resolve_name(&self, name: &Vec<u16>) -> (r: Option<i32>)
        requires
            self.wf(),
        ensures
            r == self.spec_resolve(name@),
    {
        if name_units_match(name, &self.methods[0].name) {
            Some(self.methods[0].dispatch_id)
        } else {
            None
        }
    }
}

/// Builds the immutable descriptor for one exposed method. Fails with
/// [`DescriptorConstructionError`] exactly when the metadata is malformed:
/// an empty method or parameter name.
pub fn build_type_descriptor(
    name: Vec<u16>,
    params: Vec<ParamDescriptor>,
    return_kind: ValueKind,
    call_convention: CallConvention,
) -> (r: Result<TypeDescriptor, DescriptorConstructionError>)
    ensures
        r is Ok <==> valid_member_name(name@) && (forall|i: int|
            0 <= i < params@.len() ==> valid_member_name(#[trigger] params@[i].name@)),
        r matches Ok(d) ==> {
            &&& d.wf()
            &&& d.methods@.len() == 1
            &&& d.methods@[0].name@ == name@
            &&& d.methods@[0].dispatch_id == 0
            &&& d.methods@[0].call_slot == BASE_INTERFACE_SLOTS
            &&& d.methods@[0].params@ == params@
            &&& d.methods@[0].call_convention == call_convention
            &&& d.methods@[0].return_kind == return_kind
        },
{
    if name.len() == 0 {
        return Err(DescriptorConstructionError);
    }
    let n = params.len();
    let mut i: usize = 0;
    while i < n
        invariant
            n == params@.len(),
            i <= n,
            forall|j: int| 0 <= j < i ==> valid_member_name(#[trigger] params@[j].name@),
        decreases n - i,
    {
        if params[i].name.len() == 0 {
            return Err(DescriptorConstructionError);
        }
        i = i + 1;
    }
    let method = MethodDescriptor {
        name,
        dispatch_id: 0,
        call_slot: BASE_INTERFACE_SLOTS,
        params,
        call_convention,
        return_kind,
    };
    let mut methods: Vec<MethodDescriptor> = Vec::new();
    methods.push(method);
    Ok(TypeDescriptor { methods })
}

/// The descriptor value this system exposes: `PostSyncMessage`, one text
/// parameter named `message`, text return, standard calling convention.
pub open spec fn is_sync_descriptor(d: &TypeDescriptor) -> bool {
    &&& d.methods@.len() == 1
    &&& d.methods@[0].name@ == encode_utf16("PostSyncMessage"@)
    &&& d.methods@[0].dispatch_id == 0
    &&& d.methods@[0].call_slot == BASE_INTERFACE_SLOTS
    &&& d.methods@[0].params@.len() == 1
    &&& d.methods@[0].params@[0].name@ == encode_utf16("message"@)
    &&& d.methods@[0].params@[0].kind == ValueKind::Text
    &&& d.methods@[0].call_convention == CallConvention::StdCall
    &&& d.methods@[0].return_kind == ValueKind::Text
}

/// Builds the singleton descriptor for `PostSyncMessage`. The member
/// names are fixed and well formed, so construction always succeeds.
pub fn sync_descriptor() -> (d: TypeDescriptor)
    ensures
        is_sync_descriptor(&d),
        d.wf(),
{
    let name = str_to_utf16("PostSyncMessage");
    let param_name = str_to_utf16("message");
    proof {
        reveal_strlit("PostSyncMessage");
        reveal_strlit("message");
        assert(valid_member_name(name@));
        assert(valid_member_name(param_name@));
    }
    let mut params: Vec<ParamDescriptor> = Vec::new();
    params.push(ParamDescriptor { name: param_name, kind: ValueKind::Text });
    let r = build_type_descriptor(name, params, ValueKind::Text, CallConvention::StdCall);
    match r {
        Ok(d) => d,
        Err(_) => {
            // The fixed names are non-empty, so the builder cannot fail.
            proof {
                assert(false);
            }
            TypeDescriptor { methods: Vec::new() }
        },
    }
}

} // verus!
