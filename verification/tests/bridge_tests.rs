use std::cell::RefCell;

use sync_ipc::adapter::DispatchAdapter;
use sync_ipc::adapter::InterfaceId;
use sync_ipc::adapter::ScriptValue;
use sync_ipc::adapter::METHOD_CALL_FLAG;
use sync_ipc::bridge::host_object_name;
use sync_ipc::bridge::inject;
use sync_ipc::bridge::registration_result;
use sync_ipc::bridge::HostRegistrationError;
use sync_ipc::bridge::HostValue;
use sync_ipc::bridge::DISPATCH_TAG;
use sync_ipc::bridge::EMPTY_TAG;
use sync_ipc::utf16::str_to_utf16;
use sync_ipc::utf16::utf16_to_string;

fn uppercase_adapter() -> DispatchAdapter<(), impl Fn(&(), String) -> String> {
    DispatchAdapter::new((), |_w: &(), s: String| s.to_uppercase()).unwrap()
}

#[test]
fn registered_global_name_is_ipc() {
    assert_eq!(host_object_name(), "ipc");
}

#[test]
fn wrapped_adapter_carries_the_dispatch_discriminant() {
    let v = HostValue::wrap_adapter(uppercase_adapter());
    assert_eq!(v.tag(), DISPATCH_TAG);
    assert!(v.into_payload().is_some());
}

#[test]
fn empty_value_carries_no_payload() {
    let v: HostValue<(), fn(&(), String) -> String> = HostValue::Empty;
    assert_eq!(v.tag(), EMPTY_TAG);
    assert!(v.into_payload().is_none());
}

#[test]
fn registration_status_codes_map_to_results() {
    assert!(registration_result(0).is_ok());
    assert!(registration_result(1).is_ok());
    assert_eq!(
        registration_result(-2147467259),
        Err(HostRegistrationError { code: -2147467259 })
    );
}

#[test]
fn failed_registration_still_releases_the_tagged_value() {
    let released = RefCell::new(false);
    let r = inject(uppercase_adapter(), |v: HostValue<_, _>| {
        // The host rejects the object; the tagged value is still consumed
        // exactly once, payload released along with it.
        assert_eq!(v.tag(), DISPATCH_TAG);
        assert!(v.into_payload().is_some());
        *released.borrow_mut() = true;
        -2147467259
    });
    assert_eq!(r, Err(HostRegistrationError { code: -2147467259 }));
    assert!(*released.borrow());
}

#[test]
fn injected_adapter_answers_a_script_invocation() {
    // End to end: build an uppercasing adapter, inject it into a mock
    // host table, then play the script engine: resolve the method name,
    // invoke it, and observe the result synchronously.
    let slot: RefCell<Option<HostValue<_, _>>> = RefCell::new(None);
    let r = inject(uppercase_adapter(), |v| {
        *slot.borrow_mut() = Some(v);
        0
    });
    assert!(r.is_ok());

    let host_object = slot.into_inner().expect("the host kept the object");
    let obj = host_object.into_payload().expect("tag said a reference is present");

    let ids = obj
        .resolve_names(&InterfaceId::default_id(), &vec![str_to_utf16("PostSyncMessage")])
        .unwrap();
    let args = vec![ScriptValue::Text(str_to_utf16("hello"))];
    let result = obj.invoke(ids[0], &InterfaceId::default_id(), METHOD_CALL_FLAG, &args).unwrap();
    match result {
        ScriptValue::Text(units) => assert_eq!(utf16_to_string(&units).unwrap(), "HELLO"),
        _ => panic!("expected a text result"),
    }
}
