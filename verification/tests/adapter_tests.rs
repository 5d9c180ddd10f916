use std::cell::RefCell;
use std::rc::Rc;

use sync_ipc::adapter::DispatchAdapter;
use sync_ipc::adapter::DispatchError;
use sync_ipc::adapter::InterfaceId;
use sync_ipc::adapter::MarshalingError;
use sync_ipc::adapter::ScriptValue;
use sync_ipc::adapter::METHOD_CALL_FLAG;
use sync_ipc::utf16::str_to_utf16;
use sync_ipc::utf16::utf16_to_string;

fn counting_echo_adapter() -> DispatchAdapter<RefCell<u32>, impl Fn(&RefCell<u32>, String) -> String>
{
    DispatchAdapter::new(RefCell::new(0u32), |w: &RefCell<u32>, s: String| {
        *w.borrow_mut() += 1;
        format!("{}-reply", s)
    })
    .unwrap()
}

#[test]
fn well_formed_message_reaches_the_callback_exactly_once() {
    let a = counting_echo_adapter();
    let out = a.post_sync_message(&str_to_utf16("abc"));
    assert_eq!(utf16_to_string(&out).unwrap(), "abc-reply");
    assert_eq!(*a.window.borrow(), 1);
}

#[test]
fn malformed_message_gives_empty_result_and_no_callback() {
    let a = counting_echo_adapter();
    let out = a.post_sync_message(&vec![0xD800u16]);
    assert_eq!(out, Vec::<u16>::new());
    assert_eq!(*a.window.borrow(), 0);

    let out = a.post_sync_message(&vec![104u16, 0xDC00, 105]);
    assert_eq!(out, Vec::<u16>::new());
    assert_eq!(*a.window.borrow(), 0);
}

#[test]
fn empty_message_is_well_formed() {
    let a = counting_echo_adapter();
    let out = a.post_sync_message(&Vec::new());
    assert_eq!(utf16_to_string(&out).unwrap(), "-reply");
    assert_eq!(*a.window.borrow(), 1);
}

#[test]
fn count_type_info_is_one() {
    let a = counting_echo_adapter();
    assert_eq!(a.count_type_info(), 1);
}

#[test]
fn type_info_zero_is_the_same_descriptor_every_call() {
    let a = counting_echo_adapter();
    let first = a.get_type_info(0).ok().unwrap().methods[0].name.clone();
    let second = a.get_type_info(0).ok().unwrap().methods[0].name.clone();
    assert_eq!(first, second);
    assert_eq!(first, str_to_utf16("PostSyncMessage"));
}

#[test]
fn type_info_fails_for_every_other_index() {
    let a = counting_echo_adapter();
    for index in [1u32, 2, u32::MAX] {
        assert_eq!(a.get_type_info(index).err(), Some(DispatchError::IndexOutOfRange));
    }
}

#[test]
fn resolve_names_rejects_non_default_interface() {
    let a = counting_echo_adapter();
    let id = InterfaceId { data1: 1, data2: 0, data3: 0, data4: 0 };
    let names = vec![str_to_utf16("PostSyncMessage")];
    assert_eq!(a.resolve_names(&id, &names).err(), Some(DispatchError::UnknownInterface));

    let id = InterfaceId { data1: 0, data2: 0, data3: 7, data4: 0 };
    assert_eq!(a.resolve_names(&id, &Vec::new()).err(), Some(DispatchError::UnknownInterface));
}

#[test]
fn resolve_names_maps_each_name_to_its_dispatch_id() {
    let a = counting_echo_adapter();
    let names = vec![str_to_utf16("PostSyncMessage"), str_to_utf16("postsyncmessage")];
    let ids = a.resolve_names(&InterfaceId::default_id(), &names).unwrap();
    assert_eq!(ids, vec![0, 0]);
}

#[test]
fn resolve_names_fails_whole_call_on_undefined_name() {
    let a = counting_echo_adapter();
    let names = vec![str_to_utf16("PostSyncMessage"), str_to_utf16("Missing")];
    assert_eq!(
        a.resolve_names(&InterfaceId::default_id(), &names).err(),
        Some(DispatchError::Marshaling(MarshalingError::UnknownName))
    );
}

#[test]
fn invoke_rejects_non_default_interface_regardless_of_arguments() {
    let a = counting_echo_adapter();
    let id = InterfaceId { data1: 0, data2: 0, data3: 0, data4: 1 };
    let args = vec![ScriptValue::Text(str_to_utf16("hi"))];
    assert_eq!(
        a.invoke(0, &id, METHOD_CALL_FLAG, &args).err(),
        Some(DispatchError::UnknownInterface)
    );
    assert_eq!(a.invoke(99, &id, 0, &Vec::new()).err(), Some(DispatchError::UnknownInterface));
    assert_eq!(*a.window.borrow(), 0);
}

#[test]
fn invoke_rejects_unknown_dispatch_id() {
    let a = counting_echo_adapter();
    let args = vec![ScriptValue::Text(str_to_utf16("hi"))];
    assert_eq!(
        a.invoke(1, &InterfaceId::default_id(), METHOD_CALL_FLAG, &args).err(),
        Some(DispatchError::Marshaling(MarshalingError::MemberNotFound))
    );
}

#[test]
fn invoke_rejects_non_method_call_flags() {
    let a = counting_echo_adapter();
    let args = vec![ScriptValue::Text(str_to_utf16("hi"))];
    assert_eq!(
        a.invoke(0, &InterfaceId::default_id(), 2, &args).err(),
        Some(DispatchError::Marshaling(MarshalingError::MemberNotFound))
    );
}

#[test]
fn invoke_rejects_wrong_arity() {
    let a = counting_echo_adapter();
    assert_eq!(
        a.invoke(0, &InterfaceId::default_id(), METHOD_CALL_FLAG, &Vec::new()).err(),
        Some(DispatchError::Marshaling(MarshalingError::BadParameterCount))
    );
    let two = vec![
        ScriptValue::Text(str_to_utf16("a")),
        ScriptValue::Text(str_to_utf16("b")),
    ];
    assert_eq!(
        a.invoke(0, &InterfaceId::default_id(), METHOD_CALL_FLAG, &two).err(),
        Some(DispatchError::Marshaling(MarshalingError::BadParameterCount))
    );
}

#[test]
fn invoke_rejects_wrong_argument_kind() {
    let a = counting_echo_adapter();
    for arg in [ScriptValue::Empty, ScriptValue::Number(7)] {
        assert_eq!(
            a.invoke(0, &InterfaceId::default_id(), METHOD_CALL_FLAG, &vec![arg]).err(),
            Some(DispatchError::Marshaling(MarshalingError::TypeMismatch { arg: 0 }))
        );
    }
    assert_eq!(*a.window.borrow(), 0);
}

#[test]
fn invoke_calls_the_method_and_boxes_its_result() {
    let a = counting_echo_adapter();
    let args = vec![ScriptValue::Text(str_to_utf16("hi"))];
    let r = a.invoke(0, &InterfaceId::default_id(), METHOD_CALL_FLAG, &args).unwrap();
    match r {
        ScriptValue::Text(units) => assert_eq!(utf16_to_string(&units).unwrap(), "hi-reply"),
        _ => panic!("expected a text result"),
    }
    assert_eq!(*a.window.borrow(), 1);
}

#[test]
fn reentrant_callback_completes_in_call_order() {
    let log: Rc<RefCell<Vec<String>>> = Rc::new(RefCell::new(Vec::new()));

    let inner_log = log.clone();
    let inner = DispatchAdapter::new(log.clone(), move |_w, s: String| {
        inner_log.borrow_mut().push(format!("inner:{}", s));
        s.to_uppercase()
    })
    .unwrap();

    let outer_log = log.clone();
    let outer = DispatchAdapter::new(log.clone(), move |_w, s: String| {
        outer_log.borrow_mut().push(format!("outer:{}", s));
        // Re-enter the bridge before returning: same thread, ordinary
        // recursion, the nested call finishes first.
        let nested = inner.post_sync_message(&str_to_utf16(&s));
        let nested = utf16_to_string(&nested).unwrap();
        outer_log.borrow_mut().push(format!("outer-done:{}", nested));
        format!("{}!", nested)
    })
    .unwrap();

    let out = outer.post_sync_message(&str_to_utf16("hi"));
    assert_eq!(utf16_to_string(&out).unwrap(), "HI!");
    assert_eq!(
        *log.borrow(),
        vec![
            String::from("outer:hi"),
            String::from("inner:hi"),
            String::from("outer-done:HI"),
        ]
    );
}
