use rscom::com_errors::ComError;
use rscom::idispatchw::{
    DispParams, IDispatchW, Invoke, RSVariant, Resolve, DISPATCH_METHOD, DISPATCH_PROPERTYGET,
    DISPATCH_PROPERTYPUT, DISPID_PROPERTYPUT, LOCALE_SYSTEM_DEFAULT, LOCALE_USER_DEFAULT,
};

type V = RSVariant<u32>;

fn abc() -> Vec<V> {
    vec![V::from("a"), V::from("b"), V::from("c")]
}

fn found(call: Resolve<'_, u32>, id: i32) -> Invoke<'_, u32> {
    match call.resolved(Some(id)) {
        Ok(invoke) => invoke,
        Err(e) => panic!("{}", e.message()),
    }
}

#[test]
fn the_constants_are_those_of_the_host() {
    assert_eq!(DISPATCH_METHOD, 1);
    assert_eq!(DISPATCH_PROPERTYGET, 2);
    assert_eq!(DISPATCH_PROPERTYPUT, 4);
    assert_eq!(DISPID_PROPERTYPUT, -3);
    assert_eq!(LOCALE_USER_DEFAULT, 0x0400);
    assert_eq!(LOCALE_SYSTEM_DEFAULT, 0x0800);
}

#[test]
fn arguments_are_presented_in_reverse() {
    let api = IDispatchW(1u32);
    let invoke = found(api.call("Join", abc()), 9);
    assert_eq!(invoke.params().rgvarg, vec![V::from("c"), V::from("b"), V::from("a")]);
}

#[test]
fn one_argument_stays_where_it_is() {
    let api = IDispatchW(1u32);
    let invoke = found(api.get("Item", vec![V::from(1i32)]), 9);
    assert_eq!(invoke.params().rgvarg, vec![V::from(1i32)]);
}

#[test]
fn two_arguments_change_places() {
    let api = IDispatchW(1u32);
    let invoke = found(api.get("Cells", vec![V::from(1i32), V::from(2i32)]), 9);
    assert_eq!(invoke.params().rgvarg, vec![V::from(2i32), V::from(1i32)]);
}

#[test]
fn no_arguments_make_an_empty_block() {
    let api = IDispatchW(1u32);
    for flags in [DISPATCH_METHOD, DISPATCH_PROPERTYGET, DISPATCH_PROPERTYPUT] {
        let invoke = found(api.invoke(flags, "Quit", vec![]), 9);
        assert_eq!(*invoke.params(), DispParams { rgvarg: vec![], named: vec![] });
    }
}

#[test]
fn a_write_marks_the_value_being_assigned() {
    let api = IDispatchW(1u32);
    let invoke = found(api.put("Visible", vec![V::from(true)]), 9);
    assert_eq!(invoke.params().named, vec![DISPID_PROPERTYPUT]);
    assert_eq!(invoke.params().rgvarg, vec![V::from(true)]);
    assert_eq!(invoke.flags(), DISPATCH_PROPERTYPUT);
}

#[test]
fn an_indexed_write_marks_one_argument() {
    let api = IDispatchW(1u32);
    let invoke = found(api.put("Item", vec![V::from(3i32), V::from("x")]), 9);
    assert_eq!(invoke.params().named, vec![-3]);
    assert_eq!(invoke.params().rgvarg, vec![V::from("x"), V::from(3i32)]);
}

#[test]
fn a_read_and_a_call_mark_nothing() {
    let api = IDispatchW(1u32);
    let read = found(api.get("Item", abc()), 9);
    assert_eq!(read.params().named, Vec::<i32>::new());
    assert_eq!(read.flags(), DISPATCH_PROPERTYGET);
    let call = found(api.call("Run", abc()), 9);
    assert_eq!(call.params().named, Vec::<i32>::new());
    assert_eq!(call.flags(), DISPATCH_METHOD);
}

#[test]
fn any_flags_with_the_write_bit_mark_the_argument() {
    let api = IDispatchW(1u32);
    let both = found(api.invoke(DISPATCH_PROPERTYPUT | DISPATCH_METHOD, "X", abc()), 9);
    assert_eq!(both.params().named, vec![DISPID_PROPERTYPUT]);
    let neither = found(api.invoke(DISPATCH_PROPERTYGET | DISPATCH_METHOD, "X", abc()), 9);
    assert_eq!(neither.params().named, Vec::<i32>::new());
    let none = found(api.invoke(0, "X", abc()), 9);
    assert_eq!(none.params().named, Vec::<i32>::new());
}

#[test]
fn the_request_names_its_object_and_member() {
    let api = IDispatchW(77u32);
    let call = api.get("Documents", vec![]);
    assert_eq!(*call.target(), 77);
    assert_eq!(call.name(), "Documents");
    assert_eq!(call.lcid(), LOCALE_USER_DEFAULT);
    let invoke = found(call, -5);
    assert_eq!(*invoke.target(), 77);
    assert_eq!(invoke.dispid(), -5);
    assert_eq!(invoke.lcid(), LOCALE_SYSTEM_DEFAULT);
}

#[test]
fn get_args_is_get() {
    let api = IDispatchW(1u32);
    let a = found(api.get_args("Item", abc()), 4);
    let b = found(api.get("Item", abc()), 4);
    assert_eq!(a.params(), b.params());
    assert_eq!(a.flags(), b.flags());
}

#[test]
fn an_unknown_member_ends_the_call() {
    let api = IDispatchW(1u32);
    match api.call("UnknownMethod", vec![]).resolved(None) {
        Ok(_) => panic!("the call went on"),
        Err(e) => assert_eq!(e, ComError::NoMethod(String::from("UnknownMethod"))),
    }
}

#[test]
fn a_failed_call_carries_the_reason() {
    let api = IDispatchW(1u32);
    let invoke = found(api.call("Save", vec![]), 2);
    assert_eq!(
        invoke.returned(Err(String::from("Exception occurred."))),
        Err(ComError::Invoke(String::from("Exception occurred.")))
    );
}

#[test]
fn a_plain_call_returns_what_the_host_returned() {
    let api = IDispatchW(1u32);
    for value in [V::Empty, V::from(true), V::from(1i32), V::from("x"), V::from(IDispatchW(2u32))] {
        let expected = format!("{:?}", value);
        let out = found(api.call("Any", vec![]), 2).returned(Ok(value));
        assert_eq!(format!("{:?}", out.unwrap()), expected);
    }
}

#[test]
fn a_typed_read_lets_its_type_through() {
    let api = IDispatchW(1u32);
    assert_eq!(found(api.bool("P", vec![]), 1).returned(Ok(V::from(true))), Ok(V::Bool(true)));
    assert_eq!(found(api.int32("P", vec![]), 1).returned(Ok(V::from(5i32))), Ok(V::Int(5)));
    assert_eq!(
        found(api.float("P", vec![]), 1).returned(Ok(V::from_float_bits(2.5f64.to_bits()))),
        Ok(V::Float(2.5f64.to_bits()))
    );
    assert_eq!(
        found(api.string("P", vec![]), 1).returned(Ok(V::from("t"))),
        Ok(V::Str(String::from("t")))
    );
    assert_eq!(
        found(api.get_idispatch("P"), 1).returned(Ok(V::from(IDispatchW(8u32)))),
        Ok(V::Dispatch(8))
    );
    assert_eq!(
        found(api.get_idispatch_args("P", abc()), 1).returned(Ok(V::from(IDispatchW(8u32)))),
        Ok(V::Dispatch(8))
    );
}

#[test]
fn a_typed_read_refuses_another_type() {
    let api = IDispatchW(1u32);
    let wrong = Err(ComError::Conversion());
    assert_eq!(found(api.bool("P", vec![]), 1).returned(Ok(V::from(1i32))), wrong);
    assert_eq!(found(api.int32("P", vec![]), 1).returned(Ok(V::from(1i64))), wrong);
    assert_eq!(found(api.int32("P", vec![]), 1).returned(Ok(V::from(true))), wrong);
    assert_eq!(found(api.float("P", vec![]), 1).returned(Ok(V::from(1i32))), wrong);
    assert_eq!(found(api.string("P", vec![]), 1).returned(Ok(V::Empty)), wrong);
    assert_eq!(found(api.get_idispatch("P"), 1).returned(Ok(V::from("o"))), wrong);
}

#[test]
fn a_typed_read_is_a_read() {
    let api = IDispatchW(1u32);
    let invoke = found(api.int32("Item", abc()), 1);
    assert_eq!(invoke.flags(), DISPATCH_PROPERTYGET);
    assert_eq!(invoke.params().rgvarg, vec![V::from("c"), V::from("b"), V::from("a")]);
    assert_eq!(invoke.params().named, Vec::<i32>::new());
    let plain = found(api.get_idispatch("Documents"), 1);
    assert_eq!(*plain.params(), DispParams { rgvarg: vec![], named: vec![] });
}

#[test]
fn a_typed_read_reports_the_failure_of_the_call() {
    let api = IDispatchW(1u32);
    assert_eq!(
        found(api.int32("Count", vec![]), 1).returned(Err(String::from("busy"))),
        Err(ComError::Invoke(String::from("busy")))
    );
    match api.int32("Count", vec![]).resolved(None) {
        Ok(_) => panic!("the call went on"),
        Err(e) => assert_eq!(e, ComError::NoMethod(String::from("Count"))),
    }
}
