use rscom::com::com_module::{
    Abort, Create, Lookup, RSCom, CLSCTX_INPROC_SERVER, CLSCTX_LOCAL_SERVER,
    COINIT_APARTMENTTHREADED,
};
use rscom::com_errors::ComError;
use rscom::idispatchw::IDispatchW;

const CLSID: u128 = 0x0002DF01_0000_0000_C000_000000000046;

fn looked_up(name: &str) -> Lookup {
    match RSCom::<u32>::new(name).initialized(true) {
        Ok(lookup) => lookup,
        Err(e) => panic!("{}", e.message()),
    }
}

fn found(name: &str) -> Create {
    match looked_up(name).resolved(Some(CLSID)) {
        Ok(create) => create,
        Err(abort) => panic!("{}", abort.error.message()),
    }
}

fn open(name: &str, root: u32) -> RSCom<u32> {
    match found(name).created(Ok(root)) {
        Ok(com) => com,
        Err(abort) => panic!("{}", abort.error.message()),
    }
}

#[test]
fn the_constants_of_opening_are_those_of_the_host() {
    assert_eq!(COINIT_APARTMENTTHREADED, 2);
    assert_eq!(CLSCTX_INPROC_SERVER, 1);
    assert_eq!(CLSCTX_LOCAL_SERVER, 4);
}

#[test]
fn opening_asks_for_one_apartment() {
    assert_eq!(RSCom::<u32>::new("HostApp").coinit(), COINIT_APARTMENTTHREADED);
    assert_eq!(RSCom::<u32>::init("HostApp").coinit(), COINIT_APARTMENTTHREADED);
}

#[test]
fn a_failed_initialisation_ends_the_opening() {
    match RSCom::<u32>::new("HostApp").initialized(false) {
        Ok(_) => panic!("the opening went on"),
        Err(e) => assert_eq!(e, ComError::NotInitialize()),
    }
    match RSCom::<u32>::init("HostApp").initialized(false) {
        Ok(_) => panic!("the opening went on"),
        Err(e) => assert_eq!(e, ComError::NotInitialize()),
    }
}

#[test]
fn the_look_up_asks_for_the_name_that_was_given() {
    assert_eq!(looked_up("Excel.Application").prog_id(), "Excel.Application");
    assert_eq!(looked_up("").prog_id(), "");
}

#[test]
fn an_unknown_application_ends_the_opening() {
    match looked_up("No.Such.App").resolved(None) {
        Ok(_) => panic!("the opening went on"),
        Err(Abort { error, guard: _ }) => assert_eq!(error, ComError::ComNotFound()),
    }
}

#[test]
fn the_instance_is_asked_of_the_class_that_was_found() {
    let create = found("HostApp");
    assert_eq!(create.clsid(), CLSID);
    assert_eq!(create.clsctx(), CLSCTX_INPROC_SERVER);
}

#[test]
fn init_asks_for_a_server_of_its_own() {
    let lookup = match RSCom::<u32>::init("HostApp").initialized(true) {
        Ok(lookup) => lookup,
        Err(e) => panic!("{}", e.message()),
    };
    match lookup.resolved(Some(CLSID)) {
        Ok(create) => assert_eq!(create.clsctx(), CLSCTX_LOCAL_SERVER),
        Err(abort) => panic!("{}", abort.error.message()),
    }
}

#[test]
fn a_failed_creation_carries_the_reason() {
    match found("HostApp").created::<u32>(Err(String::from("Class not registered"))) {
        Ok(_) => panic!("the opening went on"),
        Err(abort) => {
            assert_eq!(abort.error, ComError::ComInstance(String::from("Class not registered")))
        }
    }
}

#[test]
fn an_open_connection_holds_the_root_and_nothing_else() {
    let mut com = open("HostApp", 10);
    assert!(com.is_open());
    assert_eq!(*com.api(), IDispatchW(10));
    assert_eq!(
        com.get_map_idispatch(String::from("Documents")),
        Err(ComError::NoInterface(String::from("Interface is not mapped!")))
    );
}

#[test]
fn a_saved_bridge_is_found_again() {
    let mut com = open("HostApp", 10);
    assert_eq!(com.save_idispatch(String::from("Documents"), IDispatchW(11)), Ok(()));
    assert_eq!(com.get_map_idispatch(String::from("Documents")), Ok(&IDispatchW(11)));
    assert_eq!(com.get_map_idispatch(String::from("Documents")), Ok(&IDispatchW(11)));
}

#[test]
fn a_second_bridge_under_one_key_is_refused() {
    let mut com = open("HostApp", 10);
    assert_eq!(com.save_idispatch(String::from("Documents"), IDispatchW(11)), Ok(()));
    assert_eq!(
        com.save_idispatch(String::from("Documents"), IDispatchW(12)),
        Err(ComError::PointerAlreadyMapped())
    );
    assert_eq!(com.get_map_idispatch(String::from("Documents")), Ok(&IDispatchW(11)));
}

#[test]
fn keys_do_not_touch_each_other() {
    let mut com = open("HostApp", 10);
    assert_eq!(com.save_idispatch(String::from("a"), IDispatchW(1)), Ok(()));
    assert_eq!(com.save_idispatch(String::from("b"), IDispatchW(2)), Ok(()));
    assert_eq!(com.save_idispatch(String::from(""), IDispatchW(3)), Ok(()));
    assert_eq!(com.get_map_idispatch(String::from("a")), Ok(&IDispatchW(1)));
    assert_eq!(com.get_map_idispatch(String::from("b")), Ok(&IDispatchW(2)));
    assert_eq!(com.get_map_idispatch(String::from("")), Ok(&IDispatchW(3)));
    assert_eq!(com.remove_idispatch(String::from("a")), Ok(()));
    assert_eq!(com.get_map_idispatch(String::from("b")), Ok(&IDispatchW(2)));
    assert_eq!(
        com.get_map_idispatch(String::from("a")),
        Err(ComError::NoInterface(String::from("Interface is not mapped!")))
    );
}

#[test]
fn a_removed_bridge_is_gone() {
    let mut com = open("HostApp", 10);
    assert_eq!(com.save_idispatch(String::from("Documents"), IDispatchW(11)), Ok(()));
    assert_eq!(com.remove_idispatch(String::from("Documents")), Ok(()));
    assert_eq!(
        com.get_map_idispatch(String::from("Documents")),
        Err(ComError::NoInterface(String::from("Interface is not mapped!")))
    );
    assert_eq!(
        com.remove_idispatch(String::from("Documents")),
        Err(ComError::NoInterface(String::from("Interface is not mapped!")))
    );
    assert_eq!(com.save_idispatch(String::from("Documents"), IDispatchW(12)), Ok(()));
    assert_eq!(com.get_map_idispatch(String::from("Documents")), Ok(&IDispatchW(12)));
}

#[test]
fn removing_an_unknown_key_changes_nothing() {
    let mut com = open("HostApp", 10);
    assert_eq!(com.save_idispatch(String::from("a"), IDispatchW(1)), Ok(()));
    assert_eq!(
        com.remove_idispatch(String::from("b")),
        Err(ComError::NoInterface(String::from("Interface is not mapped!")))
    );
    assert_eq!(com.get_map_idispatch(String::from("a")), Ok(&IDispatchW(1)));
}

#[test]
fn closing_hands_out_the_teardown_once() {
    let mut com = open("HostApp", 10);
    assert!(com.close_api().is_some());
    assert!(!com.is_open());
    assert!(com.close_api().is_none());
    assert!(com.close_api().is_none());
    assert!(!com.is_open());
}
