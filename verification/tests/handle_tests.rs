use extptr::error::Error;
use extptr::handle::{has_tag, ExternalPtr, TypeTag};
use extptr::host::Host;
use extptr::robj::{Robj, Rtype};
use std::cell::Cell;
use std::rc::Rc;

/// A value that counts how often it is dropped.
struct Counted {
    drops: Rc<Cell<usize>>,
    payload: i32,
}

impl Drop for Counted {
    fn drop(&mut self) {
        self.drops.set(self.drops.get() + 1);
    }
}

impl TypeTag for Counted {
    fn type_tag() -> &'static str {
        "handle_tests::Counted"
    }
}

#[test]
fn construct_convert_and_convert_back() {
    let mut host: Host<i32> = Host::new();
    let extptr = ExternalPtr::new(&mut host, 1);
    assert_eq!(*extptr.addr(&host), 1);
    let robj: Robj = extptr.into();
    let extptr2 = ExternalPtr::<i32>::try_from(robj).unwrap();
    assert_eq!(*extptr2.addr(&host), 1);
}

#[test]
fn round_trip_keeps_value_for_each_type() {
    let mut strings: Host<String> = Host::new();
    let p = ExternalPtr::new(&mut strings, String::from("hello"));
    let q = ExternalPtr::<String>::try_from(p.into_robj()).unwrap();
    assert_eq!(q.addr(&strings), "hello");

    let mut flags: Host<bool> = Host::new();
    let p = ExternalPtr::new(&mut flags, true);
    let q = ExternalPtr::<bool>::try_from(Robj::from(p)).unwrap();
    assert_eq!(*q.addr(&flags), true);

    let mut words: Host<u64> = Host::new();
    let _ = ExternalPtr::new(&mut words, 10);
    let p = ExternalPtr::new(&mut words, u64::MAX);
    let q = ExternalPtr::<u64>::try_from(Robj::from(p)).unwrap();
    assert_eq!(q.raw_addr(), 1);
    assert_eq!(*q.addr(&words), u64::MAX);
}

#[test]
fn round_trip_keeps_all_three_slots() {
    let mut host: Host<i32> = Host::new();
    let p = ExternalPtr::new(&mut host, 5);
    let robj = p.into_robj();
    assert_eq!(robj.rtype(), Rtype::ExternalPtr);
    let q = ExternalPtr::<i32>::try_from(robj).unwrap();
    assert_eq!(q.raw_addr(), 0);
    assert_eq!(q.tag().as_str(), Some("i32"));
    assert_eq!(q.protected().rtype(), Rtype::Null);
}

#[test]
fn handle_for_i32_is_refused_as_string() {
    let mut host: Host<i32> = Host::new();
    let p = ExternalPtr::new(&mut host, 1);
    let robj = p.into_robj();
    match ExternalPtr::<String>::try_from(robj) {
        Err(Error::ExpectedExternalPtrType(actual, expected)) => {
            assert_eq!(expected, "alloc::string::String");
            assert_eq!(actual.rtype(), Rtype::ExternalPtr);
            let again = ExternalPtr::<i32>::try_from(actual).unwrap();
            assert_eq!(again.tag().as_str(), Some("i32"));
            assert_eq!(*again.addr(&host), 1);
        }
        Err(Error::ExpectedExternalPtr(_)) => panic!("refused as no handle"),
        Ok(_) => panic!("accepted under the wrong type"),
    }
}

#[test]
fn handle_with_non_string_tag_is_refused_by_type() {
    let robj = Robj::make_external_ptr(0, Robj::from_i32(7), Robj::null());
    match ExternalPtr::<i32>::try_from(robj) {
        Err(Error::ExpectedExternalPtrType(actual, expected)) => {
            assert_eq!(expected, "i32");
            assert_eq!(actual.rtype(), Rtype::ExternalPtr);
        }
        _ => panic!("expected the type error"),
    }
    let robj = Robj::make_external_ptr(0, Robj::null(), Robj::null());
    assert!(matches!(
        ExternalPtr::<bool>::try_from(robj),
        Err(Error::ExpectedExternalPtrType(_, _))
    ));
}

#[test]
fn handle_with_matching_tag_is_accepted_whatever_made_it() {
    let robj = Robj::make_external_ptr(3, Robj::from_str("u64"), Robj::from_i32(9));
    let p = ExternalPtr::<u64>::try_from(robj).unwrap();
    assert_eq!(p.raw_addr(), 3);
    assert_eq!(p.tag().as_str(), Some("u64"));
    assert_eq!(p.protected().as_i32(), Some(9));
}

#[test]
fn tag_comparison_is_exact() {
    let robj = Robj::make_external_ptr(0, Robj::from_str("i32 "), Robj::null());
    assert!(matches!(
        ExternalPtr::<i32>::try_from(robj),
        Err(Error::ExpectedExternalPtrType(_, _))
    ));
    let robj = Robj::make_external_ptr(0, Robj::from_str("I32"), Robj::null());
    assert!(matches!(
        ExternalPtr::<i32>::try_from(robj),
        Err(Error::ExpectedExternalPtrType(_, _))
    ));
    let robj = Robj::make_external_ptr(0, Robj::from_str(""), Robj::null());
    assert!(matches!(
        ExternalPtr::<i32>::try_from(robj),
        Err(Error::ExpectedExternalPtrType(_, _))
    ));
}

#[test]
fn ordinary_values_are_refused_as_no_handle() {
    match ExternalPtr::<i32>::try_from(Robj::from_i32(1)) {
        Err(Error::ExpectedExternalPtr(actual)) => assert_eq!(actual.as_i32(), Some(1)),
        _ => panic!("expected the not-a-handle error"),
    }
    match ExternalPtr::<String>::try_from(Robj::from_str("alloc::string::String")) {
        Err(Error::ExpectedExternalPtr(actual)) => {
            assert_eq!(actual.as_str(), Some("alloc::string::String"))
        }
        _ => panic!("expected the not-a-handle error"),
    }
    match ExternalPtr::<bool>::try_from(Robj::null()) {
        Err(Error::ExpectedExternalPtr(actual)) => assert_eq!(actual.rtype(), Rtype::Null),
        _ => panic!("expected the not-a-handle error"),
    }
    assert!(matches!(
        ExternalPtr::<u64>::try_from(Robj::from_i32(0)),
        Err(Error::ExpectedExternalPtr(_))
    ));
}

#[test]
fn error_hands_back_the_refused_value() {
    let e = ExternalPtr::<i32>::try_from(Robj::from_i32(4)).err().unwrap();
    assert_eq!(e.robj().as_i32(), Some(4));
    let robj = Robj::make_external_ptr(2, Robj::from_str("bool"), Robj::null());
    let e = ExternalPtr::<i32>::try_from(robj).err().unwrap();
    assert_eq!(e.robj().rtype(), Rtype::ExternalPtr);
}

#[test]
fn destructor_runs_exactly_once() {
    let drops = Rc::new(Cell::new(0));
    let mut host: Host<Counted> = Host::new();
    let p = ExternalPtr::new(&mut host, Counted { drops: drops.clone(), payload: 3 });
    assert_eq!(p.addr(&host).payload, 3);
    let other = p.clone();
    let robj = p.into_robj();
    assert_eq!(drops.get(), 0);
    drop(other);
    assert_eq!(drops.get(), 0);
    assert!(host.is_live(0));

    let reclaimed = ExternalPtr::<Counted>::finalizer(&mut host, &robj);
    assert!(reclaimed.is_some());
    drop(reclaimed);
    assert_eq!(drops.get(), 1);
    assert!(!host.is_live(0));

    let again = ExternalPtr::<Counted>::finalizer(&mut host, &robj);
    assert!(again.is_none());
    drop(again);
    assert_eq!(drops.get(), 1);

    drop(host);
    assert_eq!(drops.get(), 1);
}

#[test]
fn finalizer_ignores_values_that_are_no_handle() {
    let mut host: Host<i32> = Host::new();
    let p = ExternalPtr::new(&mut host, 8);
    assert_eq!(ExternalPtr::<i32>::finalizer(&mut host, &Robj::from_i32(0)), None);
    assert_eq!(ExternalPtr::<i32>::finalizer(&mut host, &Robj::null()), None);
    assert_eq!(*p.addr(&host), 8);
    let stray = Robj::make_external_ptr(17, Robj::from_str("i32"), Robj::null());
    assert_eq!(ExternalPtr::<i32>::finalizer(&mut host, &stray), None);
    assert_eq!(host.len(), 1);
    assert_eq!(*p.addr(&host), 8);
}

#[test]
fn finalizer_hands_out_the_last_written_value() {
    let mut host: Host<i32> = Host::new();
    let mut p = ExternalPtr::new(&mut host, 1);
    *p.addr_mut(&mut host) = 41;
    *p.addr_mut(&mut host) += 1;
    let robj = p.into_robj();
    assert_eq!(ExternalPtr::<i32>::finalizer(&mut host, &robj), Some(42));
    assert_eq!(ExternalPtr::<i32>::finalizer(&mut host, &robj), None);
}

#[test]
fn mutation_is_visible_to_later_reads() {
    let mut host: Host<String> = Host::new();
    let mut p = ExternalPtr::new(&mut host, String::from("a"));
    let q = ExternalPtr::new(&mut host, String::from("z"));
    p.addr_mut(&mut host).push('b');
    assert_eq!(p.addr(&host), "ab");
    *p.addr_mut(&mut host) = String::from("c");
    assert_eq!(p.addr(&host), "c");
    assert_eq!(q.addr(&host), "z");
}

#[test]
fn mutation_is_visible_through_every_handle_to_the_cell() {
    let mut host: Host<i32> = Host::new();
    let mut p = ExternalPtr::new(&mut host, 1);
    let copy = p.clone();
    let converted = ExternalPtr::<i32>::try_from(p.clone().into_robj()).unwrap();
    *p.addr_mut(&mut host) = 2;
    assert_eq!(*p.addr(&host), 2);
    assert_eq!(*copy.addr(&host), 2);
    assert_eq!(*converted.addr(&host), 2);
}

#[test]
fn tag_is_the_type_identity_string() {
    let mut ints: Host<i32> = Host::new();
    assert_eq!(ExternalPtr::new(&mut ints, 0).tag().as_str(), Some("i32"));
    let mut words: Host<u64> = Host::new();
    assert_eq!(ExternalPtr::new(&mut words, 0).tag().as_str(), Some("u64"));
    let mut flags: Host<bool> = Host::new();
    assert_eq!(ExternalPtr::new(&mut flags, false).tag().as_str(), Some("bool"));
    let mut strings: Host<String> = Host::new();
    assert_eq!(
        ExternalPtr::new(&mut strings, String::new()).tag().as_str(),
        Some("alloc::string::String")
    );
    let mut counted: Host<Counted> = Host::new();
    let drops = Rc::new(Cell::new(0));
    let p = ExternalPtr::new(&mut counted, Counted { drops, payload: 0 });
    assert_eq!(p.tag().as_str(), Some("handle_tests::Counted"));
    assert_eq!(p.tag().rtype(), Rtype::Strings);
}

#[test]
fn built_in_tags_are_fixed_strings() {
    assert_eq!(<i32 as TypeTag>::type_tag(), "i32");
    assert_eq!(<u64 as TypeTag>::type_tag(), "u64");
    assert_eq!(<bool as TypeTag>::type_tag(), "bool");
    assert_eq!(<String as TypeTag>::type_tag(), "alloc::string::String");
}

#[test]
fn protected_slot_of_a_new_handle_is_nil() {
    let mut host: Host<i32> = Host::new();
    let p = ExternalPtr::new(&mut host, 1);
    assert_eq!(p.protected().rtype(), Rtype::Null);
    assert_eq!(p.protected().as_str(), None);
}

#[test]
fn addresses_are_handed_out_in_order_and_never_again() {
    let mut host: Host<i32> = Host::new();
    let a = ExternalPtr::new(&mut host, 10);
    let b = ExternalPtr::new(&mut host, 20);
    assert_eq!(a.raw_addr(), 0);
    assert_eq!(b.raw_addr(), 1);
    let a_robj = a.into_robj();
    assert_eq!(ExternalPtr::<i32>::finalizer(&mut host, &a_robj), Some(10));
    let c = ExternalPtr::new(&mut host, 30);
    assert_eq!(c.raw_addr(), 2);
    assert!(!host.is_live(0));
    assert_eq!(*b.addr(&host), 20);
    assert_eq!(*c.addr(&host), 30);
    assert_eq!(host.len(), 3);
}

#[test]
fn handles_compare_by_their_host_value() {
    let mut host: Host<i32> = Host::new();
    let a = ExternalPtr::new(&mut host, 1);
    let b = ExternalPtr::new(&mut host, 1);
    let a2 = a.clone();
    assert!(a == a2);
    assert!(a != b);
    let back = ExternalPtr::<i32>::try_from(a2.into_robj()).unwrap();
    assert!(a == back);
}

#[test]
fn has_tag_reads_the_tag_slot_only() {
    let handle = Robj::make_external_ptr(0, Robj::from_str("i32"), Robj::from_str("u64"));
    assert!(has_tag(&handle, "i32"));
    assert!(!has_tag(&handle, "u64"));
    assert!(!has_tag(&handle, ""));
    assert!(!has_tag(&Robj::from_str("i32"), "i32"));
    assert!(!has_tag(&Robj::null(), "i32"));
    let untagged = Robj::make_external_ptr(0, Robj::null(), Robj::null());
    assert!(!has_tag(&untagged, ""));
}
