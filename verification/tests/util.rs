use seren::util::Boo;

#[test]
fn a_borrowed_value_is_not_owned() {
    let v = 5;
    assert_eq!(Boo::Borrowed(&v).borrowed(), Some(&5));
    assert_eq!(Boo::Borrowed(&v).owned(), None);
    assert_eq!(*Boo::Borrowed(&v).as_ref(), 5);
}

#[test]
fn an_owned_value_is_not_borrowed() {
    assert_eq!(Boo::Owned(Box::new(5)).borrowed(), None);
    assert_eq!(Boo::Owned(Box::new(5)).owned(), Some(5));
    assert_eq!(*Boo::Owned(Box::new(5)).as_ref(), 5);
}

#[test]
fn a_reference_is_preferred() {
    let v = 1;
    assert_eq!(Boo::from_some_ref_or(Some(&v), 2).borrowed(), Some(&1));
    assert_eq!(Boo::from_some_ref_or(None, 2).owned(), Some(2));
    assert_eq!(Boo::from_some_ref_or_else(Some(&v), || 3).borrowed(), Some(&1));
    assert_eq!(Boo::from_some_ref_or_else(None, || 3).owned(), Some(3));
    assert_eq!(Boo::<i32>::from_some_ref_or_default(Some(&v)).borrowed(), Some(&1));
    assert_eq!(Boo::<i32>::from_some_ref_or_default(None).owned(), Some(0));
}

#[test]
fn the_fallback_is_made_only_when_needed() {
    let v = 1;
    let mut called = false;
    let b = Boo::from_some_ref_or_else(Some(&v), || {
        called = true;
        3
    });
    assert_eq!(*b.as_ref(), 1);
    assert!(!called);
}

#[test]
fn values_and_references_convert() {
    let v = String::from("x");
    let borrowed: Boo<String> = Boo::from(&v);
    assert_eq!(borrowed.borrowed(), Some(&v));
    let owned: Boo<String> = Boo::from(String::from("y"));
    assert_eq!(owned.owned(), Some(String::from("y")));
}
