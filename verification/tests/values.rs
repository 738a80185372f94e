use mucow::Borrowable;
use mucow::BorrowableMut;
use mucow::MuCow;
use std::borrow::Borrow;
use std::borrow::BorrowMut;
use std::borrow::Cow;
use std::ops::Deref;
use std::ops::DerefMut;

#[test]
fn append_to_a_borrowed_vector() {
    let mut data = vec![1, 2, 3];
    let mut x: MuCow<Vec<i32>> = MuCow::Borrowed(&mut data);
    x.deref_mut().push(4);
    assert!(matches!(x, MuCow::Borrowed(_)));
    let owned = x.into_owned();
    assert_eq!(owned, vec![1, 2, 3, 4]);
    assert_eq!(data, vec![1, 2, 3, 4]);
}

#[test]
fn owned_string_taken_out_unchanged() {
    let x: MuCow<str> = MuCow::Owned(String::from("abc"));
    let owned: String = x.into_owned();
    assert_eq!(owned, "abc");
}

#[test]
fn borrowed_str_is_copied_into_a_string() {
    let mut text = String::from("hello");
    let x: MuCow<str> = MuCow::Borrowed(text.as_mut_str());
    let owned: String = x.into_owned();
    assert_eq!(owned, "hello");
    assert_eq!(text, "hello");
}

#[test]
fn borrowed_slice_is_copied_into_a_vector() {
    let mut data = [10, 20, 30];
    let x: MuCow<[i32]> = MuCow::Borrowed(&mut data[..]);
    let owned: Vec<i32> = x.into_owned();
    assert_eq!(owned, vec![10, 20, 30]);
    assert_eq!(data, [10, 20, 30]);
}

#[test]
fn slice_of_strings_is_cloned_item_by_item() {
    let mut data = vec![String::from("a"), String::from("bc"), String::new()];
    let x: MuCow<[String]> = MuCow::Borrowed(data.as_mut_slice());
    let owned: Vec<String> = x.into_owned();
    assert_eq!(owned, vec!["a".to_string(), "bc".to_string(), String::new()]);
}

#[test]
fn empty_slice_gives_an_empty_vector() {
    let mut data: [u8; 0] = [];
    let x: MuCow<[u8]> = MuCow::Borrowed(&mut data[..]);
    assert_eq!(x.len(), 0);
    assert_eq!(x.into_owned(), Vec::<u8>::new());
}

#[test]
fn make_owned_and_lend_on_a_slice() {
    let data = [1u8, 2, 3];
    let owned: Vec<u8> = <[u8] as Borrowable>::make_owned(&data[..]);
    assert_eq!(owned, vec![1, 2, 3]);
    let lent: &[u8] = <[u8] as Borrowable>::lend(&owned);
    assert_eq!(lent, &[1, 2, 3]);
}

#[test]
fn lend_mut_writes_into_the_owned_value() {
    let mut owned = vec![1, 2, 3];
    <[i32] as BorrowableMut>::lend_mut(&mut owned)[0] = 9;
    assert_eq!(owned, vec![9, 2, 3]);
    let mut text = String::from("abc");
    <str as BorrowableMut>::lend_mut(&mut text).make_ascii_uppercase();
    assert_eq!(text, "ABC");
    let mut n = 5u32;
    *<u32 as BorrowableMut>::lend_mut(&mut n) += 1;
    assert_eq!(n, 6);
}

#[test]
fn make_owned_and_lend_on_a_str_and_on_a_number() {
    let owned: String = <str as Borrowable>::make_owned("xyz");
    assert_eq!(owned, "xyz");
    assert_eq!(<str as Borrowable>::lend(&owned), "xyz");
    let n: u64 = <u64 as Borrowable>::make_owned(&17);
    assert_eq!(n, 17);
    assert_eq!(*<u64 as Borrowable>::lend(&n), 17);
}

#[test]
fn deref_shows_the_active_data() {
    let mut data = vec![1, 2];
    let borrowed: MuCow<[i32]> = MuCow::Borrowed(data.as_mut_slice());
    assert_eq!(borrowed.deref(), &[1, 2]);
    let owned: MuCow<[i32]> = MuCow::Owned(vec![3, 4, 5]);
    assert_eq!(owned.deref(), &[3, 4, 5]);
    assert_eq!(owned.len(), 3);
}

#[test]
fn deref_mut_writes_to_borrowed_data_in_place() {
    let mut data = [1, 2, 3];
    {
        let mut x: MuCow<[i32]> = MuCow::Borrowed(&mut data[..]);
        x.deref_mut()[1] = 20;
        x[2] = 30;
        assert!(matches!(x, MuCow::Borrowed(_)));
    }
    assert_eq!(data, [1, 20, 30]);
}

#[test]
fn deref_mut_writes_to_the_owned_value() {
    let mut x: MuCow<[i32]> = MuCow::Owned(vec![1, 2, 3]);
    x.deref_mut()[0] = 10;
    assert!(matches!(x, MuCow::Owned(_)));
    assert_eq!(x.into_owned(), vec![10, 2, 3]);
}

#[test]
fn deref_mut_on_an_owned_string() {
    let mut x: MuCow<str> = MuCow::Owned(String::from("abc"));
    x.deref_mut().make_ascii_uppercase();
    assert_eq!(x.deref(), "ABC");
    assert_eq!(x.into_owned(), "ABC");
}

#[test]
fn deref_mut_on_a_borrowed_str() {
    let mut text = String::from("abc");
    {
        let mut x: MuCow<str> = MuCow::Borrowed(text.as_mut_str());
        x.make_ascii_uppercase();
    }
    assert_eq!(text, "ABC");
}

#[test]
fn borrow_and_as_ref_give_what_deref_gives() {
    let mut data = vec![1, 2];
    let x: MuCow<[i32]> = MuCow::Borrowed(data.as_mut_slice());
    let by_borrow: &[i32] = x.borrow();
    let by_as_ref: &[i32] = x.as_ref();
    assert_eq!(by_borrow, x.deref());
    assert_eq!(by_as_ref, x.deref());
    let y: MuCow<str> = MuCow::Owned(String::from("own"));
    let by_borrow: &str = y.borrow();
    let by_as_ref: &str = y.as_ref();
    assert_eq!(by_borrow, "own");
    assert_eq!(by_as_ref, "own");
}

#[test]
fn borrow_mut_gives_what_deref_mut_gives() {
    let mut data = vec![1, 2];
    {
        let mut x: MuCow<[i32]> = MuCow::Borrowed(data.as_mut_slice());
        let lent: &mut [i32] = x.borrow_mut();
        lent[0] = 7;
        assert_eq!(x.deref(), &[7, 2]);
    }
    assert_eq!(data, vec![7, 2]);
    let mut y: MuCow<Vec<i32>> = MuCow::Owned(vec![1]);
    let lent: &mut Vec<i32> = y.borrow_mut();
    lent.push(2);
    assert_eq!(y.into_owned(), vec![1, 2]);
}

#[test]
fn duplicate_is_owned_and_leaves_the_pointer_alone() {
    let mut data = vec![1, 2, 3];
    let x: MuCow<[i32]> = MuCow::Borrowed(data.as_mut_slice());
    let mut duplicate = x.clone();
    assert!(matches!(duplicate, MuCow::Owned(_)));
    duplicate[0] = 100;
    assert_eq!(x.deref(), &[1, 2, 3]);
    assert_eq!(duplicate.into_owned(), vec![100, 2, 3]);
    let y: MuCow<str> = MuCow::Owned(String::from("s"));
    assert!(matches!(y.clone(), MuCow::Owned(_)));
    assert_eq!(y.clone().into_owned(), "s");
}

#[test]
fn duplicate_round_trip_on_values() {
    let mut data = vec![1, 2, 3];
    let x: MuCow<[i32]> = MuCow::Borrowed(data.as_mut_slice());
    assert_eq!(x.clone().into_owned(), vec![1, 2, 3]);
    assert_eq!(x.into_owned(), vec![1, 2, 3]);
    let y: MuCow<str> = MuCow::Owned(String::from("abc"));
    assert_eq!(y.clone().into_owned(), "abc");
    assert_eq!(y.into_owned(), "abc");
}

#[test]
fn default_owns_the_default_value() {
    let x: MuCow<str> = MuCow::default();
    assert!(matches!(x, MuCow::Owned(_)));
    assert_eq!(x.into_owned(), "");
    let y: MuCow<[i32]> = Default::default();
    assert!(matches!(y, MuCow::Owned(_)));
    assert_eq!(y.into_owned(), Vec::<i32>::new());
    let z: MuCow<u32> = MuCow::default();
    assert!(matches!(z, MuCow::Owned(0)));
}

#[test]
fn into_cow_keeps_the_variant_and_the_data() {
    let mut data = vec![1, 2, 3];
    let x: MuCow<[i32]> = MuCow::Borrowed(data.as_mut_slice());
    let cow: Cow<[i32]> = x.into();
    assert!(matches!(cow, Cow::Borrowed(&[1, 2, 3])));
    let y: MuCow<str> = MuCow::Owned(String::from("abc"));
    let cow: Cow<str> = y.into();
    assert!(matches!(cow, Cow::Owned(_)));
    assert_eq!(cow, "abc");
}
