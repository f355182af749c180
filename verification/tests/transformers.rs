use constella::transform::{DataHolder, Transformer};
use constella::DataTransformer;
use twilight_model::id::{GuildId, UserId, WebhookId};

#[test]
fn primitives_are_stored_as_themselves() {
    assert_eq!(7u8.transform(), 7);
    assert_eq!(u128::revert(&9), 9);
    assert_eq!((-3i16).transform(), -3);
    assert!(bool::revert(&true));
}

#[test]
fn ids_are_stored_as_numbers() {
    assert_eq!(UserId(42).transform(), 42);
    assert_eq!(GuildId::revert(&5), GuildId(5));
    assert_eq!(WebhookId::revert(&WebhookId(77).transform()), WebhookId(77));
}

#[test]
fn pointer_sized_values_are_stored_wide() {
    assert_eq!(usize::MAX.transform(), usize::MAX as u64);
    assert_eq!(usize::revert(&12), 12);
    assert_eq!((-5isize).transform(), -5i64);
    assert_eq!(isize::revert(&isize::MIN.transform()), isize::MIN);
}

#[test]
fn strings_and_options() {
    let s = String::from("abc");
    assert_eq!(s.transform(), "abc");
    assert_eq!(String::revert(&String::from("x")), "x");
    let some: Option<UserId> = Some(UserId(3));
    assert_eq!(some.transform(), Some(3));
    assert_eq!(Option::<UserId>::revert(&None), None);
}

#[test]
fn holder_round_trip() {
    let holder: DataTransformer<UserId> = DataHolder::from_value(&UserId(11));
    assert_eq!(holder, 11);
    assert_eq!(*holder.stored(), 11);
    assert_eq!(holder.into_value(), UserId(11));
    let copy = holder.clone();
    assert!(copy < 12);
    assert!(copy > 10);
    let default: DataHolder<u64, UserId> = DataHolder::default();
    assert_eq!(default, 0);
    let read: DataHolder<u64, UserId> = DataHolder::from_stored(4);
    assert_eq!(read.into_value(), UserId(4));
}
