//! The two tags: how a value is tagged, and how what an operation yields is tagged.

use format_mode::{Compact, Configure, Readable};

#[test]
fn readable_wraps_the_value() {
    let tagged = 7u8.readable();
    assert_eq!(tagged, Readable(7u8));
    assert_eq!(tagged.0, 7);
}

#[test]
fn compact_wraps_the_value() {
    let tagged = "text".compact();
    assert_eq!(tagged, Compact("text"));
    assert_eq!(tagged.0, "text");
}

#[test]
fn tags_nest_in_the_order_applied() {
    let tagged = 1u32.readable().compact();
    assert_eq!(tagged, Compact(Readable(1u32)));
    assert_eq!((tagged.0).0, 1);
}

#[test]
fn payload_is_taken_back_by_destructuring() {
    let Readable(first) = vec![1u8, 2].readable();
    assert_eq!(first, vec![1, 2]);
    let Compact(Readable(second)) = 'x'.readable().compact();
    assert_eq!(second, 'x');
}

#[test]
fn yielded_capability_is_tagged_and_failure_is_not() {
    assert_eq!(Readable::tag_outcome(Ok::<u8, &str>(7)), Ok(Readable(7)));
    assert_eq!(Readable::<u8>::tag_outcome(Err("boom")), Err("boom"));
    assert_eq!(Compact::tag_outcome(Ok::<u8, &str>(7)), Ok(Compact(7)));
    assert_eq!(Compact::<u8>::tag_outcome(Err("boom")), Err("boom"));
}

#[test]
fn accessor_beside_a_value_is_tagged_and_the_value_is_not() {
    assert_eq!(Readable::tag_variant(Ok::<(&str, u8), ()>(("A", 3))), Ok(("A", Readable(3))));
    assert_eq!(Readable::<u8>::tag_variant(Err::<(&str, u8), u8>(9)), Err(9));
    assert_eq!(Compact::tag_variant(Ok::<(&str, u8), ()>(("B", 4))), Ok(("B", Compact(4))));
    assert_eq!(Compact::<u8>::tag_variant(Err::<(&str, u8), u8>(9)), Err(9));
}

#[test]
fn drawn_element_is_tagged_and_the_end_is_the_end() {
    assert_eq!(Readable::tag_item(Some('x')), Some(Readable('x')));
    assert_eq!(Readable::<char>::tag_item(None), None);
    assert_eq!(Compact::tag_item(Some('x')), Some(Compact('x')));
    assert_eq!(Compact::<char>::tag_item(None), None);
}

#[test]
fn drawn_entry_has_key_and_value_tagged() {
    assert_eq!(Readable::tag_entry(Some((1u8, "one"))), Some((Readable(1u8), Readable("one"))));
    assert_eq!(Readable::<u8>::tag_entry(None::<(u8, &str)>), None);
    assert_eq!(Compact::tag_entry(Some((1u8, "one"))), Some((Compact(1u8), Compact("one"))));
    assert_eq!(Compact::<u8>::tag_entry(None::<(u8, &str)>), None);
}
