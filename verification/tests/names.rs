use flamer::names::{impl_segment_of, Flamer};

#[test]
fn name_of_empty_stack_is_empty() {
    let flamer = Flamer::new();
    assert_eq!(flamer.name(), "");
}

#[test]
fn name_joins_segments_with_double_colon() {
    let mut flamer = Flamer::new();
    flamer.push(String::from("top"));
    assert_eq!(flamer.name(), "top");
    flamer.push(String::from("inner"));
    flamer.push(String::from("a"));
    assert_eq!(flamer.name(), "top::inner::a");
}

#[test]
fn pop_closes_the_innermost_scope() {
    let mut flamer = Flamer::new();
    flamer.push(String::from("outer"));
    flamer.push(String::from("inner"));
    flamer.pop();
    assert_eq!(flamer.name(), "outer");
    flamer.pop();
    assert_eq!(flamer.name(), "");
}

#[test]
fn pop_on_empty_stack_changes_nothing() {
    let mut flamer = Flamer::new();
    flamer.pop();
    assert_eq!(flamer.id_stack.len(), 0);
    assert_eq!(flamer.name(), "");
}

#[test]
fn an_inherent_impl_segment_is_the_type() {
    let segment = impl_segment_of(&String::from("Lower"), &None);
    assert_eq!(segment, "Lower");
}

#[test]
fn a_trait_impl_segment_joins_type_and_trait() {
    let segment = impl_segment_of(&String::from("Lower"), &Some(String::from("fmt::Display")));
    assert_eq!(segment, "Lower as fmt::Display");
}

#[test]
fn an_impl_segment_keeps_empty_parts() {
    assert_eq!(impl_segment_of(&String::new(), &Some(String::new())), " as ");
    assert_eq!(impl_segment_of(&String::new(), &None), "");
}

#[test]
fn segments_are_joined_as_they_are() {
    let mut flamer = Flamer::new();
    flamer.push(String::from("a::b"));
    flamer.push(String::new());
    flamer.push(String::from("Lower as Shape"));
    assert_eq!(flamer.name(), "a::b::::Lower as Shape");
}

#[test]
fn the_default_tracker_has_no_open_scope() {
    let flamer = Flamer::default();
    assert!(flamer.id_stack.is_empty());
    assert_eq!(flamer.name(), "");
}
