use mediator::util::label::{FindByLabel, IntoLabelled, Labelled};

#[test]
fn findby() {
    let list = vec!["world".labelled("hello"), "second".labelled("the")];
    let result = list.find_by_label("hello");

    assert!(result.is_some() && result.unwrap().inner == "world");
}

#[test]
fn findby_borrow() {
    let item1 = "world".labelled("hello");
    let item2 = "second".labelled("the");
    let list = vec![&item1, &item2];
    let result = list.find_by_label("hello");

    assert!(result.is_some() && result.unwrap().inner == "world");
}

#[test]
fn findby_missing_label() {
    let list = vec!["world".labelled("hello")];
    let result: Option<&Labelled<&str, &str>> = list.find_by_label("absent");

    assert!(result.is_none());
}

#[test]
fn findby_string_labels() {
    let list = vec![7u32.labelled(String::from("seven")), 8u32.labelled(String::from("eight"))];
    let result = list.find_by_label(String::from("eight"));

    assert!(result.is_some() && result.unwrap().inner == 8);
}

#[test]
fn findby_first_match_wins() {
    let list = vec!["v1".labelled("l"), "v2".labelled("l")];
    let result = list.find_by_label("l");

    assert!(result.is_some() && result.unwrap().inner == "v1");
}

#[test]
fn findby_single_round_trip() {
    let list = vec![42u64.labelled("answer")];
    let result = list.find_by_label("answer");

    assert!(result.is_some() && result.unwrap().inner == 42);
}

#[test]
fn relabel_keeps_inner() {
    let relabelled = "x".labelled("a").with_label("b");

    assert_eq!(relabelled.label, "b");
    assert_eq!(relabelled.inner, "x");
}

#[test]
fn findby_empty_list() {
    let list: Vec<Labelled<&str, u8>> = Vec::new();
    let result = list.find_by_label("anything");

    assert!(result.is_none());
}

#[test]
fn findby_box() {
    let item1 = Box::new("world".labelled("hello"));
    let item2 = Box::new("second".labelled("the"));
    let list = vec![item1, item2];
    let result = list.find_by_label("hello");

    assert!(result.is_some() && result.unwrap().inner == "world");
}

#[test]
fn findby_arc() {
    let item1 = std::sync::Arc::new("world".labelled("hello"));
    let item2 = std::sync::Arc::new("second".labelled("the"));
    let list = vec![item1.clone(), item2.clone()];
    let result = list.find_by_label("hello");

    assert!(result.is_some() && result.unwrap().inner == "world");
}
