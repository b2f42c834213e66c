use erased_property::AsProperties;
use erased_property::DynProperty;
use erased_property::Entry;
use erased_property::NamedValue;
use erased_property::Properties;
use erased_property::Property;
use erased_property::PropertyVal;
use erased_property::TypeTag;

fn agg(name: &str, fields: Vec<(&str, DynProperty)>) -> DynProperty {
    let mut p = Properties::new(name.to_string());
    for (n, v) in fields {
        p.insert(n.to_string(), v);
    }
    DynProperty::Agg(p)
}

fn score(n: i32) -> NamedValue {
    NamedValue { name: "Score".to_string(), value: Box::new(DynProperty::I32(n)) }
}

#[test]
fn clone_is_equal_and_independent() {
    let original = DynProperty::Str("hello".to_string());
    let mut copy = original.clone_prop();
    assert_eq!(copy, original);
    assert_eq!(copy.val::<String>(), original.val::<String>());

    copy.set_val::<String>("changed".to_string()).unwrap();
    assert_eq!(original, DynProperty::Str("hello".to_string()));
    assert_eq!(copy, DynProperty::Str("changed".to_string()));
}

#[test]
fn clone_aggregate_is_deep() {
    let original = agg("Pair", vec![("left", DynProperty::I32(1)), ("right", DynProperty::I32(2))]);
    let mut copy = original.clone_prop();
    assert_eq!(copy, original);

    copy.apply(&agg("Pair", vec![("left", DynProperty::I32(99))])).unwrap();
    assert_eq!(
        original,
        agg("Pair", vec![("left", DynProperty::I32(1)), ("right", DynProperty::I32(2))])
    );
}

#[test]
fn write_then_read_returns_written_value() {
    let mut h = DynProperty::I32(5);
    h.set_val::<i32>(9).unwrap();
    assert_eq!(h.val::<i32>(), Some(&9));

    let mut s = DynProperty::U64(0);
    s.set_val::<u64>(123).unwrap();
    assert_eq!(s.val::<u64>(), Some(&123));
}

#[test]
fn write_of_wrong_type_fails_and_leaves_handle_unchanged() {
    let mut h = DynProperty::I32(5);
    let err = h.set_val::<bool>(true).unwrap_err();
    assert_eq!(err.expected, TypeTag::I32);
    assert_eq!(err.actual, TypeTag::Bool);
    assert_eq!(h, DynProperty::I32(5));
    assert_eq!(h.val::<bool>(), None);
}

#[test]
fn leaf_apply_equals_set() {
    let b = DynProperty::U64(7);

    let mut by_set = DynProperty::U64(1);
    by_set.set(&b).unwrap();

    let mut by_apply = DynProperty::U64(1);
    by_apply.apply(&b).unwrap();

    assert_eq!(by_set, by_apply);
    assert_eq!(by_apply, DynProperty::U64(7));
}

#[test]
fn leaf_apply_mismatch_equals_set_mismatch() {
    let b = DynProperty::Bool(true);

    let mut by_set = DynProperty::U64(1);
    let set_err = by_set.set(&b).unwrap_err();

    let mut by_apply = DynProperty::U64(1);
    let apply_err = by_apply.apply(&b).unwrap_err();

    assert_eq!(set_err, apply_err);
    assert_eq!(apply_err.expected, TypeTag::U64);
    assert_eq!(apply_err.actual, TypeTag::Bool);
    assert_eq!(by_set, DynProperty::U64(1));
    assert_eq!(by_apply, DynProperty::U64(1));
}

#[test]
fn aggregate_apply_is_field_granular() {
    let mut a = agg(
        "Settings",
        vec![("volume", DynProperty::I32(3)), ("muted", DynProperty::Bool(false))],
    );
    let b = agg(
        "Settings",
        vec![("muted", DynProperty::Bool(true)), ("extra", DynProperty::I32(9))],
    );
    a.apply(&b).unwrap();
    assert_eq!(
        a,
        agg("Settings", vec![("volume", DynProperty::I32(3)), ("muted", DynProperty::Bool(true))])
    );
}

#[test]
fn aggregate_apply_ignores_top_level_type_names() {
    let mut a = agg("Alpha", vec![("x", DynProperty::I32(1))]);
    let b = agg("Beta", vec![("x", DynProperty::I32(2))]);
    a.apply(&b).unwrap();
    assert_eq!(a, agg("Alpha", vec![("x", DynProperty::I32(2))]));
}

#[test]
fn aggregate_apply_recurses_into_nested_aggregates() {
    let inner_a = agg("Inner", vec![("x", DynProperty::I32(1)), ("y", DynProperty::I32(2))]);
    let mut a = agg("Outer", vec![("inner", inner_a), ("flag", DynProperty::Bool(false))]);
    let inner_b = agg("Inner", vec![("y", DynProperty::I32(20))]);
    let b = agg("Outer", vec![("inner", inner_b)]);

    a.apply(&b).unwrap();

    let expected_inner = agg("Inner", vec![("x", DynProperty::I32(1)), ("y", DynProperty::I32(20))]);
    let expected =
        agg("Outer", vec![("inner", expected_inner), ("flag", DynProperty::Bool(false))]);
    assert_eq!(a, expected);
}

#[test]
fn aggregate_apply_field_mismatch_fails_and_leaves_target_unchanged() {
    let mut a = agg("Conf", vec![("level", DynProperty::I32(1))]);
    let b = agg("Conf", vec![("level", DynProperty::Bool(true))]);
    let err = a.apply(&b).unwrap_err();
    assert_eq!(err.expected, TypeTag::I32);
    assert_eq!(err.actual, TypeTag::Bool);
    assert_eq!(a, agg("Conf", vec![("level", DynProperty::I32(1))]));
}

#[test]
fn aggregate_apply_of_non_aggregate_fails() {
    let mut a = agg("Conf", vec![("level", DynProperty::I32(1))]);
    let err = a.apply(&DynProperty::I32(7)).unwrap_err();
    assert_eq!(err.expected, TypeTag::Agg("Conf".to_string()));
    assert_eq!(err.actual, TypeTag::I32);
    assert_eq!(a, agg("Conf", vec![("level", DynProperty::I32(1))]));
}

#[test]
fn empty_aggregate_apply_succeeds() {
    let mut a = agg("Empty", vec![]);
    let b = agg("Empty", vec![("anything", DynProperty::I32(1))]);
    a.apply(&b).unwrap();
    assert_eq!(a, agg("Empty", vec![]));
}

#[test]
fn set_requires_exact_aggregate_type_name() {
    let mut a = agg("Alpha", vec![("x", DynProperty::I32(1))]);
    let b = agg("Beta", vec![("x", DynProperty::I32(2))]);
    let err = a.set(&b).unwrap_err();
    assert_eq!(err.expected, TypeTag::Agg("Alpha".to_string()));
    assert_eq!(err.actual, TypeTag::Agg("Beta".to_string()));
    assert_eq!(a, agg("Alpha", vec![("x", DynProperty::I32(1))]));

    let c = agg("Alpha", vec![("y", DynProperty::Bool(true))]);
    a.set(&c).unwrap();
    assert_eq!(a, c);
}

#[test]
fn containers_are_opaque_leaves_for_apply() {
    // A mapping container merges wholesale, not key by key.
    let mut a = DynProperty::Dict(vec![
        Entry { name: "one".to_string(), value: DynProperty::I32(1) },
        Entry { name: "two".to_string(), value: DynProperty::I32(2) },
    ]);
    let b = DynProperty::Dict(vec![Entry { name: "two".to_string(), value: DynProperty::I32(20) }]);
    a.apply(&b).unwrap();
    assert_eq!(a, b);

    // A sequence container behaves the same way.
    let mut l = DynProperty::List(vec![DynProperty::I32(1), DynProperty::I32(2)]);
    let shorter = DynProperty::List(vec![DynProperty::I32(9)]);
    l.apply(&shorter).unwrap();
    assert_eq!(l, shorter);

    let err = l.apply(&DynProperty::I32(3)).unwrap_err();
    assert_eq!(err.expected, TypeTag::List);
    assert_eq!(err.actual, TypeTag::I32);
}

#[test]
fn score_wrapper_round_trip() {
    let handle = score(5).erase();
    let copy = handle.clone_prop();
    assert_eq!(copy, handle);
    assert_eq!(copy.val::<NamedValue>().unwrap(), &score(5));

    let mut h = handle;
    h.set_val::<NamedValue>(score(9)).unwrap();
    let read = h.val::<NamedValue>().unwrap();
    assert_eq!(read.name, "Score");
    assert_eq!(*read.value, DynProperty::I32(9));
}

#[test]
fn score_wrapper_rejects_other_types() {
    let mut h = score(5).erase();

    // A plain value of another runtime type is turned away.
    let err = h.set_val::<bool>(true).unwrap_err();
    assert_eq!(err.expected, TypeTag::Named("Score".to_string()));
    assert_eq!(err.actual, TypeTag::Bool);

    // So is a wrapper registered under another name.
    let other = NamedValue { name: "Health".to_string(), value: Box::new(DynProperty::I32(1)) };
    let err = h.set_val::<NamedValue>(other).unwrap_err();
    assert_eq!(err.expected, TypeTag::Named("Score".to_string()));
    assert_eq!(err.actual, TypeTag::Named("Health".to_string()));

    assert_eq!(h, score(5).erase());
}

#[test]
fn position_partial_apply_updates_only_named_fields() {
    let mut position = agg("Position", vec![("x", DynProperty::I32(10)), ("y", DynProperty::I32(20))]);
    let partial = agg("Position", vec![("x", DynProperty::I32(99))]);
    position.apply(&partial).unwrap();
    assert_eq!(
        position,
        agg("Position", vec![("x", DynProperty::I32(99)), ("y", DynProperty::I32(20))])
    );
}

#[test]
fn as_properties_discovers_aggregates_only() {
    let a = agg("Conf", vec![("level", DynProperty::I32(1))]);
    let props = a.as_properties().unwrap();
    assert_eq!(props.field_count(), 1);
    let (name, value) = props.field_at(0);
    assert_eq!(name.as_str(), "level");
    assert_eq!(value, &DynProperty::I32(1));

    assert!(DynProperty::I32(1).as_properties().is_none());
    assert!(DynProperty::Str("s".to_string()).as_properties().is_none());
    assert!(score(1).erase().as_properties().is_none());
    assert!(DynProperty::List(vec![]).as_properties().is_none());
}

#[test]
fn properties_insert_replaces_or_appends() {
    let mut p = Properties::new("Conf".to_string());
    assert_eq!(p.field_count(), 0);

    p.insert("a".to_string(), DynProperty::I32(1));
    p.insert("b".to_string(), DynProperty::I32(2));
    assert_eq!(p.field_count(), 2);

    // Inserting an existing name replaces its value in place.
    p.insert("a".to_string(), DynProperty::I32(10));
    assert_eq!(p.field_count(), 2);
    let (first_name, first_value) = p.field_at(0);
    assert_eq!(first_name.as_str(), "a");
    assert_eq!(first_value, &DynProperty::I32(10));

    assert_eq!(p.prop_with_name(&"b".to_string()), Some(&DynProperty::I32(2)));
    assert_eq!(p.prop_with_name(&"missing".to_string()), None);
}

#[test]
fn mutable_typed_view_writes_through() {
    let mut h = DynProperty::I32(1);
    *i32::downcast_mut(&mut h) = 42;
    assert_eq!(h, DynProperty::I32(42));

    let mut s = DynProperty::Str("old".to_string());
    let view = String::downcast_mut(&mut s);
    view.push('!');
    assert_eq!(s, DynProperty::Str("old!".to_string()));
}

#[test]
fn typed_views_through_the_property_trait() {
    let h = DynProperty::Bool(true);
    assert_eq!(bool::downcast(&h), Some(&true));
    assert_eq!(i32::downcast(&h), None);
    assert_eq!(h.type_tag(), TypeTag::Bool);
    assert_eq!(true.prop_tag(), TypeTag::Bool);

    let list = vec![DynProperty::I32(1)].erase();
    assert_eq!(list.type_tag(), TypeTag::List);
    assert_eq!(<Vec<DynProperty>>::downcast(&list), Some(&vec![DynProperty::I32(1)]));

    let s = "text".to_string().erase();
    assert_eq!(s.val::<String>(), Some(&"text".to_string()));
    assert_eq!(s.val::<u64>(), None);
}
