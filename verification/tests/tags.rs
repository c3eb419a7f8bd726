use amalgam::{collect_tags, RemoveByTagBehavior, Tag, TagRegistry, TagVerdict, Timestamp};

fn tag(s: &str) -> Tag {
    Tag::new(s).unwrap()
}

#[test]
fn blank_tags_rejected() {
    assert!(Tag::new("").is_none());
    assert!(Tag::new("   ").is_none());
    assert!(Tag::new("x").is_some());
}

#[test]
fn entry_before_marker_is_invalid() {
    let mut reg = TagRegistry::new();
    let created = Timestamp::from_ticks(100);
    reg.mark_tag(tag("a"), Timestamp::from_ticks(200));
    assert_eq!(
        reg.evaluate(created, &vec![tag("a")], RemoveByTagBehavior::Expire),
        TagVerdict::Expire
    );
    // An entry created after the marker is unaffected.
    let newer = Timestamp::from_ticks(300);
    assert_eq!(
        reg.evaluate(newer, &vec![tag("a")], RemoveByTagBehavior::Expire),
        TagVerdict::Valid
    );
}

#[test]
fn remove_behavior_dominates() {
    let mut reg = TagRegistry::new();
    reg.mark_tag(tag("a"), Timestamp::from_ticks(200));
    assert_eq!(
        reg.evaluate(
            Timestamp::from_ticks(100),
            &vec![tag("a")],
            RemoveByTagBehavior::Remove
        ),
        TagVerdict::Remove
    );
}

#[test]
fn clear_remove_outranks_clear_expire() {
    let mut reg = TagRegistry::new();
    reg.mark_clear_expire(Timestamp::from_ticks(200));
    reg.mark_clear_remove(Timestamp::from_ticks(200));
    assert_eq!(
        reg.evaluate(
            Timestamp::from_ticks(100),
            &Vec::new(),
            RemoveByTagBehavior::Expire
        ),
        TagVerdict::Remove
    );
}

#[test]
fn an_entry_created_with_the_marker_is_invalid() {
    let mut reg = TagRegistry::new();
    reg.mark_tag(tag("a"), Timestamp::from_ticks(200));
    let tags = vec![tag("b"), tag("a")];
    assert_eq!(
        reg.evaluate(Timestamp::from_ticks(200), &tags, RemoveByTagBehavior::Expire),
        TagVerdict::Expire
    );
    assert_eq!(
        reg.evaluate(Timestamp::from_ticks(201), &tags, RemoveByTagBehavior::Expire),
        TagVerdict::Valid
    );
    assert_eq!(
        reg.evaluate(
            Timestamp::from_ticks(200),
            &vec![tag("b")],
            RemoveByTagBehavior::Expire
        ),
        TagVerdict::Valid
    );
}

#[test]
fn markers_never_move_back() {
    let mut reg = TagRegistry::default();
    assert_eq!(reg.tag_marker(&tag("a")), None);
    reg.mark_tag(tag("a"), Timestamp::from_ticks(200));
    reg.mark_tag(tag("a"), Timestamp::from_ticks(100));
    assert_eq!(
        reg.tag_marker(&tag("a")),
        Some(Timestamp::from_ticks(200))
    );
    reg.mark_tag(tag("a"), Timestamp::from_ticks(300));
    assert_eq!(
        reg.tag_marker(&tag("a")),
        Some(Timestamp::from_ticks(300))
    );
    assert_eq!(reg.tag_marker(&tag("b")), None);
    reg.mark_clear_expire(Timestamp::from_ticks(50));
    reg.mark_clear_expire(Timestamp::from_ticks(40));
    assert_eq!(
        reg.evaluate(
            Timestamp::from_ticks(50),
            &Vec::new(),
            RemoveByTagBehavior::Remove
        ),
        TagVerdict::Expire
    );
}

#[test]
fn blank_texts_are_dropped_in_order() {
    let texts = vec!["b".to_owned(), " ".to_owned(), "a".to_owned(), String::new()];
    let tags = collect_tags(&texts);
    assert_eq!(tags, vec![tag("b"), tag("a")]);
    assert_eq!(tags[1].as_str(), "a");
    assert_eq!(tags[0].to_text(), "b");
}

#[test]
fn an_unmarked_registry_spares_the_earliest_instant() {
    let earliest = Timestamp::from_ticks(i64::MIN);
    let mut reg = TagRegistry::new();
    let evaluate = |reg: &TagRegistry, behavior| reg.evaluate(earliest, &Vec::new(), behavior);
    assert_eq!(
        evaluate(&reg, RemoveByTagBehavior::Expire),
        TagVerdict::Valid
    );
    assert_eq!(
        evaluate(&reg, RemoveByTagBehavior::Remove),
        TagVerdict::Valid
    );
    // A clear at that very instant covers it.
    reg.mark_clear_expire(earliest);
    assert_eq!(
        evaluate(&reg, RemoveByTagBehavior::Expire),
        TagVerdict::Expire
    );
    reg.mark_clear_remove(earliest);
    assert_eq!(
        evaluate(&reg, RemoveByTagBehavior::Expire),
        TagVerdict::Remove
    );
}

#[test]
fn markers_of_other_tags_do_not_count() {
    let created = Timestamp::from_ticks(100);
    let mut reg = TagRegistry::new();
    reg.mark_tag(tag("b"), Timestamp::from_ticks(200));
    assert_eq!(
        reg.evaluate(created, &vec![tag("a")], RemoveByTagBehavior::Remove),
        TagVerdict::Valid
    );
    assert_eq!(
        reg.evaluate(created, &vec![tag("a"), tag("b")], RemoveByTagBehavior::Remove),
        TagVerdict::Remove
    );
}
