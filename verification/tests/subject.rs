use shizuku::message::{subject_matcher, NatsSubjectPath, SubjectMatcher, SubjectMatcherError, SubjectMatcherField};

fn path(segments: &[&str]) -> NatsSubjectPath {
    NatsSubjectPath::from_strs(segments)
}

fn matcher(segments: &[&str]) -> SubjectMatcher {
    subject_matcher(segments).unwrap()
}

#[test]
fn test_subject_matcher_macro() {
    // static segments
    let m = matcher(&["foo", "bar"]);
    assert_eq!(
        m.0.as_slice(),
        &[
            SubjectMatcherField::Static("foo".into()),
            SubjectMatcherField::Static("bar".into()),
        ]
    );

    // wildcards
    let m = matcher(&["foo", "*", "bar"]);
    assert_eq!(
        m.0.as_slice(),
        &[
            SubjectMatcherField::Static("foo".into()),
            SubjectMatcherField::Wildcard,
            SubjectMatcherField::Static("bar".into()),
        ]
    );

    // recursive wildcard
    let m = matcher(&["foo", "bar", ">"]);
    assert_eq!(
        m.0.as_slice(),
        &[
            SubjectMatcherField::Static("foo".into()),
            SubjectMatcherField::Static("bar".into()),
            SubjectMatcherField::RecursiveWildcard,
        ]
    );
}

#[test]
fn test_multiple_recursive_wildcards() {
    let err = subject_matcher(&["foo", ">", ">"]).unwrap_err();
    assert_eq!(err, SubjectMatcherError::MultipleRecursiveWildcards);
    assert_eq!(err.message(), "Multiple '>' wildcards are not allowed");
}

#[test]
fn test_recursive_wildcard_not_last() {
    let err = subject_matcher(&["foo", ">", "bar"]).unwrap_err();
    assert_eq!(err, SubjectMatcherError::RecursiveWildcardNotLast);
    assert_eq!(err.message(), "'>' wildcard must be the last segment");
}

#[test]
fn subject_matcher_empty() {
    assert_eq!(matcher(&[]), SubjectMatcher(vec![]));
}

#[test]
fn matches_documented_examples() {
    let p = path(&["foo", "bar", "baz"]);
    assert!(matcher(&["foo", "bar", "baz"]).matches(&p));
    assert!(matcher(&["foo", "*", "baz"]).matches(&p));
    assert!(!matcher(&["foo", "bar"]).matches(&p));
    assert!(!matcher(&["foo", "*"]).matches(&p));
    assert!(matcher(&["foo", ">"]).matches(&p));

    let p = path(&["foo", "bar2", "baz"]);
    assert!(matcher(&["foo", "*", "baz"]).matches(&p));
}

#[test]
fn matches_needs_enough_segments() {
    assert!(!matcher(&["foo", "bar"]).matches(&path(&["foo"])));
    assert!(!matcher(&["foo", ">"]).matches(&path(&["foo"])));
    assert!(!matcher(&["foo", "bar"]).matches(&path(&["foo", "baz"])));
    assert!(matcher(&[]).matches(&path(&[])));
    assert!(!matcher(&[]).matches(&path(&["a"])));
}

#[test]
fn field_accepts_segment() {
    let seg = String::from("foo");
    assert!(SubjectMatcherField::Static("foo".into()).accepts(&seg));
    assert!(!SubjectMatcherField::Static("bar".into()).accepts(&seg));
    assert!(SubjectMatcherField::Wildcard.accepts(&seg));
    assert!(SubjectMatcherField::RecursiveWildcard.accepts(&seg));
    assert!(SubjectMatcherField::RecursiveWildcard.is_recursive_wildcard());
    assert!(!SubjectMatcherField::Wildcard.is_recursive_wildcard());
}

#[test]
fn subject_joins_segments_with_dots() {
    assert_eq!(path(&["foo", "bar", "baz"]).to_subject(), "foo.bar.baz");
    assert_eq!(path(&["foo"]).to_subject(), "foo");
    assert_eq!(path(&[]).to_subject(), "");
    assert_eq!(
        NatsSubjectPath::from(vec!["a".to_string(), "b".to_string()]).to_subject(),
        "a.b"
    );
    assert_eq!(path(&["a", "b"]).len(), 2);
}

#[test]
fn subject_splits_at_dots() {
    assert_eq!(NatsSubjectPath::from_subject("foo.bar.baz"), path(&["foo", "bar", "baz"]));
    assert_eq!(NatsSubjectPath::from_subject("foo"), path(&["foo"]));
    assert_eq!(NatsSubjectPath::from_subject(""), path(&[""]));
    assert_eq!(NatsSubjectPath::from_subject("a..b."), path(&["a", "", "b", ""]));
    assert_eq!(NatsSubjectPath::from_subject("ünï.cödé"), path(&["ünï", "cödé"]));
}

#[test]
fn split_then_join_gives_the_subject_back() {
    for s in ["orders.paid.eu", "x", "", "a..b", ".lead"] {
        assert_eq!(NatsSubjectPath::from_subject(s).to_subject(), s);
    }
}
