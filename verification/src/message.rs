//! Messages and their byte encodings.

use vstd::prelude::*;
use vstd::string::StrSliceExecFns;
use vstd::string::StringExecFns;

verus! {

/// This data can be serialized to bytes, in any format.
pub trait ByteSerialize: Sized {
    /// Error type for serialization.
    type SerError;

    /// The bytes of the message, or why it has none.
    spec fn spec_serialized(&self) -> Result<Seq<u8>, Self::SerError>;

    /// Serialize the message to bytes.
    fn to_bytes(&self) -> (r: Result<Vec<u8>, Self::SerError>)
        ensures
            match (r, self.spec_serialized()) {
                (Ok(b), Ok(s)) => b@ == s,
                (Err(e), Err(f)) => e == f,
                _ => false,
            },
    ;
}

/// This data can be deserialized from bytes, in any format.
pub trait ByteDeserialize: Sized {
    /// Error type for deserialization.
    type DeError;

    /// The message that the bytes stand for, or why they stand for none.
    spec fn spec_deserialized(bytes: Seq<u8>) -> Result<Self, Self::DeError>;

    /// Parse the message from bytes.
    fn parse_from_bytes(bytes: &[u8]) -> (r: Result<Self, Self::DeError>)
        ensures
            r == Self::spec_deserialized(bytes@),
    ;
}

/// A NATS message with a subject, which may depend on the message.
pub trait DynamicSubjectNatsMessage {
    /// The subject of this message.
    spec fn subject_of(&self) -> Seq<char>;

    /// The subject of the message.
    fn subject(&self) -> (r: String)
        ensures
            r@ == self.subject_of(),
    ;
}

/// A NATS message whose subject is the same for every message.
pub trait StaticSubjectNatsMessage {
    /// The subject of every message of the type.
    spec fn static_subject() -> Seq<char>;

    /// The subject of the messages.
    fn subject() -> (r: String)
        ensures
            r@ == Self::static_subject(),
    ;
}

/// A message whose subject is fixed has that subject.
impl<T: StaticSubjectNatsMessage> DynamicSubjectNatsMessage for T {
    open spec fn subject_of(&self) -> Seq<char> {
        T::static_subject()
    }

    fn subject(&self) -> (r: String) {
        T::subject()
    }
}

/// A NATS message with a subject path, which may depend on the message.
pub trait DynamicSubjectMessage {
    /// The subject path of this message, segment by segment.
    spec fn subject_path_of(&self) -> Seq<Seq<char>>;

    /// The subject path of the message.
    fn subject(&self) -> (r: NatsSubjectPath)
        ensures
            r@ == self.subject_path_of(),
    ;
}

/// A NATS message whose subject path is the same for every message.
pub trait StaticSubjectMessage {
    /// The subject path of every message of the type, segment by segment.
    spec fn static_subject_path() -> Seq<Seq<char>>;

    /// The subject path of the messages.
    fn subject() -> (r: NatsSubjectPath)
        ensures
            r@ == Self::static_subject_path(),
    ;
}

/// A message whose subject path is fixed has that path.
impl<T: StaticSubjectMessage> DynamicSubjectMessage for T {
    open spec fn subject_path_of(&self) -> Seq<Seq<char>> {
        T::static_subject_path()
    }

    fn subject(&self) -> (r: NatsSubjectPath) {
        T::subject()
    }
}

/// The segments joined with `.` between them.
pub open spec fn spec_join_dots(segments: Seq<Seq<char>>) -> Seq<char>
    decreases segments.len(),
{
    if segments.len() == 0 {
        seq![]
    } else if segments.len() == 1 {
        segments[0]
    } else {
        spec_join_dots(segments.drop_last()) + seq!['.'] + segments.last()
    }
}

/// The characters of each segment.
pub open spec fn segments_view(v: Seq<String>) -> Seq<Seq<char>> {
    v.map_values(|s: String| s@)
}

/// A NATS subject path: its dot-separated segments.
#[derive(Debug, Clone, PartialEq, Eq)]
pub struct NatsSubjectPath(pub Vec<String>);

impl View for NatsSubjectPath {
    type V = Seq<Seq<char>>;

    open spec fn view(&self) -> Seq<Seq<char>> {
        segments_view(self.0@)
    }
}

impl NatsSubjectPath {
    /// The subject: the segments joined with `.`.
    pub fn to_subject(&self) -> (r: String)
        ensures
            r@ == spec_join_dots(self@),
    {
        let mut r = String::new();
        let mut i: usize = 0;
        while i < self.0.len()
            invariant
                i <= self.0.len(),
                r@ == spec_join_dots(self@.take(i as int)),
            decreases self.0.len() - i,
        {
            proof {
                reveal_strlit(".");
                assert(self@.take(i + 1).drop_last() == self@.take(i as int));
            }
            if i > 0 {
                r.append(".");
            }
            r.append(self.0[i].as_str());
            proof {
                if i == 0 {
                    assert(r@ == self@.take(1)[0]);
                }
                assert(r@ =~= spec_join_dots(self@.take(i + 1)));
            }
            i = i + 1;
        }
        proof {
            assert(self@.take(self.0.len() as int) == self@);
        }
        r
    }

    /// The number of segments.
    pub fn len(&self) -> (n: usize)
        ensures
            n == self@.len(),
    {
        self.0.len()
    }

    /// Build a path from its segments.
    pub fn from_strs(segments: &[&str]) -> (r: Self)
        ensures
            r@ == segments@.map_values(|s: &str| s@),
    {
        let mut v: Vec<String> = Vec::new();
        let mut i: usize = 0;
        while i < segments.len()
            invariant
                i <= segments.len(),
                v@.len() == i,
                forall|j: int| 0 <= j < i ==> #[trigger] v@[j]@ == segments@[j]@,
            decreases segments.len() - i,
        {
            v.push(segments[i].to_string());
            i = i + 1;
        }
        let r = NatsSubjectPath(v);
        proof {
            assert(r@ =~= segments@.map_values(|s: &str| s@));
        }
        r
    }
}

/// Joining one more segment: the segments joined so far, a dot, and the
/// new segment (or the new segment alone when there was none).
pub proof fn lemma_join_dots_push(x: Seq<Seq<char>>, a: Seq<char>)
    ensures
        spec_join_dots(x.push(a)) == if x.len() == 0 { a } else { spec_join_dots(x) + seq!['.'] + a },
{
    assert(x.push(a).drop_last() =~= x);
    if x.len() == 0 {
        assert(x.push(a)[0] == a);
    }
}

/// No segment contains a dot.
pub open spec fn dot_free(segments: Seq<Seq<char>>) -> bool {
    forall|i: int| 0 <= i < segments.len() ==> !(#[trigger] segments[i]).contains('.')
}

impl NatsSubjectPath {
    /// Split a subject at its dots into the segments of its path. Joining
    /// the segments with dots gives the subject back, and no segment holds
    /// a dot; the subject `""` has the one empty segment.
    pub fn from_subject(subject: &str) -> (r: Self)
        ensures
            spec_join_dots(r@) == subject@,
            dot_free(r@),
            r@.len() >= 1,
    {
        let ghost s = subject@;
        let n = subject.unicode_len();
        let mut segs: Vec<String> = Vec::new();
        let mut start: usize = 0;
        let mut i: usize = 0;
        assert(s.subrange(0, 0) =~= Seq::<char>::empty());
        proof {
            lemma_join_dots_push(segments_view(segs@), s.subrange(0, 0));
        }
        while i < n
            invariant
                n == s.len(),
                s == subject@,
                start <= i <= n,
                spec_join_dots(segments_view(segs@).push(s.subrange(start as int, i as int))) == s.subrange(0, i as int),
                dot_free(segments_view(segs@)),
                !s.subrange(start as int, i as int).contains('.'),
                segs@.len() == 0 ==> start == 0,
            decreases n - i,
        {
            let c = subject.get_char(i);
            let ghost segv = segments_view(segs@);
            let ghost cur = s.subrange(start as int, i as int);
            if c == '.' {
                let seg = subject.substring_char(start, i).to_string();
                assert(seg@ == cur);
                segs.push(seg);
                proof {
                    assert(segments_view(segs@) =~= segv.push(cur));
                    lemma_join_dots_push(segv, cur);
                    lemma_join_dots_push(segv.push(cur), s.subrange(i + 1, i + 1));
                    assert(s.subrange(i + 1, i + 1) =~= Seq::<char>::empty());
                    assert(s.subrange(0, i + 1) =~= s.subrange(0, i as int) + seq!['.']);
                    assert(spec_join_dots(segv.push(cur)) == s.subrange(0, i as int));
                    assert(spec_join_dots(segments_view(segs@).push(s.subrange(i + 1, i + 1)))
                        =~= s.subrange(0, i + 1));
                    assert forall|j: int| 0 <= j < segments_view(segs@).len()
                        implies !(#[trigger] segments_view(segs@)[j]).contains('.') by {
                        if j < segv.len() {
                            assert(segments_view(segs@)[j] == segv[j]);
                        }
                    }
                    assert(!s.subrange(i + 1, i + 1).contains('.'));
                }
                start = i + 1;
            } else {
                proof {
                    let cur2 = s.subrange(start as int, i + 1);
                    assert(cur2 =~= cur.push(c));
                    lemma_join_dots_push(segv, cur);
                    lemma_join_dots_push(segv, cur2);
                    assert(s.subrange(0, i + 1) =~= s.subrange(0, i as int).push(c));
                    if segv.len() == 0 {
                        assert(spec_join_dots(segv.push(cur2)) =~= s.subrange(0, i + 1));
                    } else {
                        assert(spec_join_dots(segv.push(cur2)) =~= s.subrange(0, i + 1));
                    }
                    assert forall|j: int| 0 <= j < cur2.len() implies cur2[j] != '.' by {
                        if j < cur.len() {
                            assert(cur2[j] == cur[j]);
                        }
                    }
                }
            }
            i = i + 1;
        }
        let last = subject.substring_char(start, n).to_string();
        let ghost segv = segments_view(segs@);
        segs.push(last);
        let r = NatsSubjectPath(segs);
        proof {
            assert(s.subrange(0, n as int) =~= s);
            assert(r@ =~= segv.push(s.subrange(start as int, n as int)));
            assert forall|j: int| 0 <= j < r@.len() implies !(#[trigger] r@[j]).contains('.') by {
                if j < segv.len() {
                    assert(r@[j] == segv[j]);
                }
            }
        }
        r
    }
}

impl From<Vec<String>> for NatsSubjectPath {
    fn from(value: Vec<String>) -> (r: Self)
        ensures
            r == NatsSubjectPath(value),
    {
        NatsSubjectPath(value)
    }
}

impl vstd::std_specs::convert::FromSpecImpl<Vec<String>> for NatsSubjectPath {
    open spec fn obeys_from_spec() -> bool {
        true
    }

    open spec fn from_spec(v: Vec<String>) -> Self {
        NatsSubjectPath(v)
    }
}

/// A field of a subject matcher.
#[derive(Debug, Clone, PartialEq, Eq)]
pub enum SubjectMatcherField {
    /// A segment that must be equal to this string; `foo.bar` has the two
    /// static fields `foo` and `bar`.
    Static(String),
    /// `*`: any one segment.
    Wildcard,
    /// `>`: all remaining segments; only allowed last.
    RecursiveWildcard,
}

/// A [`SubjectMatcherField`] with the static segment as characters.
pub enum FieldView {
    /// A segment that must be equal to these characters.
    Static(Seq<char>),
    /// Any one segment.
    Wildcard,
    /// All remaining segments.
    RecursiveWildcard,
}

impl View for SubjectMatcherField {
    type V = FieldView;

    open spec fn view(&self) -> FieldView {
        match self {
            SubjectMatcherField::Static(s) => FieldView::Static(s@),
            SubjectMatcherField::Wildcard => FieldView::Wildcard,
            SubjectMatcherField::RecursiveWildcard => FieldView::RecursiveWildcard,
        }
    }
}

/// The field accepts the segment: a static field accepts the equal
/// segment, a wildcard accepts any.
pub open spec fn field_accepts(f: FieldView, segment: Seq<char>) -> bool {
    match f {
        FieldView::Static(s) => s == segment,
        _ => true,
    }
}

impl SubjectMatcherField {
    /// Whether the field accepts `segment`: a static field accepts the equal
    /// segment, a wildcard of either kind accepts any.
    pub fn accepts(&self, segment: &String) -> (b: bool)
        ensures
            b == field_accepts(self@, segment@),
    {
        match self {
            SubjectMatcherField::Static(s) => *s == *segment,
            _ => true,
        }
    }

    /// Whether the field is the recursive wildcard `>`.
    pub fn is_recursive_wildcard(&self) -> (b: bool)
        ensures
            b == (self@ is RecursiveWildcard),
    {
        match self {
            SubjectMatcherField::RecursiveWildcard => true,
            _ => false,
        }
    }
}

/// A subject matcher: a pattern of fields that subjects can match.
#[derive(Debug, Clone, PartialEq, Eq)]
pub struct SubjectMatcher(pub Vec<SubjectMatcherField>);

/// The fields of a matcher.
pub open spec fn fields_view(v: Seq<SubjectMatcherField>) -> Seq<FieldView> {
    v.map_values(|f: SubjectMatcherField| f@)
}

impl View for SubjectMatcher {
    type V = Seq<FieldView>;

    open spec fn view(&self) -> Seq<FieldView> {
        fields_view(self.0@)
    }
}

/// The matcher ends with the recursive wildcard `>`.
pub open spec fn ends_recursive(m: Seq<FieldView>) -> bool {
    m.len() > 0 && m.last() is RecursiveWildcard
}

/// The subject matches the matcher: it has as many segments as the matcher
/// has fields, or more when the matcher ends with `>`, and every field
/// accepts the segment at its position.
pub open spec fn spec_matches(m: Seq<FieldView>, s: Seq<Seq<char>>) -> bool {
    &&& s.len() >= m.len()
    &&& (s.len() == m.len() || ends_recursive(m))
    &&& forall|i: int| 0 <= i < m.len() ==> field_accepts(#[trigger] m[i], s[i])
}

/// Checking the subject would reach a `>` that is not the last field: a
/// malformed matcher, which the check refuses.
pub open spec fn reaches_misplaced_recursive(m: Seq<FieldView>, s: Seq<Seq<char>>) -> bool {
    &&& s.len() >= m.len()
    &&& (s.len() == m.len() || ends_recursive(m))
    &&& exists|i: int| #![trigger m[i]] 0 <= i < m.len() - 1 && m[i] is RecursiveWildcard
        && forall|j: int| 0 <= j < i ==> field_accepts(#[trigger] m[j], s[j])
}

/// The matcher is well formed: `>` appears at most once, and only last.
pub open spec fn well_formed_matcher(m: Seq<FieldView>) -> bool {
    forall|i: int| 0 <= i < m.len() - 1 ==> !(#[trigger] m[i] is RecursiveWildcard)
}

impl SubjectMatcher {
    /// Checks if a NATS subject matches this matcher pattern. For example
    /// `foo.bar.baz` matches `foo.bar.baz`, `foo.*.baz` and `foo.>`, but
    /// neither `foo.bar` nor `foo.*`.
    pub fn matches(&self, subject: &NatsSubjectPath) -> (b: bool)
        requires
            !reaches_misplaced_recursive(self@, subject@),
        ensures
            b == spec_matches(self@, subject@),
    {
        let m = &self.0;
        let s = &subject.0;
        if s.len() < m.len() {
            return false;
        }
        if s.len() > m.len() && !(m.len() > 0 && m[m.len() - 1].is_recursive_wildcard()) {
            return false;
        }
        let len = m.len();
        assert(self@.len() == len);
        assert(subject@.len() == s.len());
        let mut i: usize = 0;
        while i < len
            invariant
                len == m.len(),
                m@ == self.0@,
                s@ == subject.0@,
                self@.len() == len,
                subject@.len() == s.len(),
                i <= len,
                s.len() >= m.len(),
                s.len() == m.len() || ends_recursive(self@),
                !reaches_misplaced_recursive(self@, subject@),
                forall|j: int| 0 <= j < i ==> field_accepts(#[trigger] self@[j], subject@[j]),
            decreases len - i,
        {
            assert(self@[i as int] == m@[i as int]@);
            assert(subject@[i as int] == s@[i as int]@);
            match &m[i] {
                SubjectMatcherField::Static(f) => {
                    if *f != s[i] {
                        assert(!field_accepts(self@[i as int], subject@[i as int]));
                        return false;
                    }
                },
                SubjectMatcherField::Wildcard => {},
                SubjectMatcherField::RecursiveWildcard => {
                    if i != len - 1 {
                        assert(reaches_misplaced_recursive(self@, subject@));
                        assert(false);
                    }
                },
            }
            i = i + 1;
        }
        true
    }
}

/// Why a list of segments makes no subject matcher.
#[derive(Debug, Clone, Copy, PartialEq, Eq, Structural)]
pub enum SubjectMatcherError {
    /// More than one `>`.
    MultipleRecursiveWildcards,
    /// A `>` that is not the last segment.
    RecursiveWildcardNotLast,
}

impl SubjectMatcherError {
    /// How the error is written out.
    pub fn message(&self) -> (r: String)
        ensures
            r@ == match self {
                SubjectMatcherError::MultipleRecursiveWildcards => "Multiple '>' wildcards are not allowed"@,
                SubjectMatcherError::RecursiveWildcardNotLast => "'>' wildcard must be the last segment"@,
            },
    {
        match self {
            SubjectMatcherError::MultipleRecursiveWildcards => "Multiple '>' wildcards are not allowed".to_owned(),
            SubjectMatcherError::RecursiveWildcardNotLast => "'>' wildcard must be the last segment".to_owned(),
        }
    }
}

/// The field that a segment stands for: `*` a wildcard, `>` a recursive
/// wildcard, anything else itself.
pub open spec fn segment_field(s: Seq<char>) -> FieldView {
    if s == seq!['*'] {
        FieldView::Wildcard
    } else if s == seq!['>'] {
        FieldView::RecursiveWildcard
    } else {
        FieldView::Static(s)
    }
}

/// The number of `>` among the first `n` segments.
pub open spec fn count_recursive(segments: Seq<Seq<char>>, n: int) -> nat
    decreases n,
{
    if n <= 0 {
        0
    } else {
        count_recursive(segments, n - 1) + if segments[n - 1] == seq!['>'] { 1nat } else { 0nat }
    }
}

/// The matcher of a list of segments, or why there is none: `*` stands for a
/// wildcard, `>` for the recursive wildcard, which may appear once and only
/// last, anything else for itself.
pub open spec fn spec_subject_matcher(segments: Seq<Seq<char>>) -> Result<Seq<FieldView>, SubjectMatcherError> {
    let n = count_recursive(segments, segments.len() as int);
    if n > 1 {
        Err(SubjectMatcherError::MultipleRecursiveWildcards)
    } else if n == 1 && segments.last() != seq!['>'] {
        Err(SubjectMatcherError::RecursiveWildcardNotLast)
    } else {
        Ok(segments.map_values(|s: Seq<char>| segment_field(s)))
    }
}

/// Build a subject matcher from its segments: `"*"` is a wildcard, `">"` the
/// recursive wildcard (at most once, and only last), anything else a static
/// field.
pub fn subject_matcher(segments: &[&str]) -> (r: Result<SubjectMatcher, SubjectMatcherError>)
    ensures
        match (r, spec_subject_matcher(segments@.map_values(|s: &str| s@))) {
            (Ok(m), Ok(fields)) => m@ == fields,
            (Err(e), Err(f)) => e == f,
            _ => false,
        },
{
    let ghost segs = segments@.map_values(|s: &str| s@);
    let star = "*".to_string();
    let greater = ">".to_string();
    proof {
        reveal_strlit("*");
        reveal_strlit(">");
    }
    let mut fields: Vec<SubjectMatcherField> = Vec::new();
    let mut recursive_count: usize = 0;
    let mut i: usize = 0;
    while i < segments.len()
        invariant
            i <= segments.len(),
            segs == segments@.map_values(|s: &str| s@),
            star@ == seq!['*'],
            greater@ == seq!['>'],
            fields@.len() == i,
            recursive_count == count_recursive(segs, i as int),
            recursive_count <= i,
            forall|j: int| 0 <= j < i ==> #[trigger] fields@[j]@ == segment_field(segs[j]),
        decreases segments.len() - i,
    {
        let seg = segments[i].to_string();
        assert(seg@ == segs[i as int]);
        let field = if seg == star {
            SubjectMatcherField::Wildcard
        } else if seg == greater {
            recursive_count = recursive_count + 1;
            SubjectMatcherField::RecursiveWildcard
        } else {
            SubjectMatcherField::Static(seg)
        };
        proof {
            assert(seq!['*'] != seq!['>']) by {
                assert(seq!['*'][0] != seq!['>'][0]);
            }
            assert(field@ == segment_field(segs[i as int]));
            assert(count_recursive(segs, i + 1) == count_recursive(segs, i as int) + if segs[i as int] == seq!['>'] { 1nat } else { 0nat });
        }
        fields.push(field);
        i = i + 1;
    }
    if recursive_count > 1 {
        return Err(SubjectMatcherError::MultipleRecursiveWildcards);
    }
    proof {
        assert(segs.len() == segments.len());
        assert(seq!['*'] != seq!['>']) by {
            assert(seq!['*'][0] != seq!['>'][0]);
        }
        if recursive_count == 1 {
            assert(fields@[fields.len() - 1]@ == segment_field(segs.last()));
        }
    }
    if recursive_count == 1 && !fields[fields.len() - 1].is_recursive_wildcard() {
        return Err(SubjectMatcherError::RecursiveWildcardNotLast);
    }
    let m = SubjectMatcher(fields);
    proof {
        assert(m@ =~= segs.map_values(|s: Seq<char>| segment_field(s)));
        if recursive_count == 1 {
            assert(m@[segs.len() - 1] == segment_field(segs.last()));
        }
    }
    Ok(m)
}

/// A matcher made of static fields only matches exactly the path that
/// spells it.
pub proof fn lemma_static_matcher_matches_only_its_path(p: Seq<Seq<char>>, t: Seq<Seq<char>>)
    ensures
        spec_matches(p.map_values(|s: Seq<char>| FieldView::Static(s)), t) <==> t == p,
{
    let m = p.map_values(|s: Seq<char>| FieldView::Static(s));
    if spec_matches(m, t) {
        assert(!ends_recursive(m));
        assert forall|i: int| 0 <= i < p.len() implies t[i] == p[i] by {
            assert(field_accepts(m[i], t[i]));
        }
        assert(t =~= p);
    }
    if t == p {
        assert forall|i: int| 0 <= i < m.len() implies field_accepts(#[trigger] m[i], t[i]) by {}
    }
}

/// A matcher that ends with `>` keeps matching when segments are added:
/// it matches every extension of a subject it matches.
pub proof fn lemma_recursive_matches_extensions(m: Seq<FieldView>, s: Seq<Seq<char>>, extra: Seq<Seq<char>>)
    requires
        ends_recursive(m),
        spec_matches(m, s),
    ensures
        spec_matches(m, s + extra),
{
    assert forall|i: int| 0 <= i < m.len() implies field_accepts(#[trigger] m[i], (s + extra)[i]) by {
        assert((s + extra)[i] == s[i]);
    }
}

/// Checking a subject against a well-formed matcher never reaches a
/// misplaced `>`.
pub proof fn lemma_well_formed_matcher_is_checkable(m: Seq<FieldView>, s: Seq<Seq<char>>)
    requires
        well_formed_matcher(m),
    ensures
        !reaches_misplaced_recursive(m, s),
{
}

/// Every matcher built from segments is well formed, so every subject can
/// be checked against it.
pub proof fn lemma_built_matcher_well_formed(segments: Seq<Seq<char>>)
    requires
        spec_subject_matcher(segments) is Ok,
    ensures
        well_formed_matcher(spec_subject_matcher(segments)->Ok_0),
{
    let m = spec_subject_matcher(segments)->Ok_0;
    assert forall|i: int| 0 <= i < m.len() - 1 implies !(#[trigger] m[i] is RecursiveWildcard) by {
        if m[i] is RecursiveWildcard {
            assert(segments[i] == seq!['>']);
            lemma_count_recursive_at_least(segments, i, segments.len() as int);
            if segments.last() == seq!['>'] {
                lemma_count_recursive_two(segments, i, segments.len() - 1, segments.len() as int);
            }
        }
    }
}

/// A `>` at index `i` below `n` is counted among the first `n` segments.
pub proof fn lemma_count_recursive_at_least(segments: Seq<Seq<char>>, i: int, n: int)
    requires
        0 <= i < n <= segments.len(),
        segments[i] == seq!['>'],
    ensures
        count_recursive(segments, n) >= 1,
    decreases n,
{
    if i < n - 1 {
        lemma_count_recursive_at_least(segments, i, n - 1);
    }
}

/// Two `>` at distinct indices below `n` are both counted.
pub proof fn lemma_count_recursive_two(segments: Seq<Seq<char>>, i: int, j: int, n: int)
    requires
        0 <= i < j < n <= segments.len(),
        segments[i] == seq!['>'],
        segments[j] == seq!['>'],
    ensures
        count_recursive(segments, n) >= 2,
    decreases n,
{
    if j < n - 1 {
        lemma_count_recursive_two(segments, i, j, n - 1);
    } else {
        lemma_count_recursive_at_least(segments, i, n - 1);
    }
}

} // verus!
