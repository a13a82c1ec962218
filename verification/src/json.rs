//! The payload value model.
//!
//! Generated types serialize to and from a textual, JSON-based protocol.
//! The codec works on this explicit payload value: an object is an ordered
//! list of named members, and lookup by property name finds the first
//! member of that name.

use vstd::prelude::*;

verus! {

/// One payload value of the wire protocol.
#[derive(Debug)]
pub enum Json {
    /// The null value.
    Null,
    /// A boolean literal.
    Bool(bool),
    /// An integer number.
    Int(i64),
    /// A string.
    Str(String),
    /// An ordered list of values.
    Array(Vec<Json>),
    /// An ordered list of named members.
    Object(Vec<Member>),
}

/// One named member of an object value.
#[derive(Debug)]
pub struct Member {
    /// The property name.
    pub name: String,
    /// The property value.
    pub value: Json,
}

/// The mathematical value of a [`Json`] payload.
pub enum JsonView {
    /// The null value.
    Null,
    /// A boolean literal.
    Bool(bool),
    /// An integer number.
    Int(int),
    /// A string.
    Str(Seq<char>),
    /// An ordered list of values.
    Array(Seq<JsonView>),
    /// An ordered list of named members.
    Object(Seq<MemberView>),
}

/// The mathematical value of a [`Member`].
#[verifier::ext_equal]
pub struct MemberView {
    /// The property name.
    pub name: Seq<char>,
    /// The property value.
    pub value: JsonView,
}

/// The mathematical value of a payload.
pub open spec fn json_view(j: Json) -> JsonView
    decreases j,
{
    match j {
        Json::Null => JsonView::Null,
        Json::Bool(b) => JsonView::Bool(b),
        Json::Int(n) => JsonView::Int(n as int),
        Json::Str(s) => JsonView::Str(s@),
        Json::Array(v) => JsonView::Array(json_seq_views(v@)),
        Json::Object(m) => JsonView::Object(member_seq_views(m@)),
    }
}

/// The values of a list of payloads.
pub open spec fn json_seq_views(s: Seq<Json>) -> Seq<JsonView>
    decreases s,
{
    if s.len() == 0 {
        Seq::empty()
    } else {
        seq![json_view(s[0])] + json_seq_views(s.drop_first())
    }
}

/// The mathematical value of a member.
pub open spec fn member_view(m: Member) -> MemberView
    decreases m,
{
    MemberView { name: m.name@, value: json_view(m.value) }
}

/// The values of a member list.
pub open spec fn member_seq_views(s: Seq<Member>) -> Seq<MemberView>
    decreases s,
{
    if s.len() == 0 {
        Seq::empty()
    } else {
        seq![member_view(s[0])] + member_seq_views(s.drop_first())
    }
}

impl View for Json {
    type V = JsonView;

    open spec fn view(&self) -> JsonView {
        json_view(*self)
    }
}

impl View for Member {
    type V = MemberView;

    open spec fn view(&self) -> MemberView {
        member_view(*self)
    }
}

/// A payload list's values are exactly the values of its payloads, in
/// order.
pub proof fn lemma_json_seq_views(s: Seq<Json>)
    ensures
        json_seq_views(s).len() == s.len(),
        forall|i: int| 0 <= i < s.len() ==> json_seq_views(s)[i] == json_view(s[i]),
    decreases s.len(),
{
    if s.len() > 0 {
        lemma_json_seq_views(s.drop_first());
        assert(forall|i: int|
            0 <= i < s.len() ==> #[trigger] json_seq_views(s)[i] == json_view(s[i])) by {
            assert forall|i: int| 0 <= i < s.len() implies #[trigger] json_seq_views(s)[i]
                == json_view(s[i]) by {
                if i > 0 {
                    assert(json_seq_views(s)[i] == json_seq_views(s.drop_first())[i - 1]);
                    assert(s.drop_first()[i - 1] == s[i]);
                }
            }
        }
    }
}

/// A member list's values are exactly the values of its members, in order.
pub proof fn lemma_member_seq_views(s: Seq<Member>)
    ensures
        member_seq_views(s).len() == s.len(),
        forall|i: int| 0 <= i < s.len() ==> member_seq_views(s)[i] == member_view(s[i]),
    decreases s.len(),
{
    if s.len() > 0 {
        lemma_member_seq_views(s.drop_first());
        assert(forall|i: int|
            0 <= i < s.len() ==> #[trigger] member_seq_views(s)[i] == member_view(s[i])) by {
            assert forall|i: int| 0 <= i < s.len() implies #[trigger] member_seq_views(s)[i]
                == member_view(s[i]) by {
                if i > 0 {
                    assert(member_seq_views(s)[i] == member_seq_views(s.drop_first())[i - 1]);
                    assert(s.drop_first()[i - 1] == s[i]);
                }
            }
        }
    }
}

/// The value of the first member of the given name, if any.
pub open spec fn lookup(members: Seq<MemberView>, name: Seq<char>) -> Option<JsonView>
    decreases members.len(),
{
    if members.len() == 0 {
        None
    } else if members[0].name == name {
        Some(members[0].value)
    } else {
        lookup(members.drop_first(), name)
    }
}

/// Copies a payload value.
pub fn json_clone(j: &Json) -> (r: Json)
    ensures
        r@ == j@,
    decreases *j,
{
    match j {
        Json::Null => Json::Null,
        Json::Bool(b) => Json::Bool(*b),
        Json::Int(n) => Json::Int(*n),
        Json::Str(s) => Json::Str(s.clone()),
        Json::Array(v) => Json::Array(json_clone_list(v)),
        Json::Object(m) => Json::Object(member_clone_list(m)),
    }
}

/// Copies a list of payload values.
fn json_clone_list(v: &Vec<Json>) -> (out: Vec<Json>)
    ensures
        json_seq_views(out@) == json_seq_views(v@),
    decreases v@,
{
    let mut out: Vec<Json> = Vec::new();
    let mut i: usize = 0;
    while i < v.len()
        invariant
            i <= v@.len(),
            out@.len() == i,
            forall|k: int| 0 <= k < i ==> json_view(#[trigger] out@[k]) == json_view(v@[k]),
        decreases v@.len() - i,
    {
        let c = json_clone(&v[i]);
        out.push(c);
        i += 1;
    }
    proof {
        lemma_json_seq_views(out@);
        lemma_json_seq_views(v@);
        assert(json_seq_views(out@) =~= json_seq_views(v@));
    }
    out
}

/// Copies one member.
fn member_clone(m: &Member) -> (out: Member)
    ensures
        out@ == m@,
    decreases *m,
{
    let value = json_clone(&m.value);
    Member { name: m.name.clone(), value }
}

/// Copies a member list.
fn member_clone_list(m: &Vec<Member>) -> (out: Vec<Member>)
    ensures
        member_seq_views(out@) == member_seq_views(m@),
    decreases m@,
{
    let mut out: Vec<Member> = Vec::new();
    let mut i: usize = 0;
    while i < m.len()
        invariant
            i <= m@.len(),
            out@.len() == i,
            forall|k: int| 0 <= k < i ==> member_view(#[trigger] out@[k]) == member_view(m@[k]),
        decreases m@.len() - i,
    {
        let c = member_clone(&m[i]);
        out.push(c);
        i += 1;
    }
    proof {
        lemma_member_seq_views(out@);
        lemma_member_seq_views(m@);
        assert(member_seq_views(out@) =~= member_seq_views(m@));
    }
    out
}

/// Finds the value of the first member of the given name.
pub fn lookup_member<'a>(members: &'a Vec<Member>, name: &String) -> (r: Option<&'a Json>)
    ensures
        match r {
            Some(j) => lookup(member_seq_views(members@), name@) == Some(j@),
            None => lookup(member_seq_views(members@), name@) is None,
        },
{
    let ghost mvs = member_seq_views(members@);
    proof {
        lemma_member_seq_views(members@);
        assert(mvs.skip(0) =~= mvs);
    }
    let mut i: usize = 0;
    while i < members.len()
        invariant
            i <= members@.len(),
            mvs == member_seq_views(members@),
            mvs.len() == members@.len(),
            forall|k: int| 0 <= k < members@.len() ==> mvs[k] == member_view(members@[k]),
            lookup(mvs, name@) == lookup(mvs.skip(i as int), name@),
        decreases members@.len() - i,
    {
        proof {
            assert(mvs.skip(i as int)[0] == mvs[i as int]);
            assert(mvs.skip(i as int).drop_first() =~= mvs.skip(i as int + 1));
        }
        if members[i].name == *name {
            return Some(&members[i].value);
        }
        i += 1;
    }
    proof {
        assert(mvs.skip(members@.len() as int) =~= Seq::<MemberView>::empty());
    }
    None
}

/// Decides equality of two payload values.
pub fn json_eq(a: &Json, b: &Json) -> (r: bool)
    ensures
        r == (a@ == b@),
    decreases *a,
{
    match (a, b) {
        (Json::Null, Json::Null) => true,
        (Json::Bool(x), Json::Bool(y)) => x == y,
        (Json::Int(x), Json::Int(y)) => x == y,
        (Json::Str(x), Json::Str(y)) => *x == *y,
        (Json::Array(x), Json::Array(y)) => json_list_eq(x, y),
        (Json::Object(x), Json::Object(y)) => member_list_eq(x, y),
        _ => false,
    }
}

/// Decides equality of two payload lists.
fn json_list_eq(a: &Vec<Json>, b: &Vec<Json>) -> (r: bool)
    ensures
        r == (json_seq_views(a@) == json_seq_views(b@)),
    decreases a@,
{
    proof {
        lemma_json_seq_views(a@);
        lemma_json_seq_views(b@);
    }
    if a.len() != b.len() {
        return false;
    }
    let mut i: usize = 0;
    while i < a.len()
        invariant
            a@.len() == b@.len(),
            i <= a@.len(),
            forall|k: int| 0 <= k < i ==> json_view(#[trigger] a@[k]) == json_view(b@[k]),
        decreases a@.len() - i,
    {
        if !json_eq(&a[i], &b[i]) {
            proof {
                lemma_json_seq_views(a@);
                lemma_json_seq_views(b@);
                assert(json_seq_views(a@)[i as int] != json_seq_views(b@)[i as int]);
            }
            return false;
        }
        i += 1;
    }
    proof {
        lemma_json_seq_views(a@);
        lemma_json_seq_views(b@);
        assert(json_seq_views(a@) =~= json_seq_views(b@));
    }
    true
}

/// Decides equality of two member lists.
fn member_list_eq(a: &Vec<Member>, b: &Vec<Member>) -> (r: bool)
    ensures
        r == (member_seq_views(a@) == member_seq_views(b@)),
    decreases a@,
{
    proof {
        lemma_member_seq_views(a@);
        lemma_member_seq_views(b@);
    }
    if a.len() != b.len() {
        return false;
    }
    let mut i: usize = 0;
    while i < a.len()
        invariant
            a@.len() == b@.len(),
            i <= a@.len(),
            forall|k: int| 0 <= k < i ==> member_view(#[trigger] a@[k]) == member_view(b@[k]),
        decreases a@.len() - i,
    {
        if !(a[i].name == b[i].name) {
            proof {
                lemma_member_seq_views(a@);
                lemma_member_seq_views(b@);
                assert(member_seq_views(a@)[i as int] != member_seq_views(b@)[i as int]);
            }
            return false;
        }
        if !json_eq(&a[i].value, &b[i].value) {
            proof {
                lemma_member_seq_views(a@);
                lemma_member_seq_views(b@);
                assert(member_seq_views(a@)[i as int] != member_seq_views(b@)[i as int]);
            }
            return false;
        }
        i += 1;
    }
    proof {
        lemma_member_seq_views(a@);
        lemma_member_seq_views(b@);
        assert(member_seq_views(a@) =~= member_seq_views(b@));
    }
    true
}

} // verus!
