//! JSON values as the protocol handles them, and their mathematical model.
//!
//! A [`Json`] is an owned tree; its view is a [`JsonTree`], the same tree over
//! sequences. Contracts in the rest of the crate are stated over `JsonTree`.

use vstd::prelude::*;

verus! {

/// A JSON value.
///
/// A number that is an integer is held exactly, as `Int`; JSON text can hold
/// the integers from `i64::MIN` to `u64::MAX`. Any other number is held as
/// `Real`, the text that stands for it, and is carried without being computed
/// on. The members of an object are kept in the order given; where a key
/// occurs twice, the later member is the one that counts.
#[derive(Debug, PartialEq, Eq)]
pub enum Json {
    Null,
    Bool(bool),
    Int(i128),
    Real(String),
    Text(String),
    Array(Vec<Json>),
    Object(Vec<(String, Json)>),
}

/// The mathematical model of a [`Json`].
#[verifier::ext_equal]
pub enum JsonTree {
    Null,
    Bool(bool),
    Int(i128),
    Real(Seq<char>),
    Text(Seq<char>),
    Array(Seq<JsonTree>),
    Object(Seq<(Seq<char>, JsonTree)>),
}

/// The value of the last of the first `n` members whose key is `key`.
pub open spec fn member_among(
    members: Seq<(Seq<char>, JsonTree)>,
    key: Seq<char>,
    n: nat,
) -> Option<JsonTree>
    decreases n,
{
    if n == 0 {
        None
    } else if members[n - 1].0 == key {
        Some(members[n - 1].1)
    } else {
        member_among(members, key, (n - 1) as nat)
    }
}

/// The value that an object with these members holds under `key`.
pub open spec fn member(members: Seq<(Seq<char>, JsonTree)>, key: Seq<char>) -> Option<JsonTree> {
    member_among(members, key, members.len())
}

/// Among members that end in `last`, a key finds `last` if that has the key,
/// and else what it finds among the members before.
pub proof fn lemma_member_push(
    members: Seq<(Seq<char>, JsonTree)>,
    last: (Seq<char>, JsonTree),
    key: Seq<char>,
)
    ensures
        member(members.push(last), key) == if last.0 == key {
            Some(last.1)
        } else {
            member(members, key)
        },
{
    lemma_member_prefix(members, last, key, members.len());
}

proof fn lemma_member_prefix(
    members: Seq<(Seq<char>, JsonTree)>,
    last: (Seq<char>, JsonTree),
    key: Seq<char>,
    n: nat,
)
    requires
        n <= members.len(),
    ensures
        member_among(members.push(last), key, n) == member_among(members, key, n),
    decreases n,
{
    if n > 0 {
        lemma_member_prefix(members, last, key, (n - 1) as nat);
    }
}

/// An array of strings is read back as the strings it was made of.
pub proof fn lemma_text_array(values: Seq<Seq<char>>)
    ensures
        text_array(values).as_texts() == Some(values),
{
    let items = text_array(values)->Array_0;
    assert(forall|i: int| 0 <= i < items.len() ==> (#[trigger] items[i]) is Text);
    assert(text_array(values).as_texts()->Some_0 =~= values);
}

/// The value of `entry` where it has the key, else `otherwise`.
pub open spec fn pick(entry: (Seq<char>, JsonTree), key: Seq<char>, otherwise: Option<JsonTree>) -> Option<
    JsonTree,
> {
    if entry.0 == key {
        Some(entry.1)
    } else {
        otherwise
    }
}

/// What a key finds among up to five members: the value of the last member
/// that has the key.
pub proof fn lemma_member_listed(
    a: (Seq<char>, JsonTree),
    b: (Seq<char>, JsonTree),
    c: (Seq<char>, JsonTree),
    d: (Seq<char>, JsonTree),
    e: (Seq<char>, JsonTree),
    key: Seq<char>,
)
    ensures
        member(seq![a], key) == pick(a, key, None),
        member(seq![a, b], key) == pick(b, key, pick(a, key, None)),
        member(seq![a, b, c], key) == pick(c, key, pick(b, key, pick(a, key, None))),
        member(seq![a, b, c, d], key) == pick(
            d,
            key,
            pick(c, key, pick(b, key, pick(a, key, None))),
        ),
        member(seq![a, b, c, d, e], key) == pick(
            e,
            key,
            pick(d, key, pick(c, key, pick(b, key, pick(a, key, None)))),
        ),
{
    reveal_with_fuel(member_among, 6);
}

/// A member that is absent and one that is `null` are read alike.
pub open spec fn present(field: Option<JsonTree>) -> Option<JsonTree> {
    match field {
        Some(JsonTree::Null) => None,
        other => other,
    }
}

/// The model of an optional value.
pub open spec fn opt_view<T: View>(value: Option<T>) -> Option<T::V> {
    match value {
        Some(x) => Some(x@),
        None => None,
    }
}

/// The models of a sequence of values.
pub open spec fn trees_of(values: Seq<Json>) -> Seq<JsonTree> {
    Seq::new(values.len(), |i: int| values[i]@)
}

/// The models of a sequence of strings.
pub open spec fn texts_of(values: Seq<String>) -> Seq<Seq<char>> {
    Seq::new(values.len(), |i: int| values[i]@)
}

/// The models of an optional sequence of strings.
pub open spec fn opt_texts(values: Option<Vec<String>>) -> Option<Seq<Seq<char>>> {
    match values {
        Some(v) => Some(texts_of(v@)),
        None => None,
    }
}

/// A sequence of strings as a JSON array of strings.
pub open spec fn text_array(values: Seq<Seq<char>>) -> JsonTree {
    JsonTree::Array(Seq::new(values.len(), |i: int| JsonTree::Text(values[i])))
}

impl JsonTree {
    /// The member under `key`, where this is an object that has one.
    pub open spec fn get(self, key: Seq<char>) -> Option<JsonTree> {
        match self {
            JsonTree::Object(members) => member(members, key),
            _ => None,
        }
    }

    /// The member under `key`, where it is there and not `null`.
    pub open spec fn field(self, key: Seq<char>) -> Option<JsonTree> {
        present(self.get(key))
    }

    /// The string, where this is one.
    pub open spec fn as_text(self) -> Option<Seq<char>> {
        match self {
            JsonTree::Text(s) => Some(s),
            _ => None,
        }
    }

    /// The items, where this is an array.
    pub open spec fn as_items(self) -> Option<Seq<JsonTree>> {
        match self {
            JsonTree::Array(items) => Some(items),
            _ => None,
        }
    }

    /// The 32-bit integer, where this is one.
    pub open spec fn as_i32(self) -> Option<i32> {
        match self {
            JsonTree::Int(i) if i32::MIN <= i <= i32::MAX => Some(i as i32),
            _ => None,
        }
    }

    /// The string under `key`. `None` where the member is absent or is not a
    /// string.
    pub open spec fn text_field(self, key: Seq<char>) -> Option<Seq<char>> {
        match self.get(key) {
            Some(v) => v.as_text(),
            None => None,
        }
    }

    /// The string under `key`, which may be left out or be `null`: then the
    /// result is `Some(None)`. `None` where the member is anything else that is
    /// not a string.
    pub open spec fn optional_text_field(self, key: Seq<char>) -> Option<Option<Seq<char>>> {
        match self.field(key) {
            None => Some(None),
            Some(JsonTree::Text(s)) => Some(Some(s)),
            Some(_) => None,
        }
    }

    /// The strings under `key`. `None` where the member is absent or is not an
    /// array of strings.
    pub open spec fn texts_field(self, key: Seq<char>) -> Option<Seq<Seq<char>>> {
        match self.get(key) {
            Some(v) => v.as_texts(),
            None => None,
        }
    }

    /// The strings, where this is an array of strings.
    pub open spec fn as_texts(self) -> Option<Seq<Seq<char>>> {
        match self {
            JsonTree::Array(items) if forall|i: int| 0 <= i < items.len() ==> (#[trigger] items[i]) is Text =>
                Some(Seq::new(items.len(), |i: int| items[i]->Text_0)),
            _ => None,
        }
    }
}

impl Json {
    /// The tree that this value holds.
    pub open spec fn tree(&self) -> JsonTree
        decreases self,
    {
        match self {
            Json::Null => JsonTree::Null,
            Json::Bool(b) => JsonTree::Bool(*b),
            Json::Int(i) => JsonTree::Int(*i),
            Json::Real(s) => JsonTree::Real(s@),
            Json::Text(s) => JsonTree::Text(s@),
            Json::Array(items) => JsonTree::Array(
                Seq::new(
                    items@.len(),
                    |i: int|
                        if 0 <= i < items@.len() {
                            items@[i].tree()
                        } else {
                            JsonTree::Null
                        },
                ),
            ),
            Json::Object(members) => JsonTree::Object(
                Seq::new(
                    members@.len(),
                    |i: int|
                        if 0 <= i < members@.len() {
                            (members@[i].0@, members@[i].1.tree())
                        } else {
                            (Seq::empty(), JsonTree::Null)
                        },
                ),
            ),
        }
    }
}

impl View for Json {
    type V = JsonTree;

    open spec fn view(&self) -> JsonTree {
        self.tree()
    }
}

/// The models of the members of an object.
pub open spec fn members_of(members: Seq<(String, Json)>) -> Seq<(Seq<char>, JsonTree)> {
    Seq::new(members.len(), |i: int| (members[i].0@, members[i].1@))
}

/// The model of an array holds the models of its items, in order.
pub proof fn lemma_array_tree(items: Vec<Json>)
    ensures
        Json::Array(items)@ == JsonTree::Array(trees_of(items@)),
{
    let t = Json::Array(items)@;
    assert(t->Array_0.len() == items@.len());
    assert(forall|k: int| 0 <= k < items@.len() ==> t->Array_0[k] == items@[k]@);
    assert(t->Array_0 =~= trees_of(items@));
}

/// The model of an object holds the models of its members, in order.
pub proof fn lemma_object_tree(members: Vec<(String, Json)>)
    ensures
        Json::Object(members)@ == JsonTree::Object(members_of(members@)),
{
    let t = Json::Object(members)@;
    assert(t->Object_0.len() == members@.len());
    assert(forall|k: int|
        0 <= k < members@.len() ==> t->Object_0[k] == (members@[k].0@, members@[k].1@));
    assert(t->Object_0 =~= members_of(members@));
}

impl Clone for Json {
    /// A copy of the whole tree.
    fn clone(&self) -> (r: Json)
        ensures
            r@ == self@,
        decreases self,
    {
        match self {
            Json::Null => Json::Null,
            Json::Bool(b) => Json::Bool(*b),
            Json::Int(i) => Json::Int(*i),
            Json::Real(s) => Json::Real(s.clone()),
            Json::Text(s) => Json::Text(s.clone()),
            Json::Array(items) => {
                let mut copy: Vec<Json> = Vec::new();
                let mut i: usize = 0;
                while i < items.len()
                    invariant
                        *self == Json::Array(*items),
                        i <= items.len(),
                        copy.len() == i,
                        forall|k: int| 0 <= k < i ==> (#[trigger] copy[k])@ == items[k]@,
                    decreases items.len() - i,
                {
                    proof {
                        assert(self->Array_0 == *items);
                        assert(decreases_to!(*self => self->Array_0[i as int]));
                    }
                    let item = items[i].clone();
                    copy.push(item);
                    i = i + 1;
                }
                proof {
                    lemma_array_tree(copy);
                    lemma_array_tree(*items);
                    assert(trees_of(copy@) =~= trees_of(items@));
                }
                Json::Array(copy)
            },
            Json::Object(members) => {
                let mut copy: Vec<(String, Json)> = Vec::new();
                let mut i: usize = 0;
                while i < members.len()
                    invariant
                        *self == Json::Object(*members),
                        i <= members.len(),
                        copy.len() == i,
                        forall|k: int|
                            0 <= k < i ==> (#[trigger] copy[k]).0@ == members[k].0@ && copy[k].1@
                                == members[k].1@,
                    decreases members.len() - i,
                {
                    proof {
                        assert(self->Object_0 == *members);
                        assert(decreases_to!(*self => self->Object_0[i as int]));
                        assert(decreases_to!(*self => self->Object_0[i as int].1));
                    }
                    let key = members[i].0.clone();
                    let value = members[i].1.clone();
                    copy.push((key, value));
                    i = i + 1;
                }
                proof {
                    lemma_object_tree(copy);
                    lemma_object_tree(*members);
                    assert(members_of(copy@) =~= members_of(members@));
                }
                Json::Object(copy)
            },
        }
    }
}

impl Json {
    /// A JSON string.
    pub fn text(s: &str) -> (r: Json)
        ensures
            r@ == JsonTree::Text(s@),
    {
        Json::Text(s.to_owned())
    }

    /// A JSON integer.
    pub fn integer(i: i64) -> (r: Json)
        ensures
            r@ == JsonTree::Int(i as i128),
    {
        Json::Int(i as i128)
    }

    /// Adds a member at the end of the members of an object that is being
    /// built.
    pub fn put(members: &mut Vec<(String, Json)>, key: &str, value: Json)
        ensures
            members_of(final(members)@) == members_of(old(members)@).push((key@, value@)),
    {
        members.push((key.to_owned(), value));
        assert(members_of(members@) =~= members_of(old(members)@).push((key@, value@)));
    }

    /// The object with these members.
    pub fn object(members: Vec<(String, Json)>) -> (r: Json)
        ensures
            r@ == JsonTree::Object(members_of(members@)),
    {
        proof {
            lemma_object_tree(members);
        }
        Json::Object(members)
    }

    /// A JSON array of strings, in the order given.
    pub fn texts(values: &Vec<String>) -> (r: Json)
        ensures
            r@ == text_array(texts_of(values@)),
    {
        let mut items: Vec<Json> = Vec::new();
        let mut i: usize = 0;
        while i < values.len()
            invariant
                i <= values.len(),
                items.len() == i,
                forall|k: int| 0 <= k < i ==> (#[trigger] items[k])@ == JsonTree::Text(values[k]@),
            decreases values.len() - i,
        {
            items.push(Json::Text(values[i].clone()));
            i = i + 1;
        }
        proof {
            lemma_array_tree(items);
            assert(trees_of(items@) =~= text_array(texts_of(values@))->Array_0);
        }
        Json::Array(items)
    }

    /// The member under `key`, where this is an object that has one. Of two
    /// members with the same key the later one is returned.
    pub fn get(&self, key: &str) -> (r: Option<&Json>)
        ensures
            opt_view(r) == self@.get(key@),
    {
        match self {
            Json::Object(members) => {
                let wanted = key.to_owned();
                let ghost model = members_of(members@);
                proof {
                    lemma_object_tree(*members);
                }
                let mut i: usize = members.len();
                while i > 0
                    invariant
                        i <= members.len(),
                        wanted@ == key@,
                        self@ == JsonTree::Object(model),
                        model.len() == members.len(),
                        forall|k: int|
                            0 <= k < members.len() ==> (#[trigger] model[k]) == (
                                members[k].0@,
                                members[k].1@,
                            ),
                        member(model, key@) == member_among(model, key@, i as nat),
                    decreases i,
                {
                    i = i - 1;
                    if members[i].0 == wanted {
                        return Some(&members[i].1);
                    }
                }
                None
            },
            _ => None,
        }
    }

    /// The member under `key`, where it is there and not `null`.
    pub fn field(&self, key: &str) -> (r: Option<&Json>)
        ensures
            opt_view(r) == self@.field(key@),
    {
        match self.get(key) {
            Some(Json::Null) => None,
            other => other,
        }
    }

    /// The string, where this is one.
    pub fn as_text(&self) -> (r: Option<&String>)
        ensures
            opt_view(r) == self@.as_text(),
    {
        match self {
            Json::Text(s) => Some(s),
            _ => None,
        }
    }

    /// The items, where this is an array.
    pub fn as_items(&self) -> (r: Option<&Vec<Json>>)
        ensures
            match r {
                Some(items) => self@.as_items() == Some(trees_of(items@)),
                None => self@.as_items() is None,
            },
    {
        match self {
            Json::Array(items) => {
                proof {
                    lemma_array_tree(*items);
                }
                Some(items)
            },
            _ => None,
        }
    }

    /// The 32-bit integer, where this is one.
    pub fn as_i32(&self) -> (r: Option<i32>)
        ensures
            r == self@.as_i32(),
    {
        match self {
            Json::Int(i) => {
                if -2147483648 <= *i && *i <= 2147483647 {
                    Some(*i as i32)
                } else {
                    None
                }
            },
            _ => None,
        }
    }

    /// A copy of the string under `key`. `None` where the member is absent or
    /// is not a string.
    pub fn text_field(&self, key: &str) -> (r: Option<String>)
        ensures
            opt_view(r) == self@.text_field(key@),
    {
        match self.get(key) {
            Some(Json::Text(s)) => Some(s.clone()),
            _ => None,
        }
    }

    /// A copy of the string under `key`, which may be left out or be `null`.
    /// `None` where the member is anything else that is not a string.
    pub fn optional_text_field(&self, key: &str) -> (r: Option<Option<String>>)
        ensures
            match r {
                Some(inner) => self@.optional_text_field(key@) == Some(opt_view(inner)),
                None => self@.optional_text_field(key@) is None,
            },
    {
        match self.field(key) {
            None => Some(None),
            Some(Json::Text(s)) => Some(Some(s.clone())),
            Some(_) => None,
        }
    }

    /// Copies of the strings under `key`. `None` where the member is absent or
    /// is not an array of strings.
    pub fn texts_field(&self, key: &str) -> (r: Option<Vec<String>>)
        ensures
            opt_texts(r) == self@.texts_field(key@),
    {
        match self.get(key) {
            Some(v) => v.as_texts(),
            None => None,
        }
    }

    /// The strings, where this is an array of strings and of nothing else.
    pub fn as_texts(&self) -> (r: Option<Vec<String>>)
        ensures
            opt_texts(r) == self@.as_texts(),
    {
        match self {
            Json::Array(items) => {
                let ghost model = trees_of(items@);
                proof {
                    lemma_array_tree(*items);
                }
                let mut values: Vec<String> = Vec::new();
                let mut i: usize = 0;
                while i < items.len()
                    invariant
                        i <= items.len(),
                        values.len() == i,
                        self@ == JsonTree::Array(model),
                        model.len() == items.len(),
                        forall|k: int| 0 <= k < items.len() ==> (#[trigger] model[k]) == items[k]@,
                        forall|k: int| 0 <= k < i ==> (#[trigger] model[k]) == JsonTree::Text(values[k]@),
                    decreases items.len() - i,
                {
                    match &items[i] {
                        Json::Text(s) => {
                            values.push(s.clone());
                        },
                        _ => {
                            assert(!(model[i as int] is Text));
                            return None;
                        },
                    }
                    i = i + 1;
                }
                assert(forall|k: int| 0 <= k < model.len() ==> (#[trigger] model[k]) is Text);
                assert(self@.as_texts()->Some_0 =~= texts_of(values@));
                Some(values)
            },
            _ => None,
        }
    }
}

} // verus!
