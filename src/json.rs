//! The JSON document tree that the protocol layer reads and writes.
use vstd::prelude::*;

verus! {

broadcast use vstd::std_specs::vec::group_vec_axioms;

/// A JSON document.
#[derive(Debug)]
pub enum Json {
    Null,
    Bool(bool),
    /// A number that is an integer within the range of `i64`.
    Int(i64),
    /// Any other number, kept as its decimal text.
    Num(String),
    Str(String),
    Array(Vec<Json>),
    /// Object members, in document order.
    Object(Vec<(String, Json)>),
}

/// The mathematical value of a [`Json`] document.
pub enum JsonView {
    Null,
    Bool(bool),
    Int(i64),
    Num(Seq<char>),
    Str(Seq<char>),
    Array(Seq<JsonView>),
    Object(Seq<(Seq<char>, JsonView)>),
}

pub open spec fn json_view(j: Json) -> JsonView
    decreases j,
{
    match j {
        Json::Null => JsonView::Null,
        Json::Bool(b) => JsonView::Bool(b),
        Json::Int(i) => JsonView::Int(i),
        Json::Num(t) => JsonView::Num(t@),
        Json::Str(s) => JsonView::Str(s@),
        Json::Array(items) => JsonView::Array(
            Seq::new(
                items.len() as nat,
                |i: int|
                    if 0 <= i < items.len() {
                        json_view(items[i])
                    } else {
                        JsonView::Null
                    },
            ),
        ),
        Json::Object(members) => JsonView::Object(
            Seq::new(
                members.len() as nat,
                |i: int|
                    if 0 <= i < members.len() {
                        (members[i].0@, json_view(members[i].1))
                    } else {
                        (Seq::empty(), JsonView::Null)
                    },
            ),
        ),
    }
}

impl View for Json {
    type V = JsonView;

    open spec fn view(&self) -> JsonView {
        json_view(*self)
    }
}

/// The values of a sequence of documents.
pub open spec fn items_view(items: Seq<Json>) -> Seq<JsonView> {
    Seq::new(items.len(), |i: int| items[i]@)
}

/// The values of a sequence of object members.
pub open spec fn members_view(members: Seq<(String, Json)>) -> Seq<(Seq<char>, JsonView)> {
    Seq::new(members.len(), |i: int| (members[i].0@, members[i].1@))
}

/// The text of an optional string.
pub open spec fn opt_text(o: Option<String>) -> Option<Seq<char>> {
    match o {
        Some(s) => Some(s@),
        None => None,
    }
}

/// The members of an object, with `key` appended where `value` is present.
pub open spec fn push_opt(
    members: Seq<(Seq<char>, JsonView)>,
    key: Seq<char>,
    value: Option<JsonView>,
) -> Seq<(Seq<char>, JsonView)> {
    match value {
        Some(v) => members.push((key, v)),
        None => members,
    }
}

/// Decodes every item with `f`; `None` as soon as one item does not decode.
pub open spec fn decode_each<A>(items: Seq<JsonView>, f: spec_fn(JsonView) -> Option<A>) -> Option<
    Seq<A>,
> {
    if forall|i: int| 0 <= i < items.len() ==> f(#[trigger] items[i]) is Some {
        Some(Seq::new(items.len(), |i: int| f(items[i])->0))
    } else {
        None
    }
}

pub broadcast proof fn lemma_array_view(items: Vec<Json>)
    ensures
        #[trigger] Json::Array(items)@ == JsonView::Array(items_view(items@)),
{
    assert(Json::Array(items)@->Array_0 =~= items_view(items@));
}

pub broadcast proof fn lemma_object_view(members: Vec<(String, Json)>)
    ensures
        #[trigger] Json::Object(members)@ == JsonView::Object(members_view(members@)),
{
    assert(Json::Object(members)@->Object_0 =~= members_view(members@));
}

/// A member appended last is found by its name.
pub broadcast proof fn lemma_member_push(
    members: Seq<(Seq<char>, JsonView)>,
    entry: (Seq<char>, JsonView),
    key: Seq<char>,
)
    ensures
        #[trigger] member(members.push(entry), key) == if entry.0 == key {
            Some(entry.1)
        } else {
            member(members, key)
        },
{
    assert(members.push(entry).drop_last() =~= members);
}

/// Decoding each item of a sequence that was encoded item by item gives the sequence back.
pub proof fn lemma_decode_each_encoded<A>(
    items: Seq<A>,
    enc: spec_fn(A) -> JsonView,
    dec: spec_fn(JsonView) -> Option<A>,
)
    requires
        forall|i: int| 0 <= i < items.len() ==> dec(enc(#[trigger] items[i])) == Some(items[i]),
    ensures
        decode_each(items.map_values(enc), dec) == Some(items),
{
    let encoded = items.map_values(enc);
    assert forall|i: int| 0 <= i < encoded.len() implies dec(#[trigger] encoded[i]) is Some by {
        assert(encoded[i] == enc(items[i]));
    }
    assert(Seq::new(encoded.len(), |i: int| dec(encoded[i])->0) =~= items);
}

/// An object with no members yet.
pub fn new_members() -> (r: Vec<(String, Json)>)
    ensures
        members_view(r@) == Seq::<(Seq<char>, JsonView)>::empty(),
{
    let r: Vec<(String, Json)> = Vec::new();
    assert(members_view(r@) =~= Seq::<(Seq<char>, JsonView)>::empty());
    r
}

/// Appends the member `key: value` to an object under construction.
pub fn push_member(members: &mut Vec<(String, Json)>, key: &str, value: Json)
    ensures
        members_view(final(members)@) == members_view(old(members)@).push((key@, value@)),
{
    members.push((key.to_owned(), value));
    assert(members_view(members@) =~= members_view(old(members)@).push((key@, value@)));
}

/// The value of the member named `key`; where the name occurs more than once,
/// the last occurrence counts.
pub open spec fn member(members: Seq<(Seq<char>, JsonView)>, key: Seq<char>) -> Option<JsonView>
    decreases members.len(),
{
    if members.len() == 0 {
        None
    } else if members.last().0 == key {
        Some(members.last().1)
    } else {
        member(members.drop_last(), key)
    }
}

impl JsonView {
    /// The member `key` of an object; `None` for a missing member or a value that is no object.
    pub open spec fn field(self, key: Seq<char>) -> Option<JsonView> {
        match self {
            JsonView::Object(members) => member(members, key),
            _ => None,
        }
    }

    /// The text of the member `key`, where it is a string.
    pub open spec fn text_field(self, key: Seq<char>) -> Option<Seq<char>> {
        match self.field(key) {
            Some(JsonView::Str(s)) => Some(s),
            _ => None,
        }
    }
}

impl JsonView {
    /// An optional string member: `Some(None)` where it is missing or null,
    /// `None` where it holds anything but a string.
    pub open spec fn opt_text_field(self, key: Seq<char>) -> Option<Option<Seq<char>>> {
        match self.field(key) {
            None => Some(None),
            Some(JsonView::Null) => Some(None),
            Some(JsonView::Str(s)) => Some(Some(s)),
            _ => None,
        }
    }

    /// An optional boolean member: `Some(None)` where it is missing or null,
    /// `None` where it holds anything but a boolean.
    pub open spec fn opt_bool_field(self, key: Seq<char>) -> Option<Option<bool>> {
        match self.field(key) {
            None => Some(None),
            Some(JsonView::Null) => Some(None),
            Some(JsonView::Bool(b)) => Some(Some(b)),
            _ => None,
        }
    }
}

/// The UTF-8 bytes of a text.
pub open spec fn utf8_of(text: Seq<char>) -> Seq<u8> {
    vstd::utf8::encode_utf8(text)
}

/// The value of the member `key` among object members (the last one, where it repeats).
pub fn find_member<'a>(members: &'a Vec<(String, Json)>, key: &str) -> (r: Option<&'a Json>)
    ensures
        r is None ==> member(members_view(members@), key@) is None,
        r matches Some(v) ==> member(members_view(members@), key@) == Some(v@),
{
    let k = key.to_owned();
    let mut found: Option<&Json> = None;
    let mut i: usize = 0;
    let ghost view = members_view(members@);
    while i < members.len()
        invariant
            view == members_view(members@),
            k@ == key@,
            i <= members.len(),
            found is None ==> member(view.subrange(0, i as int), key@) is None,
            found matches Some(v) ==> member(view.subrange(0, i as int), key@) == Some(v@),
        decreases members.len() - i,
    {
        assert(view.subrange(0, i + 1).drop_last() =~= view.subrange(0, i as int));
        if members[i].0 == k {
            found = Some(&members[i].1);
        }
        i = i + 1;
    }
    assert(view.subrange(0, i as int) =~= view);
    found
}

/// Text equality of two string slices.
pub fn same_text(a: &str, b: &str) -> (r: bool)
    ensures
        r == (a@ == b@),
{
    let x = a.to_owned();
    let y = b.to_owned();
    x == y
}

impl Json {
    /// A string value holding a copy of `s`.
    pub fn text(s: &str) -> (r: Json)
        ensures
            r@ == JsonView::Str(s@),
    {
        Json::Str(s.to_owned())
    }

    /// The member `key` of an object.
    pub fn get(&self, key: &str) -> (r: Option<&Json>)
        ensures
            r is None ==> self@.field(key@) is None,
            r matches Some(v) ==> self@.field(key@) == Some(v@),
    {
        match self {
            Json::Object(members) => {
                proof {
                    lemma_object_view(*members);
                }
                find_member(members, key)
            },
            _ => None,
        }
    }

    /// The text of the member `key`, where it is a string.
    pub fn get_text(&self, key: &str) -> (r: Option<&String>)
        ensures
            r is None ==> self@.text_field(key@) is None,
            r matches Some(s) ==> self@.text_field(key@) == Some(s@),
    {
        match self.get(key) {
            Some(Json::Str(s)) => Some(s),
            _ => None,
        }
    }

    /// An optional string member (see [`JsonView::opt_text_field`]).
    pub fn get_opt_text(&self, key: &str) -> (r: Option<Option<String>>)
        ensures
            match r {
                None => self@.opt_text_field(key@) is None,
                Some(o) => self@.opt_text_field(key@) == Some(opt_text(o)),
            },
    {
        match self.get(key) {
            None => Some(None),
            Some(Json::Null) => Some(None),
            Some(Json::Str(s)) => Some(Some(s.clone())),
            _ => None,
        }
    }

    /// An optional boolean member (see [`JsonView::opt_bool_field`]).
    pub fn get_opt_bool(&self, key: &str) -> (r: Option<Option<bool>>)
        ensures
            r == self@.opt_bool_field(key@),
    {
        match self.get(key) {
            None => Some(None),
            Some(Json::Null) => Some(None),
            Some(Json::Bool(b)) => Some(Some(*b)),
            _ => None,
        }
    }

    /// A deep copy with the same value.
    pub fn copy(&self) -> (r: Json)
        ensures
            r@ == self@,
        decreases self,
    {
        match self {
            Json::Null => Json::Null,
            Json::Bool(b) => Json::Bool(*b),
            Json::Int(i) => Json::Int(*i),
            Json::Num(t) => Json::Num(t.clone()),
            Json::Str(s) => Json::Str(s.clone()),
            Json::Array(items) => {
                let mut out: Vec<Json> = Vec::new();
                let mut i: usize = 0;
                while i < items.len()
                    invariant
                        *self == Json::Array(*items),
                        i <= items.len(),
                        out.len() == i,
                        forall|j: int| 0 <= j < i ==> #[trigger] out[j]@ == items[j]@,
                    decreases items.len() - i,
                {
                    proof {
                        assert(decreases_to!(*self => (*self)->Array_0));
                        assert(decreases_to!(*items => items@));
                        assert(decreases_to!(items@ => items@[i as int]));
                    }
                    out.push(items[i].copy());
                    i = i + 1;
                }
                let ghost copied = out@;
                let r = Json::Array(out);
                assert forall|j: int| 0 <= j < copied.len() implies #[trigger] r@->Array_0[j]
                    == self@->Array_0[j] by {
                    assert(copied[j]@ == items[j]@);
                }
                assert(r@->Array_0 =~= self@->Array_0);
                r
            },
            Json::Object(members) => {
                let mut out: Vec<(String, Json)> = Vec::new();
                let mut i: usize = 0;
                while i < members.len()
                    invariant
                        *self == Json::Object(*members),
                        i <= members.len(),
                        out.len() == i,
                        forall|j: int|
                            0 <= j < i ==> #[trigger] out[j].0@ == members[j].0@ && out[j].1@
                                == members[j].1@,
                    decreases members.len() - i,
                {
                    proof {
                        assert(decreases_to!(*self => (*self)->Object_0));
                        assert(decreases_to!(*members => members@));
                        assert(decreases_to!(members@ => members@[i as int]));
                        assert(decreases_to!(members@[i as int] => members@[i as int].1));
                    }
                    out.push((members[i].0.clone(), members[i].1.copy()));
                    i = i + 1;
                }
                let r = Json::Object(out);
                assert(r@->Object_0 =~= self@->Object_0);
                r
            },
        }
    }
}

} // verus!
