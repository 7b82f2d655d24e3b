//! The JSON values that the machine contract publishes, built in a fixed field
//! order.

use vstd::prelude::*;

use crate::text::{owned, same};

verus! {

/// A JSON value. `Raw` is the text of a value that another component has
/// already written as JSON.
pub enum Json {
    Null,
    Bool(bool),
    Num(u128),
    Str(String),
    Raw(String),
    Arr(JsonArr),
    Obj(JsonObj),
}

/// The elements of a JSON array, in order.
pub struct JsonArr {
    pub items: Vec<Json>,
}

/// The fields of a JSON object, in order.
pub struct JsonObj {
    pub fields: Vec<(String, Json)>,
}

/// What a JSON value denotes.
pub enum JsonV {
    Null,
    Bool(bool),
    Num(nat),
    Str(Seq<char>),
    Raw(Seq<char>),
    Arr(Seq<JsonV>),
    Obj(Seq<(Seq<char>, JsonV)>),
}

impl View for Json {
    type V = JsonV;

    open spec fn view(&self) -> JsonV {
        self.model()
    }
}

impl Json {
    pub closed spec fn model(self) -> JsonV
        decreases self,
    {
        match self {
            Json::Null => JsonV::Null,
            Json::Bool(b) => JsonV::Bool(b),
            Json::Num(n) => JsonV::Num(n as nat),
            Json::Str(s) => JsonV::Str(s@),
            Json::Raw(s) => JsonV::Raw(s@),
            Json::Arr(a) => JsonV::Arr(a.model()),
            Json::Obj(o) => JsonV::Obj(o.model()),
        }
    }
}

impl JsonArr {
    pub closed spec fn model(self) -> Seq<JsonV>
        decreases self,
    {
        Seq::new(
            self.items@.len(),
            |i: int|
                if 0 <= i < self.items@.len() {
                    self.items@[i].model()
                } else {
                    JsonV::Null
                },
        )
    }
}

impl JsonObj {
    pub closed spec fn model(self) -> Seq<(Seq<char>, JsonV)>
        decreases self,
    {
        Seq::new(
            self.fields@.len(),
            |i: int|
                if 0 <= i < self.fields@.len() {
                    (self.fields@[i].0@, self.fields@[i].1.model())
                } else {
                    (Seq::empty(), JsonV::Null)
                },
        )
    }
}

impl View for JsonArr {
    type V = Seq<JsonV>;

    open spec fn view(&self) -> Seq<JsonV> {
        self.model()
    }
}

impl View for JsonObj {
    type V = Seq<(Seq<char>, JsonV)>;

    open spec fn view(&self) -> Seq<(Seq<char>, JsonV)> {
        self.model()
    }
}

/// An object without fields.
pub open spec fn no_fields() -> Seq<(Seq<char>, JsonV)> {
    Seq::empty()
}

/// The value of the first field named `key`.
pub open spec fn field(fields: Seq<(Seq<char>, JsonV)>, key: Seq<char>) -> Option<JsonV>
    decreases fields.len(),
{
    if fields.len() == 0 {
        None
    } else if fields[0].0 == key {
        Some(fields[0].1)
    } else {
        field(fields.skip(1), key)
    }
}

/// The string `s` as a JSON value, or null where there is none.
pub open spec fn text_or_null(s: Option<Seq<char>>) -> JsonV {
    match s {
        Some(s) => JsonV::Str(s),
        None => JsonV::Null,
    }
}

impl Json {
    pub fn null() -> (r: Json)
        ensures
            r@ == JsonV::Null,
    {
        Json::Null
    }

    pub fn flag(b: bool) -> (r: Json)
        ensures
            r@ == JsonV::Bool(b),
    {
        Json::Bool(b)
    }

    pub fn num(n: u64) -> (r: Json)
        ensures
            r@ == JsonV::Num(n as nat),
    {
        Json::Num(n as u128)
    }

    pub fn wide(n: u128) -> (r: Json)
        ensures
            r@ == JsonV::Num(n as nat),
    {
        Json::Num(n)
    }

    pub fn text(s: &str) -> (r: Json)
        ensures
            r@ == JsonV::Str(s@),
    {
        Json::Str(owned(s))
    }

    pub fn text_or_null(s: &Option<String>) -> (r: Json)
        ensures
            r@ == text_or_null(crate::text::opt_text(*s)),
    {
        match s {
            Some(s) => Json::text(s.as_str()),
            None => Json::Null,
        }
    }

    pub fn slice_or_null(s: Option<&str>) -> (r: Json)
        ensures
            r@ == text_or_null(crate::text::opt_slice(s)),
    {
        match s {
            Some(s) => Json::text(s),
            None => Json::Null,
        }
    }

    pub fn raw(s: &str) -> (r: Json)
        ensures
            r@ == JsonV::Raw(s@),
    {
        Json::Raw(owned(s))
    }

    pub fn arr(a: JsonArr) -> (r: Json)
        ensures
            r@ == JsonV::Arr(a@),
    {
        Json::Arr(a)
    }

    pub fn obj(o: JsonObj) -> (r: Json)
        ensures
            r@ == JsonV::Obj(o@),
    {
        Json::Obj(o)
    }

    /// An array of strings.
    pub fn texts(v: &Vec<String>) -> (r: Json)
        ensures
            r@ == JsonV::Arr(text_values(crate::text::texts(v@))),
    {
        let mut a = JsonArr::new();
        let mut i: usize = 0;
        while i < v.len()
            invariant
                i <= v@.len(),
                a@ == text_values(crate::text::texts(v@)).take(i as int),
            decreases v@.len() - i,
        {
            a.put(Json::text(v[i].as_str()));
            proof {
                assert(a@ =~= text_values(crate::text::texts(v@)).take(i + 1));
            }
            i = i + 1;
        }
        proof {
            assert(a@ =~= text_values(crate::text::texts(v@)));
        }
        Json::arr(a)
    }

    /// The field `key` of an object.
    pub fn get(&self, key: &str) -> (r: Option<&Json>)
        ensures
            match r {
                Some(j) => self@ is Obj && field(self@->Obj_0, key@) == Some(j@),
                None => self@ is Obj ==> field(self@->Obj_0, key@) is None,
            },
    {
        match self {
            Json::Obj(o) => o.get(key),
            _ => None,
        }
    }

    /// The element at `index` of an array.
    pub fn at(&self, index: usize) -> (r: Option<&Json>)
        ensures
            match r {
                Some(j) => self@ is Arr && index < self@->Arr_0.len() && self@->Arr_0[index as int] == j@,
                None => self@ is Arr ==> index >= self@->Arr_0.len(),
            },
    {
        match self {
            Json::Arr(a) => {
                if index < a.items.len() {
                    Some(&a.items[index])
                } else {
                    None
                }
            },
            _ => None,
        }
    }
}

/// Each text as a JSON string.
pub open spec fn text_values(v: Seq<Seq<char>>) -> Seq<JsonV> {
    v.map_values(|s: Seq<char>| JsonV::Str(s))
}

impl JsonArr {
    pub fn new() -> (r: JsonArr)
        ensures
            r@ == Seq::<JsonV>::empty(),
    {
        let r = JsonArr { items: Vec::new() };
        proof {
            assert(r@ =~= Seq::<JsonV>::empty());
        }
        r
    }

    /// Adds an element at the end.
    pub fn put(&mut self, j: Json)
        ensures
            final(self)@ == old(self)@.push(j@),
    {
        self.items.push(j);
        proof {
            assert(self@ =~= old(self)@.push(j@));
        }
    }
}

impl JsonObj {
    pub fn new() -> (r: JsonObj)
        ensures
            r@ == Seq::<(Seq<char>, JsonV)>::empty(),
    {
        let r = JsonObj { fields: Vec::new() };
        proof {
            assert(r@ =~= Seq::<(Seq<char>, JsonV)>::empty());
        }
        r
    }

    /// Adds a field at the end.
    pub fn put(&mut self, key: &str, j: Json)
        ensures
            final(self)@ == old(self)@.push((key@, j@)),
    {
        self.fields.push((owned(key), j));
        proof {
            assert(self@ =~= old(self)@.push((key@, j@)));
        }
    }

    /// The first field named `key`.
    pub fn get(&self, key: &str) -> (r: Option<&Json>)
        ensures
            match r {
                Some(j) => field(self@, key@) == Some(j@),
                None => field(self@, key@) is None,
            },
    {
        let mut i: usize = 0;
        proof {
            assert(self@.skip(0) =~= self@);
        }
        while i < self.fields.len()
            invariant
                i <= self.fields@.len(),
                self@.len() == self.fields@.len(),
                field(self@, key@) == field(self@.skip(i as int), key@),
            decreases self.fields@.len() - i,
        {
            proof {
                assert(self@.skip(i as int)[0] == (self.fields@[i as int].0@, self.fields@[i as int].1@));
                assert(self@.skip(i as int).skip(1) =~= self@.skip(i + 1));
            }
            if same(self.fields[i].0.as_str(), key) {
                return Some(&self.fields[i].1);
            }
            i = i + 1;
        }
        None
    }
}

/// A field put in by name: over the first of that name, else at the end.
pub open spec fn inserted(fields: Seq<(Seq<char>, JsonV)>, key: Seq<char>, j: JsonV) -> Seq<
    (Seq<char>, JsonV),
> {
    if exists|i: int| 0 <= i < fields.len() && (#[trigger] fields[i]).0 == key {
        fields.update(first_named(fields, key), (key, j))
    } else {
        fields.push((key, j))
    }
}

/// Where the first field of that name stands.
pub open spec fn first_named(fields: Seq<(Seq<char>, JsonV)>, key: Seq<char>) -> int
    decreases fields.len(),
{
    if fields.len() == 0 || fields[0].0 == key {
        0
    } else {
        1 + first_named(fields.skip(1), key)
    }
}

/// All of `extra` put in by name, in order.
pub open spec fn merged(fields: Seq<(Seq<char>, JsonV)>, extra: Seq<(Seq<char>, JsonV)>) -> Seq<
    (Seq<char>, JsonV),
>
    decreases extra.len(),
{
    if extra.len() == 0 {
        fields
    } else {
        merged(inserted(fields, extra[0].0, extra[0].1), extra.skip(1))
    }
}

proof fn lemma_first_named(fields: Seq<(Seq<char>, JsonV)>, key: Seq<char>, at: int)
    requires
        0 <= at < fields.len(),
        fields[at].0 == key,
        forall|j: int| 0 <= j < at ==> (#[trigger] fields[j]).0 != key,
    ensures
        first_named(fields, key) == at,
    decreases at,
{
    if at > 0 {
        assert(fields[0].0 != key);
        lemma_first_named(fields.skip(1), key, at - 1);
    }
}

impl JsonObj {
    /// Puts a field in by name.
    pub fn insert(&mut self, key: String, j: Json)
        ensures
            final(self)@ == inserted(old(self)@, key@, j@),
    {
        let ghost before = self@;
        let mut i: usize = 0;
        while i < self.fields.len()
            invariant
                i <= self.fields@.len(),
                self@ == before,
                before == old(self)@,
                before.len() == self.fields@.len(),
                forall|k: int| 0 <= k < i ==> (#[trigger] before[k]).0 != key@,
            decreases self.fields@.len() - i,
        {
            proof {
                assert(before[i as int].0 == self.fields@[i as int].0@);
            }
            if same(self.fields[i].0.as_str(), key.as_str()) {
                proof {
                    lemma_first_named(before, key@, i as int);
                    assert(before[i as int].0 == key@);
                }
                self.fields.set(i, (key, j));
                proof {
                    assert(self@ =~= before.update(i as int, (key@, j@)));
                }
                return;
            }
            i = i + 1;
        }
        self.fields.push((key, j));
        proof {
            assert(self@ =~= before.push((key@, j@)));
        }
    }

    /// Puts all the fields of `extra` in by name, in order.
    pub fn insert_all(&mut self, extra: JsonObj)
        ensures
            final(self)@ == merged(old(self)@, extra@),
    {
        let ghost all = extra@;
        let ghost target = merged(self@, all);
        let mut rest = extra;
        proof {
            assert(all.skip(0) =~= all);
        }
        while rest.fields.len() > 0
            invariant
                target == merged(self@, rest@),
            decreases rest.fields@.len(),
        {
            let ghost now = rest@;
            let (key, j) = rest.fields.remove(0);
            proof {
                assert(now[0] == (key@, j@));
                assert(rest@ =~= now.skip(1));
            }
            self.insert(key, j);
        }
        proof {
            assert(rest@ =~= Seq::<(Seq<char>, JsonV)>::empty());
        }
    }
}

/// The value under a name is that of the first field so named, and there is one
/// exactly where such a field is.
pub proof fn the_first_field_of_a_name_counts(fields: Seq<(Seq<char>, JsonV)>, key: Seq<char>)
    ensures
        field(fields, key) is Some <==> exists|i: int|
            0 <= i < fields.len() && (#[trigger] fields[i]).0 == key,
        field(fields, key) matches Some(j) ==> exists|i: int|
            0 <= i < fields.len() && #[trigger] fields[i] == (key, j) && forall|k: int|
                0 <= k < i ==> (#[trigger] fields[k]).0 != key,
    decreases fields.len(),
{
    if fields.len() > 0 {
        let rest = fields.skip(1);
        the_first_field_of_a_name_counts(rest, key);
        if fields[0].0 == key {
            assert(fields[0] == (key, fields[0].1));
        } else {
            if field(rest, key) is Some {
                let j = field(rest, key)->0;
                let i = choose|i: int|
                    0 <= i < rest.len() && #[trigger] rest[i] == (key, j) && forall|k: int|
                        0 <= k < i ==> (#[trigger] rest[k]).0 != key;
                assert(fields[i + 1] == (key, j));
                assert forall|k: int| 0 <= k < i + 1 implies (#[trigger] fields[k]).0 != key by {
                    if k > 0 {
                        assert(rest[k - 1] == fields[k]);
                    }
                }
            }
            if exists|i: int| 0 <= i < fields.len() && (#[trigger] fields[i]).0 == key {
                let i = choose|i: int| 0 <= i < fields.len() && (#[trigger] fields[i]).0 == key;
                assert(rest[i - 1] == fields[i]);
            }
        }
    }
}

proof fn lemma_first_named_is_first(fields: Seq<(Seq<char>, JsonV)>, key: Seq<char>)
    requires
        exists|i: int| 0 <= i < fields.len() && (#[trigger] fields[i]).0 == key,
    ensures
        0 <= first_named(fields, key) < fields.len(),
        fields[first_named(fields, key)].0 == key,
        forall|j: int| 0 <= j < first_named(fields, key) ==> (#[trigger] fields[j]).0 != key,
    decreases fields.len(),
{
    if fields[0].0 != key {
        let rest = fields.skip(1);
        let i = choose|i: int| 0 <= i < fields.len() && (#[trigger] fields[i]).0 == key;
        assert(rest[i - 1] == fields[i]);
        lemma_first_named_is_first(rest, key);
        assert forall|j: int| 0 <= j < first_named(fields, key) implies (#[trigger] fields[j]).0
            != key by {
            if j > 0 {
                assert(rest[j - 1] == fields[j]);
            }
        }
    }
}

/// A field that is put in by name is the one found under it; fields of other names
/// stay as they are, and one is added exactly where none of the name was there.
pub proof fn a_field_put_in_by_name_is_found(
    fields: Seq<(Seq<char>, JsonV)>,
    key: Seq<char>,
    j: JsonV,
    i: int,
)
    ensures
        inserted(fields, key, j).contains((key, j)),
        field(inserted(fields, key, j), key) == Some(j),
        0 <= i < fields.len() && fields[i].0 != key ==> inserted(fields, key, j)[i] == fields[i],
        inserted(fields, key, j).len() == (if field(fields, key) is Some {
            fields.len()
        } else {
            fields.len() + 1
        }),
{
    let new = inserted(fields, key, j);
    the_first_field_of_a_name_counts(fields, key);
    the_first_field_of_a_name_counts(new, key);
    let at = if exists|k: int| 0 <= k < fields.len() && (#[trigger] fields[k]).0 == key {
        lemma_first_named_is_first(fields, key);
        first_named(fields, key)
    } else {
        fields.len() as int
    };
    assert(new[at] == (key, j));
    assert(new[at].0 == key);
    assert forall|k: int| 0 <= k < at implies (#[trigger] new[k]).0 != key by {
        assert(new[k] == fields[k]);
    }
    let got = field(new, key)->0;
    let k = choose|k: int|
        0 <= k < new.len() && #[trigger] new[k] == (key, got) && forall|m: int|
            0 <= m < k ==> (#[trigger] new[m]).0 != key;
    assert(new[k].0 == key);
    assert(k == at);
}

/// A text is a string as it is, and no text is null.
pub proof fn only_a_missing_text_is_null(s: Option<Seq<char>>)
    ensures
        text_or_null(s) == JsonV::Null <==> s is None,
        s matches Some(t) ==> text_or_null(s) == JsonV::Str(t),
{
}

/// Fields are put in one after the other, each over what was put in before it.
pub proof fn fields_are_put_in_one_after_the_other(
    fields: Seq<(Seq<char>, JsonV)>,
    extra: Seq<(Seq<char>, JsonV)>,
    key: Seq<char>,
    j: JsonV,
)
    ensures
        merged(fields, Seq::empty()) == fields,
        merged(fields, extra.push((key, j))) == inserted(merged(fields, extra), key, j),
        field(merged(fields, extra.push((key, j))), key) == Some(j),
    decreases extra.len(),
{
    let more = extra.push((key, j));
    if extra.len() == 0 {
        assert(more.skip(1) =~= Seq::empty());
        assert(merged(inserted(fields, key, j), more.skip(1)) == inserted(fields, key, j));
    } else {
        let next = inserted(fields, extra[0].0, extra[0].1);
        assert(more.skip(1) =~= extra.skip(1).push((key, j)));
        fields_are_put_in_one_after_the_other(next, extra.skip(1), key, j);
    }
    a_field_put_in_by_name_is_found(merged(fields, extra), key, j, 0);
}

} // verus!
