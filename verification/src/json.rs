//! JSON values that the agent builds: patches, states and desired objects.
use crate::text::owned;
use crate::views::DeepClone;
use vstd::prelude::*;

verus! {

/// A JSON value. The members of an object stand in the order in which they were put.
#[derive(Debug, PartialEq, Eq)]
pub enum Json {
    Null,
    Bool(bool),
    Number(i128),
    Text(String),
    Array(Vec<Json>),
    Object(Vec<JsonField>),
}

/// A member of a JSON object.
#[derive(Debug, PartialEq, Eq)]
pub struct JsonField {
    pub name: String,
    pub value: Json,
}

/// The view of [`Json`].
pub enum JsonView {
    Null,
    Bool(bool),
    Number(int),
    Text(Seq<char>),
    Array(Seq<JsonView>),
    Object(Seq<(Seq<char>, JsonView)>),
}

impl Json {
    /// What the value stands for.
    pub open spec fn node(self) -> JsonView
        decreases self,
    {
        match self {
            Json::Null => JsonView::Null,
            Json::Bool(b) => JsonView::Bool(b),
            Json::Number(n) => JsonView::Number(n as int),
            Json::Text(s) => JsonView::Text(s@),
            Json::Array(items) => JsonView::Array(
                Seq::new(
                    items@.len(),
                    |i: int|
                        if 0 <= i < items@.len() {
                            items@[i].node()
                        } else {
                            JsonView::Null
                        },
                ),
            ),
            Json::Object(fields) => JsonView::Object(
                Seq::new(
                    fields@.len(),
                    |i: int|
                        if 0 <= i < fields@.len() {
                            (fields@[i].name@, fields@[i].value.node())
                        } else {
                            (seq![], JsonView::Null)
                        },
                ),
            ),
        }
    }
}

impl DeepView for Json {
    type V = JsonView;

    open spec fn deep_view(&self) -> JsonView {
        self.node()
    }
}

fn copy_items(items: &Vec<Json>) -> (copy: Vec<Json>)
    ensures
        copy.len() == items.len(),
        forall|i: int| 0 <= i < items.len() ==> (#[trigger] copy@[i]).node() == items@[i].node(),
    decreases items,
{
    let mut copy: Vec<Json> = Vec::new();
    let mut k: usize = 0;
    while k < items.len()
        invariant
            k <= items.len(),
            copy.len() == k,
            forall|i: int| 0 <= i < k ==> (#[trigger] copy@[i]).node() == items@[i].node(),
        decreases items.len() - k,
    {
        proof {
            assert(decreases_to!(items => items@[k as int]));
        }
        copy.push(copy_json(&items[k]));
        k += 1;
    }
    copy
}

fn copy_fields(fields: &Vec<JsonField>) -> (copy: Vec<JsonField>)
    ensures
        copy.len() == fields.len(),
        forall|i: int| #![trigger copy@[i]]
            0 <= i < fields.len() ==> copy@[i].value.node() == fields@[i].value.node() && copy@[i].name@
                == fields@[i].name@,
    decreases fields,
{
    let mut copy: Vec<JsonField> = Vec::new();
    let mut k: usize = 0;
    while k < fields.len()
        invariant
            k <= fields.len(),
            copy.len() == k,
            forall|i: int| #![trigger copy@[i]]
                0 <= i < k ==> copy@[i].value.node() == fields@[i].value.node() && copy@[i].name@ == fields@[i].name@,
        decreases fields.len() - k,
    {
        proof {
            assert(decreases_to!(fields => fields@[k as int]));
        }
        copy.push(JsonField { name: fields[k].name.clone(), value: copy_json(&fields[k].value) });
        k += 1;
    }
    copy
}

fn copy_json(json: &Json) -> (copy: Json)
    ensures
        copy.node() == json.node(),
    decreases json,
{
    match json {
        Json::Null => Json::Null,
        Json::Bool(b) => Json::Bool(*b),
        Json::Number(n) => Json::Number(*n),
        Json::Text(s) => Json::Text(s.clone()),
        Json::Array(items) => {
            let copy = Json::Array(copy_items(items));
            assert(copy.node()->Array_0 =~= json.node()->Array_0);
            copy
        },
        Json::Object(fields) => {
            let copy = Json::Object(copy_fields(fields));
            assert(copy.node()->Object_0 =~= json.node()->Object_0);
            copy
        },
    }
}

impl Clone for Json {
    fn clone(&self) -> (copy: Self)
        ensures
            copy.node() == self.node(),
    {
        copy_json(self)
    }
}

impl DeepClone for Json {
    fn deep_clone(&self) -> (copy: Self) {
        copy_json(self)
    }
}

// ------------------------------------------------------------------- building

/// A text value.
pub fn json_text(s: &str) -> (r: Json)
    ensures
        r.node() == JsonView::Text(s@),
{
    Json::Text(owned(s))
}

/// A text, or null where there is none.
pub open spec fn opt_text_node(s: Option<Seq<char>>) -> JsonView {
    match s {
        Some(t) => JsonView::Text(t),
        None => JsonView::Null,
    }
}

pub fn json_opt_text(s: Option<&str>) -> (r: Json)
    ensures
        r.node() == opt_text_node(s.deep_view()),
{
    match s {
        Some(t) => json_text(t),
        None => Json::Null,
    }
}

/// The texts of a list.
pub open spec fn texts_node(items: Seq<Seq<char>>) -> JsonView {
    JsonView::Array(items.map_values(|s: Seq<char>| JsonView::Text(s)))
}

pub fn json_texts(items: &Vec<String>) -> (r: Json)
    ensures
        r.node() == texts_node(items.deep_view()),
{
    let mut out: Vec<Json> = Vec::new();
    let mut k: usize = 0;
    while k < items.len()
        invariant
            k <= items.len(),
            out.len() == k,
            forall|i: int| 0 <= i < k ==> (#[trigger] out@[i]).node() == JsonView::Text(items@[i]@),
        decreases items.len() - k,
    {
        out.push(json_text(items[k].as_str()));
        k += 1;
    }
    let r = Json::Array(out);
    assert(r.node()->Array_0 =~= texts_node(items.deep_view())->Array_0);
    r
}

/// The members of an object.
pub type Members = Seq<(Seq<char>, JsonView)>;

/// The members that a list of fields stands for.
pub open spec fn members_of(fields: Seq<JsonField>) -> Members {
    Seq::new(fields.len(), |i: int| (fields[i].name@, fields[i].value.node()))
}

/// An object to which members are added.
pub struct ObjectBuilder {
    pub fields: Vec<JsonField>,
}

impl ObjectBuilder {
    /// The members so far.
    pub open spec fn members(self) -> Members {
        members_of(self.fields@)
    }

    pub fn new() -> (r: ObjectBuilder)
        ensures
            r.members() == Seq::<(Seq<char>, JsonView)>::empty(),
    {
        let r = ObjectBuilder { fields: Vec::new() };
        assert(r.members() =~= Seq::<(Seq<char>, JsonView)>::empty());
        r
    }

    /// Adds a member.
    pub fn with(self, name: &str, value: Json) -> (r: ObjectBuilder)
        ensures
            r.members() == self.members().push((name@, value.node())),
    {
        let ghost before = self.members();
        let ghost node = value.node();
        let mut fields = self.fields;
        fields.push(JsonField { name: owned(name), value });
        let r = ObjectBuilder { fields };
        assert(r.members() =~= before.push((name@, node)));
        r
    }

    /// The object.
    pub fn build(self) -> (r: Json)
        ensures
            r.node() == JsonView::Object(self.members()),
    {
        let ghost members = self.members();
        let r = Json::Object(self.fields);
        assert(r.node()->Object_0 =~= members);
        r
    }
}

/// An object with one member.
pub open spec fn one_member(name: Seq<char>, value: JsonView) -> JsonView {
    JsonView::Object(seq![(name, value)])
}

pub fn json_one(name: &str, value: Json) -> (r: Json)
    ensures
        r.node() == one_member(name@, value.node()),
{
    let ghost node = value.node();
    let b = ObjectBuilder::new().with(name, value);
    assert(b.members() =~= seq![(name@, node)]);
    b.build()
}

/// An array with one item.
pub open spec fn one_item(value: JsonView) -> JsonView {
    JsonView::Array(seq![value])
}

pub fn json_one_item(value: Json) -> (r: Json)
    ensures
        r.node() == one_item(value.node()),
{
    let ghost node = value.node();
    let mut items: Vec<Json> = Vec::new();
    items.push(value);
    let r = Json::Array(items);
    assert(r.node()->Array_0 =~= seq![node]);
    r
}

/// An object with two members.
pub fn json_object2(
    n1: &str,
    v1: Json,
    n2: &str,
    v2: Json,
) -> (r: Json)
    ensures
        r.node() == JsonView::Object(seq![(n1@, v1.node()), (n2@, v2.node())]),
{
    let ghost m1 = (n1@, v1.node());
    let ghost m2 = (n2@, v2.node());
    let b = ObjectBuilder::new().with(n1, v1).with(n2, v2);
    assert(b.members() =~= seq![m1, m2]);
    b.build()
}

/// An object with three members.
pub fn json_object3(
    n1: &str,
    v1: Json,
    n2: &str,
    v2: Json,
    n3: &str,
    v3: Json,
) -> (r: Json)
    ensures
        r.node() == JsonView::Object(seq![(n1@, v1.node()), (n2@, v2.node()), (n3@, v3.node())]),
{
    let ghost m1 = (n1@, v1.node());
    let ghost m2 = (n2@, v2.node());
    let ghost m3 = (n3@, v3.node());
    let b = ObjectBuilder::new().with(n1, v1).with(n2, v2).with(n3, v3);
    assert(b.members() =~= seq![m1, m2, m3]);
    b.build()
}

/// An object with four members.
pub fn json_object4(
    n1: &str,
    v1: Json,
    n2: &str,
    v2: Json,
    n3: &str,
    v3: Json,
    n4: &str,
    v4: Json,
) -> (r: Json)
    ensures
        r.node() == JsonView::Object(seq![(n1@, v1.node()), (n2@, v2.node()), (n3@, v3.node()), (n4@, v4.node())]),
{
    let ghost m1 = (n1@, v1.node());
    let ghost m2 = (n2@, v2.node());
    let ghost m3 = (n3@, v3.node());
    let ghost m4 = (n4@, v4.node());
    let b = ObjectBuilder::new().with(n1, v1).with(n2, v2).with(n3, v3).with(n4, v4);
    assert(b.members() =~= seq![m1, m2, m3, m4]);
    b.build()
}

/// An object with five members.
pub fn json_object5(
    n1: &str,
    v1: Json,
    n2: &str,
    v2: Json,
    n3: &str,
    v3: Json,
    n4: &str,
    v4: Json,
    n5: &str,
    v5: Json,
) -> (r: Json)
    ensures
        r.node() == JsonView::Object(seq![(n1@, v1.node()), (n2@, v2.node()), (n3@, v3.node()), (n4@, v4.node()), (n5@, v5.node())]),
{
    let ghost m1 = (n1@, v1.node());
    let ghost m2 = (n2@, v2.node());
    let ghost m3 = (n3@, v3.node());
    let ghost m4 = (n4@, v4.node());
    let ghost m5 = (n5@, v5.node());
    let b = ObjectBuilder::new().with(n1, v1).with(n2, v2).with(n3, v3).with(n4, v4).with(n5, v5);
    assert(b.members() =~= seq![m1, m2, m3, m4, m5]);
    b.build()
}

/// An object with six members.
pub fn json_object6(
    n1: &str,
    v1: Json,
    n2: &str,
    v2: Json,
    n3: &str,
    v3: Json,
    n4: &str,
    v4: Json,
    n5: &str,
    v5: Json,
    n6: &str,
    v6: Json,
) -> (r: Json)
    ensures
        r.node() == JsonView::Object(seq![(n1@, v1.node()), (n2@, v2.node()), (n3@, v3.node()), (n4@, v4.node()), (n5@, v5.node()), (n6@, v6.node())]),
{
    let ghost m1 = (n1@, v1.node());
    let ghost m2 = (n2@, v2.node());
    let ghost m3 = (n3@, v3.node());
    let ghost m4 = (n4@, v4.node());
    let ghost m5 = (n5@, v5.node());
    let ghost m6 = (n6@, v6.node());
    let b = ObjectBuilder::new().with(n1, v1).with(n2, v2).with(n3, v3).with(n4, v4).with(n5, v5).with(n6, v6);
    assert(b.members() =~= seq![m1, m2, m3, m4, m5, m6]);
    b.build()
}

/// An object with seven members.
pub fn json_object7(
    n1: &str,
    v1: Json,
    n2: &str,
    v2: Json,
    n3: &str,
    v3: Json,
    n4: &str,
    v4: Json,
    n5: &str,
    v5: Json,
    n6: &str,
    v6: Json,
    n7: &str,
    v7: Json,
) -> (r: Json)
    ensures
        r.node() == JsonView::Object(seq![(n1@, v1.node()), (n2@, v2.node()), (n3@, v3.node()), (n4@, v4.node()), (n5@, v5.node()), (n6@, v6.node()), (n7@, v7.node())]),
{
    let ghost m1 = (n1@, v1.node());
    let ghost m2 = (n2@, v2.node());
    let ghost m3 = (n3@, v3.node());
    let ghost m4 = (n4@, v4.node());
    let ghost m5 = (n5@, v5.node());
    let ghost m6 = (n6@, v6.node());
    let ghost m7 = (n7@, v7.node());
    let b = ObjectBuilder::new().with(n1, v1).with(n2, v2).with(n3, v3).with(n4, v4).with(n5, v5).with(n6, v6).with(n7, v7);
    assert(b.members() =~= seq![m1, m2, m3, m4, m5, m6, m7]);
    b.build()
}

} // verus!
