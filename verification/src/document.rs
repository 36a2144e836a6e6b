//! Documents as the sync settings see them: named fields that hold values.
use vstd::prelude::*;

verus! {

/// A field value. `Float` carries the IEEE 754 bits of the number.
pub enum Value {
    Null,
    Bool(bool),
    Int(i64),
    Float(u64),
    Text(String),
    Binary(Vec<u8>),
    BlobLink { offset: u64, len: u32 },
    Reference { collection: String, doc_id: String },
    Timestamp(i64),
    ServerTimestamp,
    Fields(Vec<(String, Value)>),
    Array(Vec<Value>),
}

/// The mathematical content of a [`Value`].
pub enum ValueView {
    Null,
    Bool(bool),
    Int(int),
    Float(u64),
    Text(Seq<char>),
    Binary(Seq<u8>),
    BlobLink { offset: u64, len: u32 },
    Reference { collection: Seq<char>, doc_id: Seq<char> },
    Timestamp(int),
    ServerTimestamp,
    Fields(Seq<(Seq<char>, ValueView)>),
    Array(Seq<ValueView>),
}

impl View for Value {
    type V = ValueView;

    open spec fn view(&self) -> ValueView {
        value_view(*self)
    }
}

/// The content of a value.
pub open spec fn value_view(value: Value) -> ValueView
    decreases value,
{
    match value {
        Value::Null => ValueView::Null,
        Value::Bool(b) => ValueView::Bool(b),
        Value::Int(i) => ValueView::Int(i as int),
        Value::Float(bits) => ValueView::Float(bits),
        Value::Text(s) => ValueView::Text(s@),
        Value::Binary(bytes) => ValueView::Binary(bytes@),
        Value::BlobLink { offset, len } => ValueView::BlobLink { offset, len },
        Value::Reference { collection, doc_id } => ValueView::Reference {
            collection: collection@,
            doc_id: doc_id@,
        },
        Value::Timestamp(t) => ValueView::Timestamp(t as int),
        Value::ServerTimestamp => ValueView::ServerTimestamp,
        Value::Fields(fields) => ValueView::Fields(fields_view(fields@)),
        Value::Array(items) => ValueView::Array(items_view(items@)),
    }
}

/// The contents of the items of an array, in order.
pub open spec fn items_view(items: Seq<Value>) -> Seq<ValueView>
    decreases items,
{
    if items.len() == 0 {
        Seq::empty()
    } else {
        items_view(items.drop_last()).push(value_view(items.last()))
    }
}

/// The names and contents of nested fields, in order.
pub open spec fn fields_view(fields: Seq<(String, Value)>) -> Seq<(Seq<char>, ValueView)>
    decreases fields,
{
    if fields.len() == 0 {
        Seq::empty()
    } else {
        fields_view(fields.drop_last()).push((fields.last().0@, value_view(fields.last().1)))
    }
}

/// The items of an array are viewed one by one.
pub proof fn lemma_items_view(items: Seq<Value>)
    ensures
        items_view(items).len() == items.len(),
        forall|i: int| 0 <= i < items.len() ==> #[trigger] items_view(items)[i] == items[i]@,
    decreases items.len(),
{
    if items.len() > 0 {
        lemma_items_view(items.drop_last());
    }
}

impl DeepView for Value {
    type V = ValueView;

    open spec fn deep_view(&self) -> ValueView {
        self.view()
    }
}

/// The text that a value holds, if it is a text.
pub open spec fn text_of(value: ValueView) -> Option<Seq<char>> {
    match value {
        ValueView::Text(s) => Some(s),
        _ => None,
    }
}

impl Value {
    /// A value with the same content.
    pub fn duplicate(&self) -> (copy: Value)
        ensures
            copy@ == self@,
        decreases self,
    {
        match self {
            Value::Null => Value::Null,
            Value::Bool(b) => Value::Bool(*b),
            Value::Int(i) => Value::Int(*i),
            Value::Float(bits) => Value::Float(*bits),
            Value::Text(s) => Value::Text(s.clone()),
            Value::Binary(bytes) => {
                let mut copied: Vec<u8> = Vec::new();
                let mut i: usize = 0;
                while i < bytes.len()
                    invariant
                        i <= bytes@.len(),
                        copied@ == bytes@.take(i as int),
                    decreases bytes@.len() - i,
                {
                    copied.push(bytes[i]);
                    assert(bytes@.take(i + 1) =~= bytes@.take(i as int).push(bytes@[i as int]));
                    i = i + 1;
                }
                assert(bytes@.take(bytes@.len() as int) =~= bytes@);
                Value::Binary(copied)
            },
            Value::BlobLink { offset, len } => Value::BlobLink { offset: *offset, len: *len },
            Value::Reference { collection, doc_id } => Value::Reference {
                collection: collection.clone(),
                doc_id: doc_id.clone(),
            },
            Value::Timestamp(t) => Value::Timestamp(*t),
            Value::ServerTimestamp => Value::ServerTimestamp,
            Value::Fields(fields) => {
                let mut copied: Vec<(String, Value)> = Vec::new();
                let mut i: usize = 0;
                while i < fields.len()
                    invariant
                        self is Fields,
                        *fields == self->Fields_0,
                        i <= fields@.len(),
                        fields_view(copied@) == fields_view(fields@.take(i as int)),
                    decreases fields@.len() - i,
                {
                    proof {
                        assert(decreases_to!(self => self->Fields_0));
                        assert(decreases_to!(fields => fields@));
                        assert(decreases_to!(fields@ => fields@[i as int]));
                        assert(decreases_to!(fields@[i as int] => fields@[i as int].1));
                    }
                    let copy = fields[i].1.duplicate();
                    let ghost before = copied@;
                    copied.push((fields[i].0.clone(), copy));
                    proof {
                        assert(copied@.drop_last() =~= before);
                        assert(fields@.take(i + 1).drop_last() =~= fields@.take(i as int));
                    }
                    i = i + 1;
                }
                assert(fields@.take(fields@.len() as int) =~= fields@);
                Value::Fields(copied)
            },
            Value::Array(items) => {
                let mut copied: Vec<Value> = Vec::new();
                let mut i: usize = 0;
                while i < items.len()
                    invariant
                        self is Array,
                        *items == self->Array_0,
                        i <= items@.len(),
                        items_view(copied@) == items_view(items@.take(i as int)),
                    decreases items@.len() - i,
                {
                    proof {
                        assert(decreases_to!(self => self->Array_0));
                        assert(decreases_to!(items => items@));
                        assert(decreases_to!(items@ => items@[i as int]));
                    }
                    let copy = items[i].duplicate();
                    let ghost before = copied@;
                    copied.push(copy);
                    proof {
                        assert(copied@.drop_last() =~= before);
                        assert(items@.take(i + 1).drop_last() =~= items@.take(i as int));
                    }
                    i = i + 1;
                }
                assert(items@.take(items@.len() as int) =~= items@);
                Value::Array(copied)
            },
        }
    }
}

/// The content of a [`Doc`]: each field name with the content of its value.
pub type DocView = Map<Seq<char>, ValueView>;

/// The text that the named field of a document holds, if it holds one.
pub open spec fn text_field(doc: DocView, name: Seq<char>) -> Option<Seq<char>> {
    if doc.contains_key(name) {
        text_of(doc[name])
    } else {
        None
    }
}

/// Whether the named field of a document holds `true`.
pub open spec fn flag_field(doc: DocView, name: Seq<char>) -> bool {
    doc.contains_key(name) && doc[name] == ValueView::Bool(true)
}

/// Whether some field bears the name.
pub open spec fn has_field(fields: Seq<(String, Value)>, name: Seq<char>) -> bool {
    exists|i: int| 0 <= i < fields.len() && #[trigger] fields[i].0@ == name
}

/// No two fields bear the same name.
pub open spec fn names_differ(fields: Seq<(String, Value)>) -> bool {
    forall|i: int, j: int|
        0 <= i < j < fields.len() ==> #[trigger] fields[i].0@ != #[trigger] fields[j].0@
}

/// The fields as a map from name to content.
pub open spec fn fields_map(fields: Seq<(String, Value)>) -> DocView {
    Map::new(
        |name: Seq<char>| has_field(fields, name),
        |name: Seq<char>|
            fields[choose|i: int| 0 <= i < fields.len() && #[trigger] fields[i].0@ == name].1@,
    )
}

/// A document: fields with distinct names.
pub struct Doc {
    fields: Vec<(String, Value)>,
}

impl View for Doc {
    type V = DocView;

    closed spec fn view(&self) -> DocView {
        fields_map(self.fields@)
    }
}

impl DeepView for Doc {
    type V = DocView;

    open spec fn deep_view(&self) -> DocView {
        self@
    }
}

/// A field is found in the map under its own name, with its own value.
proof fn lemma_field_in_map(fields: Seq<(String, Value)>, i: int)
    requires
        names_differ(fields),
        0 <= i < fields.len(),
    ensures
        fields_map(fields).contains_key(fields[i].0@),
        fields_map(fields)[fields[i].0@] == fields[i].1@,
{
    let name = fields[i].0@;
    assert(has_field(fields, name));
    let found = choose|k: int| 0 <= k < fields.len() && #[trigger] fields[k].0@ == name;
    assert(found == i);
}

/// Setting the field at `found`, or adding a field where there was none, sets the name in the map.
proof fn lemma_map_after_insert(
    before: Seq<(String, Value)>,
    after: Seq<(String, Value)>,
    name: Seq<char>,
    content: ValueView,
    found: Option<usize>,
)
    requires
        names_differ(before),
        names_differ(after),
        match found {
            Some(i) => {
                &&& i < before.len()
                &&& before[i as int].0@ == name
                &&& after == before.update(i as int, after[i as int])
                &&& after[i as int].0@ == name
                &&& after[i as int].1@ == content
            },
            None => {
                &&& !has_field(before, name)
                &&& after.len() == before.len() + 1
                &&& after == before.push(after.last())
                &&& after.last().0@ == name
                &&& after.last().1@ == content
            },
        },
    ensures
        fields_map(after) == fields_map(before).insert(name, content),
{
    let at: int = match found {
        Some(i) => i as int,
        None => before.len() as int,
    };
    lemma_field_in_map(after, at);
    let expected = fields_map(before).insert(name, content);
    assert forall|k: Seq<char>|
        #![trigger fields_map(after).dom().contains(k)]
        #![trigger expected.dom().contains(k)]
        #![trigger fields_map(after)[k]]
        #![trigger expected[k]]
        fields_map(after).dom().contains(k) == expected.dom().contains(k) && (
        expected.dom().contains(k) ==> fields_map(after)[k] == expected[k]) by {
        if k != name {
            if has_field(before, k) {
                let i = choose|i: int| 0 <= i < before.len() && #[trigger] before[i].0@ == k;
                assert(after[i] == before[i]);
                lemma_field_in_map(before, i);
                lemma_field_in_map(after, i);
            }
            if has_field(after, k) {
                let i = choose|i: int| 0 <= i < after.len() && #[trigger] after[i].0@ == k;
                assert(i != at);
                assert(after[i] == before[i]);
            }
        }
    }
    assert(fields_map(after) =~= expected);
}

/// Taking out the field at `at` takes its name out of the map.
proof fn lemma_map_after_remove(before: Seq<(String, Value)>, at: int)
    requires
        names_differ(before),
        0 <= at < before.len(),
    ensures
        names_differ(before.remove(at)),
        fields_map(before.remove(at)) == fields_map(before).remove(before[at].0@),
{
    let after = before.remove(at);
    let name = before[at].0@;
    assert forall|i: int, j: int| 0 <= i < j < after.len() implies #[trigger] after[i].0@
        != #[trigger] after[j].0@ by {
        let i0 = if i < at { i } else { i + 1 };
        let j0 = if j < at { j } else { j + 1 };
        assert(before[i0].0@ != before[j0].0@);
    }
    let expected = fields_map(before).remove(name);
    assert forall|k: Seq<char>|
        #![trigger fields_map(after).dom().contains(k)]
        #![trigger expected.dom().contains(k)]
        #![trigger fields_map(after)[k]]
        #![trigger expected[k]]
        fields_map(after).dom().contains(k) == expected.dom().contains(k) && (
        expected.dom().contains(k) ==> fields_map(after)[k] == expected[k]) by {
        if has_field(after, k) {
            let i = choose|i: int| 0 <= i < after.len() && #[trigger] after[i].0@ == k;
            let i0 = if i < at { i } else { i + 1 };
            assert(after[i] == before[i0]);
            lemma_field_in_map(before, i0);
            lemma_field_in_map(after, i);
        }
        if has_field(before, k) && k != name {
            let i0 = choose|i: int| 0 <= i < before.len() && #[trigger] before[i].0@ == k;
            let i = if i0 < at { i0 } else { i0 - 1 };
            assert(after[i] == before[i0]);
            assert(after[i].0@ == k);
        }
    }
    assert(fields_map(after) =~= expected);
}

impl Doc {
    #[verifier::type_invariant]
    spec fn distinct(self) -> bool {
        names_differ(self.fields@)
    }

    /// A document without fields.
    pub fn new() -> (doc: Doc)
        ensures
            doc@ == Map::<Seq<char>, ValueView>::empty(),
    {
        let doc = Doc { fields: Vec::new() };
        assert(doc@ =~= Map::<Seq<char>, ValueView>::empty());
        doc
    }

    /// The position of the field with the given name.
    fn position(&self, name: &str) -> (found: Option<usize>)
        ensures
            match found {
                Some(i) => i < self.fields@.len() && self.fields@[i as int].0@ == name@,
                None => !has_field(self.fields@, name@),
            },
    {
        let wanted = name.to_string();
        let mut i: usize = 0;
        while i < self.fields.len()
            invariant
                i <= self.fields@.len(),
                wanted@ == name@,
                forall|j: int| 0 <= j < i ==> #[trigger] self.fields@[j].0@ != name@,
            decreases self.fields@.len() - i,
        {
            if self.fields[i].0 == wanted {
                return Some(i);
            }
            i = i + 1;
        }
        None
    }

    /// The value of the field with the given name.
    pub fn get(&self, name: &str) -> (value: Option<&Value>)
        ensures
            match value {
                Some(v) => self@.contains_key(name@) && v@ == self@[name@],
                None => !self@.contains_key(name@),
            },
    {
        proof {
            use_type_invariant(self);
        }
        match self.position(name) {
            Some(i) => {
                proof {
                    lemma_field_in_map(self.fields@, i as int);
                }
                Some(&self.fields[i].1)
            },
            None => None,
        }
    }

    /// Sets the field with the given name, in place of a value that it had.
    pub fn insert(&mut self, name: &str, value: Value)
        ensures
            final(self)@ == old(self)@.insert(name@, value@),
    {
        proof {
            use_type_invariant(&*self);
        }
        let ghost before = self.fields@;
        let found = self.position(name);
        let mut fields: Vec<(String, Value)> = Vec::new();
        std::mem::swap(&mut fields, &mut self.fields);
        match found {
            Some(i) => {
                fields.set(i, (name.to_string(), value));
            },
            None => {
                fields.push((name.to_string(), value));
            },
        }
        proof {
            let after = fields@;
            assert(names_differ(after)) by {
                assert forall|i: int, j: int| 0 <= i < j < after.len() implies #[trigger] after[i].0@
                    != #[trigger] after[j].0@ by {
                    if i < before.len() {
                        assert(found is Some || before[i].0@ != name@);
                    }
                    if j < before.len() {
                        assert(found is Some || before[j].0@ != name@);
                    }
                }
            }
            lemma_map_after_insert(before, after, name@, value@, found);
        }
        self.fields = fields;
    }

    /// Takes the field with the given name out of the document.
    pub fn remove(&mut self, name: &str) -> (value: Option<Value>)
        ensures
            final(self)@ == old(self)@.remove(name@),
            match value {
                Some(v) => old(self)@.contains_key(name@) && v@ == old(self)@[name@],
                None => !old(self)@.contains_key(name@),
            },
    {
        proof {
            use_type_invariant(&*self);
        }
        let ghost before = self.fields@;
        match self.position(name) {
            Some(i) => {
                let mut fields: Vec<(String, Value)> = Vec::new();
                std::mem::swap(&mut fields, &mut self.fields);
                let field = fields.remove(i);
                proof {
                    lemma_map_after_remove(before, i as int);
                    lemma_field_in_map(before, i as int);
                }
                self.fields = fields;
                Some(field.1)
            },
            None => {
                assert(self@ =~= self@.remove(name@));
                None
            },
        }
    }

    /// The fields, each name once.
    pub fn fields(&self) -> (fields: &Vec<(String, Value)>)
        ensures
            names_differ(fields@),
            fields_map(fields@) == self@,
    {
        proof {
            use_type_invariant(self);
        }
        &self.fields
    }

    /// A copy of the text in the field with the given name, if the field holds a text.
    pub fn text(&self, name: &str) -> (text: Option<String>)
        ensures
            text.deep_view() == text_field(self@, name@),
            text is Some <==> self@.contains_key(name@) && self@[name@] is Text,
            text matches Some(t) ==> self@[name@] == ValueView::Text(t@),
    {
        match self.get(name) {
            Some(Value::Text(s)) => Some(s.clone()),
            _ => None,
        }
    }

    /// Whether the field with the given name holds `true`.
    pub fn flag(&self, name: &str) -> (set: bool)
        ensures
            set == flag_field(self@, name@),
            set <==> self@.contains_key(name@) && self@[name@] == ValueView::Bool(true),
    {
        match self.get(name) {
            Some(Value::Bool(b)) => *b,
            _ => false,
        }
    }
}

/// The content of a value is all that the value holds: of each kind of value its own number,
/// text or bytes, of nested values the content of each, in order.
pub proof fn law_contents_are_whole(value: Value)
    ensures
        match value {
            Value::Null => value@ == ValueView::Null,
            Value::Bool(b) => value@ == ValueView::Bool(b),
            Value::Int(i) => value@ == ValueView::Int(i as int),
            Value::Float(bits) => value@ == ValueView::Float(bits),
            Value::Text(s) => value@ == ValueView::Text(s@),
            Value::Binary(bytes) => value@ == ValueView::Binary(bytes@),
            Value::BlobLink { offset, len } => value@ == (ValueView::BlobLink { offset, len }),
            Value::Reference { collection, doc_id } => value@ == (ValueView::Reference {
                collection: collection@,
                doc_id: doc_id@,
            }),
            Value::Timestamp(t) => value@ == ValueView::Timestamp(t as int),
            Value::ServerTimestamp => value@ == ValueView::ServerTimestamp,
            Value::Fields(fields) => value@ == ValueView::Fields(
                fields@.map_values(|f: (String, Value)| (f.0@, f.1@)),
            ),
            Value::Array(items) => value@ == ValueView::Array(items@.map_values(|v: Value| v@)),
        },
{
    if let Value::Fields(fields) = value {
        lemma_fields_view(fields@);
        assert(fields_view(fields@) =~= fields@.map_values(|f: (String, Value)| (f.0@, f.1@)));
    }
    if let Value::Array(items) = value {
        lemma_items_view(items@);
        assert(items_view(items@) =~= items@.map_values(|v: Value| v@));
    }
}

proof fn lemma_fields_view(fields: Seq<(String, Value)>)
    ensures
        fields_view(fields).len() == fields.len(),
        forall|i: int|
            0 <= i < fields.len() ==> #[trigger] fields_view(fields)[i] == (
                fields[i].0@,
                fields[i].1@,
            ),
    decreases fields.len(),
{
    if fields.len() > 0 {
        lemma_fields_view(fields.drop_last());
    }
}

/// A document's content has exactly the names of its fields, each with the content of the
/// value that stands beside it.
pub proof fn law_documents_hold_their_fields(fields: Seq<(String, Value)>)
    requires
        names_differ(fields),
    ensures
        forall|i: int|
            0 <= i < fields.len() ==> fields_map(fields).contains_key(#[trigger] fields[i].0@)
                && fields_map(fields)[fields[i].0@] == fields[i].1@,
        forall|name: Seq<char>|
            #[trigger] fields_map(fields).contains_key(name) ==> exists|i: int|
                0 <= i < fields.len() && #[trigger] fields[i].0@ == name,
{
    assert forall|i: int| 0 <= i < fields.len() implies fields_map(fields).contains_key(
        #[trigger] fields[i].0@,
    ) && fields_map(fields)[fields[i].0@] == fields[i].1@ by {
        lemma_field_in_map(fields, i);
    }
}

} // verus!
