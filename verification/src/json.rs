//! JSON documents: an executable tree, its mathematical model, and the way
//! from raw bytes to a tree.

use vstd::prelude::*;

verus! {

/// A JSON number. A floating-point number is held by its IEEE-754 bits.
#[derive(Clone, Copy, Debug, PartialEq, Eq, Structural)]
pub enum Number {
    /// A non-negative integer.
    PosInt(u64),
    /// A negative integer.
    NegInt(i64),
    /// A double-precision number, by its bit pattern.
    Float(u64),
}

/// What a JSON document says: objects are finite maps from keys to documents.
pub enum Tree {
    Null,
    Bool(bool),
    Number(Number),
    Text(Seq<char>),
    Array(Seq<Tree>),
    Object(Map<Seq<char>, Tree>),
}

/// A JSON document. An object is the list of its entries; where a key occurs
/// more than once, the last entry counts.
#[derive(Debug)]
pub enum Json {
    Null,
    Bool(bool),
    Number(Number),
    Text(String),
    Array(Vec<Json>),
    Object(Vec<(String, Json)>),
}

impl View for Json {
    type V = Tree;

    open spec fn view(&self) -> Tree {
        tree_of(*self)
    }
}

/// The document that a tree stands for.
pub open spec fn tree_of(json: Json) -> Tree
    decreases json,
{
    match json {
        Json::Null => Tree::Null,
        Json::Bool(b) => Tree::Bool(b),
        Json::Number(n) => Tree::Number(n),
        Json::Text(s) => Tree::Text(s@),
        Json::Array(items) => Tree::Array(trees_of(items@)),
        Json::Object(entries) => Tree::Object(fields_of(entries@)),
    }
}

/// The documents that a list of trees stands for.
pub open spec fn trees_of(items: Seq<Json>) -> Seq<Tree>
    decreases items,
{
    if items.len() == 0 {
        Seq::empty()
    } else {
        trees_of(items.drop_last()).push(tree_of(items.last()))
    }
}

/// The map that a list of entries stands for: later entries win.
pub open spec fn fields_of(entries: Seq<(String, Json)>) -> Map<Seq<char>, Tree>
    decreases entries,
{
    if entries.len() == 0 {
        Map::empty()
    } else {
        fields_of(entries.drop_last()).insert(entries.last().0@, tree_of(entries.last().1))
    }
}

impl Tree {
    /// The document under `key`, where this is an object that has the key.
    pub open spec fn get(self, key: Seq<char>) -> Option<Tree> {
        match self {
            Tree::Object(fields) => if fields.dom().contains(key) {
                Some(fields[key])
            } else {
                None
            },
            _ => None,
        }
    }

    /// The elements, where this is an array.
    pub open spec fn as_array(self) -> Option<Seq<Tree>> {
        match self {
            Tree::Array(items) => Some(items),
            _ => None,
        }
    }

    /// The characters, where this is a string.
    pub open spec fn as_text(self) -> Option<Seq<char>> {
        match self {
            Tree::Text(s) => Some(s),
            _ => None,
        }
    }

    /// The value, where this is a non-negative integer.
    pub open spec fn as_u64(self) -> Option<u64> {
        match self {
            Tree::Number(Number::PosInt(n)) => Some(n),
            _ => None,
        }
    }
}

/// A list of trees stands for as many documents, each for its own.
pub proof fn lemma_trees_of(items: Seq<Json>)
    ensures
        trees_of(items).len() == items.len(),
        forall|i: int| 0 <= i < items.len() ==> #[trigger] trees_of(items)[i] == items[i]@,
    decreases items.len(),
{
    if items.len() > 0 {
        lemma_trees_of(items.drop_last());
        assert forall|i: int| 0 <= i < items.len() implies #[trigger] trees_of(items)[i]
            == items[i]@ by {
            if i < items.len() - 1 {
                assert(trees_of(items.drop_last())[i] == items.drop_last()[i]@);
            }
        }
    }
}

/// One more tree stands for one more document.
pub proof fn lemma_trees_push(items: Seq<Json>, item: Json)
    ensures
        trees_of(items.push(item)) == trees_of(items).push(item@),
{
    assert(items.push(item).drop_last() =~= items);
}

/// One more entry sets its key.
pub proof fn lemma_fields_push(entries: Seq<(String, Json)>, key: String, value: Json)
    ensures
        fields_of(entries.push((key, value))) == fields_of(entries).insert(key@, value@),
{
    assert(entries.push((key, value)).drop_last() =~= entries);
}

impl Json {
    /// The last entry under `key`, where this is an object that has one.
    pub fn get(&self, key: &str) -> (found: Option<&Json>)
        ensures
            match found {
                Some(json) => self@.get(key@) == Some(json@),
                None => self@.get(key@) is None,
            },
    {
        match self {
            Json::Object(entries) => {
                let wanted: String = key.to_owned();
                let mut i: usize = entries.len();
                assert(entries@.take(entries@.len() as int) =~= entries@);
                while i > 0
                    invariant
                        i <= entries@.len(),
                        wanted@ == key@,
                        self matches Json::Object(all) && all == entries,
                        Tree::Object(fields_of(entries@.take(i as int))).get(key@) == Tree::Object(
                            fields_of(entries@),
                        ).get(key@),
                    decreases i,
                {
                    assert(entries@.take(i as int).drop_last() =~= entries@.take(i - 1));
                    assert(entries@.take(i as int).last() == entries@[i - 1]);
                    if entries[i - 1].0 == wanted {
                        return Some(&entries[i - 1].1);
                    }
                    i = i - 1;
                }
                None
            },
            _ => None,
        }
    }

    /// The elements, where this is an array.
    pub fn as_array(&self) -> (found: Option<&Vec<Json>>)
        ensures
            match found {
                Some(items) => self@.as_array() == Some(trees_of(items@)),
                None => self@.as_array() is None,
            },
    {
        match self {
            Json::Array(items) => Some(items),
            _ => None,
        }
    }

    /// The text, where this is a string.
    pub fn as_text(&self) -> (found: Option<&str>)
        ensures
            match found {
                Some(s) => self@.as_text() == Some(s@),
                None => self@.as_text() is None,
            },
    {
        match self {
            Json::Text(s) => Some(s.as_str()),
            _ => None,
        }
    }

    /// The value, where this is a non-negative integer.
    pub fn as_u64(&self) -> (found: Option<u64>)
        ensures
            found == self@.as_u64(),
    {
        match self {
            Json::Number(Number::PosInt(n)) => Some(*n),
            _ => None,
        }
    }
}

impl Clone for Json {
    fn clone(&self) -> (copy: Json)
        ensures
            copy@ == self@,
        decreases self,
    {
        match self {
            Json::Null => Json::Null,
            Json::Bool(b) => Json::Bool(*b),
            Json::Number(n) => Json::Number(*n),
            Json::Text(s) => Json::Text(s.clone()),
            Json::Array(items) => {
                let mut copies: Vec<Json> = Vec::new();
                let mut i: usize = 0;
                while i < items.len()
                    invariant
                        i <= items@.len(),
                        trees_of(copies@) == trees_of(items@.take(i as int)),
                        self matches Json::Array(all) && all == items,
                    decreases items@.len() - i,
                {
                    let item = items[i].clone();
                    proof {
                        lemma_trees_push(copies@, item);
                    }
                    copies.push(item);
                    i = i + 1;
                    assert(items@.take(i as int).drop_last() =~= items@.take(i - 1));
                }
                assert(items@.take(i as int) =~= items@);
                Json::Array(copies)
            },
            Json::Object(entries) => {
                let mut copies: Vec<(String, Json)> = Vec::new();
                let mut i: usize = 0;
                while i < entries.len()
                    invariant
                        i <= entries@.len(),
                        fields_of(copies@) == fields_of(entries@.take(i as int)),
                        self matches Json::Object(all) && all == entries,
                    decreases entries@.len() - i,
                {
                    let item = entries[i].1.clone();
                    let key = entries[i].0.clone();
                    proof {
                        lemma_fields_push(copies@, key, item);
                    }
                    copies.push((key, item));
                    i = i + 1;
                    assert(entries@.take(i as int).drop_last() =~= entries@.take(i - 1));
                }
                assert(entries@.take(i as int) =~= entries@);
                Json::Object(copies)
            },
        }
    }
}

/// The fields of an object under construction.
#[derive(Debug)]
pub struct Fields {
    entries: Vec<(String, Json)>,
}

impl View for Fields {
    type V = Map<Seq<char>, Tree>;

    closed spec fn view(&self) -> Map<Seq<char>, Tree> {
        fields_of(self.entries@)
    }
}

impl Fields {
    /// No fields.
    pub fn new() -> (fields: Fields)
        ensures
            fields@ == Map::<Seq<char>, Tree>::empty(),
    {
        Fields { entries: Vec::new() }
    }

    /// Sets a field.
    pub fn insert(&mut self, key: &str, value: Json)
        ensures
            final(self)@ == old(self)@.insert(key@, value@),
    {
        let owned: String = key.to_owned();
        proof {
            lemma_fields_push(self.entries@, owned, value);
        }
        self.entries.push((owned, value));
    }

    /// Whether there is no field.
    pub fn is_empty(&self) -> (empty: bool)
        ensures
            empty == (self@ == Map::<Seq<char>, Tree>::empty()),
    {
        proof {
            if self.entries@.len() > 0 {
                assert(self@.dom().contains(self.entries@.last().0@));
            }
        }
        self.entries.len() == 0
    }

    /// The object with these fields.
    pub fn into_json(self) -> (json: Json)
        ensures
            json@ == Tree::Object(self@),
    {
        Json::Object(self.entries)
    }
}

/// The object with one field.
pub fn object1(key: &str, value: Json) -> (json: Json)
    ensures
        json@ == Tree::Object(map![key@ => value@]),
{
    let mut fields = Fields::new();
    fields.insert(key, value);
    fields.into_json()
}

/// The object with two fields.
pub fn object2(key1: &str, value1: Json, key2: &str, value2: Json) -> (json: Json)
    ensures
        json@ == Tree::Object(map![key1@ => value1@, key2@ => value2@]),
{
    let mut fields = Fields::new();
    fields.insert(key1, value1);
    fields.insert(key2, value2);
    fields.into_json()
}

/// The string of a text.
pub fn text_json(text: &str) -> (json: Json)
    ensures
        json@ == Tree::Text(text@),
{
    Json::Text(text.to_owned())
}

/// The array with one element.
pub fn array1(item: Json) -> (json: Json)
    ensures
        json@ == Tree::Array(seq![item@]),
{
    let mut items: Vec<Json> = Vec::new();
    proof {
        lemma_trees_push(items@, item);
    }
    items.push(item);
    assert(trees_of(items@) =~= seq![item@]);
    Json::Array(items)
}

/// The fields with one more where there is a value for it.
pub open spec fn with_field(
    fields: Map<Seq<char>, Tree>,
    key: Seq<char>,
    value: Option<Tree>,
) -> Map<Seq<char>, Tree> {
    match value {
        Some(tree) => fields.insert(key, tree),
        None => fields,
    }
}

/// A value of the `serde_json` crate.
#[verifier::external_type_specification]
#[verifier::external_body]
pub struct ExValue(serde_json::Value);

/// The document that a `serde_json` value holds.
pub uninterp spec fn value_tree(value: serde_json::Value) -> Tree;

/// The top level of a `serde_json` value, what lies below it still unread.
pub enum Layer<'a> {
    Null,
    Bool(bool),
    Number(Number),
    Text(&'a String),
    Array(&'a Vec<serde_json::Value>),
    Object(Vec<(&'a String, &'a serde_json::Value)>),
}

/// The map that the entries of a layer stand for.
pub open spec fn layer_fields(entries: Seq<(&String, &serde_json::Value)>) -> Map<Seq<char>, Tree>
    decreases entries.len(),
{
    if entries.len() == 0 {
        Map::empty()
    } else {
        layer_fields(entries.drop_last()).insert(
            entries.last().0@,
            value_tree(*entries.last().1),
        )
    }
}

/// The document that a layer and what lies below it stand for.
pub open spec fn layer_tree(layer: Layer) -> Tree {
    match layer {
        Layer::Null => Tree::Null,
        Layer::Bool(b) => Tree::Bool(b),
        Layer::Number(n) => Tree::Number(n),
        Layer::Text(s) => Tree::Text(s@),
        Layer::Array(items) => Tree::Array(
            Seq::new(items@.len(), |i: int| value_tree(items@[i])),
        ),
        Layer::Object(entries) => Tree::Object(layer_fields(entries@)),
    }
}

/// No key occurs twice.
pub open spec fn keys_differ(entries: Seq<(&String, &serde_json::Value)>) -> bool {
    forall|i: int, j: int|
        #![trigger entries[i], entries[j]]
        0 <= i < j < entries.len() ==> entries[i].0@ != entries[j].0@
}

/// Tells the variants of `serde_json::Value` apart and hands out what they
/// hold. A number is read with `Number::as_u64`, `as_i64` and `as_f64`, which
/// between them cover every number; the entries of an object come from
/// `Map::iter`, so that no key comes twice.
#[verifier::external_body]
fn top_layer<'a>(value: &'a serde_json::Value) -> (layer: Layer<'a>)
    ensures
        value_tree(*value) == layer_tree(layer),
        layer matches Layer::Object(entries) ==> keys_differ(entries@),
{
    match value {
        serde_json::Value::Null => Layer::Null,
        serde_json::Value::Bool(b) => Layer::Bool(*b),
        serde_json::Value::Number(n) => match (n.as_u64(), n.as_i64()) {
            (Some(u), _) => Layer::Number(Number::PosInt(u)),
            (_, Some(i)) => Layer::Number(Number::NegInt(i)),
            _ => Layer::Number(Number::Float(n.as_f64().unwrap_or_default().to_bits())),
        },
        serde_json::Value::String(s) => Layer::Text(s),
        serde_json::Value::Array(items) => Layer::Array(items),
        serde_json::Value::Object(fields) => Layer::Object(fields.iter().collect()),
    }
}

/// What `serde_json::from_slice` makes of a byte string: the document, or the
/// text of the error.
pub uninterp spec fn json_from_slice(bytes: Seq<u8>) -> Result<Tree, Seq<char>>;

/// What `serde_json::from_str` makes of a text, where it is a document.
pub uninterp spec fn json_from_str(text: Seq<char>) -> Option<Tree>;

/// What `serde_json::to_vec` makes of a value that holds a document: the bytes,
/// or the text of the error.
pub uninterp spec fn json_to_vec(tree: Tree) -> Result<Seq<u8>, Seq<char>>;

/// Calls `serde_json::to_vec`. The maps of `serde_json` are ordered by their
/// keys, so that the outcome depends on the document alone; an error is
/// rendered with its `Display`.
#[verifier::external_body]
pub(crate) fn value_to_vec(value: &serde_json::Value) -> (written: Result<Vec<u8>, String>)
    ensures
        match written {
            Ok(bytes) => json_to_vec(value_tree(*value)) == Ok::<Seq<u8>, Seq<char>>(bytes@),
            Err(text) => json_to_vec(value_tree(*value)) == Err::<Seq<u8>, Seq<char>>(text@),
        },
{
    serde_json::to_vec(value).map_err(|e| e.to_string())
}

/// Calls `serde_json::from_slice`. Its outcome depends on the bytes alone; an
/// error is rendered with its `Display`.
#[verifier::external_body]
fn value_from_slice(bytes: &[u8]) -> (parsed: Result<serde_json::Value, String>)
    ensures
        match parsed {
            Ok(value) => json_from_slice(bytes@) == Ok::<Tree, Seq<char>>(value_tree(value)),
            Err(text) => json_from_slice(bytes@) == Err::<Tree, Seq<char>>(text@),
        },
{
    serde_json::from_slice(bytes).map_err(|e| e.to_string())
}

/// Calls `serde_json::from_str`. Its outcome depends on the text alone; what
/// an error says is not kept.
#[verifier::external_body]
fn value_from_str(text: &str) -> (parsed: Option<serde_json::Value>)
    ensures
        match parsed {
            Some(value) => json_from_str(text@) == Some(value_tree(value)),
            None => json_from_str(text@) is None,
        },
{
    serde_json::from_str(text).ok()
}

/// A layer has finitely many fields.
proof fn lemma_layer_fields_finite(entries: Seq<(&String, &serde_json::Value)>)
    ensures
        layer_fields(entries).dom().finite(),
    decreases entries.len(),
{
    if entries.len() > 0 {
        lemma_layer_fields_finite(entries.drop_last());
    }
}

/// Where no key occurs twice, each entry of a layer keeps its value.
proof fn lemma_layer_field(entries: Seq<(&String, &serde_json::Value)>, i: int)
    requires
        0 <= i < entries.len(),
        keys_differ(entries),
    ensures
        layer_fields(entries).dom().contains(entries[i].0@),
        layer_fields(entries)[entries[i].0@] == value_tree(*entries[i].1),
    decreases entries.len(),
{
    if i < entries.len() - 1 {
        lemma_layer_field(entries.drop_last(), i);
        assert(entries[i].0@ != entries[entries.len() - 1].0@);
        assert(entries.drop_last()[i] == entries[i]);
    }
}

impl Json {
    /// The document that a `serde_json` value holds.
    pub fn from_value(value: &serde_json::Value) -> (json: Json)
        ensures
            json@ == value_tree(*value),
        decreases value_tree(*value),
    {
        match top_layer(value) {
            Layer::Null => Json::Null,
            Layer::Bool(b) => Json::Bool(b),
            Layer::Number(n) => Json::Number(n),
            Layer::Text(s) => Json::Text(s.clone()),
            Layer::Array(values) => {
                let ghost whole = Seq::new(values@.len(), |k: int| value_tree(values@[k]));
                let mut items: Vec<Json> = Vec::new();
                let mut i: usize = 0;
                while i < values.len()
                    invariant
                        i <= values@.len(),
                        whole == Seq::new(values@.len(), |k: int| value_tree(values@[k])),
                        value_tree(*value) == Tree::Array(whole),
                        trees_of(items@) == whole.take(i as int),
                    decreases values@.len() - i,
                {
                    assert(whole[i as int] == value_tree(values@[i as int]));
                    assert(decreases_to!(value_tree(*value) => value_tree(*value)->Array_0));
                    assert(decreases_to!(whole => whole[i as int]));
                    let item = Json::from_value(&values[i]);
                    proof {
                        lemma_trees_push(items@, item);
                    }
                    items.push(item);
                    i = i + 1;
                    assert(whole.take(i as int) =~= whole.take(i - 1).push(whole[i - 1]));
                }
                assert(whole.take(i as int) =~= whole);
                Json::Array(items)
            },
            Layer::Object(fields) => {
                let mut entries: Vec<(String, Json)> = Vec::new();
                let mut i: usize = 0;
                while i < fields.len()
                    invariant
                        i <= fields@.len(),
                        keys_differ(fields@),
                        value_tree(*value) == Tree::Object(layer_fields(fields@)),
                        fields_of(entries@) == layer_fields(fields@.take(i as int)),
                    decreases fields@.len() - i,
                {
                    proof {
                        lemma_layer_field(fields@, i as int);
                        lemma_layer_fields_finite(fields@);
                        assert(decreases_to!(value_tree(*value) => value_tree(*value)->Object_0));
                        let whole = layer_fields(fields@);
                        let key = fields@[i as int].0@;
                        assert(decreases_to!(whole => whole[key]));
                    }
                    let item = Json::from_value(fields[i].1);
                    let key = fields[i].0.clone();
                    proof {
                        lemma_fields_push(entries@, key, item);
                    }
                    entries.push((key, item));
                    i = i + 1;
                    assert(fields@.take(i as int).drop_last() =~= fields@.take(i - 1));
                }
                assert(fields@.take(i as int) =~= fields@);
                Json::Object(entries)
            },
        }
    }

    /// The document that a byte string spells, or why it spells none.
    pub fn parse_slice(bytes: &[u8]) -> (parsed: Result<Json, String>)
        ensures
            match parsed {
                Ok(json) => json_from_slice(bytes@) == Ok::<Tree, Seq<char>>(json@),
                Err(text) => json_from_slice(bytes@) == Err::<Tree, Seq<char>>(text@),
            },
    {
        match value_from_slice(bytes) {
            Ok(value) => Ok(Json::from_value(&value)),
            Err(text) => Err(text),
        }
    }

    /// The document that a text spells, where it spells one.
    pub fn parse_str(text: &str) -> (parsed: Option<Json>)
        ensures
            match parsed {
                Some(json) => json_from_str(text@) == Some(json@),
                None => json_from_str(text@) is None,
            },
    {
        match value_from_str(text) {
            Some(value) => Some(Json::from_value(&value)),
            None => None,
        }
    }
}

} // verus!
