//! JSON trees.
//!
//! `Json` is the library's own tree; its model `JsonView` is a mathematical value
//! in which an object is a map. Conversion from and to `serde_json::Value`, and
//! parsing and printing of JSON text, go through `serde_json`.

use vstd::prelude::*;

use crate::seqs;
use crate::text;

verus! {

// ---------------------------------------------------------------------------
// The model
// ---------------------------------------------------------------------------

/// A JSON number: an integer, or the bits of a double-precision number.
pub enum NumberView {
    Int(int),
    Real(int),
}

/// The mathematical value of a JSON tree.
pub enum JsonView {
    Null,
    Bool(bool),
    Number(NumberView),
    Str(Seq<char>),
    Array(Seq<JsonView>),
    Object(Map<Seq<char>, JsonView>),
}

impl NumberView {
    /// The number, if it is an integer that fits in 64 bits without a sign.
    pub open spec fn as_u64(self) -> Option<u64> {
        match self {
            NumberView::Int(n) => if 0 <= n <= u64::MAX {
                Some(n as u64)
            } else {
                None
            },
            NumberView::Real(_) => None,
        }
    }

    /// The number, if it is an integer that fits in 64 bits with a sign.
    pub open spec fn as_i64(self) -> Option<i64> {
        match self {
            NumberView::Int(n) => if i64::MIN <= n <= i64::MAX {
                Some(n as i64)
            } else {
                None
            },
            NumberView::Real(_) => None,
        }
    }
}

impl JsonView {
    /// The member `key` of an object.
    pub open spec fn get(self, key: Seq<char>) -> Option<JsonView> {
        match self {
            JsonView::Object(m) => if m.dom().contains(key) {
                Some(m[key])
            } else {
                None
            },
            _ => None,
        }
    }

    /// The member `key` of an object, or null.
    pub open spec fn at(self, key: Seq<char>) -> JsonView {
        match self.get(key) {
            Some(v) => v,
            None => JsonView::Null,
        }
    }

    /// The element `i` of an array, or null.
    pub open spec fn item(self, i: int) -> JsonView {
        match self {
            JsonView::Array(items) => if 0 <= i < items.len() {
                items[i]
            } else {
                JsonView::Null
            },
            _ => JsonView::Null,
        }
    }

    pub open spec fn as_str(self) -> Option<Seq<char>> {
        match self {
            JsonView::Str(s) => Some(s),
            _ => None,
        }
    }

    pub open spec fn as_bool(self) -> Option<bool> {
        match self {
            JsonView::Bool(b) => Some(b),
            _ => None,
        }
    }

    pub open spec fn as_u64(self) -> Option<u64> {
        match self {
            JsonView::Number(n) => n.as_u64(),
            _ => None,
        }
    }

    pub open spec fn as_i64(self) -> Option<i64> {
        match self {
            JsonView::Number(n) => n.as_i64(),
            _ => None,
        }
    }

    pub open spec fn as_array(self) -> Option<Seq<JsonView>> {
        match self {
            JsonView::Array(items) => Some(items),
            _ => None,
        }
    }

    pub open spec fn as_object(self) -> Option<Map<Seq<char>, JsonView>> {
        match self {
            JsonView::Object(m) => Some(m),
            _ => None,
        }
    }
}

/// The JSON number for an integer.
pub open spec fn int_view(n: int) -> JsonView {
    JsonView::Number(NumberView::Int(n))
}

/// An object without members.
pub open spec fn no_members() -> Map<Seq<char>, JsonView> {
    Map::empty()
}

/// An object with the member `key`, if there is a value for it.
pub open spec fn with_some(
    members: Map<Seq<char>, JsonView>,
    key: Seq<char>,
    value: Option<JsonView>,
) -> Map<Seq<char>, JsonView> {
    match value {
        Some(v) => members.insert(key, v),
        None => members,
    }
}

/// The string for a text.
pub open spec fn text_view() -> spec_fn(Seq<char>) -> JsonView {
    |s: Seq<char>| JsonView::Str(s)
}

/// An array of strings.
pub open spec fn texts_view(texts: Seq<Seq<char>>) -> JsonView {
    JsonView::Array(texts.map_values(text_view()))
}

/// The member name that `serde_json` keeps for its own use: an object with it is not read
/// as an object.
pub open spec fn reserved_name() -> Seq<char> {
    "$serde_json::private::RawValue"@
}

/// Whether a tree holds no double-precision number and no reserved member name, and
/// nests arrays and objects at most `depth` deep.
pub open spec fn plain_to_depth(v: JsonView, depth: nat) -> bool
    decreases depth,
{
    match v {
        JsonView::Number(NumberView::Real(_)) => false,
        JsonView::Array(items) => depth > 0 && forall|i: int|
            0 <= i < items.len() ==> plain_to_depth(#[trigger] items[i], (depth - 1) as nat),
        JsonView::Object(m) => depth > 0 && forall|k: Seq<char>|
            m.dom().contains(k) ==> k != reserved_name() && plain_to_depth(
                #[trigger] m[k],
                (depth - 1) as nat,
            ),
        _ => true,
    }
}

// ---------------------------------------------------------------------------
// Outside types and functions
// ---------------------------------------------------------------------------

/// `serde_json::Value`, a JSON tree.
#[verifier::external_type_specification]
#[verifier::external_body]
pub struct ExValue(serde_json::Value);

/// `serde_json::Number`, a JSON number.
#[verifier::external_type_specification]
#[verifier::external_body]
pub struct ExNumber(serde_json::Number);

/// What a `serde_json::Number` holds.
pub uninterp spec fn number_view(number: serde_json::Number) -> NumberView;

/// What a `serde_json::Value` holds.
pub uninterp spec fn value_tree(value: serde_json::Value) -> JsonView;

/// The tree that `serde_json::from_str` reads from a text, if the text is JSON.
pub uninterp spec fn parsed_json(s: Seq<char>) -> Option<JsonView>;

/// The text of the error that `serde_json::from_str` reports for a text that is not
/// JSON, as the `Display` impl of `serde_json::Error` gives it.
pub uninterp spec fn parse_fault(s: Seq<char>) -> Seq<char>;

/// The compact text that the `Display` impl of `serde_json::Value` gives for a tree.
pub uninterp spec fn json_text(tree: JsonView) -> Seq<char>;

/// `serde_json::Number::as_u64`: the integer, if it fits in a `u64`.
pub assume_specification[ serde_json::Number::as_u64 ](number: &serde_json::Number) -> (r: Option<
    u64,
>)
    ensures
        r == number_view(*number).as_u64(),
;

/// `serde_json::Number::as_i64`: the integer, if it fits in an `i64`.
pub assume_specification[ serde_json::Number::as_i64 ](number: &serde_json::Number) -> (r: Option<
    i64,
>)
    ensures
        r == number_view(*number).as_i64(),
;

/// `Clone` of `serde_json::Number`: the same number.
pub assume_specification[ <serde_json::Number as Clone>::clone ](
    number: &serde_json::Number,
) -> (r: serde_json::Number)
    ensures
        r == *number,
;

/// `From<u64>` of `serde_json::Number`: that integer.
#[verifier::external_body]
fn number_of_u64(n: u64) -> (r: serde_json::Number)
    ensures
        number_view(r) == NumberView::Int(n as int),
{
    serde_json::Number::from(n)
}

/// `From<i64>` of `serde_json::Number`: that integer.
#[verifier::external_body]
fn number_of_i64(n: i64) -> (r: serde_json::Number)
    ensures
        number_view(r) == NumberView::Int(n as int),
{
    serde_json::Number::from(n)
}

/// One level of a `serde_json::Value`, with the values below it.
pub enum Node {
    Null,
    Bool(bool),
    Number(serde_json::Number),
    Str(String),
    Array(Vec<serde_json::Value>),
    Object(Vec<(String, serde_json::Value)>),
}

/// The trees of a sequence of values.
pub open spec fn value_trees(values: Seq<serde_json::Value>) -> Seq<JsonView> {
    Seq::new(values.len(), |i: int| value_tree(values[i]))
}

/// The map of a sequence of members; a later member overrides an earlier one.
pub open spec fn value_members(members: Seq<(String, serde_json::Value)>) -> Map<
    Seq<char>,
    JsonView,
>
    decreases members.len(),
{
    if members.len() == 0 {
        Map::empty()
    } else {
        value_members(members.drop_last()).insert(
            members.last().0@,
            value_tree(members.last().1),
        )
    }
}

/// Whether no two members have the same name.
pub open spec fn distinct_names<T>(members: Seq<(String, T)>) -> bool {
    forall|i: int, j: int|
        0 <= i < j < members.len() ==> (#[trigger] members[i]).0@ != (#[trigger] members[j]).0@
}

/// The tree of a node.
pub open spec fn node_tree(node: Node) -> JsonView {
    match node {
        Node::Null => JsonView::Null,
        Node::Bool(b) => JsonView::Bool(b),
        Node::Number(n) => JsonView::Number(number_view(n)),
        Node::Str(s) => JsonView::Str(s@),
        Node::Array(items) => JsonView::Array(value_trees(items@)),
        Node::Object(members) => JsonView::Object(value_members(members@)),
    }
}

/// The variants of `serde_json::Value`, told apart. An object is handed out as its
/// members, each name once (`serde_json::Map::into_iter`).
#[verifier::external_body]
fn peel(value: serde_json::Value) -> (node: Node)
    ensures
        node_tree(node) == value_tree(value),
        node matches Node::Object(members) ==> distinct_names(members@),
{
    match value {
        serde_json::Value::Null => Node::Null,
        serde_json::Value::Bool(b) => Node::Bool(b),
        serde_json::Value::Number(n) => Node::Number(n),
        serde_json::Value::String(s) => Node::Str(s),
        serde_json::Value::Array(items) => Node::Array(items),
        serde_json::Value::Object(map) => Node::Object(map.into_iter().collect()),
    }
}

/// The variants of `serde_json::Value`, put together. The members of an object are
/// collected into a `serde_json::Map`.
#[verifier::external_body]
fn build(node: Node) -> (value: serde_json::Value)
    requires
        node matches Node::Object(members) ==> distinct_names(members@),
    ensures
        value_tree(value) == node_tree(node),
{
    match node {
        Node::Null => serde_json::Value::Null,
        Node::Bool(b) => serde_json::Value::Bool(b),
        Node::Number(n) => serde_json::Value::Number(n),
        Node::Str(s) => serde_json::Value::String(s),
        Node::Array(items) => serde_json::Value::Array(items),
        Node::Object(members) => serde_json::Value::Object(members.into_iter().collect()),
    }
}

/// `serde_json::from_str` into a `serde_json::Value`: the tree of the text, or the text
/// of the error that it reports. Both are functions of the text alone; they are named,
/// not described.
#[verifier::external_body]
fn parse_value(s: &str) -> (r: Result<serde_json::Value, String>)
    ensures
        match r {
            Ok(value) => parsed_json(s@) == Some(value_tree(value)),
            Err(fault) => parsed_json(s@) is None && fault@ == parse_fault(s@),
        },
{
    match serde_json::from_str::<serde_json::Value>(s) {
        Ok(value) => Ok(value),
        Err(e) => Err(e.to_string()),
    }
}

/// The `Display` impl of `serde_json::Value`: compact JSON text, with the members of
/// an object in the order of their names. `serde_json::from_str` reads the text back
/// to the same tree where the tree holds no double-precision number, has no member under
/// the name that the parser takes for a raw value, and stays within the nesting depth
/// that the parser accepts.
#[verifier::external_body]
fn value_text(value: &serde_json::Value) -> (r: String)
    ensures
        r@ == json_text(value_tree(*value)),
        plain_to_depth(value_tree(*value), 127) ==> parsed_json(r@) == Some(value_tree(*value)),
{
    value.to_string()
}

// ---------------------------------------------------------------------------
// The tree
// ---------------------------------------------------------------------------

/// A JSON tree.
#[derive(Debug)]
pub enum Json {
    Null,
    Bool(bool),
    Number(serde_json::Number),
    Str(String),
    Array(Vec<Json>),
    Object(JsonMap),
}

/// The members of a JSON object; a later member overrides an earlier one of the
/// same name.
#[derive(Debug)]
pub struct JsonMap {
    pub members: Vec<(String, Json)>,
}

/// The mathematical value of a tree.
pub open spec fn json_view(j: Json) -> JsonView
    decreases j,
{
    match j {
        Json::Null => JsonView::Null,
        Json::Bool(b) => JsonView::Bool(b),
        Json::Number(n) => JsonView::Number(number_view(n)),
        Json::Str(s) => JsonView::Str(s@),
        Json::Array(items) => JsonView::Array(
            Seq::new(
                items@.len(),
                |i: int|
                    if 0 <= i < items@.len() {
                        json_view(items@[i])
                    } else {
                        JsonView::Null
                    },
            ),
        ),
        Json::Object(m) => JsonView::Object(members_view(m.members@)),
    }
}

/// The map of a sequence of members.
pub open spec fn members_view(s: Seq<(String, Json)>) -> Map<Seq<char>, JsonView>
    decreases s,
{
    if s.len() == 0 {
        Map::empty()
    } else {
        members_view(s.drop_last()).insert(s.last().0@, json_view(s.last().1))
    }
}

impl DeepView for Json {
    type V = JsonView;

    open spec fn deep_view(&self) -> JsonView {
        json_view(*self)
    }
}

impl DeepView for JsonMap {
    type V = Map<Seq<char>, JsonView>;

    open spec fn deep_view(&self) -> Map<Seq<char>, JsonView> {
        members_view(self.members@)
    }
}

/// The model of an array is the sequence of the models of its elements.
pub broadcast proof fn array_view(items: Vec<Json>)
    ensures
        #[trigger] json_view(Json::Array(items)) == JsonView::Array(items.deep_view()),
{
    assert(json_view(Json::Array(items))->Array_0 =~= items.deep_view());
}

/// Members put behind others override them.
pub proof fn members_view_concat(a: Seq<(String, Json)>, b: Seq<(String, Json)>)
    ensures
        members_view(a + b) == members_view(a).union_prefer_right(members_view(b)),
    decreases b.len(),
{
    if b.len() == 0 {
        assert(a + b =~= a);
        assert(members_view(a).union_prefer_right(members_view(b)) =~= members_view(a));
    } else {
        members_view_concat(a, b.drop_last());
        assert((a + b).drop_last() =~= a + b.drop_last());
        assert(members_view(a + b) =~= members_view(a).union_prefer_right(members_view(b)));
    }
}

/// A further member is an insertion into the map.
pub proof fn members_view_push(s: Seq<(String, Json)>, member: (String, Json))
    ensures
        members_view(s.push(member)) == members_view(s).insert(member.0@, json_view(member.1)),
{
    assert(s.push(member).drop_last() =~= s);
}

// ---------------------------------------------------------------------------
// Copies
// ---------------------------------------------------------------------------

fn copy_json(j: &Json) -> (r: Json)
    ensures
        r.deep_view() == j.deep_view(),
    decreases j,
{
    match j {
        Json::Null => Json::Null,
        Json::Bool(b) => Json::Bool(*b),
        Json::Number(n) => Json::Number(n.clone()),
        Json::Str(s) => Json::Str(s.clone()),
        Json::Array(items) => {
            let r = Json::Array(copy_items(items));
            proof {
                array_view(*items);
                array_view(r->Array_0);
            }
            r
        },
        Json::Object(m) => Json::Object(JsonMap { members: copy_members(&m.members) }),
    }
}

#[verifier::loop_isolation(false)]
fn copy_items(items: &Vec<Json>) -> (r: Vec<Json>)
    ensures
        r.deep_view() == items.deep_view(),
    decreases items,
{
    let mut r: Vec<Json> = Vec::new();
    let mut i: usize = 0;
    while i < items.len()
        invariant
            i <= items@.len(),
            r@.len() == i,
            forall|k: int| 0 <= k < i ==> (#[trigger] r@[k]).deep_view() == items@[k].deep_view(),
        decreases items.len() - i,
    {
        assert(decreases_to!(items => items@[i as int]));
        r.push(copy_json(&items[i]));
        i += 1;
    }
    r
}

#[verifier::loop_isolation(false)]
fn copy_members(members: &Vec<(String, Json)>) -> (r: Vec<(String, Json)>)
    ensures
        members_view(r@) == members_view(members@),
    decreases members,
{
    let mut r: Vec<(String, Json)> = Vec::new();
    let mut i: usize = 0;
    proof {
        seqs::take_ends(members@);
    }
    while i < members.len()
        invariant
            i <= members@.len(),
            members_view(r@) == members_view(members@.take(i as int)),
        decreases members.len() - i,
    {
        assert(decreases_to!(members => members@[i as int]));
        assert(decreases_to!(members@[i as int] => members@[i as int].1));
        proof {
            seqs::take_step(members@, i as int);
        }
        let value = copy_json(&members[i].1);
        let member = (members[i].0.clone(), value);
        proof {
            members_view_push(r@, member);
        }
        r.push(member);
        i += 1;
    }
    r
}

impl Clone for Json {
    fn clone(&self) -> (r: Self)
        ensures
            r.deep_view() == self.deep_view(),
    {
        copy_json(self)
    }
}

impl Clone for JsonMap {
    fn clone(&self) -> (r: Self)
        ensures
            r.deep_view() == self.deep_view(),
    {
        JsonMap { members: copy_members(&self.members) }
    }
}

// ---------------------------------------------------------------------------
// Reading
// ---------------------------------------------------------------------------

impl Json {
    /// The text of a string.
    pub fn as_str(&self) -> (r: Option<&str>)
        ensures
            match r {
                Some(s) => self.deep_view().as_str() == Some(s@),
                None => self.deep_view().as_str() is None,
            },
    {
        match self {
            Json::Str(s) => Some(s.as_str()),
            _ => None,
        }
    }

    /// The truth value of a boolean.
    pub fn as_bool(&self) -> (r: Option<bool>)
        ensures
            r == self.deep_view().as_bool(),
    {
        match self {
            Json::Bool(b) => Some(*b),
            _ => None,
        }
    }

    /// The number, if it is an integer that fits in a `u64`.
    pub fn as_u64(&self) -> (r: Option<u64>)
        ensures
            r == self.deep_view().as_u64(),
    {
        match self {
            Json::Number(n) => n.as_u64(),
            _ => None,
        }
    }

    /// The number, if it is an integer that fits in an `i64`.
    pub fn as_i64(&self) -> (r: Option<i64>)
        ensures
            r == self.deep_view().as_i64(),
    {
        match self {
            Json::Number(n) => n.as_i64(),
            _ => None,
        }
    }

    /// The elements of an array.
    pub fn as_array(&self) -> (r: Option<&Vec<Json>>)
        ensures
            r.deep_view() == self.deep_view().as_array(),
    {
        broadcast use array_view;

        match self {
            Json::Array(items) => Some(items),
            _ => None,
        }
    }

    /// The members of an object.
    pub fn as_object(&self) -> (r: Option<&JsonMap>)
        ensures
            r.deep_view() == self.deep_view().as_object(),
    {
        match self {
            Json::Object(m) => Some(m),
            _ => None,
        }
    }

    pub fn is_null(&self) -> (r: bool)
        ensures
            r == (self.deep_view() is Null),
    {
        matches!(self, Json::Null)
    }

    /// The member `key` of an object.
    pub fn get(&self, key: &str) -> (r: Option<&Json>)
        ensures
            r.deep_view() == self.deep_view().get(key@),
    {
        match self {
            Json::Object(m) => m.get(key),
            _ => None,
        }
    }

    /// The member `key` of an object, or null.
    pub fn at(&self, key: &str) -> (r: &Json)
        ensures
            r.deep_view() == self.deep_view().at(key@),
    {
        match self.get(key) {
            Some(j) => j,
            None => &Json::Null,
        }
    }

    /// The element `i` of an array, or null.
    pub fn item(&self, i: usize) -> (r: &Json)
        ensures
            r.deep_view() == self.deep_view().item(i as int),
    {
        match self {
            Json::Array(items) => {
                if i < items.len() {
                    &items[i]
                } else {
                    &Json::Null
                }
            },
            _ => &Json::Null,
        }
    }

    /// A string.
    pub fn text(s: &str) -> (r: Json)
        ensures
            r.deep_view() == JsonView::Str(s@),
    {
        Json::Str(s.to_owned())
    }

    /// A string.
    pub fn of_string(s: &String) -> (r: Json)
        ensures
            r.deep_view() == JsonView::Str(s@),
    {
        Json::Str(s.clone())
    }

    /// A number.
    pub fn of_u64(n: u64) -> (r: Json)
        ensures
            r.deep_view() == int_view(n as int),
    {
        Json::Number(number_of_u64(n))
    }

    /// A number.
    pub fn of_i64(n: i64) -> (r: Json)
        ensures
            r.deep_view() == int_view(n as int),
    {
        Json::Number(number_of_i64(n))
    }

    /// An array of strings.
    pub fn texts(texts: &Vec<String>) -> (r: Json)
        ensures
            r.deep_view() == texts_view(texts.deep_view()),
    {
        Json::array(seqs::map_all(texts, Json::of_string, Ghost(text_view())))
    }

    /// An array.
    pub fn array(items: Vec<Json>) -> (r: Json)
        ensures
            r.deep_view() == JsonView::Array(items.deep_view()),
    {
        broadcast use array_view;

        Json::Array(items)
    }

    /// An object.
    pub fn object(map: JsonMap) -> (r: Json)
        ensures
            r.deep_view() == JsonView::Object(map.deep_view()),
    {
        Json::Object(map)
    }
}

impl JsonMap {
    /// No members.
    pub fn new() -> (r: JsonMap)
        ensures
            r.deep_view() == Map::<Seq<char>, JsonView>::empty(),
    {
        JsonMap { members: Vec::new() }
    }

    /// The value of the member `key`.
    pub fn get(&self, key: &str) -> (r: Option<&Json>)
        ensures
            match r {
                Some(j) => self.deep_view().dom().contains(key@) && self.deep_view()[key@]
                    == j.deep_view(),
                None => !self.deep_view().dom().contains(key@),
            },
    {
        let mut i: usize = self.members.len();
        proof {
            seqs::take_ends(self.members@);
        }
        while i > 0
            invariant
                i <= self.members@.len(),
                self.deep_view().dom().contains(key@) == members_view(
                    self.members@.take(i as int),
                ).dom().contains(key@),
                self.deep_view().dom().contains(key@) ==> self.deep_view()[key@] == members_view(
                    self.members@.take(i as int),
                )[key@],
            decreases i,
        {
            proof {
                seqs::take_step(self.members@, i - 1);
            }
            if text::same(self.members[i - 1].0.as_str(), key) {
                return Some(&self.members[i - 1].1);
            }
            i -= 1;
        }
        proof {
            seqs::take_ends(self.members@);
        }
        None
    }

    pub fn is_empty(&self) -> (r: bool)
        ensures
            r == (self.deep_view() == Map::<Seq<char>, JsonView>::empty()),
    {
        if self.members.len() > 0 {
            assert(self.deep_view().dom().contains(self.members@.last().0@));
            assert(!Map::<Seq<char>, JsonView>::empty().dom().contains(self.members@.last().0@));
            false
        } else {
            true
        }
    }

    /// Sets the member `key`.
    pub fn insert(&mut self, key: &str, value: Json)
        ensures
            final(self).deep_view() == old(self).deep_view().insert(key@, value.deep_view()),
    {
        let member = (key.to_owned(), value);
        proof {
            members_view_push(self.members@, member);
        }
        self.members.push(member);
    }

    /// Sets the member `key`, if there is a value for it.
    pub fn insert_some(&mut self, key: &str, value: Option<Json>)
        ensures
            final(self).deep_view() == with_some(
                old(self).deep_view(),
                key@,
                value.deep_view(),
            ),
    {
        if let Some(v) = value {
            self.insert(key, v);
        }
    }

    /// Sets the member `key` to a string.
    pub fn insert_text(&mut self, key: &str, s: &str)
        ensures
            final(self).deep_view() == old(self).deep_view().insert(key@, JsonView::Str(s@)),
    {
        self.insert(key, Json::text(s));
    }

    /// The members of both maps; where both have a name, the member of `self`.
    pub fn with_defaults(&self, defaults: &JsonMap) -> (r: JsonMap)
        ensures
            r.deep_view() == defaults.deep_view().union_prefer_right(self.deep_view()),
    {
        let mut r = defaults.clone();
        let mut own = self.clone();
        proof {
            members_view_concat(r.members@, own.members@);
        }
        r.members.append(&mut own.members);
        r
    }

    /// The members but for `key`.
    pub fn minus(&self, key: &str) -> (r: JsonMap)
        ensures
            r.deep_view() == self.deep_view().remove(key@),
    {
        let keys: Vec<&str> = vec![key];
        let r = self.without(&keys);
        assert(names_view(keys@)[0] == key@);
        assert(forall|k: Seq<char>| names_view(keys@).contains(k) <==> k == key@);
        assert(r.deep_view() =~= self.deep_view().remove(key@));
        r
    }

    /// The members whose name is not in `keys`.
    pub fn without(&self, keys: &Vec<&str>) -> (r: JsonMap)
        ensures
            r.deep_view() == self.deep_view().remove_keys(names_view(keys@).to_set()),
    {
        let mut r = JsonMap::new();
        let mut i: usize = 0;
        let ghost out = names_view(keys@).to_set();
        proof {
            seqs::take_ends(self.members@);
        }
        assert(r.deep_view() =~= members_view(self.members@.take(0)).remove_keys(out));
        while i < self.members.len()
            invariant
                i <= self.members@.len(),
                out == names_view(keys@).to_set(),
                r.deep_view() == members_view(self.members@.take(i as int)).remove_keys(out),
            decreases self.members.len() - i,
        {
            proof {
                seqs::take_step(self.members@, i as int);
            }
            let ghost before = r.deep_view();
            let listed = is_name(self.members[i].0.as_str(), keys);
            if !listed {
                r.insert(self.members[i].0.as_str(), self.members[i].1.clone());
            }
            assert(r.deep_view() =~= members_view(self.members@.take(i + 1)).remove_keys(out));
            i += 1;
        }
        proof {
            seqs::take_ends(self.members@);
        }
        r
    }
}

/// The characters of each of some names.
pub open spec fn names_view(names: Seq<&str>) -> Seq<Seq<char>> {
    Seq::new(names.len(), |i: int| names[i]@)
}

/// Whether `name` is one of `names`.
pub fn is_name(name: &str, names: &Vec<&str>) -> (r: bool)
    ensures
        r == names_view(names@).to_set().contains(name@),
{
    let mut i: usize = 0;
    while i < names.len()
        invariant
            i <= names@.len(),
            forall|k: int| 0 <= k < i ==> names_view(names@)[k] != name@,
        decreases names.len() - i,
    {
        if text::same(names[i], name) {
            assert(names_view(names@)[i as int] == name@);
            assert(names_view(names@).contains(name@));
            return true;
        }
        i += 1;
    }
    assert(!names_view(names@).contains(name@));
    false
}

// ---------------------------------------------------------------------------
// Conversion
// ---------------------------------------------------------------------------

/// Each member of a list with distinct names is in the map of the list.
proof fn value_members_at(members: Seq<(String, serde_json::Value)>, i: int)
    requires
        distinct_names(members),
        0 <= i < members.len(),
    ensures
        value_members(members).dom().contains(members[i].0@),
        value_members(members)[members[i].0@] == value_tree(members[i].1),
    decreases members.len(),
{
    if i < members.len() - 1 {
        value_members_at(members.drop_last(), i);
        assert(members[i].0@ != members[members.len() - 1].0@);
    }
}

proof fn value_members_dom(members: Seq<(String, serde_json::Value)>, name: Seq<char>)
    ensures
        value_members(members).dom().contains(name) <==> exists|i: int|
            0 <= i < members.len() && (#[trigger] members[i]).0@ == name,
        value_members(members).dom().finite(),
    decreases members.len(),
{
    if members.len() > 0 {
        let rest = members.drop_last();
        value_members_dom(rest, name);
        if value_members(members).dom().contains(name) {
            if members.last().0@ == name {
                assert(members[members.len() - 1].0@ == name);
            } else {
                let i = choose|i: int| 0 <= i < rest.len() && (#[trigger] rest[i]).0@ == name;
                assert(members[i].0@ == name);
            }
        }
        if exists|i: int| 0 <= i < members.len() && (#[trigger] members[i]).0@ == name {
            let i = choose|i: int| 0 <= i < members.len() && (#[trigger] members[i]).0@ == name;
            if i < rest.len() {
                assert(rest[i].0@ == name);
            }
        }
    }
}

/// The tree of a `serde_json::Value`.
#[verifier::loop_isolation(false)]
pub fn from_value(value: serde_json::Value) -> (r: Json)
    ensures
        r.deep_view() == value_tree(value),
    decreases value_tree(value),
{
    broadcast use array_view;

    let ghost tree = value_tree(value);
    match peel(value) {
        Node::Null => Json::Null,
        Node::Bool(b) => Json::Bool(b),
        Node::Number(n) => Json::Number(n),
        Node::Str(s) => Json::Str(s),
        Node::Array(values) => {
            let ghost trees = value_trees(values@);
            assert(tree == JsonView::Array(trees));
            let mut items: Vec<Json> = Vec::new();
            for v in it: values
                invariant
                    it.seq() == values@,
                    items@.len() == it.index(),
                    forall|k: int|
                        0 <= k < items@.len() ==> (#[trigger] items@[k]).deep_view() == trees[k],
            {
                assert(value_tree(v) == trees[it.index() as int]);
                assert(decreases_to!(tree => tree->Array_0));
                assert(decreases_to!(tree->Array_0 => trees[it.index() as int]));
                items.push(from_value(v));
            }
            assert(items.deep_view() =~= trees);
            Json::Array(items)
        },
        Node::Object(values) => {
            let ghost map = value_members(values@);
            assert(tree == JsonView::Object(map));
            let mut members: Vec<(String, Json)> = Vec::new();
            proof {
                seqs::take_ends(values@);
            }
            for v in it: values
                invariant
                    it.seq() == values@,
                    distinct_names(values@),
                    members_view(members@) == value_members(values@.take(it.index() as int)),
            {
                proof {
                    let i = it.index() as int;
                    seqs::take_step(values@, i);
                    value_members_at(values@, i);
                    value_members_dom(values@, v.0@);
                    assert(decreases_to!(tree => tree->Object_0));
                    assert(decreases_to!(tree->Object_0 => map[v.0@]));
                }
                let member = (v.0, from_value(v.1));
                proof {
                    members_view_push(members@, member);
                }
                members.push(member);
            }
            Json::Object(JsonMap { members })
        },
    }
}

/// The tree as a `serde_json::Value`.
pub fn to_value(j: &Json) -> (r: serde_json::Value)
    ensures
        value_tree(r) == j.deep_view(),
    decreases j,
{
    broadcast use array_view;

    match j {
        Json::Null => build(Node::Null),
        Json::Bool(b) => build(Node::Bool(*b)),
        Json::Number(n) => build(Node::Number(n.clone())),
        Json::Str(s) => build(Node::Str(s.clone())),
        Json::Array(items) => build(Node::Array(items_to_values(items))),
        Json::Object(m) => build(Node::Object(members_to_values(&m.members))),
    }
}

#[verifier::loop_isolation(false)]
fn items_to_values(items: &Vec<Json>) -> (r: Vec<serde_json::Value>)
    ensures
        value_trees(r@) == items.deep_view(),
    decreases items,
{
    let mut r: Vec<serde_json::Value> = Vec::new();
    let mut i: usize = 0;
    while i < items.len()
        invariant
            i <= items@.len(),
            r@.len() == i,
            forall|k: int| 0 <= k < i ==> value_tree(#[trigger] r@[k]) == items@[k].deep_view(),
        decreases items.len() - i,
    {
        assert(decreases_to!(items => items@[i as int]));
        r.push(to_value(&items[i]));
        i += 1;
    }
    assert(value_trees(r@) =~= items.deep_view());
    r
}

/// Whether one of `members` is called `name`.
fn has_member(members: &Vec<(String, serde_json::Value)>, name: &str) -> (r: bool)
    ensures
        r == value_members(members@).dom().contains(name@),
{
    let mut i: usize = 0;
    while i < members.len()
        invariant
            i <= members@.len(),
            forall|k: int| 0 <= k < i ==> (#[trigger] members@[k]).0@ != name@,
        decreases members.len() - i,
    {
        if text::same(members[i].0.as_str(), name) {
            proof {
                value_members_dom(members@, name@);
            }
            return true;
        }
        i += 1;
    }
    proof {
        value_members_dom(members@, name@);
    }
    false
}

#[verifier::loop_isolation(false)]
fn members_to_values(members: &Vec<(String, Json)>) -> (r: Vec<(String, serde_json::Value)>)
    ensures
        value_members(r@) == members_view(members@),
        distinct_names(r@),
    decreases members,
{
    let mut r: Vec<(String, serde_json::Value)> = Vec::new();
    let mut i: usize = members.len();
    proof {
        seqs::take_ends(members@);
    }
    assert(members_view(members@).union_prefer_right(value_members(r@)) =~= members_view(
        members@,
    ));
    while i > 0
        invariant
            i <= members@.len(),
            distinct_names(r@),
            members_view(members@.take(i as int)).union_prefer_right(value_members(r@))
                == members_view(members@),
        decreases i,
    {
        let ghost before = r@;
        proof {
            seqs::take_step(members@, i - 1);
            value_members_dom(r@, members@[i - 1].0@);
        }
        assert(decreases_to!(members => members@[i - 1]));
        assert(decreases_to!(members@[i - 1] => members@[i - 1].1));
        if !has_member(&r, members[i - 1].0.as_str()) {
            let value = to_value(&members[i - 1].1);
            r.push((members[i - 1].0.clone(), value));
            assert(r@.drop_last() =~= before);
        }
        assert(members_view(members@.take(i - 1)).union_prefer_right(value_members(r@))
            =~= members_view(members@.take(i as int)).union_prefer_right(value_members(before)));
        i -= 1;
    }
    assert(members_view(members@.take(0)).union_prefer_right(value_members(r@)) =~= value_members(
        r@,
    ));
    r
}

/// The tree that a text holds, if the text is JSON.
pub fn parse(s: &str) -> (r: Option<Json>)
    ensures
        r.deep_view() == parsed_json(s@),
{
    match parse_value(s) {
        Ok(value) => Some(from_value(value)),
        Err(_) => None,
    }
}

/// The tree that a text holds, or what is wrong with the text.
pub fn parse_or_fault(s: &str) -> (r: Result<Json, String>)
    ensures
        match r {
            Ok(j) => parsed_json(s@) == Some(j.deep_view()),
            Err(fault) => parsed_json(s@) is None && fault@ == parse_fault(s@),
        },
{
    match parse_value(s) {
        Ok(value) => Ok(from_value(value)),
        Err(fault) => Err(fault),
    }
}

/// The compact JSON text of a tree.
pub fn to_text(j: &Json) -> (r: String)
    ensures
        r@ == json_text(j.deep_view()),
        plain_to_depth(j.deep_view(), 127) ==> parsed_json(r@) == Some(j.deep_view()),
{
    value_text(&to_value(j))
}

} // verus!
