//! JSON documents: the library's own value type, its mathematical model, and the two doors to
//! `serde_json` through which text becomes a value and a value becomes text.

use vstd::prelude::*;

use crate::text::same;

verus! {

/// `serde_json::Value`, opaque: only [`open_value`] and [`make_value`] look inside.
#[verifier::external_type_specification]
#[verifier::external_body]
pub struct ExValue(serde_json::Value);

/// `serde_json::Number`, opaque: carried for the numbers that are no 64-bit integer.
#[verifier::external_type_specification]
#[verifier::external_body]
pub struct ExNumber(serde_json::Number);

/// A JSON number: an unsigned integer, a signed integer, or a number as `serde_json` keeps it.
#[derive(Debug)]
pub enum Num {
    Pos(u64),
    Neg(i64),
    Real(serde_json::Number),
}

/// A JSON document. An object lists its members; where a key occurs twice the later one counts.
#[derive(Debug)]
pub enum Json {
    Null,
    Bool(bool),
    Num(Num),
    Str(String),
    Arr(Vec<Json>),
    Obj(Vec<(String, Json)>),
}

/// The model of a [`Json`] document.
pub enum JsonV {
    Null,
    Bool(bool),
    Num(Num),
    Str(Seq<char>),
    Arr(Seq<JsonV>),
    Obj(Map<Seq<char>, JsonV>),
}

/// The integer `n` as a number: unsigned unless it is negative.
pub open spec fn signed_num(n: i64) -> Num {
    if n < 0 {
        Num::Neg(n)
    } else {
        Num::Pos(n as u64)
    }
}

/// The number `n` in the one form that stands for its value.
pub open spec fn canonical(n: Num) -> Num {
    match n {
        Num::Pos(_) => n,
        Num::Neg(i) => signed_num(i),
        Num::Real(x) => match number_unsigned(x) {
            Some(u) => Num::Pos(u),
            None => match number_signed(x) {
                Some(i) => signed_num(i),
                None => n,
            },
        },
    }
}

/// What `serde_json::Number::as_u64` returns for `n`.
pub uninterp spec fn number_unsigned(n: serde_json::Number) -> Option<u64>;

/// What `serde_json::Number::as_i64` returns for `n`.
pub uninterp spec fn number_signed(n: serde_json::Number) -> Option<i64>;

/// `serde_json::Number::as_u64`. Its result depends on the number alone and is named
/// [`number_unsigned`].
#[verifier::external_body]
fn real_unsigned(n: &serde_json::Number) -> (r: Option<u64>)
    ensures
        r == number_unsigned(*n),
{
    n.as_u64()
}

/// `serde_json::Number::as_i64`. Its result depends on the number alone and is named
/// [`number_signed`].
#[verifier::external_body]
fn real_signed(n: &serde_json::Number) -> (r: Option<i64>)
    ensures
        r == number_signed(*n),
{
    n.as_i64()
}

/// The model of document `j`.
pub open spec fn tree(j: Json) -> JsonV
    decreases j,
{
    match j {
        Json::Null => JsonV::Null,
        Json::Bool(b) => JsonV::Bool(b),
        Json::Num(n) => JsonV::Num(canonical(n)),
        Json::Str(s) => JsonV::Str(s@),
        Json::Arr(v) => JsonV::Arr(list_tree(v@)),
        Json::Obj(v) => JsonV::Obj(members_tree(v@)),
    }
}

/// The models of the items `s`, in order.
pub open spec fn list_tree(s: Seq<Json>) -> Seq<JsonV>
    decreases s,
{
    if s.len() == 0 {
        Seq::empty()
    } else {
        list_tree(s.drop_last()).push(tree(s.last()))
    }
}

/// The object that the members `s` make up, a later member replacing an earlier one.
pub open spec fn members_tree(s: Seq<(String, Json)>) -> Map<Seq<char>, JsonV>
    decreases s,
{
    if s.len() == 0 {
        Map::empty()
    } else {
        members_tree(s.drop_last()).insert(s.last().0@, tree(s.last().1))
    }
}

impl View for Json {
    type V = JsonV;

    open spec fn view(&self) -> JsonV {
        tree(*self)
    }
}

// ── what a document says ─────────────────────────────────────────────────────────────────────

/// Member `key` of document `t`, if `t` is an object that has it.
pub open spec fn member(t: JsonV, key: Seq<char>) -> Option<JsonV> {
    match t {
        JsonV::Obj(m) => if m.contains_key(key) {
            Some(m[key])
        } else {
            None
        },
        _ => None,
    }
}

/// `t` as text, if it is a string.
pub open spec fn as_text(t: Option<JsonV>) -> Option<Seq<char>> {
    match t {
        Some(JsonV::Str(s)) => Some(s),
        _ => None,
    }
}

/// `t` as a truth value, if it is one.
pub open spec fn as_truth(t: Option<JsonV>) -> Option<bool> {
    match t {
        Some(JsonV::Bool(b)) => Some(b),
        _ => None,
    }
}

/// `t` as an unsigned 64-bit integer, if it is one.
pub open spec fn as_unsigned(t: Option<JsonV>) -> Option<u64> {
    match t {
        Some(JsonV::Num(Num::Pos(n))) => Some(n),
        _ => None,
    }
}

/// `t` as a signed 64-bit integer, if it is one.
pub open spec fn as_signed(t: Option<JsonV>) -> Option<i64> {
    match t {
        Some(JsonV::Num(Num::Pos(n))) => if n <= i64::MAX {
            Some(n as i64)
        } else {
            None
        },
        Some(JsonV::Num(Num::Neg(n))) => Some(n),
        _ => None,
    }
}

/// `t` as a number of any kind, if it is one.
pub open spec fn as_number(t: Option<JsonV>) -> Option<Num> {
    match t {
        Some(JsonV::Num(n)) => Some(n),
        _ => None,
    }
}

proof fn lemma_member_untouched(s: Seq<(String, Json)>, i: int, key: Seq<char>)
    requires
        0 <= i <= s.len(),
        forall|j: int| i <= j < s.len() ==> (#[trigger] s[j]).0@ != key,
    ensures
        members_tree(s).contains_key(key) == members_tree(s.take(i)).contains_key(key),
        members_tree(s).contains_key(key) ==> members_tree(s)[key] == members_tree(s.take(i))[key],
    decreases s.len(),
{
    if i == s.len() {
        assert(s.take(i) =~= s);
    } else {
        let front = s.drop_last();
        assert forall|j: int| i <= j < front.len() implies (#[trigger] front[j]).0@ != key by {
            assert(front[j] == s[j]);
        }
        assert(s[s.len() - 1].0@ != key);
        assert(front.take(i) =~= s.take(i));
        lemma_member_untouched(front, i, key);
    }
}

impl Json {
    /// Member `key`, if this document is an object that has it.
    pub fn get(&self, key: &str) -> (r: Option<&Json>)
        ensures
            match r {
                Some(j) => member(self@, key@) == Some(j@),
                None => member(self@, key@) is None,
            },
    {
        match self {
            Json::Obj(members) => {
                let mut i: usize = members.len();
                while i > 0
                    invariant
                        *self == Json::Obj(*members),
                        i <= members@.len(),
                        forall|j: int| i <= j < members@.len() ==> (#[trigger] members@[j]).0@ != key@,
                    decreases i,
                {
                    if same(members[i - 1].0.as_str(), key) {
                        proof {
                            lemma_member_untouched(members@, i as int, key@);
                            let upto = members@.take(i as int);
                            assert(upto.drop_last() =~= members@.take(i - 1));
                            assert(upto.last() == members@[i - 1]);
                        }
                        return Some(&members[i - 1].1);
                    }
                    i = i - 1;
                }
                proof {
                    lemma_member_untouched(members@, 0, key@);
                    assert(members@.take(0) =~= Seq::empty());
                }
                None
            },
            _ => None,
        }
    }

    /// Member `key` as text, if it is a string.
    pub fn text(&self, key: &str) -> (r: Option<&String>)
        ensures
            match r {
                Some(s) => as_text(member(self@, key@)) == Some(s@),
                None => as_text(member(self@, key@)) is None,
            },
    {
        match self.get(key) {
            Some(Json::Str(s)) => Some(s),
            _ => None,
        }
    }

    /// Member `key` as a truth value, if it is one.
    pub fn truth(&self, key: &str) -> (r: Option<bool>)
        ensures
            r == as_truth(member(self@, key@)),
    {
        match self.get(key) {
            Some(Json::Bool(b)) => Some(*b),
            _ => None,
        }
    }

    /// Member `key` as an unsigned integer, if it is one.
    pub fn unsigned(&self, key: &str) -> (r: Option<u64>)
        ensures
            r == as_unsigned(member(self@, key@)),
    {
        match self.number(key) {
            Some(Num::Pos(n)) => Some(n),
            _ => None,
        }
    }

    /// Member `key` as a signed integer, if it is one.
    pub fn signed(&self, key: &str) -> (r: Option<i64>)
        ensures
            r == as_signed(member(self@, key@)),
    {
        match self.number(key) {
            Some(Num::Pos(n)) => if n <= i64::MAX as u64 {
                Some(n as i64)
            } else {
                None
            },
            Some(Num::Neg(n)) => Some(n),
            _ => None,
        }
    }

    /// Member `key` as a number of any kind, if it is one.
    pub fn number(&self, key: &str) -> (r: Option<Num>)
        ensures
            r == as_number(member(self@, key@)),
    {
        match self.get(key) {
            Some(Json::Num(n)) => Some(canonical_copy(n)),
            _ => None,
        }
    }

    /// The same document once more.
    pub fn copy(&self) -> (r: Json)
        ensures
            r@ == self@,
        decreases self,
    {
        match self {
            Json::Null => Json::Null,
            Json::Bool(b) => Json::Bool(*b),
            Json::Num(n) => Json::Num(canonical_copy(n)),
            Json::Str(s) => Json::Str(s.clone()),
            Json::Arr(items) => {
                let mut out = Items::new();
                let mut i: usize = 0;
                while i < items.len()
                    invariant
                        *self == Json::Arr(*items),
                        i <= items@.len(),
                        out@ == list_tree(items@.take(i as int)),
                    decreases items@.len() - i,
                {
                    proof {
                        let whole = items@;
                        assert(decreases_to!(*self => self->Arr_0));
                        assert(decreases_to!(*items => items@));
                        assert(decreases_to!(whole => whole[i as int]));
                        assert(whole.take(i + 1).drop_last() =~= whole.take(i as int));
                    }
                    out.put(items[i].copy());
                    i = i + 1;
                }
                assert(items@.take(items@.len() as int) =~= items@);
                out.done()
            },
            Json::Obj(members) => {
                let mut out = Members::new();
                let mut i: usize = 0;
                while i < members.len()
                    invariant
                        *self == Json::Obj(*members),
                        i <= members@.len(),
                        out@ == members_tree(members@.take(i as int)),
                    decreases members@.len() - i,
                {
                    proof {
                        let whole = members@;
                        assert(decreases_to!(*self => self->Obj_0));
                        assert(decreases_to!(*members => members@));
                        assert(decreases_to!(whole => whole[i as int]));
                        assert(decreases_to!(whole[i as int] => whole[i as int].1));
                        assert(whole.take(i + 1).drop_last() =~= whole.take(i as int));
                    }
                    out.put(members[i].0.as_str(), members[i].1.copy());
                    i = i + 1;
                }
                assert(members@.take(members@.len() as int) =~= members@);
                out.done()
            },
        }
    }
}

/// `serde_json::Number::clone`: the same number once more.
#[verifier::external_body]
fn copy_real(n: &serde_json::Number) -> (r: serde_json::Number)
    ensures
        r == *n,
{
    n.clone()
}

/// The number `n` once more, in the one form that stands for its value.
fn canonical_copy(n: &Num) -> (r: Num)
    ensures
        r == canonical(*n),
{
    match n {
        Num::Pos(p) => Num::Pos(*p),
        Num::Neg(v) => if *v >= 0 {
            Num::Pos(*v as u64)
        } else {
            Num::Neg(*v)
        },
        Num::Real(x) => match real_unsigned(x) {
            Some(u) => Num::Pos(u),
            None => match real_signed(x) {
                Some(v) => if v >= 0 {
                    Num::Pos(v as u64)
                } else {
                    Num::Neg(v)
                },
                None => Num::Real(copy_real(x)),
            },
        },
    }
}

// ── building a document ──────────────────────────────────────────────────────────────────────

/// The id `id` as JSON: the number, or `null` where there is none.
pub open spec fn id_tree(id: Option<u32>) -> JsonV {
    match id {
        Some(n) => JsonV::Num(Num::Pos(n as u64)),
        None => JsonV::Null,
    }
}

/// The integer `n` as a document.
pub fn signed_json(n: i64) -> (j: Json)
    ensures
        j@ == JsonV::Num(signed_num(n)),
{
    Json::Num(Num::Neg(n))
}

/// The id `id` as a document.
pub fn id_json(id: Option<u32>) -> (j: Json)
    ensures
        j@ == id_tree(id),
{
    match id {
        Some(n) => Json::Num(Num::Pos(n as u64)),
        None => Json::Null,
    }
}

/// The text `s` as a document.
pub fn text_json(s: &str) -> (j: Json)
    ensures
        j@ == JsonV::Str(s@),
{
    Json::Str(s.to_owned())
}

/// The number `n` as a document.
pub fn number_json(n: u64) -> (j: Json)
    ensures
        j@ == JsonV::Num(Num::Pos(n)),
{
    Json::Num(Num::Pos(n))
}

/// The truth value `b` as a document.
pub fn truth_json(b: bool) -> (j: Json)
    ensures
        j@ == JsonV::Bool(b),
{
    Json::Bool(b)
}

/// An object under construction.
pub struct Members {
    pub list: Vec<(String, Json)>,
}

impl View for Members {
    type V = Map<Seq<char>, JsonV>;

    open spec fn view(&self) -> Map<Seq<char>, JsonV> {
        members_tree(self.list@)
    }
}

impl Members {
    /// No member yet.
    pub fn new() -> (m: Members)
        ensures
            m@ == Map::<Seq<char>, JsonV>::empty(),
    {
        Members { list: Vec::new() }
    }

    /// Adds member `key` with value `value`.
    pub fn put(&mut self, key: &str, value: Json)
        ensures
            final(self)@ == old(self)@.insert(key@, value@),
    {
        let ghost before = self.list@;
        self.list.push((key.to_owned(), value));
        proof {
            assert(self.list@.drop_last() =~= before);
        }
    }

    /// The object.
    pub fn done(self) -> (j: Json)
        ensures
            j@ == JsonV::Obj(self@),
    {
        Json::Obj(self.list)
    }
}

/// An array under construction.
pub struct Items {
    pub list: Vec<Json>,
}

impl View for Items {
    type V = Seq<JsonV>;

    open spec fn view(&self) -> Seq<JsonV> {
        list_tree(self.list@)
    }
}

impl Items {
    /// No item yet.
    pub fn new() -> (m: Items)
        ensures
            m@ == Seq::<JsonV>::empty(),
    {
        Items { list: Vec::new() }
    }

    /// Adds `value` at the end.
    pub fn put(&mut self, value: Json)
        ensures
            final(self)@ == old(self)@.push(value@),
    {
        let ghost before = self.list@;
        self.list.push(value);
        proof {
            assert(self.list@.drop_last() =~= before);
        }
    }

    /// The array.
    pub fn done(self) -> (j: Json)
        ensures
            j@ == JsonV::Arr(self@),
    {
        Json::Arr(self.list)
    }
}

// ── text to document ─────────────────────────────────────────────────────────────────────────

/// The document that a `serde_json::Value` holds.
pub uninterp spec fn held(v: serde_json::Value) -> JsonV;

/// What `serde_json::from_slice` makes of `bytes`: the document, or the text of the error.
pub uninterp spec fn json_read(bytes: Seq<u8>) -> Result<JsonV, Seq<char>>;

/// What `serde_json` writes for document `t`, the members of an object in the order of their keys.
pub uninterp spec fn json_text(t: JsonV) -> Seq<char>;

/// One level of a `serde_json::Value`.
pub enum Node {
    Null,
    Bool(bool),
    Number(serde_json::Number),
    Text(String),
    List(Vec<serde_json::Value>),
    Members(Vec<(String, serde_json::Value)>),
}

/// The object that the members `s` make up.
pub open spec fn held_members(s: Seq<(String, serde_json::Value)>) -> Map<Seq<char>, JsonV>
    decreases s,
{
    if s.len() == 0 {
        Map::empty()
    } else {
        held_members(s.drop_last()).insert(s.last().0@, held(s.last().1))
    }
}

/// The document that the level `n` describes.
pub open spec fn node_tree(n: Node) -> JsonV {
    match n {
        Node::Null => JsonV::Null,
        Node::Bool(b) => JsonV::Bool(b),
        Node::Number(n) => JsonV::Num(canonical(Num::Real(n))),
        Node::Text(s) => JsonV::Str(s@),
        Node::List(v) => JsonV::Arr(v@.map_values(|x: serde_json::Value| held(x))),
        Node::Members(v) => JsonV::Obj(held_members(v@)),
    }
}

/// No key occurs twice.
pub open spec fn keys_differ(s: Seq<(String, serde_json::Value)>) -> bool {
    forall|i: int, j: int| 0 <= i < j < s.len() ==> (#[trigger] s[i]).0@ != (#[trigger] s[j]).0@
}

/// `serde_json::from_slice` at `serde_json::Value`. Its result depends on the bytes alone and is
/// named [`json_read`]; of an error only the text is kept.
#[verifier::external_body]
fn decode(bytes: &[u8]) -> (r: Result<serde_json::Value, String>)
    ensures
        match r {
            Ok(v) => json_read(bytes@) == Ok::<JsonV, Seq<char>>(held(v)),
            Err(m) => json_read(bytes@) == Err::<JsonV, Seq<char>>(m@),
        },
{
    match serde_json::from_slice::<serde_json::Value>(bytes) {
        Ok(v) => Ok(v),
        Err(e) => Err(e.to_string()),
    }
}

/// Takes a `serde_json::Value` apart by one level: its variant and that variant's fields. The keys
/// of an object (a `serde_json::Map`) are distinct.
#[verifier::external_body]
fn open_value(v: serde_json::Value) -> (n: Node)
    ensures
        node_tree(n) == held(v),
        n matches Node::Members(m) ==> keys_differ(m@),
{
    match v {
        serde_json::Value::Null => Node::Null,
        serde_json::Value::Bool(b) => Node::Bool(b),
        serde_json::Value::Number(n) => Node::Number(n),
        serde_json::Value::String(s) => Node::Text(s),
        serde_json::Value::Array(a) => Node::List(a),
        serde_json::Value::Object(o) => Node::Members(o.into_iter().collect()),
    }
}

proof fn lemma_held_member(s: Seq<(String, serde_json::Value)>, i: int)
    requires
        keys_differ(s),
        0 <= i < s.len(),
    ensures
        held_members(s).contains_key(s[i].0@),
        held_members(s)[s[i].0@] == held(s[i].1),
        held_members(s).dom().finite(),
    decreases s.len(),
{
    let front = s.drop_last();
    if i == s.len() - 1 {
        lemma_held_finite(front);
    } else {
        assert forall|a: int, b: int| 0 <= a < b < front.len() implies (#[trigger] front[a]).0@ != (
        #[trigger] front[b]).0@ by {
            assert(s[a].0@ != s[b].0@);
        }
        lemma_held_member(front, i);
        assert(s[i].0@ != s[s.len() - 1].0@);
        assert(front[i] == s[i]);
    }
}

proof fn lemma_held_finite(s: Seq<(String, serde_json::Value)>)
    ensures
        held_members(s).dom().finite(),
    decreases s.len(),
{
    if s.len() > 0 {
        lemma_held_finite(s.drop_last());
    }
}

/// The library's form of `v`.
fn read_value(v: serde_json::Value) -> (j: Json)
    ensures
        j@ == held(v),
    decreases held(v),
{
    match open_value(v) {
        Node::Null => Json::Null,
        Node::Bool(b) => Json::Bool(b),
        Node::Number(n) => Json::Num(canonical_copy(&Num::Real(n))),
        Node::Text(s) => Json::Str(s),
        Node::List(list) => {
            let ghost whole = list@;
            let mut out: Items = Items::new();
            for item in it: list
                invariant
                    held(v) == JsonV::Arr(whole.map_values(|x: serde_json::Value| held(x))),
                    it.seq() == whole,
                    out@ == whole.take(it.index() as int).map_values(
                        |x: serde_json::Value| held(x),
                    ),
            {
                let ghost at = it.index() as int;
                proof {
                    let items = whole.map_values(|x: serde_json::Value| held(x));
                    assert(items[at] == held(item));
                    assert(decreases_to!(held(v) => held(v)->Arr_0));
                    assert(decreases_to!(items => items[at]));
                }
                out.put(read_value(item));
                assert(whole.take(at + 1).map_values(|x: serde_json::Value| held(x))
                    =~= whole.take(at).map_values(|x: serde_json::Value| held(x)).push(held(item)));
            }
            assert(whole.take(whole.len() as int) =~= whole);
            out.done()
        },
        Node::Members(list) => {
            let ghost whole = list@;
            let mut out: Members = Members::new();
            assert(whole.take(0) =~= Seq::empty());
            for pair in it: list
                invariant
                    keys_differ(whole),
                    held(v) == JsonV::Obj(held_members(whole)),
                    it.seq() == whole,
                    out@ == held_members(whole.take(it.index() as int)),
            {
                let ghost at = it.index() as int;
                let (key, item) = pair;
                proof {
                    assert((key, item) == whole[at]);
                    lemma_held_member(whole, at);
                    let members = held_members(whole);
                    assert(decreases_to!(held(v) => held(v)->Obj_0));
                    assert(decreases_to!(members => members[key@]));
                }
                let value = read_value(item);
                out.put(key.as_str(), value);
                assert(whole.take(at + 1).drop_last() =~= whole.take(at));
            }
            assert(whole.take(whole.len() as int) =~= whole);
            out.done()
        },
    }
}

/// Reads a document from text.
pub fn parse(bytes: &[u8]) -> (r: Result<Json, String>)
    ensures
        match r {
            Ok(j) => json_read(bytes@) == Ok::<JsonV, Seq<char>>(j@),
            Err(m) => json_read(bytes@) == Err::<JsonV, Seq<char>>(m@),
        },
{
    match decode(bytes) {
        Ok(v) => Ok(read_value(v)),
        Err(m) => Err(m),
    }
}

// ── document to text ─────────────────────────────────────────────────────────────────────────

/// One level of a `serde_json::Value` to be made.
pub enum Shape {
    Null,
    Bool(bool),
    Unsigned(u64),
    Signed(i64),
    Real(serde_json::Number),
    Text(String),
    List(Vec<serde_json::Value>),
    Members(Vec<(String, serde_json::Value)>),
}

/// The document that the level `s` describes.
pub open spec fn shape_tree(s: Shape) -> JsonV {
    match s {
        Shape::Null => JsonV::Null,
        Shape::Bool(b) => JsonV::Bool(b),
        Shape::Unsigned(u) => JsonV::Num(Num::Pos(u)),
        Shape::Signed(i) => JsonV::Num(signed_num(i)),
        Shape::Real(n) => JsonV::Num(canonical(Num::Real(n))),
        Shape::Text(s) => JsonV::Str(s@),
        Shape::List(v) => JsonV::Arr(v@.map_values(|x: serde_json::Value| held(x))),
        Shape::Members(v) => JsonV::Obj(held_members(v@)),
    }
}

/// Makes a `serde_json::Value` of one level: the variant and its fields, an integer by
/// `Value::from`. Members enter a `serde_json::Map`, where a later one replaces an earlier one.
#[verifier::external_body]
fn make_value(s: Shape) -> (v: serde_json::Value)
    ensures
        held(v) == shape_tree(s),
{
    match s {
        Shape::Null => serde_json::Value::Null,
        Shape::Bool(b) => serde_json::Value::Bool(b),
        Shape::Unsigned(n) => serde_json::Value::from(n),
        Shape::Signed(n) => serde_json::Value::from(n),
        Shape::Real(n) => serde_json::Value::Number(n),
        Shape::Text(t) => serde_json::Value::String(t),
        Shape::List(l) => serde_json::Value::Array(l),
        Shape::Members(m) => serde_json::Value::Object(m.into_iter().collect()),
    }
}

/// `serde_json::Value::to_string`, the compact form. Its result depends on the document alone and
/// is named [`json_text`].
#[verifier::external_body]
fn encode(v: &serde_json::Value) -> (r: String)
    ensures
        r@ == json_text(held(*v)),
{
    v.to_string()
}

/// The `serde_json` form of `j`.
fn write_value(j: Json) -> (v: serde_json::Value)
    ensures
        held(v) == j@,
    decreases j,
{
    match j {
        Json::Null => make_value(Shape::Null),
        Json::Bool(b) => make_value(Shape::Bool(b)),
        Json::Num(Num::Pos(n)) => make_value(Shape::Unsigned(n)),
        Json::Num(Num::Neg(n)) => make_value(Shape::Signed(n)),
        Json::Num(Num::Real(n)) => make_value(Shape::Real(n)),
        Json::Str(s) => make_value(Shape::Text(s)),
        Json::Arr(list) => {
            let ghost whole = list@;
            let mut out: Vec<serde_json::Value> = Vec::new();
            assert(whole.take(0) =~= Seq::empty());
            for item in it: list
                invariant
                    j is Arr,
                    whole == (j->Arr_0)@,
                    it.seq() == whole,
                    out@.map_values(|x: serde_json::Value| held(x)) == list_tree(
                        whole.take(it.index() as int),
                    ),
            {
                let ghost at = it.index() as int;
                let ghost before = out@;
                proof {
                    assert(decreases_to!(j => j->Arr_0));
                    assert(decreases_to!(j->Arr_0 => (j->Arr_0)@));
                    assert(decreases_to!(whole => whole[at]));
                }
                out.push(write_value(item));
                assert(whole.take(at + 1).drop_last() =~= whole.take(at));
                assert(out@.map_values(|x: serde_json::Value| held(x)) =~= before.map_values(
                    |x: serde_json::Value| held(x),
                ).push(held(out@.last())));
            }
            assert(whole.take(whole.len() as int) =~= whole);
            make_value(Shape::List(out))
        },
        Json::Obj(list) => {
            let ghost whole = list@;
            let mut out: Vec<(String, serde_json::Value)> = Vec::new();
            assert(whole.take(0) =~= Seq::empty());
            for pair in it: list
                invariant
                    j is Obj,
                    whole == (j->Obj_0)@,
                    it.seq() == whole,
                    held_members(out@) == members_tree(whole.take(it.index() as int)),
            {
                let ghost at = it.index() as int;
                let ghost before = out@;
                let (key, item) = pair;
                proof {
                    assert((key, item) == whole[at]);
                    assert(decreases_to!(j => j->Obj_0));
                    assert(decreases_to!(j->Obj_0 => (j->Obj_0)@));
                    assert(decreases_to!(whole => whole[at]));
                    assert(decreases_to!(whole[at] => whole[at].1));
                }
                out.push((key, write_value(item)));
                assert(whole.take(at + 1).drop_last() =~= whole.take(at));
                assert(out@.drop_last() =~= before);
            }
            assert(whole.take(whole.len() as int) =~= whole);
            make_value(Shape::Members(out))
        },
    }
}

/// Writes a document as text.
pub fn render(j: Json) -> (r: String)
    ensures
        r@ == json_text(j@),
{
    encode(&write_value(j))
}

}
