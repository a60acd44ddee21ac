//! JSON values.
//!
//! The answers of the scraping service and of the models are JSON, and so are
//! the requests and the lines of the wire protocol. `Json` is a tree of plain
//! values; what it means is a `Tree`.

use vstd::prelude::*;
use crate::error::{ClipKnowError, Result};
use crate::outside;
use crate::outside::{read_json, write_json};
use crate::text;
use crate::text::same;

verus! {

/// A number. A whole number of 64 bits is kept as such. Any other number, one
/// with a fraction or an exponent or one that is too large, is kept as the text
/// that it is written with, together with its whole part, which is cut to a
/// signed 64-bit number.
#[derive(Debug, PartialEq)]
pub enum Num {
    Pos(u64),
    Neg(i64),
    Float { whole: i64, text: String },
}

/// A JSON value. The fields of an object stand in the order in which they were
/// put there.
#[derive(Debug, PartialEq)]
pub enum Json {
    Null,
    Bool(bool),
    Number(Num),
    Str(String),
    Array(Vec<Json>),
    Object(Vec<(String, Json)>),
}

/// What a number is.
pub enum NumTree {
    Int(int),
    Float { whole: int, text: Seq<char> },
}

/// What a JSON value is.
pub enum Tree {
    Null,
    Bool(bool),
    Number(NumTree),
    Str(Seq<char>),
    Array(Seq<Tree>),
    Object(Seq<(Seq<char>, Tree)>),
}

impl Num {
    pub open spec fn view(&self) -> NumTree {
        match self {
            Num::Pos(n) => NumTree::Int(*n as int),
            Num::Neg(n) => NumTree::Int(*n as int),
            Num::Float { whole, text } => NumTree::Float { whole: *whole as int, text: text@ },
        }
    }
}

impl Json {
    pub open spec fn view(&self) -> Tree
        decreases self,
    {
        match self {
            Json::Null => Tree::Null,
            Json::Bool(b) => Tree::Bool(*b),
            Json::Number(n) => Tree::Number(n@),
            Json::Str(s) => Tree::Str(s@),
            Json::Array(v) => Tree::Array(
                Seq::new(
                    v@.len(),
                    |i: int|
                        if 0 <= i < v@.len() {
                            v@[i].view()
                        } else {
                            Tree::Null
                        },
                ),
            ),
            Json::Object(v) => Tree::Object(
                Seq::new(
                    v@.len(),
                    |i: int|
                        if 0 <= i < v@.len() {
                            (v@[i].0@, v@[i].1.view())
                        } else {
                            (seq![], Tree::Null)
                        },
                ),
            ),
        }
    }
}

/// What a list of JSON values is.
pub open spec fn trees(v: Seq<Json>) -> Seq<Tree> {
    Seq::new(v.len(), |i: int| v[i]@)
}

/// What the fields of an object are.
pub open spec fn fields(v: Seq<(String, Json)>) -> Seq<(Seq<char>, Tree)> {
    Seq::new(v.len(), |i: int| (v[i].0@, v[i].1@))
}

/// What an optional JSON value is.
pub open spec fn opt_tree(v: Option<&Json>) -> Option<Tree> {
    match v {
        Some(j) => Some(j@),
        None => None,
    }
}

// ---------------------------------------------------------------------------
// Taking values apart
// ---------------------------------------------------------------------------

/// The first field from `k` on with the name `key`.
pub open spec fn field_from(o: Seq<(Seq<char>, Tree)>, key: Seq<char>, k: int) -> Option<Tree>
    decreases o.len() - k,
{
    if k < 0 || k >= o.len() {
        None
    } else if o[k].0 == key {
        Some(o[k].1)
    } else {
        field_from(o, key, k + 1)
    }
}

/// The field `key` of an object.
pub open spec fn field(t: Tree, key: Seq<char>) -> Option<Tree> {
    match t {
        Tree::Object(o) => field_from(o, key, 0),
        _ => None,
    }
}

/// The element of an array at an index.
pub open spec fn element(t: Tree, i: int) -> Option<Tree> {
    match t {
        Tree::Array(a) => if 0 <= i < a.len() {
            Some(a[i])
        } else {
            None
        },
        _ => None,
    }
}

/// The text that a value is.
pub open spec fn str_of(t: Tree) -> Option<Seq<char>> {
    match t {
        Tree::Str(s) => Some(s),
        _ => None,
    }
}

/// The elements of an array.
pub open spec fn array_of(t: Tree) -> Option<Seq<Tree>> {
    match t {
        Tree::Array(a) => Some(a),
        _ => None,
    }
}

/// The truth value that a value is.
pub open spec fn bool_of(t: Tree) -> Option<bool> {
    match t {
        Tree::Bool(b) => Some(b),
        _ => None,
    }
}

/// The whole number that a value is, where it fits into a signed 64-bit number.
pub open spec fn i64_of(t: Tree) -> Option<int> {
    match t {
        Tree::Number(NumTree::Int(n)) => if i64::MIN <= n <= i64::MAX {
            Some(n)
        } else {
            None
        },
        _ => None,
    }
}

/// The natural number that a value is, where it fits into 64 bits.
pub open spec fn u64_of(t: Tree) -> Option<int> {
    match t {
        Tree::Number(NumTree::Int(n)) => if 0 <= n <= u64::MAX {
            Some(n)
        } else {
            None
        },
        _ => None,
    }
}

/// `f` applied to what is there.
pub open spec fn then_str(t: Option<Tree>) -> Option<Seq<char>> {
    match t {
        Some(j) => str_of(j),
        None => None,
    }
}

/// The natural number that is there.
pub open spec fn then_u64(t: Option<Tree>) -> Option<int> {
    match t {
        Some(j) => u64_of(j),
        None => None,
    }
}

/// The array that is there.
pub open spec fn then_array(t: Option<Tree>) -> Option<Seq<Tree>> {
    match t {
        Some(j) => array_of(j),
        None => None,
    }
}

/// The truth value that is there.
pub open spec fn then_bool(t: Option<Tree>) -> Option<bool> {
    match t {
        Some(j) => bool_of(j),
        None => None,
    }
}

/// The field `key` of what is there.
pub open spec fn then_field(t: Option<Tree>, key: Seq<char>) -> Option<Tree> {
    match t {
        Some(j) => field(j, key),
        None => None,
    }
}

/// The least power of two, from `u` on, in which `n` has no more than 53 binary
/// digits.
pub open spec fn double_unit(n: int, u: int) -> int
    decreases n / u,
{
    if u <= 0 || n / u < 0x20_0000_0000_0000 {
        u
    } else {
        proof {
            assert(0 <= n / (2 * u) < n / u) by (nonlinear_arith)
                requires
                    n / u >= 0x20_0000_0000_0000,
                    u > 0,
            ;
        }
        double_unit(n, 2 * u)
    }
}

/// A natural number rounded to 53 binary digits, to the nearest, and to the
/// even one of two that are as near: the value it has as a binary64 number.
pub open spec fn as_double(n: int) -> int {
    let u = double_unit(n, 1);
    let q = n / u;
    let r = n % u;
    if 2 * r > u || (2 * r == u && q % 2 == 1) {
        (q + 1) * u
    } else {
        q * u
    }
}

/// A number cut to a signed 64-bit number.
pub open spec fn cut(n: int) -> int {
    if n > i64::MAX {
        i64::MAX as int
    } else if n < i64::MIN {
        i64::MIN as int
    } else {
        n
    }
}

/// The whole part of a number as a binary64 number, cut to 64 bits.
pub open spec fn whole_of(t: Tree) -> Option<int> {
    match t {
        Tree::Number(NumTree::Int(n)) => Some(
            cut(
                if n < 0 {
                    -as_double(-n)
                } else {
                    as_double(n)
                },
            ),
        ),
        Tree::Number(NumTree::Float { whole, text }) => Some(whole),
        _ => None,
    }
}

proof fn lemma_double_step(n: int, u: int)
    requires
        0 <= n <= 0xffff_ffff_ffff_ffff,
        u > 0,
        n / u >= 0x20_0000_0000_0000,
    ensures
        u <= 0x800,
        n / (2 * u) < n / u,
{
    assert(u <= 0x800) by (nonlinear_arith)
        requires
            0 <= n <= 0xffff_ffff_ffff_ffff,
            u > 0,
            n / u >= 0x20_0000_0000_0000,
    ;
    assert(n / (2 * u) < n / u) by (nonlinear_arith)
        requires
            n / u >= 0x20_0000_0000_0000,
            u > 0,
    ;
}

/// The value of a natural number as a binary64 number.
fn doubled(n: u64) -> (r: i128)
    ensures
        r == as_double(n as int),
        0 <= r <= 0x4_0000_0000_0000_0000,
{
    let mut u: u64 = 1;
    while n / u >= 0x20_0000_0000_0000
        invariant
            0 < u <= 0x1000,
            double_unit(n as int, 1) == double_unit(n as int, u as int),
        decreases n / u,
    {
        proof {
            lemma_double_step(n as int, u as int);
        }
        u = 2 * u;
    }
    let q: u64 = n / u;
    let r: u64 = n % u;
    let up: bool = 2 * r > u || (2 * r == u && q % 2 == 1);
    let m: i128 = if up { q as i128 + 1 } else { q as i128 };
    proof {
        assert(0 <= m * u <= 0x20_0000_0000_0000 * 0x1000) by (nonlinear_arith)
            requires
                0 <= m <= 0x20_0000_0000_0000,
                0 < u <= 0x1000,
        ;
    }
    m * (u as i128)
}

fn cut_i64(n: i128) -> (r: i64)
    ensures
        r == cut(n as int),
{
    if n > i64::MAX as i128 {
        i64::MAX
    } else if n < i64::MIN as i128 {
        i64::MIN
    } else {
        n as i64
    }
}

// ---------------------------------------------------------------------------
// Putting values together
// ---------------------------------------------------------------------------

/// A text as a value.
pub fn string(s: &str) -> (r: Json)
    ensures
        r@ == Tree::Str(s@),
{
    Json::Str(s.to_owned())
}

/// A truth value as a value.
pub fn boolean(b: bool) -> (r: Json)
    ensures
        r@ == Tree::Bool(b),
{
    Json::Bool(b)
}

/// A natural number as a value.
pub fn natural(n: u64) -> (r: Json)
    ensures
        r@ == Tree::Number(NumTree::Int(n as int)),
{
    Json::Number(Num::Pos(n))
}

/// An integer as a value.
pub fn integer(n: i64) -> (r: Json)
    ensures
        r@ == Tree::Number(NumTree::Int(n as int)),
{
    if n < 0 {
        Json::Number(Num::Neg(n))
    } else {
        Json::Number(Num::Pos(n as u64))
    }
}

/// The value `null`.
pub fn null() -> (r: Json)
    ensures
        r@ == Tree::Null,
{
    Json::Null
}

/// A text that may be missing as a value.
pub open spec fn opt_str(s: Option<Seq<char>>) -> Tree {
    match s {
        Some(t) => Tree::Str(t),
        None => Tree::Null,
    }
}

/// A field of an object.
pub fn entry(key: &str, value: Json) -> (r: (String, Json))
    ensures
        (r.0@, r.1@) == (key@, value@),
{
    (key.to_owned(), value)
}

/// An object with the fields `v`.
pub fn object(v: Vec<(String, Json)>) -> (r: Json)
    ensures
        r@ == Tree::Object(fields(v@)),
{
    let r = Json::Object(v);
    assert(r@->Object_0 =~= fields(v@));
    r
}

/// An array with the elements `v`.
pub fn array(v: Vec<Json>) -> (r: Json)
    ensures
        r@ == Tree::Array(trees(v@)),
{
    let r = Json::Array(v);
    assert(r@->Array_0 =~= trees(v@));
    r
}

impl Json {
    /// The field `key` of an object.
    pub fn get(&self, key: &str) -> (r: Option<&Json>)
        ensures
            opt_tree(r) == field(self@, key@),
    {
        match self {
            Json::Object(o) => {
                let mut i: usize = 0;
                assert(self@->Object_0 =~= fields(o@));
                while i < o.len()
                    invariant
                        i <= o@.len(),
                        *self == Json::Object(*o),
                        self@->Object_0 == fields(o@),
                        field(self@, key@) == field_from(fields(o@), key@, i as int),
                    decreases o@.len() - i,
                {
                    if same(o[i].0.as_str(), key) {
                        return Some(&o[i].1);
                    }
                    i = i + 1;
                }
                None
            },
            _ => None,
        }
    }

    /// The element of an array at an index.
    pub fn at(&self, i: usize) -> (r: Option<&Json>)
        ensures
            opt_tree(r) == element(self@, i as int),
    {
        match self {
            Json::Array(a) => if i < a.len() {
                Some(&a[i])
            } else {
                None
            },
            _ => None,
        }
    }

    /// The text that the value is.
    pub fn as_str(&self) -> (r: Option<&str>)
        ensures
            match r {
                Some(s) => str_of(self@) == Some(s@),
                None => str_of(self@) is None,
            },
    {
        match self {
            Json::Str(s) => Some(s.as_str()),
            _ => None,
        }
    }

    /// The elements of an array.
    pub fn as_array(&self) -> (r: Option<&Vec<Json>>)
        ensures
            match r {
                Some(a) => array_of(self@) == Some(trees(a@)),
                None => array_of(self@) is None,
            },
    {
        match self {
            Json::Array(a) => {
                assert(self@->Array_0 =~= trees(a@));
                Some(a)
            },
            _ => None,
        }
    }

    /// The truth value that the value is.
    pub fn as_bool(&self) -> (r: Option<bool>)
        ensures
            r == bool_of(self@),
    {
        match self {
            Json::Bool(b) => Some(*b),
            _ => None,
        }
    }

    /// The whole number that the value is, where it fits into 64 bits.
    pub fn as_i64(&self) -> (r: Option<i64>)
        ensures
            match r {
                Some(n) => i64_of(self@) == Some(n as int),
                None => i64_of(self@) is None,
            },
    {
        match self {
            Json::Number(Num::Pos(n)) => if *n <= i64::MAX as u64 {
                Some(*n as i64)
            } else {
                None
            },
            Json::Number(Num::Neg(n)) => Some(*n),
            _ => None,
        }
    }

    /// The natural number that the value is, where it fits into 64 bits.
    pub fn as_u64(&self) -> (r: Option<u64>)
        ensures
            match r {
                Some(n) => u64_of(self@) == Some(n as int),
                None => u64_of(self@) is None,
            },
    {
        match self {
            Json::Number(Num::Pos(n)) => Some(*n),
            Json::Number(Num::Neg(n)) => if *n >= 0 {
                Some(*n as u64)
            } else {
                None
            },
            _ => None,
        }
    }

    /// The whole part of a number as a binary64 number.
    pub fn as_whole(&self) -> (r: Option<i64>)
        ensures
            match r {
                Some(n) => whole_of(self@) == Some(n as int),
                None => whole_of(self@) is None,
            },
    {
        match self {
            Json::Number(Num::Pos(n)) => Some(cut_i64(doubled(*n))),
            Json::Number(Num::Neg(n)) => if *n < 0 {
                let m: u64 = (-(*n + 1)) as u64 + 1;
                Some(cut_i64(-doubled(m)))
            } else {
                Some(cut_i64(doubled(*n as u64)))
            },
            Json::Number(Num::Float { whole, text }) => Some(*whole),
            _ => None,
        }
    }

    /// Whether the value is `null`.
    pub fn is_null(&self) -> (r: bool)
        ensures
            r == (self@ is Null),
    {
        match self {
            Json::Null => true,
            _ => false,
        }
    }

    /// A copy of the value.
    pub fn copy(&self) -> (r: Json)
        ensures
            r@ == self@,
        decreases self,
    {
        match self {
            Json::Null => Json::Null,
            Json::Bool(b) => Json::Bool(*b),
            Json::Number(Num::Pos(n)) => Json::Number(Num::Pos(*n)),
            Json::Number(Num::Neg(n)) => Json::Number(Num::Neg(*n)),
            Json::Number(Num::Float { whole, text }) => Json::Number(
                Num::Float { whole: *whole, text: text.clone() },
            ),
            Json::Str(s) => Json::Str(s.clone()),
            Json::Array(a) => {
                let mut v: Vec<Json> = Vec::new();
                let mut i: usize = 0;
                while i < a.len()
                    invariant
                        i <= a@.len(),
                        v@.len() == i,
                        *self == Json::Array(*a),
                        forall|k: int| 0 <= k < i ==> (#[trigger] v@[k])@ == a@[k]@,
                    decreases a@.len() - i,
                {
                    assert(decreases_to!(self => self->Array_0));
                    assert(decreases_to!(a => a@));
                    assert(decreases_to!(a@ => a@[i as int]));
                    v.push(a[i].copy());
                    i = i + 1;
                }
                let r = Json::Array(v);
                assert(r@->Array_0 =~= self@->Array_0);
                r
            },
            Json::Object(o) => {
                let mut v: Vec<(String, Json)> = Vec::new();
                let mut i: usize = 0;
                while i < o.len()
                    invariant
                        i <= o@.len(),
                        v@.len() == i,
                        *self == Json::Object(*o),
                        forall|k: int|
                            0 <= k < i ==> (#[trigger] v@[k]).0@ == o@[k].0@ && v@[k].1@
                                == o@[k].1@,
                    decreases o@.len() - i,
                {
                    assert(decreases_to!(self => self->Object_0));
                    assert(decreases_to!(o => o@));
                    assert(decreases_to!(o@ => o@[i as int]));
                    assert(decreases_to!(o@[i as int] => o@[i as int].1));
                    v.push((o[i].0.clone(), o[i].1.copy()));
                    i = i + 1;
                }
                let r = Json::Object(v);
                assert(r@->Object_0 =~= self@->Object_0);
                r
            },
        }
    }

    /// Reads a JSON text.
    pub fn parse(text: &str) -> (r: Result<Json>)
        ensures
            match r {
                Ok(j) => outside::json_tree(text@) == Some(j@),
                Err(e) => outside::json_tree(text@) is None && (e matches ClipKnowError::Json(m)
                    && m@ == outside::json_complaint(text@)),
            },
    {
        match read_json(text) {
            Ok(j) => Ok(j),
            Err(m) => Err(ClipKnowError::Json(m)),
        }
    }

    /// The value as JSON text, on one line and without spaces.
    pub fn text(&self) -> (r: String)
        ensures
            r@ == outside::json_text(self@),
            !text::has_char(r@, '\n'),
            outside::written_back(self@) ==> outside::json_tree(r@) == Some(self@),
    {
        write_json(self)
    }
}

} // verus!
