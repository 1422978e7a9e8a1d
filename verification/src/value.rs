//! The typed values the interpreter passes around, modelled as the fragment
//! of the protocol's value universe that the command semantics inspects:
//! booleans (control flow), text (script paths, substring assertions),
//! numbers and principals. Text is kept as raw bytes; principals in their
//! textual form.
//!
//! Re-interpreting a value under another type (the coercive-equality
//! protocol) is the typed-value system's own business and is called through
//! candid behind a trusted wrapper.

use vstd::prelude::*;
use candid::types::value::IDLValue;
use candid::types::TypeInner;

verus! {

#[derive(Debug, Clone, PartialEq)]
pub enum Value {
    Bool(bool),
    Null,
    Text(Vec<u8>),
    Nat(u64),
    Int(i64),
    Int64(i64),
    Principal(String),
}

/// Mathematical image of a [`Value`].
pub enum ValueModel {
    Bool(bool),
    Null,
    Text(Seq<u8>),
    Nat(u64),
    Int(i64),
    Int64(i64),
    Principal(Seq<char>),
}

impl View for Value {
    type V = ValueModel;

    open spec fn view(&self) -> ValueModel {
        match self {
            Value::Bool(b) => ValueModel::Bool(*b),
            Value::Null => ValueModel::Null,
            Value::Text(t) => ValueModel::Text(t@),
            Value::Nat(n) => ValueModel::Nat(*n),
            Value::Int(i) => ValueModel::Int(*i),
            Value::Int64(i) => ValueModel::Int64(*i),
            Value::Principal(p) => ValueModel::Principal(p@),
        }
    }
}

#[derive(Debug, Clone, Copy, PartialEq, Eq, Structural)]
pub enum VType {
    Bool,
    Null,
    Text,
    Nat,
    Int,
    Int64,
    Principal,
}

pub open spec fn type_of(v: ValueModel) -> VType {
    match v {
        ValueModel::Bool(_) => VType::Bool,
        ValueModel::Null => VType::Null,
        ValueModel::Text(_) => VType::Text,
        ValueModel::Nat(_) => VType::Nat,
        ValueModel::Int(_) => VType::Int,
        ValueModel::Int64(_) => VType::Int64,
        ValueModel::Principal(_) => VType::Principal,
    }
}

/// The type a value carries, as the typed-value system derives it.
pub fn value_ty(v: &Value) -> (r: VType)
    ensures
        r == type_of(v@),
{
    match v {
        Value::Bool(_) => VType::Bool,
        Value::Null => VType::Null,
        Value::Text(_) => VType::Text,
        Value::Nat(_) => VType::Nat,
        Value::Int(_) => VType::Int,
        Value::Int64(_) => VType::Int64,
        Value::Principal(_) => VType::Principal,
    }
}

pub fn dup_bytes(b: &Vec<u8>) -> (r: Vec<u8>)
    ensures
        r@ == b@,
{
    let mut r: Vec<u8> = Vec::new();
    let mut i: usize = 0;
    while i < b.len()
        invariant
            i <= b@.len(),
            r@ == b@.take(i as int),
        decreases b@.len() - i,
    {
        r.push(b[i]);
        i = i + 1;
        proof {
            assert(r@ =~= b@.take(i as int));
        }
    }
    proof {
        assert(b@.take(b@.len() as int) =~= b@);
    }
    r
}

pub fn dup_value(v: &Value) -> (r: Value)
    ensures
        r@ == v@,
{
    match v {
        Value::Bool(b) => Value::Bool(*b),
        Value::Null => Value::Null,
        Value::Text(t) => Value::Text(dup_bytes(t)),
        Value::Nat(n) => Value::Nat(*n),
        Value::Int(i) => Value::Int(*i),
        Value::Int64(i) => Value::Int64(*i),
        Value::Principal(p) => Value::Principal(p.clone()),
    }
}

pub fn bytes_eq(a: &Vec<u8>, b: &Vec<u8>) -> (r: bool)
    ensures
        r == (a@ == b@),
{
    if a.len() != b.len() {
        return false;
    }
    let mut i: usize = 0;
    while i < a.len()
        invariant
            a@.len() == b@.len(),
            i <= a@.len(),
            forall|j: int| 0 <= j < i ==> a@[j] == b@[j],
        decreases a@.len() - i,
    {
        if a[i] != b[i] {
            return false;
        }
        i = i + 1;
    }
    proof {
        assert(a@ =~= b@);
    }
    true
}

/// Structural equality of two values, as the typed-value system compares
/// them.
pub fn values_equal(a: &Value, b: &Value) -> (r: bool)
    ensures
        r == (a@ == b@),
{
    match (a, b) {
        (Value::Bool(x), Value::Bool(y)) => *x == *y,
        (Value::Null, Value::Null) => true,
        (Value::Text(x), Value::Text(y)) => bytes_eq(x, y),
        (Value::Nat(x), Value::Nat(y)) => *x == *y,
        (Value::Int(x), Value::Int(y)) => *x == *y,
        (Value::Int64(x), Value::Int64(y)) => *x == *y,
        (Value::Principal(x), Value::Principal(y)) => *x == *y,
        _ => false,
    }
}

pub open spec fn matches_at(h: Seq<u8>, n: Seq<u8>, i: int) -> bool {
    0 <= i && i + n.len() <= h.len() && h.subrange(i, i + n.len()) == n
}

pub open spec fn contains_seq(h: Seq<u8>, n: Seq<u8>) -> bool {
    exists|i: int| matches_at(h, n, i)
}

pub fn match_at(h: &Vec<u8>, n: &Vec<u8>, i: usize) -> (r: bool)
    requires
        i + n@.len() <= h@.len(),
    ensures
        r == matches_at(h@, n@, i as int),
{
    let hl: usize = h.len();
    let mut j: usize = 0;
    while j < n.len()
        invariant
            hl == h@.len(),
            i + n@.len() <= h@.len(),
            j <= n@.len(),
            forall|t: int| 0 <= t < j ==> h@[i + t] == n@[t],
        decreases n@.len() - j,
    {
        if h[i + j] != n[j] {
            proof {
                assert(h@.subrange(i as int, i as int + n@.len() as int)[j as int] == h@[i + j]);
            }
            return false;
        }
        j = j + 1;
    }
    proof {
        assert(h@.subrange(i as int, i as int + n@.len() as int) =~= n@);
    }
    true
}

/// Byte-level substring test: does `h` contain `n`?
pub fn contains_bytes(h: &Vec<u8>, n: &Vec<u8>) -> (r: bool)
    ensures
        r == contains_seq(h@, n@),
{
    if n.len() == 0 {
        proof {
            assert(h@.subrange(0, 0) =~= n@);
            assert(matches_at(h@, n@, 0));
        }
        return true;
    }
    if n.len() > h.len() {
        proof {
            assert(forall|i: int| !matches_at(h@, n@, i));
        }
        return false;
    }
    let hl: usize = h.len();
    let nl: usize = n.len();
    let mut i: usize = 0;
    while i <= hl - nl
        invariant
            hl == h@.len(),
            nl == n@.len(),
            1 <= nl <= hl,
            i <= hl - nl + 1,
            forall|j: int| 0 <= j < i ==> !matches_at(h@, n@, j),
        decreases hl - nl - i + 1,
    {
        if match_at(h, n, i) {
            return true;
        }
        i = i + 1;
    }
    proof {
        assert(forall|j: int| !matches_at(h@, n@, j));
    }
    false
}

/// What re-interpreting a value under a target type yields; named, since the
/// protocol's coercion rules live in the typed-value system.
pub uninterp spec fn coerce_of(v: ValueModel, t: VType) -> Option<ValueModel>;

/// What the typed-value system renders a value as.
pub uninterp spec fn rendered_of(v: ValueModel) -> Seq<char>;

/// What decoding bytes as text yields.
pub uninterp spec fn lossy_of(b: Seq<u8>) -> Seq<char>;

#[verifier::external_type_specification]
#[verifier::external_body]
pub struct ExIDLValue(candid::types::value::IDLValue);

#[verifier::external_type_specification]
#[verifier::external_body]
pub struct ExIDLType(candid::types::Type);

/// Glue: this library's value carried into the protocol's value type.
#[verifier::external_body]
fn to_idl(v: &Value) -> candid::types::value::IDLValue {
    match v {
        Value::Bool(b) => IDLValue::Bool(*b),
        Value::Null => IDLValue::Null,
        Value::Text(t) => IDLValue::Text(String::from_utf8_lossy(t).into_owned()),
        Value::Nat(n) => IDLValue::Nat(candid::Nat::from(*n)),
        Value::Int(i) => IDLValue::Int(candid::Int::from(*i)),
        Value::Int64(i) => IDLValue::Int64(*i),
        Value::Principal(p) => match candid::Principal::from_text(p.as_str()) {
            Ok(pr) => IDLValue::Principal(pr),
            Err(_) => IDLValue::Text(p.clone()),
        },
    }
}

/// Glue: a protocol value carried back into this library's model, where it
/// fits.
#[verifier::external_body]
fn from_idl(v: &candid::types::value::IDLValue) -> Option<Value> {
    match v {
        IDLValue::Bool(b) => Some(Value::Bool(*b)),
        IDLValue::Null => Some(Value::Null),
        IDLValue::Text(t) => Some(Value::Text(t.as_bytes().to_vec())),
        IDLValue::Nat(n) => u64::try_from(&n.0).ok().map(Value::Nat),
        IDLValue::Int(i) => i64::try_from(&i.0).ok().map(Value::Int),
        IDLValue::Int64(i) => Some(Value::Int64(*i)),
        IDLValue::Principal(p) => Some(Value::Principal(p.to_text())),
        _ => None,
    }
}

/// Glue: this library's type tag as the protocol's type.
#[verifier::external_body]
fn to_idl_type(t: VType) -> candid::types::Type {
    match t {
        VType::Bool => TypeInner::Bool.into(),
        VType::Null => TypeInner::Null.into(),
        VType::Text => TypeInner::Text.into(),
        VType::Nat => TypeInner::Nat.into(),
        VType::Int => TypeInner::Int.into(),
        VType::Int64 => TypeInner::Int64.into(),
        VType::Principal => TypeInner::Principal.into(),
    }
}

/// Relies on candid's `IDLValue::annotate_type` with an empty type
/// environment: re-interpret a value under a target type. The outcome is a
/// function of the value and the type alone; a result that falls outside
/// this library's value model counts as a failed re-interpretation.
#[verifier::external_body]
fn annotate(v: &Value, t: VType) -> (r: Option<Value>)
    ensures
        match r {
            Some(w) => coerce_of(v@, t) == Some(w@),
            None => coerce_of(v@, t) is None,
        },
{
    let idl = to_idl(v);
    let ty = to_idl_type(t);
    match idl.annotate_type(false, &candid::TypeEnv::new(), &ty) {
        Ok(w) => from_idl(&w),
        Err(_) => None,
    }
}

/// Relies on candid's `Display` for protocol values: the full textual
/// rendering of a value, a function of the value alone.
#[verifier::external_body]
pub(crate) fn value_text(v: &Value) -> (r: String)
    ensures
        r@ == rendered_of(v@),
{
    format!("{}", to_idl(v))
}

/// Relies on std's `String::from_utf8_lossy`: text decoded from bytes, a
/// function of the bytes alone.
#[verifier::external_body]
pub(crate) fn bytes_text(b: &Vec<u8>) -> (r: String)
    ensures
        r@ == lossy_of(b@),
{
    String::from_utf8_lossy(b).into_owned()
}

/// The coercive-equality protocol: textual values compare by substring
/// (right within left); otherwise the left value is re-interpreted under the
/// right's type, then the right under the left's, and failing both the raw
/// values compare structurally. The order of the two coercion attempts is
/// part of the protocol and must not be swapped.
pub open spec fn subeq_model(l: ValueModel, r: ValueModel) -> bool {
    match (l, r) {
        (ValueModel::Text(lt), ValueModel::Text(rt)) => contains_seq(lt, rt),
        _ => match coerce_of(l, type_of(r)) {
            Some(lc) => lc == r,
            None => match coerce_of(r, type_of(l)) {
                Some(rc) => l == rc,
                None => l == r,
            },
        },
    }
}

/// Coercive ("approximate") equality of two evaluated values.
pub fn sub_equal(l: &Value, r: &Value) -> (res: bool)
    ensures
        res == subeq_model(l@, r@),
{
    match (l, r) {
        (Value::Text(lt), Value::Text(rt)) => contains_bytes(lt, rt),
        _ => match annotate(l, value_ty(r)) {
            Some(lc) => values_equal(&lc, r),
            None => match annotate(r, value_ty(l)) {
                Some(rc) => values_equal(l, &rc),
                None => values_equal(l, r),
            },
        },
    }
}

} // verus!
