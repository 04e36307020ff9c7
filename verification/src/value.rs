//! Values of the engine's variables.
use vstd::prelude::*;
use crate::resource::RustConstructorResource;

verus! {

/// The value of a variable. A `Float` is held as the bit pattern of the
/// `f32` (`f32::to_bits`), which the engine only stores and hands back.
#[derive(Debug)]
pub enum Value {
    Bool(bool),
    Int(i32),
    UInt(u32),
    Float(u32),
    Vec(Vec<Value>),
    String(String),
}

pub enum ValueView {
    Bool(bool),
    Int(i32),
    UInt(u32),
    Float(u32),
    Vec(Seq<ValueView>),
    String(Seq<char>),
}

pub open spec fn view_value(v: Value) -> ValueView
    decreases v, 0nat,
{
    match v {
        Value::Bool(b) => ValueView::Bool(b),
        Value::Int(i) => ValueView::Int(i),
        Value::UInt(u) => ValueView::UInt(u),
        Value::Float(f) => ValueView::Float(f),
        Value::Vec(v) => ValueView::Vec(view_values(v@)),
        Value::String(s) => ValueView::String(s@),
    }
}

pub open spec fn view_values(s: Seq<Value>) -> Seq<ValueView>
    decreases s, 1nat,
{
    if s.len() == 0 {
        Seq::empty()
    } else {
        seq![view_value(s[0])] + view_values(s.drop_first())
    }
}

impl View for Value {
    type V = ValueView;

    open spec fn view(&self) -> ValueView {
        view_value(*self)
    }
}

pub proof fn lemma_view_values(s: Seq<Value>)
    ensures
        view_values(s).len() == s.len(),
        forall|i: int| 0 <= i < s.len() ==> #[trigger] view_values(s)[i] == view_value(s[i]),
    decreases s.len(),
{
    if s.len() > 0 {
        lemma_view_values(s.drop_first());
        assert forall|i: int| 0 <= i < s.len() implies #[trigger] view_values(s)[i]
            == view_value(s[i]) by {
            if i > 0 {
                assert(s.drop_first()[i - 1] == s[i]);
            }
        }
    }
}

impl Value {
    /// A copy of the value.
    pub fn duplicate(&self) -> (r: Value)
        ensures
            r@ == self@,
        decreases self,
    {
        match self {
            Value::Bool(b) => Value::Bool(*b),
            Value::Int(i) => Value::Int(*i),
            Value::UInt(u) => Value::UInt(*u),
            Value::Float(f) => Value::Float(*f),
            Value::String(s) => Value::String(s.clone()),
            Value::Vec(v) => Value::Vec(duplicate_values(v)),
        }
    }
}

/// A copy of a list of values.
pub fn duplicate_values(v: &Vec<Value>) -> (r: Vec<Value>)
    ensures
        view_values(r@) == view_values(v@),
    decreases v, 0nat,
{
    proof {
        lemma_view_values(v@);
    }
    let mut out: Vec<Value> = Vec::new();
    let mut i: usize = 0;
    while i < v.len()
        invariant
            0 <= i <= v.len(),
            out.len() == i,
            view_values(v@).len() == v.len(),
            forall|j: int| 0 <= j < v.len() ==> #[trigger] view_values(v@)[j] == view_value(v@[j]),
            forall|j: int| 0 <= j < i ==> #[trigger] view_value(out@[j]) == view_value(v@[j]),
        decreases v.len() - i,
    {
        assert(decreases_to!(v => v@[i as int]));
        let x = v[i].duplicate();
        out.push(x);
        i = i + 1;
    }
    proof {
        lemma_view_values(out@);
        assert(view_values(out@) =~= view_values(v@));
    }
    out
}

impl From<bool> for Value {
    fn from(b: bool) -> (r: Value) {
        Value::Bool(b)
    }
}

impl vstd::std_specs::convert::FromSpecImpl<bool> for Value {
    open spec fn obeys_from_spec() -> bool {
        true
    }

    open spec fn from_spec(b: bool) -> Value {
        Value::Bool(b)
    }
}

impl From<i32> for Value {
    fn from(i: i32) -> (r: Value) {
        Value::Int(i)
    }
}

impl vstd::std_specs::convert::FromSpecImpl<i32> for Value {
    open spec fn obeys_from_spec() -> bool {
        true
    }

    open spec fn from_spec(i: i32) -> Value {
        Value::Int(i)
    }
}

impl From<u32> for Value {
    fn from(u: u32) -> (r: Value) {
        Value::UInt(u)
    }
}

impl vstd::std_specs::convert::FromSpecImpl<u32> for Value {
    open spec fn obeys_from_spec() -> bool {
        true
    }

    open spec fn from_spec(u: u32) -> Value {
        Value::UInt(u)
    }
}

impl From<String> for Value {
    fn from(s: String) -> (r: Value) {
        Value::String(s)
    }
}

impl vstd::std_specs::convert::FromSpecImpl<String> for Value {
    open spec fn obeys_from_spec() -> bool {
        true
    }

    open spec fn from_spec(s: String) -> Value {
        Value::String(s)
    }
}

impl From<Vec<Value>> for Value {
    fn from(v: Vec<Value>) -> (r: Value) {
        Value::Vec(v)
    }
}

impl vstd::std_specs::convert::FromSpecImpl<Vec<Value>> for Value {
    open spec fn obeys_from_spec() -> bool {
        true
    }

    open spec fn from_spec(v: Vec<Value>) -> Value {
        Value::Vec(v)
    }
}

/// A named variable.
#[derive(Debug)]
pub struct Variable {
    pub discern_type: String,
    pub name: String,
    pub value: Value,
}

impl RustConstructorResource for Variable {
    open spec fn spec_name(&self) -> Seq<char> {
        self.name@
    }

    open spec fn spec_expose_type(&self) -> Seq<char> {
        self.discern_type@
    }

    fn name(&self) -> (r: &str) {
        self.name.as_str()
    }

    fn expose_type(&self) -> (r: &str) {
        self.discern_type.as_str()
    }
}

} // verus!
