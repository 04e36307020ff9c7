//! The JSON document model used by the configuration files, with the
//! accessors the configuration records read it through.
use vstd::prelude::*;

verus! {

/// A JSON number as the `json` crate stores it: a sign, an integer mantissa
/// and a decimal exponent (the value is `±mantissa * 10^exponent`).
#[derive(Clone, Copy, Debug, PartialEq, Eq, Structural)]
pub struct JsonNumber {
    pub positive: bool,
    pub mantissa: u64,
    pub exponent: i16,
}

/// A JSON document. Object members keep their order.
pub enum JsonNode {
    Null,
    Bool(bool),
    Number(JsonNumber),
    Str(String),
    Array(Vec<JsonNode>),
    Object(Vec<(String, JsonNode)>),
}

/// The mathematical model of a JSON document.
pub enum Json {
    Null,
    Bool(bool),
    Number(JsonNumber),
    Str(Seq<char>),
    Array(Seq<Json>),
    Object(Seq<(Seq<char>, Json)>),
}

pub open spec fn view_node(n: JsonNode) -> Json
    decreases n, 0nat,
{
    match n {
        JsonNode::Null => Json::Null,
        JsonNode::Bool(b) => Json::Bool(b),
        JsonNode::Number(x) => Json::Number(x),
        JsonNode::Str(s) => Json::Str(s@),
        JsonNode::Array(v) => Json::Array(view_nodes(v@)),
        JsonNode::Object(f) => Json::Object(view_fields(f@)),
    }
}

pub open spec fn view_nodes(s: Seq<JsonNode>) -> Seq<Json>
    decreases s, 1nat,
{
    if s.len() == 0 {
        Seq::empty()
    } else {
        seq![view_node(s[0])] + view_nodes(s.drop_first())
    }
}

pub open spec fn view_fields(s: Seq<(String, JsonNode)>) -> Seq<(Seq<char>, Json)>
    decreases s, 1nat,
{
    if s.len() == 0 {
        Seq::empty()
    } else {
        seq![(s[0].0@, view_node(s[0].1))] + view_fields(s.drop_first())
    }
}

impl View for JsonNode {
    type V = Json;

    open spec fn view(&self) -> Json {
        view_node(*self)
    }
}

pub proof fn lemma_view_nodes(s: Seq<JsonNode>)
    ensures
        view_nodes(s).len() == s.len(),
        forall|i: int| 0 <= i < s.len() ==> #[trigger] view_nodes(s)[i] == view_node(s[i]),
    decreases s.len(),
{
    if s.len() > 0 {
        lemma_view_nodes(s.drop_first());
        assert forall|i: int| 0 <= i < s.len() implies #[trigger] view_nodes(s)[i] == view_node(
            s[i],
        ) by {
            if i > 0 {
                assert(s.drop_first()[i - 1] == s[i]);
            }
        }
    }
}

pub proof fn lemma_view_fields(s: Seq<(String, JsonNode)>)
    ensures
        view_fields(s).len() == s.len(),
        forall|i: int|
            0 <= i < s.len() ==> #[trigger] view_fields(s)[i] == (s[i].0@, view_node(s[i].1)),
    decreases s.len(),
{
    if s.len() > 0 {
        lemma_view_fields(s.drop_first());
        assert forall|i: int| 0 <= i < s.len() implies #[trigger] view_fields(s)[i] == (
            s[i].0@,
            view_node(s[i].1),
        ) by {
            if i > 0 {
                assert(s.drop_first()[i - 1] == s[i]);
            }
        }
    }
}


pub proof fn lemma_view_nodes_push(s: Seq<JsonNode>, x: JsonNode)
    ensures
        view_nodes(s.push(x)) == view_nodes(s).push(view_node(x)),
{
    lemma_view_nodes(s);
    lemma_view_nodes(s.push(x));
    assert(view_nodes(s.push(x)) =~= view_nodes(s).push(view_node(x))) by {
        assert forall|i: int| 0 <= i < s.len() implies view_nodes(s.push(x))[i] == view_nodes(
            s,
        )[i] by {
            assert(s.push(x)[i] == s[i]);
        }
        assert(s.push(x)[s.len() as int] == x);
    }
}

pub proof fn lemma_view_fields_push(s: Seq<(String, JsonNode)>, x: (String, JsonNode))
    ensures
        view_fields(s.push(x)) == view_fields(s).push((x.0@, view_node(x.1))),
{
    lemma_view_fields(s);
    lemma_view_fields(s.push(x));
    assert(view_fields(s.push(x)) =~= view_fields(s).push((x.0@, view_node(x.1)))) by {
        assert forall|i: int| 0 <= i < s.len() implies view_fields(s.push(x))[i]
            == view_fields(s)[i] by {
            assert(s.push(x)[i] == s[i]);
        }
        assert(s.push(x)[s.len() as int] == x);
    }
}

/// `lookup` gives `Null` when no member has the key.
pub proof fn lemma_lookup_absent(f: Seq<(Seq<char>, Json)>, key: Seq<char>)
    requires
        forall|j: int| 0 <= j < f.len() ==> #[trigger] f[j].0 != key,
    ensures
        lookup(f, key) == Json::Null,
    decreases f.len(),
{
    if f.len() > 0 {
        assert(f[0].0 != key);
        let g = f.drop_first();
        assert forall|j: int| 0 <= j < g.len() implies #[trigger] g[j].0 != key by {
            assert(g[j] == f[j + 1]);
        }
        lemma_lookup_absent(g, key);
    }
}

/// `lookup` finds the member at `i` when no earlier member has its key.
pub proof fn lemma_lookup_at(f: Seq<(Seq<char>, Json)>, key: Seq<char>, i: int)
    requires
        0 <= i < f.len(),
        f[i].0 == key,
        forall|j: int| 0 <= j < i ==> #[trigger] f[j].0 != key,
    ensures
        lookup(f, key) == f[i].1,
    decreases i,
{
    if i > 0 {
        assert(f[0].0 != key);
        let g = f.drop_first();
        assert forall|j: int| 0 <= j < i - 1 implies #[trigger] g[j].0 != key by {
            assert(g[j] == f[j + 1]);
        }
        assert(g[i - 1] == f[i]);
        lemma_lookup_at(g, key, i - 1);
    }
}

/// The values that `f` gives for the members of `s`, in order, leaving out
/// the members it gives none for (an iterator's `filter_map`).
pub open spec fn keep_some<A>(s: Seq<Json>, f: spec_fn(Json) -> Option<A>) -> Seq<A>
    decreases s.len(),
{
    if s.len() == 0 {
        Seq::empty()
    } else {
        let rest = keep_some(s.drop_last(), f);
        match f(s.last()) {
            Some(a) => rest.push(a),
            None => rest,
        }
    }
}

pub proof fn lemma_keep_some_step<A>(s: Seq<Json>, f: spec_fn(Json) -> Option<A>, i: int)
    requires
        0 <= i < s.len(),
    ensures
        keep_some(s.take(i + 1), f) == (match f(s[i]) {
            Some(a) => keep_some(s.take(i), f).push(a),
            None => keep_some(s.take(i), f),
        }),
{
    assert(s.take(i + 1).drop_last() =~= s.take(i));
    assert(s.take(i + 1).last() == s[i]);
}

/// Reading back what `h` writes gives every item again.
pub proof fn lemma_keep_some_inverse<A>(
    t: Seq<A>,
    h: spec_fn(A) -> Json,
    f: spec_fn(Json) -> Option<A>,
)
    requires
        forall|x: A| #[trigger] f(h(x)) == Some(x),
    ensures
        keep_some(t.map_values(h), f) == t,
    decreases t.len(),
{
    if t.len() > 0 {
        lemma_keep_some_inverse(t.drop_last(), h, f);
        assert(t.map_values(h).drop_last() =~= t.drop_last().map_values(h));
        assert(t.map_values(h).last() == h(t.last()));
        assert(f(h(t.last())) == Some(t.last()));
        assert(t.drop_last().push(t.last()) =~= t);
    }
}

/// Reading back what `h` writes gives nothing when `f` refuses all of it.
pub proof fn lemma_keep_some_none<A, B>(
    t: Seq<B>,
    h: spec_fn(B) -> Json,
    f: spec_fn(Json) -> Option<A>,
)
    requires
        forall|x: B| #[trigger] f(h(x)) is None,
    ensures
        keep_some(t.map_values(h), f) == Seq::<A>::empty(),
    decreases t.len(),
{
    if t.len() > 0 {
        lemma_keep_some_none(t.drop_last(), h, f);
        assert(t.map_values(h).drop_last() =~= t.drop_last().map_values(h));
        assert(t.map_values(h).last() == h(t.last()));
    }
}

/// The value of the first member named `key`, or `Null` when there is none
/// (what indexing an object by a key gives in the `json` crate).
pub open spec fn lookup(fields: Seq<(Seq<char>, Json)>, key: Seq<char>) -> Json
    decreases fields.len(),
{
    if fields.len() == 0 {
        Json::Null
    } else if fields[0].0 == key {
        fields[0].1
    } else {
        lookup(fields.drop_first(), key)
    }
}

/// Two's complement reading of a mantissa as a 64-bit signed integer.
pub open spec fn wrap_i64(m: u64) -> int {
    if m < 0x8000_0000_0000_0000 {
        m as int
    } else {
        m - 0x1_0000_0000_0000_0000
    }
}

impl JsonNumber {
    /// The number as an unsigned integer: only non-negative numbers without
    /// exponent have one.
    pub open spec fn spec_as_u64(self) -> Option<u64> {
        if self.positive && self.exponent == 0 {
            Some(self.mantissa)
        } else {
            None
        }
    }

    /// The number as a signed 64-bit integer: the mantissa read as `i64`,
    /// negated for negative numbers (the most negative value stays itself).
    pub open spec fn spec_as_i64(self) -> Option<int> {
        if self.exponent != 0 {
            None
        } else {
            let m = wrap_i64(self.mantissa);
            if self.positive {
                Some(m)
            } else if m == -0x8000_0000_0000_0000 {
                Some(m)
            } else {
                Some(-m)
            }
        }
    }

    /// The number that an unsigned integer becomes.
    pub open spec fn of_unsigned(n: u64) -> JsonNumber {
        JsonNumber { positive: true, mantissa: n, exponent: 0 }
    }

    /// The number that a signed integer becomes.
    pub open spec fn of_signed(n: int) -> JsonNumber {
        if n < 0 {
            JsonNumber { positive: false, mantissa: (-n) as u64, exponent: 0 }
        } else {
            JsonNumber { positive: true, mantissa: n as u64, exponent: 0 }
        }
    }

    pub fn from_u64(n: u64) -> (r: JsonNumber)
        ensures
            r == JsonNumber::of_unsigned(n),
    {
        JsonNumber { positive: true, mantissa: n, exponent: 0 }
    }

    /// The number that a signed integer becomes; the most negative `i64`
    /// has no magnitude in range and is left out.
    pub fn from_i64(n: i64) -> (r: JsonNumber)
        requires
            n != i64::MIN,
        ensures
            r == JsonNumber::of_signed(n as int),
    {
        if n < 0 {
            let m: i64 = -n;
            JsonNumber { positive: false, mantissa: m as u64, exponent: 0 }
        } else {
            JsonNumber { positive: true, mantissa: n as u64, exponent: 0 }
        }
    }

    pub fn as_u64(&self) -> (r: Option<u64>)
        ensures
            r == self.spec_as_u64(),
    {
        if self.positive && self.exponent == 0 {
            Some(self.mantissa)
        } else {
            None
        }
    }

    pub fn as_i64(&self) -> (r: Option<i64>)
        ensures
            match r {
                Some(v) => self.spec_as_i64() == Some(v as int),
                None => self.spec_as_i64() is None,
            },
    {
        if self.exponent != 0 {
            return None;
        }
        let m: i128 = if self.mantissa < 0x8000_0000_0000_0000 {
            self.mantissa as i128
        } else {
            self.mantissa as i128 - 0x1_0000_0000_0000_0000
        };
        let v: i128 = if self.positive {
            m
        } else if m == -0x8000_0000_0000_0000 {
            m
        } else {
            -m
        };
        Some(v as i64)
    }
}

impl Json {
    /// Indexing by a key: the member's value on an object, `Null` otherwise.
    pub open spec fn field(self, key: Seq<char>) -> Json {
        match self {
            Json::Object(f) => lookup(f, key),
            _ => Json::Null,
        }
    }

    pub open spec fn as_str(self) -> Option<Seq<char>> {
        match self {
            Json::Str(s) => Some(s),
            _ => None,
        }
    }

    pub open spec fn as_bool(self) -> Option<bool> {
        match self {
            Json::Bool(b) => Some(b),
            _ => None,
        }
    }

    pub open spec fn as_u64(self) -> Option<u64> {
        match self {
            Json::Number(n) => n.spec_as_u64(),
            _ => None,
        }
    }

    pub open spec fn as_u8(self) -> Option<u8> {
        match self.as_u64() {
            Some(m) => if m <= u8::MAX {
                Some(m as u8)
            } else {
                None
            },
            None => None,
        }
    }

    pub open spec fn as_u32(self) -> Option<u32> {
        match self.as_u64() {
            Some(m) => if m <= u32::MAX {
                Some(m as u32)
            } else {
                None
            },
            None => None,
        }
    }

    pub open spec fn as_i64(self) -> Option<int> {
        match self {
            Json::Number(n) => n.spec_as_i64(),
            _ => None,
        }
    }

    pub open spec fn as_i8(self) -> Option<i8> {
        match self.as_i64() {
            Some(v) => if i8::MIN <= v <= i8::MAX {
                Some(v as i8)
            } else {
                None
            },
            None => None,
        }
    }

    pub open spec fn as_i32(self) -> Option<i32> {
        match self.as_i64() {
            Some(v) => if i32::MIN <= v <= i32::MAX {
                Some(v as i32)
            } else {
                None
            },
            None => None,
        }
    }

    pub open spec fn is_object(self) -> bool {
        self is Object
    }

    /// The members of an array; nothing for any other value.
    pub open spec fn members(self) -> Seq<Json> {
        match self {
            Json::Array(a) => a,
            _ => Seq::empty(),
        }
    }

    /// The members of an object; nothing for any other value.
    pub open spec fn entries(self) -> Seq<(Seq<char>, Json)> {
        match self {
            Json::Object(f) => f,
            _ => Seq::empty(),
        }
    }
}

impl JsonNode {
    /// The member named `key` of an object (the first one, should there be
    /// several); `None` where indexing gives `Null` because there is none.
    pub fn get(&self, key: &str) -> (r: Option<&JsonNode>)
        ensures
            match r {
                Some(n) => n@ == self@.field(key@),
                None => self@.field(key@) == Json::Null,
            },
    {
        match self {
            JsonNode::Object(fields) => {
                let k = key.to_owned();
                let ghost fv = view_fields(fields@);
                proof {
                    lemma_view_fields(fields@);
                    assert(fv.skip(0) =~= fv);
                }
                let mut i: usize = 0;
                while i < fields.len()
                    invariant
                        0 <= i <= fields.len(),
                        k@ == key@,
                        fv == view_fields(fields@),
                        fv.len() == fields.len(),
                        forall|j: int|
                            0 <= j < fields.len() ==> #[trigger] fv[j] == (
                                fields@[j].0@,
                                view_node(fields@[j].1),
                            ),
                        self@ == Json::Object(fv),
                        lookup(fv, key@) == lookup(fv.skip(i as int), key@),
                    decreases fields.len() - i,
                {
                    assert(fv.skip(i as int)[0] == fv[i as int]);
                    if fields[i].0 == k {
                        return Some(&fields[i].1);
                    }
                    assert(fv.skip(i as int).drop_first() =~= fv.skip(i + 1));
                    i = i + 1;
                }
                None
            },
            _ => None,
        }
    }

    pub fn as_string(&self) -> (r: Option<String>)
        ensures
            match r {
                Some(s) => self@.as_str() == Some(s@),
                None => self@.as_str() is None,
            },
    {
        match self {
            JsonNode::Str(s) => Some(s.clone()),
            _ => None,
        }
    }

    pub fn as_bool(&self) -> (r: Option<bool>)
        ensures
            r == self@.as_bool(),
    {
        match self {
            JsonNode::Bool(b) => Some(*b),
            _ => None,
        }
    }

    pub fn as_u64(&self) -> (r: Option<u64>)
        ensures
            r == self@.as_u64(),
    {
        match self {
            JsonNode::Number(n) => n.as_u64(),
            _ => None,
        }
    }

    pub fn as_u8(&self) -> (r: Option<u8>)
        ensures
            r == self@.as_u8(),
    {
        match self.as_u64() {
            Some(m) => if m <= 255 {
                Some(m as u8)
            } else {
                None
            },
            None => None,
        }
    }

    pub fn as_u32(&self) -> (r: Option<u32>)
        ensures
            r == self@.as_u32(),
    {
        match self.as_u64() {
            Some(m) => if m <= 0xffff_ffff {
                Some(m as u32)
            } else {
                None
            },
            None => None,
        }
    }

    pub fn as_i8(&self) -> (r: Option<i8>)
        ensures
            r == self@.as_i8(),
    {
        match self {
            JsonNode::Number(n) => match n.as_i64() {
                Some(v) => if -128 <= v && v <= 127 {
                    Some(v as i8)
                } else {
                    None
                },
                None => None,
            },
            _ => None,
        }
    }

    pub fn as_i32(&self) -> (r: Option<i32>)
        ensures
            r == self@.as_i32(),
    {
        match self {
            JsonNode::Number(n) => match n.as_i64() {
                Some(v) => if -0x8000_0000 <= v && v <= 0x7fff_ffff {
                    Some(v as i32)
                } else {
                    None
                },
                None => None,
            },
            _ => None,
        }
    }

    pub fn is_object(&self) -> (r: bool)
        ensures
            r == self@.is_object(),
    {
        match self {
            JsonNode::Object(_) => true,
            _ => false,
        }
    }

    /// The members of an array, `None` for any other value.
    pub fn as_array(&self) -> (r: Option<&Vec<JsonNode>>)
        ensures
            match r {
                Some(v) => self@ == Json::Array(view_nodes(v@)),
                None => !(self@ is Array) && self@.members() == Seq::<Json>::empty(),
            },
    {
        match self {
            JsonNode::Array(v) => Some(v),
            _ => None,
        }
    }

    /// The members of an object, `None` for any other value.
    pub fn as_object(&self) -> (r: Option<&Vec<(String, JsonNode)>>)
        ensures
            match r {
                Some(f) => self@ == Json::Object(view_fields(f@)),
                None => self@.entries() == Seq::<(Seq<char>, Json)>::empty() && !self@.is_object(),
            },
    {
        match self {
            JsonNode::Object(f) => Some(f),
            _ => None,
        }
    }

    pub fn str_field(&self, key: &str) -> (r: Option<String>)
        ensures
            match r {
                Some(s) => self@.field(key@).as_str() == Some(s@),
                None => self@.field(key@).as_str() is None,
            },
    {
        match self.get(key) {
            Some(n) => n.as_string(),
            None => None,
        }
    }

    pub fn bool_field(&self, key: &str) -> (r: Option<bool>)
        ensures
            r == self@.field(key@).as_bool(),
    {
        match self.get(key) {
            Some(n) => n.as_bool(),
            None => None,
        }
    }

    pub fn u8_field(&self, key: &str) -> (r: Option<u8>)
        ensures
            r == self@.field(key@).as_u8(),
    {
        match self.get(key) {
            Some(n) => n.as_u8(),
            None => None,
        }
    }

    pub fn i8_field(&self, key: &str) -> (r: Option<i8>)
        ensures
            r == self@.field(key@).as_i8(),
    {
        match self.get(key) {
            Some(n) => n.as_i8(),
            None => None,
        }
    }

    pub fn i32_field(&self, key: &str) -> (r: Option<i32>)
        ensures
            r == self@.field(key@).as_i32(),
    {
        match self.get(key) {
            Some(n) => n.as_i32(),
            None => None,
        }
    }

    /// The members of the array stored under `key` (none when it is absent
    /// or not an array).
    pub fn array_field(&self, key: &str) -> (r: Option<&Vec<JsonNode>>)
        ensures
            match r {
                Some(v) => self@.field(key@) == Json::Array(view_nodes(v@)),
                None => self@.field(key@).members() == Seq::<Json>::empty(),
            },
    {
        match self.get(key) {
            Some(n) => n.as_array(),
            None => None,
        }
    }
}

/// Appends a member to an object under construction.
pub fn push_field(fields: &mut Vec<(String, JsonNode)>, key: &str, value: JsonNode)
    ensures
        view_fields(final(fields)@) == view_fields(old(fields)@).push((key@, value@)),
{
    let k = key.to_owned();
    let ghost x = (k, value);
    proof {
        lemma_view_fields_push(fields@, x);
    }
    fields.push((k, value));
}

} // verus!
