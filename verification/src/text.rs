//! Building the texts of problem reports.
use vstd::prelude::*;
use vstd::string::StringExecFns;
use crate::value::{Value, ValueView, lemma_view_values, view_value, view_values};

verus! {

/// The digit that writes `d`.
pub open spec fn digit(d: nat) -> char {
    if d == 0 { '0' } else if d == 1 { '1' } else if d == 2 { '2' } else if d == 3 { '3' }
    else if d == 4 { '4' } else if d == 5 { '5' } else if d == 6 { '6' } else if d == 7 { '7' }
    else if d == 8 { '8' } else { '9' }
}

/// A number written in decimal, without leading zeros.
pub open spec fn decimal(n: nat) -> Seq<char>
    decreases n,
{
    if n < 10 {
        seq![digit(n)]
    } else {
        decimal(n / 10) + seq![digit(n % 10)]
    }
}

fn digit_str(d: u32) -> (r: &'static str)
    requires
        d < 10,
    ensures
        r@ == seq![digit(d as nat)],
{
    if d == 0 {
        proof { reveal_strlit("0"); }
        assert("0"@ =~= seq!['0']);
        "0"
    } else if d == 1 {
        proof { reveal_strlit("1"); }
        assert("1"@ =~= seq!['1']);
        "1"
    } else if d == 2 {
        proof { reveal_strlit("2"); }
        assert("2"@ =~= seq!['2']);
        "2"
    } else if d == 3 {
        proof { reveal_strlit("3"); }
        assert("3"@ =~= seq!['3']);
        "3"
    } else if d == 4 {
        proof { reveal_strlit("4"); }
        assert("4"@ =~= seq!['4']);
        "4"
    } else if d == 5 {
        proof { reveal_strlit("5"); }
        assert("5"@ =~= seq!['5']);
        "5"
    } else if d == 6 {
        proof { reveal_strlit("6"); }
        assert("6"@ =~= seq!['6']);
        "6"
    } else if d == 7 {
        proof { reveal_strlit("7"); }
        assert("7"@ =~= seq!['7']);
        "7"
    } else if d == 8 {
        proof { reveal_strlit("8"); }
        assert("8"@ =~= seq!['8']);
        "8"
    } else {
        proof { reveal_strlit("9"); }
        assert("9"@ =~= seq!['9']);
        "9"
    }
}

/// Appends `n` written in decimal.
pub fn push_decimal(s: &mut String, n: u32)
    ensures
        final(s)@ == old(s)@ + decimal(n as nat),
    decreases n,
{
    if n >= 10 {
        push_decimal(s, n / 10);
    }
    s.append(digit_str(n % 10));
    assert(final(s)@ =~= old(s)@ + decimal(n as nat));
}

/// The text of `a` followed by that of `b`.
pub fn concat(a: &str, b: &str) -> (r: String)
    ensures
        r@ == a@ + b@,
{
    let mut s = a.to_owned();
    s.append(b);
    s
}

/// A number written in decimal with a minus sign where it is negative.
pub open spec fn signed_decimal(i: int) -> Seq<char> {
    if i < 0 {
        "-"@ + decimal((-i) as nat)
    } else {
        decimal(i as nat)
    }
}

/// Appends `i` written in decimal, with a minus sign where it is negative.
pub fn push_signed(s: &mut String, i: i32)
    ensures
        final(s)@ == old(s)@ + signed_decimal(i as int),
{
    if i < 0 {
        s.append("-");
        let m: i64 = 0i64 - (i as i64);
        push_decimal(s, m as u32);
        assert(final(s)@ =~= old(s)@ + signed_decimal(i as int));
    } else {
        push_decimal(s, i as u32);
    }
}

/// The text that `Debug` writes for a string: in double quotes, with the
/// characters that need it escaped.
pub uninterp spec fn str_debug(s: Seq<char>) -> Seq<char>;

/// `format!("{:?}", ..)` on a string: the claim is only that the text is
/// the one named `str_debug` of the string.
#[verifier::external_body]
fn debug_str(s: &str) -> (r: String)
    ensures
        r@ == str_debug(s@),
{
    format!("{:?}", s)
}

/// How a value is written in a report, as `Debug` lays out its variants:
/// the variant's name and its contents in brackets, the members of a list
/// in square brackets with a comma and a space between them, and a string
/// quoted. A `Float` is written by the bit pattern it is held as.
pub open spec fn value_debug(v: ValueView) -> Seq<char>
    decreases v, 0nat,
{
    match v {
        ValueView::Bool(b) => "Bool("@ + (if b {
            "true"@
        } else {
            "false"@
        }) + ")"@,
        ValueView::Int(i) => "Int("@ + signed_decimal(i as int) + ")"@,
        ValueView::UInt(u) => "UInt("@ + decimal(u as nat) + ")"@,
        ValueView::Float(b) => "Float("@ + decimal(b as nat) + ")"@,
        ValueView::Vec(items) => "Vec(["@ + values_debug(items) + "])"@,
        ValueView::String(t) => "String("@ + str_debug(t) + ")"@,
    }
}

/// The members of a list as a report writes them, a comma and a space
/// between each two.
pub open spec fn values_debug(s: Seq<ValueView>) -> Seq<char>
    decreases s, 1nat,
{
    if s.len() == 0 {
        Seq::empty()
    } else if s.len() == 1 {
        value_debug(s[0])
    } else {
        values_debug(s.drop_last()) + ", "@ + value_debug(s.last())
    }
}

impl Value {
    /// How the value is written in a report (see `value_debug`).
    pub fn debug_text(&self) -> (r: String)
        ensures
            r@ == value_debug(self@),
        decreases self,
    {
        match self {
            Value::Bool(b) => {
                let mut r = "Bool(".to_owned();
                if *b {
                    r.append("true");
                } else {
                    r.append("false");
                }
                r.append(")");
                r
            },
            Value::Int(i) => {
                let mut r = "Int(".to_owned();
                push_signed(&mut r, *i);
                r.append(")");
                r
            },
            Value::UInt(u) => {
                let mut r = "UInt(".to_owned();
                push_decimal(&mut r, *u);
                r.append(")");
                r
            },
            Value::Float(b) => {
                let mut r = "Float(".to_owned();
                push_decimal(&mut r, *b);
                r.append(")");
                r
            },
            Value::String(t) => {
                let mut r = "String(".to_owned();
                let q = debug_str(t.as_str());
                r.append(q.as_str());
                r.append(")");
                r
            },
            Value::Vec(items) => {
                proof {
                    lemma_view_values(items@);
                }
                let ghost vs = view_values(items@);
                let mut body = String::new();
                let mut i: usize = 0;
                assert(vs.take(0) =~= Seq::<ValueView>::empty());
                while i < items.len()
                    invariant
                        0 <= i <= items.len(),
                        *self == Value::Vec(*items),
                        vs == view_values(items@),
                        vs.len() == items.len(),
                        forall|k: int| 0 <= k < items.len() ==> #[trigger] vs[k] == view_value(items@[k]),
                        body@ == values_debug(vs.take(i as int)),
                    decreases items.len() - i,
                {
                    proof {
                        assert(*self is Vec && (*self)->Vec_0 == *items);
                        assert(decreases_to!(*self => (*self)->Vec_0));
                        assert(decreases_to!(*items => items@));
                        assert(decreases_to!(items@ => items@[i as int]));
                    }
                    let t = items[i].debug_text();
                    let ghost before = body@;
                    if i > 0 {
                        body.append(", ");
                    }
                    body.append(t.as_str());
                    proof {
                        let p = vs.take(i + 1);
                        assert(p.drop_last() =~= vs.take(i as int));
                        assert(p.last() == vs[i as int]);
                        if i == 0 {
                            assert(body@ =~= values_debug(p));
                        } else {
                            assert(body@ =~= values_debug(p));
                        }
                    }
                    i = i + 1;
                }
                assert(vs.take(items.len() as int) =~= vs);
                let mut r = "Vec([".to_owned();
                r.append(body.as_str());
                r.append("])");
                r
            },
        }
    }
}

} // verus!
