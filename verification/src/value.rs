//! Column values as the library holds them.

use vstd::prelude::*;

verus! {

#[verifier::external_type_specification]
#[verifier::external_body]
pub struct ExBigInt(num::BigInt);

/// A decoded column value. Floating-point columns hold their IEEE-754 bit
/// patterns (`Cqlf32` the 32-bit pattern, `Cqlf64` the 64-bit one).
#[derive(Debug)]
pub enum Cql {
    CqlString(Option<String>),
    Cqli32(Option<i32>),
    Cqli64(Option<i64>),
    CqlBlob(Option<Vec<u8>>),
    CqlBool(Option<bool>),
    CqlCounter(Option<u64>),
    Cqlf32(Option<u32>),
    Cqlf64(Option<u64>),
    CqlTimestamp(u64),
    CqlBigint(num::BigInt),
    CqlList(Option<Vec<Cql>>),
    CqlUnknown,
}

/// The mathematical value of a column value.
pub enum CqlV {
    Str(Option<Seq<char>>),
    I32(Option<i32>),
    I64(Option<i64>),
    Blob(Option<Seq<u8>>),
    Bool(Option<bool>),
    Counter(Option<u64>),
    F32(Option<u32>),
    F64(Option<u64>),
    Timestamp(u64),
    Bigint(num::BigInt),
    List(Option<Seq<CqlV>>),
    Unknown,
}

pub open spec fn str_opt_view(o: Option<String>) -> Option<Seq<char>> {
    match o {
        Some(s) => Some(s@),
        None => None,
    }
}

impl Cql {
    pub open spec fn value(self) -> CqlV
        decreases self,
    {
        match self {
            Cql::CqlString(s) => CqlV::Str(str_opt_view(s)),
            Cql::Cqli32(v) => CqlV::I32(v),
            Cql::Cqli64(v) => CqlV::I64(v),
            Cql::CqlBlob(b) => CqlV::Blob(match b { Some(b) => Some(b@), None => None }),
            Cql::CqlBool(v) => CqlV::Bool(v),
            Cql::CqlCounter(v) => CqlV::Counter(v),
            Cql::Cqlf32(v) => CqlV::F32(v),
            Cql::Cqlf64(v) => CqlV::F64(v),
            Cql::CqlTimestamp(v) => CqlV::Timestamp(v),
            Cql::CqlBigint(b) => CqlV::Bigint(b),
            Cql::CqlList(l) => CqlV::List(match l {
                Some(v) => Some(Cql::values_of(v@)),
                None => None,
            }),
            Cql::CqlUnknown => CqlV::Unknown,
        }
    }

    /// The values of a sequence of column values, in order.
    pub open spec fn values_of(s: Seq<Cql>) -> Seq<CqlV>
        decreases s,
    {
        if s.len() == 0 {
            Seq::empty()
        } else {
            Cql::values_of(s.drop_last()).push(s.last().value())
        }
    }
}

/// `<num::BigInt as Clone>::clone`: a copy of the same number.
#[verifier::external_body]
fn bigint_clone(b: &num::BigInt) -> (r: num::BigInt)
    ensures
        r == *b,
{
    b.clone()
}

proof fn lemma_values_of_push(s: Seq<Cql>, c: Cql)
    ensures
        Cql::values_of(s.push(c)) == Cql::values_of(s).push(c.value()),
{
    assert(s.push(c).drop_last() =~= s);
}

impl Clone for Cql {
    /// A copy with the same value.
    fn clone(&self) -> (res: Self)
        ensures
            res.value() == self.value(),
        decreases self,
    {
        match self {
            Cql::CqlString(s) => Cql::CqlString(
                match s {
                    Some(s) => Some(s.clone()),
                    None => None,
                },
            ),
            Cql::Cqli32(v) => Cql::Cqli32(*v),
            Cql::Cqli64(v) => Cql::Cqli64(*v),
            Cql::CqlBlob(b) => Cql::CqlBlob(
                match b {
                    Some(b) => {
                        let c = b.clone();
                        assert(c@ =~= b@);
                        Some(c)
                    },
                    None => None,
                },
            ),
            Cql::CqlBool(v) => Cql::CqlBool(*v),
            Cql::CqlCounter(v) => Cql::CqlCounter(*v),
            Cql::Cqlf32(v) => Cql::Cqlf32(*v),
            Cql::Cqlf64(v) => Cql::Cqlf64(*v),
            Cql::CqlTimestamp(v) => Cql::CqlTimestamp(*v),
            Cql::CqlBigint(b) => Cql::CqlBigint(bigint_clone(b)),
            Cql::CqlList(l) => match l {
                Some(v) => {
                    let mut w: Vec<Cql> = Vec::new();
                    let mut i: usize = 0;
                    while i < v.len()
                        invariant
                            i <= v.len(),
                            *self == Cql::CqlList(Some(*v)),
                            Cql::values_of(w@) == Cql::values_of(v@.take(i as int)),
                        decreases v.len() - i,
                    {
                        proof {
                            let o = (*self)->CqlList_0;
                            assert(decreases_to!(*self => (*self)->CqlList_0));
                            assert(decreases_to!(o => o->Some_0));
                            assert(decreases_to!(*v => v[i as int])) by {
                                broadcast use vstd::std_specs::vec::axiom_vec_index_decreases;
                            }
                        }
                        let c = v[i].clone();
                        proof {
                            lemma_values_of_push(w@, c);
                            lemma_values_of_push(v@.take(i as int), v@[i as int]);
                            assert(v@.take(i as int).push(v@[i as int]) =~= v@.take(i + 1));
                        }
                        w.push(c);
                        i = i + 1;
                    }
                    assert(v@.take(v@.len() as int) =~= v@);
                    Cql::CqlList(Some(w))
                },
                None => Cql::CqlList(None),
            },
            Cql::CqlUnknown => Cql::CqlUnknown,
        }
    }
}

} // verus!
