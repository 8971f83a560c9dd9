//! The values that generation produces.
//!
//! A [`Value`] is a tree of the kinds of value that a document database
//! stores. The library holds no floating-point number: where a field is a
//! double, the tree holds the range from which it is to be drawn (see
//! [`DoubleRange`]).

use crate::ordered_map::OrderedMap;
use vstd::prelude::*;

verus! {

/// 256 to the power of `digits`.
pub open spec fn weight(digits: nat) -> nat
    decreases digits,
{
    if digits == 0 {
        1
    } else {
        256 * weight((digits - 1) as nat)
    }
}

/// The number that `bytes` write, the first byte weighing most.
pub open spec fn number_of(bytes: Seq<u8>) -> nat
    decreases bytes.len(),
{
    if bytes.len() == 0 {
        0
    } else {
        number_of(bytes.drop_last()) * 256 + bytes.last() as nat
    }
}

/// The number that bytes write is below 256 to the power of their count.
pub proof fn lemma_number_is_below_its_weight(bytes: Seq<u8>)
    ensures
        number_of(bytes) < weight(bytes.len()),
    decreases bytes.len(),
{
    if bytes.len() > 0 {
        lemma_number_is_below_its_weight(bytes.drop_last());
    }
}

/// Bytes of one count that write the same number are the same bytes.
pub proof fn lemma_number_tells_bytes_apart(a: Seq<u8>, b: Seq<u8>)
    requires
        a.len() == b.len(),
        number_of(a) == number_of(b),
    ensures
        a == b,
    decreases a.len(),
{
    if a.len() > 0 {
        lemma_number_tells_bytes_apart(a.drop_last(), b.drop_last());
        assert(a =~= a.drop_last().push(a.last()));
        assert(b =~= b.drop_last().push(b.last()));
    } else {
        assert(a =~= b);
    }
}

/// A twelve-byte identifier of a stored document.
#[derive(Clone, Copy, Debug, PartialEq, Eq, Hash)]
pub struct ObjectId {
    pub bytes: [u8; 12],
}

impl ObjectId {
    /// The identifier made of `bytes`.
    pub fn from_bytes(bytes: [u8; 12]) -> (id: ObjectId)
        ensures
            id.bytes == bytes,
    {
        ObjectId { bytes }
    }

    /// The identifier read as one number, the first byte weighing most. Two
    /// identifiers are the same exactly when their numbers are.
    pub fn number(&self) -> (n: u128)
        ensures
            n == number_of(self.bytes@),
    {
        let mut n: u128 = 0;
        let mut i: usize = 0;
        assert(self.bytes@.subrange(0, 0) =~= Seq::<u8>::empty());
        while i < 12
            invariant
                i <= 12,
                n == number_of(self.bytes@.subrange(0, i as int)),
            decreases 12 - i,
        {
            proof {
                let read = self.bytes@.subrange(0, i as int);
                lemma_number_is_below_its_weight(read);
                assert(weight(read.len()) <= 0x1_0000_0000_0000_0000_0000_0000) by {
                    reveal_with_fuel(weight, 13);
                }
                assert(self.bytes@.subrange(0, i + 1).drop_last() =~= read);
            }
            n = n * 256 + self.bytes[i] as u128;
            i += 1;
        }
        assert(self.bytes@.subrange(0, 12) =~= self.bytes@);
        n
    }
}

/// The width of the floating-point number that a double is drawn as before it
/// is stored.
#[derive(Clone, Copy, Debug, PartialEq, Eq)]
pub enum Precision {
    /// Drawn as a 32-bit number, then widened.
    Single,
    /// Drawn as a 64-bit number.
    Double,
}

/// A double that is still to be drawn, uniformly, between two whole numbers.
///
/// Whoever turns a [`Value`] into a stored document makes one independent
/// draw for each `DoubleRange` in it.
#[derive(Clone, Copy, Debug, PartialEq, Eq)]
pub struct DoubleRange {
    /// The least value that can be drawn.
    pub low: u32,
    /// The upper end of the range.
    pub high: u32,
    /// Whether `high` itself can be drawn.
    pub inclusive: bool,
    /// The width at which the draw is made.
    pub precision: Precision,
}

impl DoubleRange {
    /// The range holds at least one number.
    pub open spec fn is_inhabited(self) -> bool {
        if self.inclusive {
            self.low <= self.high
        } else {
            self.low < self.high
        }
    }

    /// Whether the range holds at least one number, so that a draw from it can
    /// be made.
    pub fn can_be_drawn(&self) -> (inhabited: bool)
        ensures
            inhabited == self.is_inhabited(),
    {
        if self.inclusive {
            self.low <= self.high
        } else {
            self.low < self.high
        }
    }
}

/// A generated value.
#[derive(Debug, PartialEq)]
pub enum Value {
    /// A double to be drawn from the range.
    Double(DoubleRange),
    /// A text.
    String(String),
    /// A sequence of values.
    Array(Vec<Value>),
    /// A nested document.
    Document(Document),
    /// A truth value.
    Boolean(bool),
    /// The absent value.
    Null,
    /// A 32-bit integer.
    Int32(i32),
    /// A 64-bit integer.
    Int64(i64),
    /// The identifier of a document.
    ObjectId(ObjectId),
}

/// A document: its fields in the order in which they were generated.
pub type Document = OrderedMap<Value>;

impl Value {
    /// The document that this value is, if it is one.
    pub fn as_document(&self) -> (document: Option<&Document>)
        ensures
            match document {
                Some(d) => *self == Value::Document(*d),
                None => !(self is Document),
            },
    {
        match self {
            Value::Document(d) => Some(d),
            _ => None,
        }
    }

    /// The items of the array that this value is, if it is one.
    pub fn as_array(&self) -> (items: Option<&Vec<Value>>)
        ensures
            match items {
                Some(v) => *self == Value::Array(*v),
                None => !(self is Array),
            },
    {
        match self {
            Value::Array(v) => Some(v),
            _ => None,
        }
    }
}

} // verus!
