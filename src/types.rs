use vstd::prelude::*;

verus! {

/// An account address: the 32 bytes that identify an account on the host chain.
#[derive(Clone, Copy, Debug)]
pub struct Address {
    pub bytes: [u8; 32],
}

impl Address {
    pub fn new(bytes: [u8; 32]) -> (r: Address)
        ensures
            r.bytes == bytes,
    {
        Address { bytes }
    }

    /// Whether two addresses name the same account, compared byte by byte.
    pub fn same_as(&self, other: &Address) -> (r: bool)
        ensures
            r == (*self == *other),
    {
        broadcast use vstd::array::group_array_axioms;

        let mut i: usize = 0;
        while i < 32
            invariant
                0 <= i <= 32,
                forall|j: int| 0 <= j < i ==> self.bytes[j] == other.bytes[j],
            decreases 32 - i,
        {
            if self.bytes[i] != other.bytes[i] {
                return false;
            }
            i = i + 1;
        }
        assert(self.bytes =~= other.bytes);
        true
    }
}

impl PartialEq for Address {
    fn eq(&self, other: &Address) -> (r: bool) {
        self.same_as(other)
    }
}

impl vstd::std_specs::cmp::PartialEqSpecImpl for Address {
    open spec fn obeys_eq_spec() -> bool {
        true
    }

    open spec fn eq_spec(&self, other: &Address) -> bool {
        *self == *other
    }
}

impl Eq for Address {}

} // verus!

verus! {

/// The natural number that a big-endian sequence of base-256 digits denotes.
pub open spec fn be_value(digits: Seq<u8>) -> nat
    decreases digits.len(),
{
    if digits.len() == 0 {
        0
    } else {
        be_value(digits.drop_last()) * 256 + digits.last() as nat
    }
}

/// A big-endian number is zero exactly when every one of its digits is zero.
pub proof fn lemma_be_value_zero(digits: Seq<u8>)
    ensures
        (be_value(digits) == 0) <==> (forall|i: int| 0 <= i < digits.len() ==> digits[i] == 0),
    decreases digits.len(),
{
    if digits.len() > 0 {
        let init = digits.drop_last();
        lemma_be_value_zero(init);
        if be_value(digits) == 0 {
            assert forall|i: int| 0 <= i < digits.len() implies digits[i] == 0 by {
                if i < digits.len() - 1 {
                    assert(init[i] == digits[i]);
                }
            }
        }
        if forall|i: int| 0 <= i < digits.len() ==> digits[i] == 0 {
            assert forall|i: int| 0 <= i < init.len() implies init[i] == 0 by {
                assert(init[i] == digits[i]);
            }
            assert(digits[digits.len() - 1] == 0);
        }
    }
}

/// An amount of native currency of arbitrary size, held as its big-endian
/// base-256 digits. Leading zero digits are allowed and do not change the value.
#[derive(Debug)]
pub struct Amount {
    digits: Vec<u8>,
}

impl View for Amount {
    type V = Seq<u8>;

    closed spec fn view(&self) -> Seq<u8> {
        self.digits@
    }
}

impl Amount {
    /// The number that this amount denotes.
    pub open spec fn value(&self) -> nat {
        be_value(self@)
    }

    /// The amount whose big-endian digits are `bytes`.
    pub fn from_be_bytes(bytes: Vec<u8>) -> (r: Amount)
        ensures
            r@ == bytes@,
            r.value() == be_value(bytes@),
    {
        Amount { digits: bytes }
    }

    /// The big-endian digits of this amount.
    pub fn be_bytes(&self) -> (r: &[u8])
        ensures
            r@ == self@,
    {
        self.digits.as_slice()
    }

    /// A second amount with the same digits.
    pub fn copied(&self) -> (r: Amount)
        ensures
            r@ == self@,
            r.value() == self.value(),
    {
        let mut digits: Vec<u8> = Vec::new();
        let mut i: usize = 0;
        while i < self.digits.len()
            invariant
                0 <= i <= self.digits@.len(),
                digits@ == self.digits@.subrange(0, i as int),
            decreases self.digits@.len() - i,
        {
            digits.push(self.digits[i]);
            i = i + 1;
            assert(digits@ =~= self.digits@.subrange(0, i as int));
        }
        assert(digits@ =~= self.digits@);
        Amount { digits }
    }

    /// Whether this amount is zero.
    pub fn is_zero(&self) -> (r: bool)
        ensures
            r == (self.value() == 0),
    {
        proof {
            lemma_be_value_zero(self.digits@);
        }
        let mut i: usize = 0;
        while i < self.digits.len()
            invariant
                0 <= i <= self.digits@.len(),
                forall|j: int| 0 <= j < i ==> self.digits@[j] == 0,
            decreases self.digits@.len() - i,
        {
            if self.digits[i] != 0 {
                proof {
                    lemma_be_value_zero(self.digits@);
                    assert(self.digits@[i as int] != 0);
                }
                return false;
            }
            i = i + 1;
        }
        true
    }
}

} // verus!
