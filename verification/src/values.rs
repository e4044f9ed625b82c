//! The plain values the contract works on: addresses, byte strings and clamped amounts.

use vstd::prelude::*;
use vstd::string::StringSliceAdditionalSpecFns;

verus! {

/// What an address stands for.
#[derive(Clone, Copy, Debug, PartialEq, Eq, Structural)]
pub enum AddressKind {
    /// A user account.
    Account,
    /// A deployed contract.
    Contract,
}

/// An account or contract address: its kind and its 256-bit key, high half first.
#[derive(Clone, Copy, Debug, PartialEq, Eq, Structural)]
pub struct Address {
    pub kind: AddressKind,
    pub hi: u128,
    pub lo: u128,
}

impl Address {
    /// The order in which the ledger lists addresses: accounts before contracts, then by key.
    pub open spec fn before(self, other: Address) -> bool {
        if self.kind != other.kind {
            self.kind == AddressKind::Account
        } else if self.hi != other.hi {
            self.hi < other.hi
        } else {
            self.lo < other.lo
        }
    }

    /// Whether `self` is listed before `other`.
    pub fn precedes(&self, other: &Address) -> (r: bool)
        ensures
            r == self.before(*other),
    {
        if self.kind != other.kind {
            self.kind == AddressKind::Account
        } else if self.hi != other.hi {
            self.hi < other.hi
        } else {
            self.lo < other.lo
        }
    }
}

impl DeepView for Address {
    type V = Address;

    open spec fn deep_view(&self) -> Address {
        *self
    }
}

/// A byte string, as used for meter ids, memos and metadata.
#[derive(Debug, PartialEq, Eq)]
pub struct Text {
    pub bytes: Vec<u8>,
}

impl View for Text {
    type V = Seq<u8>;

    open spec fn view(&self) -> Seq<u8> {
        self.bytes@
    }
}

impl DeepView for Text {
    type V = Seq<u8>;

    open spec fn deep_view(&self) -> Seq<u8> {
        self.bytes@
    }
}

/// Whether `b` goes on with a character that an earlier byte of UTF-8 began: it has the form
/// `10xxxxxx`.
pub open spec fn continues_char(b: u8) -> bool {
    0x80 <= b < 0xc0
}

/// The number of characters of a UTF-8 byte string: each byte but those that go on with a
/// character begins one.
pub open spec fn chars(bytes: Seq<u8>) -> nat
    decreases bytes.len(),
{
    if bytes.len() == 0 {
        0
    } else if continues_char(bytes.last()) {
        chars(bytes.drop_last())
    } else {
        chars(bytes.drop_last()) + 1
    }
}

impl Text {
    /// The UTF-8 bytes of `s`.
    pub fn new(s: &str) -> (r: Text)
        ensures
            r@ == s.spec_bytes(),
    {
        let source: &[u8] = s.as_bytes();
        let mut bytes: Vec<u8> = Vec::new();
        let mut i: usize = 0;
        while i < source.len()
            invariant
                i <= source@.len(),
                bytes@ == source@.take(i as int),
            decreases source@.len() - i,
        {
            bytes.push(source[i]);
            i = i + 1;
        }
        assert(source@.take(source@.len() as int) =~= source@);
        Text { bytes }
    }

    /// The number of bytes.
    pub fn len(&self) -> (r: usize)
        ensures
            r == self@.len(),
    {
        self.bytes.len()
    }

    /// The number of characters.
    pub fn char_count(&self) -> (r: usize)
        ensures
            r == chars(self@),
    {
        let mut count: usize = 0;
        let mut i: usize = 0;
        assert(self@.take(0) =~= Seq::empty());
        while i < self.bytes.len()
            invariant
                i <= self@.len(),
                count == chars(self@.take(i as int)),
                count <= i,
            decreases self@.len() - i,
        {
            proof {
                assert(self@.take(i + 1).drop_last() =~= self@.take(i as int));
                assert(self@.take(i + 1).last() == self@[i as int]);
            }
            let b: u8 = self.bytes[i];
            if b < 0x80 || b >= 0xc0 {
                count = count + 1;
            }
            i = i + 1;
        }
        assert(self@.take(self@.len() as int) =~= self@);
        count
    }

    /// Whether both hold the same bytes.
    pub fn equals(&self, other: &Text) -> (r: bool)
        ensures
            r == (self@ == other@),
    {
        if self.bytes.len() != other.bytes.len() {
            return false;
        }
        let mut i: usize = 0;
        while i < self.bytes.len()
            invariant
                i <= self@.len(),
                self@.len() == other@.len(),
                forall|j: int| 0 <= j < i ==> self@[j] == other@[j],
            decreases self@.len() - i,
        {
            if self.bytes[i] != other.bytes[i] {
                return false;
            }
            i = i + 1;
        }
        assert(self@ =~= other@);
        true
    }
}

impl Clone for Text {
    fn clone(&self) -> (r: Self)
        ensures
            r@ == self@,
    {
        let mut bytes: Vec<u8> = Vec::new();
        let mut i: usize = 0;
        while i < self.bytes.len()
            invariant
                i <= self@.len(),
                bytes@ == self@.take(i as int),
            decreases self@.len() - i,
        {
            bytes.push(self.bytes[i]);
            i = i + 1;
        }
        assert(self@.take(self@.len() as int) =~= self@);
        Text { bytes }
    }
}

/// The amount nearest to `x` that an `i128` can hold.
pub open spec fn clamp(x: int) -> i128 {
    if x > i128::MAX {
        i128::MAX
    } else if x < i128::MIN {
        i128::MIN
    } else {
        x as i128
    }
}

/// `a + b`, clamped to the range of `i128`.
pub fn add_clamped(a: i128, b: i128) -> (r: i128)
    ensures
        r == clamp(a + b),
{
    match a.checked_add(b) {
        Some(sum) => sum,
        None => if b > 0 {
            i128::MAX
        } else {
            i128::MIN
        },
    }
}

/// `a - b`, clamped to the range of `i128`.
pub fn sub_clamped(a: i128, b: i128) -> (r: i128)
    ensures
        r == clamp(a - b),
{
    match a.checked_sub(b) {
        Some(difference) => difference,
        None => if b > 0 {
            i128::MIN
        } else {
            i128::MAX
        },
    }
}

/// What is left of `balance` after taking `amount` from it, never below zero.
pub open spec fn drained(balance: i128, amount: i128) -> i128 {
    let left = clamp(balance - amount);
    if left > 0 {
        left
    } else {
        0
    }
}

/// Takes `amount` from `balance`, stopping at zero.
pub fn drain(balance: i128, amount: i128) -> (r: i128)
    ensures
        r == drained(balance, amount),
{
    let left: i128 = sub_clamped(balance, amount);
    if left > 0 {
        left
    } else {
        0
    }
}

} // verus!
