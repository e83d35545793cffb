use vstd::prelude::*;

verus! {

/// Largest number of bytes a single rule may hold.
pub const RULE_SIZE: usize = 256;

/// Number of rule-sized slots in a query response buffer.
pub const RULE_NUMBER: usize = 16;

/// Width of the fixed response buffer of a by-principal query.
pub const RULE_BUFFER_SIZE: usize = RULE_SIZE * RULE_NUMBER;

/// Errors surfaced by the registry, the codec and the dispatcher.
#[derive(Debug, Clone, Copy, PartialEq, Eq, Structural)]
pub enum RuleError {
    /// Missing input, malformed record or unknown operation code.
    InvalidArgument,
    /// A rule payload longer than `RULE_SIZE` bytes.
    RuleTooLarge,
    /// The requested principal holds no rules.
    NotFound,
    /// Memory could not be obtained while copying or rendering.
    ResourceExhausted,
    /// Bytes could not be moved across the caller boundary.
    Fault,
    /// The request names an operation this registry does not offer.
    UnsupportedOperation,
}

impl RuleError {
    /// The negative errno a caller across the device boundary receives.
    pub fn to_errno(&self) -> (r: i32)
        ensures
            *self == RuleError::NotFound ==> r == -2,
            *self == RuleError::ResourceExhausted ==> r == -12,
            *self == RuleError::Fault ==> r == -14,
            (*self == RuleError::InvalidArgument || *self == RuleError::RuleTooLarge
                || *self == RuleError::UnsupportedOperation) ==> r == -22,
    {
        match self {
            RuleError::NotFound => -2,
            RuleError::ResourceExhausted => -12,
            RuleError::Fault => -14,
            RuleError::InvalidArgument => -22,
            RuleError::RuleTooLarge => -22,
            RuleError::UnsupportedOperation => -22,
        }
    }
}

/// An immutable byte string of at most `RULE_SIZE` bytes.
#[derive(Debug)]
pub struct Rule {
    bytes: Vec<u8>,
}

impl View for Rule {
    type V = Seq<u8>;

    closed spec fn view(&self) -> Seq<u8> {
        self.bytes@
    }
}

impl Rule {
    /// Builds a rule from `data`, refusing payloads longer than `RULE_SIZE`.
    pub fn new(data: Vec<u8>) -> (r: Result<Rule, RuleError>)
        ensures
            data@.len() <= RULE_SIZE ==> r is Ok && r->Ok_0@ == data@,
            data@.len() > RULE_SIZE ==> r == Err::<Rule, RuleError>(RuleError::RuleTooLarge),
    {
        if data.len() > RULE_SIZE {
            return Err(RuleError::RuleTooLarge);
        }
        Ok(Rule { bytes: data })
    }

    /// The rule's bytes.
    pub fn as_bytes(&self) -> (r: &Vec<u8>)
        ensures
            r@ == self@,
    {
        &self.bytes
    }

    /// An independent copy holding the same bytes.
    pub fn clone(&self) -> (r: Rule)
        ensures
            r@ == self@,
    {
        Rule { bytes: copy_bytes(&self.bytes) }
    }

    /// Whether the rule holds exactly the bytes `other`.
    pub fn matches(&self, other: &Vec<u8>) -> (r: bool)
        ensures
            r == (self@ == other@),
    {
        bytes_equal(&self.bytes, other)
    }
}

/// A fresh vector with the same bytes as `src`.
pub fn copy_bytes(src: &Vec<u8>) -> (r: Vec<u8>)
    ensures
        r@ == src@,
{
    let mut out: Vec<u8> = Vec::with_capacity(src.len());
    let mut i: usize = 0;
    while i < src.len()
        invariant
            i <= src@.len(),
            out@ == src@.take(i as int),
        decreases src@.len() - i,
    {
        out.push(src[i]);
        i = i + 1;
        assert(out@ =~= src@.take(i as int));
    }
    assert(out@ =~= src@);
    out
}

/// Byte-wise equality of two vectors.
pub fn bytes_equal(a: &Vec<u8>, b: &Vec<u8>) -> (r: bool)
    ensures
        r == (a@ == b@),
{
    if a.len() != b.len() {
        return false;
    }
    let mut i: usize = 0;
    while i < a.len()
        invariant
            a@.len() == b@.len(),
            i <= a@.len(),
            forall|j: int| 0 <= j < i ==> a@[j] == b@[j],
        decreases a@.len() - i,
    {
        if a[i] != b[i] {
            return false;
        }
        i = i + 1;
    }
    assert(a@ =~= b@);
    true
}

} // verus!
