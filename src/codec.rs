use vstd::prelude::*;

use crate::rule::{RuleError, RULE_BUFFER_SIZE, RULE_SIZE};

verus! {

/// Bytes in an add or remove request: a `u32` principal, then the rule field.
pub const ARGUMENT_SIZE: usize = 4 + RULE_SIZE;

/// Bytes in a query request: a `u32` principal, then the response buffer.
pub const READ_ARGUMENT_SIZE: usize = 4 + RULE_BUFFER_SIZE;

/// The principal held little-endian in the first four bytes of `b`.
pub open spec fn le_u32(b: Seq<u8>) -> nat {
    b[0] as nat + b[1] as nat * 256 + b[2] as nat * 65536 + b[3] as nat * 16777216
}

/// Index of the first zero byte of `s` at or after `i`, or `s.len()` if none.
pub open spec fn first_nul(s: Seq<u8>, i: nat) -> nat
    decreases s.len() - i,
{
    if i >= s.len() {
        s.len()
    } else if s[i as int] == 0 {
        i
    } else {
        first_nul(s, i + 1)
    }
}

/// The rule a fixed-width field holds: its bytes up to the first zero byte,
/// or the whole field when it holds no zero byte.
pub open spec fn rule_field_value(field: Seq<u8>) -> Seq<u8> {
    field.take(first_nul(field, 0) as int)
}

/// The first `RULE_BUFFER_SIZE` bytes of `output`, or all of it if shorter.
pub open spec fn bounded_response(output: Seq<u8>) -> Seq<u8> {
    if output.len() <= RULE_BUFFER_SIZE {
        output
    } else {
        output.take(RULE_BUFFER_SIZE as int)
    }
}

proof fn lemma_first_nul_bounds(s: Seq<u8>, i: nat)
    requires
        i <= s.len(),
    ensures
        i <= first_nul(s, i) <= s.len(),
    decreases s.len() - i,
{
    if i < s.len() && s[i as int] != 0 {
        lemma_first_nul_bounds(s, i + 1);
    }
}

/// Reads the little-endian `u32` at the start of `buf`.
fn read_u32_le(buf: &[u8]) -> (r: u32)
    requires
        buf@.len() >= 4,
    ensures
        r as nat == le_u32(buf@),
{
    buf[0] as u32 + buf[1] as u32 * 256 + buf[2] as u32 * 65536 + buf[3] as u32 * 16777216
}

/// An add or remove request: the principal and its fixed-width rule field.
pub struct IoctlArgument {
    pub uid: u32,
    pub rule: Vec<u8>,
}

impl IoctlArgument {
    /// The raw rule field, `RULE_SIZE` bytes wide.
    pub open spec fn field(&self) -> Seq<u8> {
        self.rule@
    }

    /// Decodes a request from the first `ARGUMENT_SIZE` bytes of `buf`; a
    /// shorter buffer is an invalid argument.
    pub fn decode(buf: &[u8]) -> (r: Result<IoctlArgument, RuleError>)
        ensures
            buf@.len() < ARGUMENT_SIZE ==> r == Err::<IoctlArgument, RuleError>(
                RuleError::InvalidArgument,
            ),
            buf@.len() >= ARGUMENT_SIZE ==> r is Ok && r->Ok_0.uid as nat == le_u32(buf@)
                && r->Ok_0.field() == buf@.subrange(4, ARGUMENT_SIZE as int),
    {
        if buf.len() < ARGUMENT_SIZE {
            return Err(RuleError::InvalidArgument);
        }
        let uid = read_u32_le(buf);
        let mut rule: Vec<u8> = Vec::with_capacity(RULE_SIZE);
        let mut i: usize = 4;
        while i < ARGUMENT_SIZE
            invariant
                buf@.len() >= ARGUMENT_SIZE,
                4 <= i <= ARGUMENT_SIZE,
                rule@ == buf@.subrange(4, i as int),
            decreases ARGUMENT_SIZE - i,
        {
            rule.push(buf[i]);
            i = i + 1;
            assert(rule@ =~= buf@.subrange(4, i as int));
        }
        Ok(IoctlArgument { uid, rule })
    }

    /// The rule the field holds: its bytes up to the first zero byte, or the
    /// whole field when there is none.
    pub fn rule_bytes(&self) -> (r: Vec<u8>)
        ensures
            r@ == rule_field_value(self.field()),
            r@.len() <= self.field().len(),
    {
        let mut out: Vec<u8> = Vec::new();
        let mut i: usize = 0;
        while i < self.rule.len() && self.rule[i] != 0
            invariant
                i <= self.rule@.len(),
                first_nul(self.rule@, i as nat) == first_nul(self.rule@, 0),
                out@ == self.rule@.take(i as int),
            decreases self.rule@.len() - i,
        {
            out.push(self.rule[i]);
            i = i + 1;
            assert(out@ =~= self.rule@.take(i as int));
        }
        proof {
            lemma_first_nul_bounds(self.rule@, 0);
        }
        out
    }
}

/// A query request: the principal whose rules are wanted.
pub struct IoctlReadArgument {
    pub uid: u32,
}

impl IoctlReadArgument {
    /// Decodes a query from the first `READ_ARGUMENT_SIZE` bytes of `buf`; a
    /// shorter buffer is an invalid argument.
    pub fn decode(buf: &[u8]) -> (r: Result<IoctlReadArgument, RuleError>)
        ensures
            buf@.len() < READ_ARGUMENT_SIZE ==> r == Err::<IoctlReadArgument, RuleError>(
                RuleError::InvalidArgument,
            ),
            buf@.len() >= READ_ARGUMENT_SIZE ==> r is Ok && r->Ok_0.uid as nat == le_u32(buf@),
    {
        if buf.len() < READ_ARGUMENT_SIZE {
            return Err(RuleError::InvalidArgument);
        }
        Ok(IoctlReadArgument { uid: read_u32_le(buf) })
    }
}

/// Copies `output` into a response of at most `RULE_BUFFER_SIZE` bytes,
/// cutting off whatever does not fit.
pub fn bound_response(output: &Vec<u8>) -> (r: Vec<u8>)
    ensures
        r@ == bounded_response(output@),
        r@.len() <= RULE_BUFFER_SIZE,
{
    let len = if output.len() < RULE_BUFFER_SIZE {
        output.len()
    } else {
        RULE_BUFFER_SIZE
    };
    let mut out: Vec<u8> = Vec::with_capacity(len);
    let mut i: usize = 0;
    while i < len
        invariant
            len <= output@.len(),
            len == output@.len() || len == RULE_BUFFER_SIZE,
            len <= RULE_BUFFER_SIZE,
            i <= len,
            out@ == output@.take(i as int),
        decreases len - i,
    {
        out.push(output[i]);
        i = i + 1;
        assert(out@ =~= output@.take(i as int));
    }
    assert(output@.len() <= RULE_BUFFER_SIZE ==> output@.take(len as int) =~= output@);
    out
}

} // verus!
