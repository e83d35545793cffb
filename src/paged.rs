use vstd::prelude::*;

use crate::dump::{render_all, render_dump};
use crate::registry::UserRuleStore;

verus! {

/// The bytes of `dump` from `offset` on, at most `max_len` of them; empty once
/// `offset` reaches the end.
pub open spec fn page(dump: Seq<u8>, offset: int, max_len: int) -> Seq<u8> {
    if offset >= dump.len() {
        Seq::empty()
    } else if max_len < dump.len() - offset {
        dump.subrange(offset, offset + max_len)
    } else {
        dump.subrange(offset, dump.len() as int)
    }
}

/// What a reader collects by reading pages of `max_len` bytes from `offset`,
/// moving the offset by each page's length, until a page comes back empty.
pub open spec fn read_to_end(dump: Seq<u8>, offset: nat, max_len: nat) -> Seq<u8>
    decreases dump.len() - offset,
{
    if offset >= dump.len() || max_len == 0 {
        Seq::empty()
    } else {
        let p = page(dump, offset as int, max_len as int);
        p + read_to_end(dump, offset + p.len(), max_len)
    }
}

/// Sequential reads with a non-zero page size, from `offset` on, yield the rest
/// of the dump exactly.
pub proof fn lemma_read_to_end_rest(dump: Seq<u8>, offset: nat, max_len: nat)
    requires
        max_len > 0,
        offset <= dump.len(),
    ensures
        read_to_end(dump, offset, max_len) == dump.subrange(offset as int, dump.len() as int),
    decreases dump.len() - offset,
{
    if offset < dump.len() {
        let p = page(dump, offset as int, max_len as int);
        lemma_read_to_end_rest(dump, offset + p.len(), max_len);
        assert(p + dump.subrange((offset + p.len()) as int, dump.len() as int) =~= dump.subrange(
            offset as int,
            dump.len() as int,
        ));
    } else {
        assert(dump.subrange(offset as int, dump.len() as int) =~= Seq::<u8>::empty());
    }
}

/// Concatenating the non-empty results of sequential reads from offset zero,
/// each advancing the offset by the bytes it returned, over a registry that is
/// not changed in between, gives back exactly one full rendering of the dump.
pub proof fn lemma_pagination_complete(dump: Seq<u8>, max_len: nat)
    requires
        max_len > 0,
    ensures
        read_to_end(dump, 0, max_len) == dump,
{
    lemma_read_to_end_rest(dump, 0, max_len);
    assert(dump.subrange(0, dump.len() as int) =~= dump);
}

/// The page of `dump` that starts at `offset` and holds at most `max_len` bytes.
pub fn read_page(dump: &Vec<u8>, offset: u64, max_len: usize) -> (r: Vec<u8>)
    ensures
        r@ == page(dump@, offset as int, max_len as int),
{
    let total = dump.len();
    if offset >= total as u64 {
        return Vec::new();
    }
    let start = offset as usize;
    let len = if max_len < total - start {
        max_len
    } else {
        total - start
    };
    let mut out: Vec<u8> = Vec::with_capacity(len);
    let mut i: usize = 0;
    while i < len
        invariant
            total == dump@.len(),
            start + len <= total,
            i <= len,
            out@ == dump@.subrange(start as int, start + i),
        decreases len - i,
    {
        out.push(dump[start + i]);
        i = i + 1;
        assert(out@ =~= dump@.subrange(start as int, start + i));
    }
    out
}

/// One streaming read: renders the current dump afresh and returns the page at
/// `*offset` of at most `count` bytes, advancing `*offset` past it. An empty
/// result marks the end of the stream.
pub fn rust_read(store: &UserRuleStore, count: usize, offset: &mut u64) -> (r: Vec<u8>)
    ensures
        r@ == page(render_all(store@), *old(offset) as int, count as int),
        *final(offset) == *old(offset) + r@.len(),
{
    let snapshot = store.get_all_rules();
    let output = render_dump(&snapshot);
    let total = output.len();
    let data = read_page(&output, *offset, count);
    assert(data@.len() == 0 || *offset + data@.len() <= total);
    *offset = *offset + data.len() as u64;
    data
}

} // verus!
