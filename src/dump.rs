use vstd::prelude::*;

use crate::registry::{entries_view, rules_view, RegistryModel, RuleList, UserRule};
use crate::rule::Rule;

verus! {

/// Decimal ASCII digits of `n`, without leading zeros.
pub open spec fn decimal(n: nat) -> Seq<u8>
    decreases n,
{
    if n < 10 {
        seq![(48 + n) as u8]
    } else {
        decimal(n / 10).push((48 + n % 10) as u8)
    }
}

/// `"---- UID: "`
pub open spec fn header_open() -> Seq<u8> {
    seq![45u8, 45, 45, 45, 32, 85, 73, 68, 58, 32]
}

/// `" ----\n"`
pub open spec fn header_close() -> Seq<u8> {
    seq![32u8, 45, 45, 45, 45, 10]
}

/// `"Rule "`
pub open spec fn rule_label() -> Seq<u8> {
    seq![82u8, 117, 108, 101, 32]
}

/// `": "`
pub open spec fn rule_separator() -> Seq<u8> {
    seq![58u8, 32]
}

/// `"\n"`
pub open spec fn newline() -> Seq<u8> {
    seq![10u8]
}

/// `" ---- ---- ----\n"`
pub open spec fn footer() -> Seq<u8> {
    seq![32u8, 45, 45, 45, 45, 32, 45, 45, 45, 45, 32, 45, 45, 45, 45, 10]
}

/// The line of the `n`-th rule (counted from 1) holding `rule`.
pub open spec fn rule_line(n: nat, rule: Seq<u8>) -> Seq<u8> {
    rule_label() + decimal(n) + rule_separator() + rule + newline()
}

/// The numbered lines of all `rules`, in order.
pub open spec fn rule_lines(rules: RuleList) -> Seq<u8>
    decreases rules.len(),
{
    if rules.len() == 0 {
        Seq::empty()
    } else {
        rule_lines(rules.drop_last()) + rule_line(rules.len(), rules.last())
    }
}

/// The block that shows one principal and its rules.
pub open spec fn render_entry(entry: (u32, RuleList)) -> Seq<u8> {
    header_open() + decimal(entry.0 as nat) + header_close() + rule_lines(entry.1) + footer()
}

/// The blocks of all entries, in registry order.
pub open spec fn render_all(s: RegistryModel) -> Seq<u8>
    decreases s.len(),
{
    if s.len() == 0 {
        Seq::empty()
    } else {
        render_all(s.drop_last()) + render_entry(s.last())
    }
}

/// Appends the decimal digits of `n`.
fn append_decimal(buffer: &mut Vec<u8>, n: u64)
    ensures
        final(buffer)@ == old(buffer)@ + decimal(n as nat),
    decreases n,
{
    if n >= 10 {
        append_decimal(buffer, n / 10);
    }
    buffer.push(48 + (n % 10) as u8);
    assert(final(buffer)@ =~= old(buffer)@ + decimal(n as nat));
}

/// Appends `value` as decimal ASCII with no leading zeros.
pub fn append_u32_to_vec(buffer: &mut Vec<u8>, value: u32)
    ensures
        final(buffer)@ == old(buffer)@ + decimal(value as nat),
{
    append_decimal(buffer, value as u64);
}

fn append_header_open(out: &mut Vec<u8>)
    ensures
        final(out)@ == old(out)@ + header_open(),
{
    out.push(45);
    out.push(45);
    out.push(45);
    out.push(45);
    out.push(32);
    out.push(85);
    out.push(73);
    out.push(68);
    out.push(58);
    out.push(32);
    assert(final(out)@ =~= old(out)@ + header_open());
}

fn append_header_close(out: &mut Vec<u8>)
    ensures
        final(out)@ == old(out)@ + header_close(),
{
    out.push(32);
    out.push(45);
    out.push(45);
    out.push(45);
    out.push(45);
    out.push(10);
    assert(final(out)@ =~= old(out)@ + header_close());
}

fn append_rule_label(out: &mut Vec<u8>)
    ensures
        final(out)@ == old(out)@ + rule_label(),
{
    out.push(82);
    out.push(117);
    out.push(108);
    out.push(101);
    out.push(32);
    assert(final(out)@ =~= old(out)@ + rule_label());
}

fn append_rule_separator(out: &mut Vec<u8>)
    ensures
        final(out)@ == old(out)@ + rule_separator(),
{
    out.push(58);
    out.push(32);
    assert(final(out)@ =~= old(out)@ + rule_separator());
}

fn append_footer(out: &mut Vec<u8>)
    ensures
        final(out)@ == old(out)@ + footer(),
{
    let mut k: usize = 0;
    while k < 3
        invariant
            k <= 3,
            out@ == old(out)@ + footer().take(5 * k as int),
        decreases 3 - k,
    {
        out.push(32);
        out.push(45);
        out.push(45);
        out.push(45);
        out.push(45);
        k = k + 1;
        assert(out@ =~= old(out)@ + footer().take(5 * k as int));
    }
    out.push(10);
    assert(final(out)@ =~= old(out)@ + footer());
}

/// Appends every byte of `bytes`.
fn append_bytes(out: &mut Vec<u8>, bytes: &Vec<u8>)
    ensures
        final(out)@ == old(out)@ + bytes@,
{
    let mut i: usize = 0;
    while i < bytes.len()
        invariant
            i <= bytes@.len(),
            out@ == old(out)@ + bytes@.take(i as int),
        decreases bytes@.len() - i,
    {
        out.push(bytes[i]);
        i = i + 1;
        assert(out@ =~= old(out)@ + bytes@.take(i as int));
    }
    assert(bytes@.take(bytes@.len() as int) =~= bytes@);
}

/// Appends the block of one principal: a header with its identifier, one
/// numbered line per rule, and a footer.
pub fn pretty_print_rules(rules: &UserRule, output: &mut Vec<u8>)
    ensures
        final(output)@ == old(output)@ + render_entry(rules@),
{
    let uid = rules.uid();
    let list = rules.rules();
    append_header_open(output);
    append_u32_to_vec(output, uid);
    append_header_close(output);
    let ghost head = output@;
    let mut i: usize = 0;
    while i < list.len()
        invariant
            i <= list@.len(),
            rules_view(list@) == rules@.1,
            output@ == head + rule_lines(rules_view(list@).take(i as int)),
        decreases list@.len() - i,
    {
        let ghost before = output@;
        let rule: &Rule = &list[i];
        append_rule_label(output);
        append_decimal(output, i as u64 + 1);
        append_rule_separator(output);
        append_bytes(output, rule.as_bytes());
        output.push(10);
        let ghost lines = rules_view(list@).take(i as int + 1);
        assert(lines.drop_last() =~= rules_view(list@).take(i as int));
        assert(output@ =~= before + rule_line((i + 1) as nat, lines.last()));
        i = i + 1;
    }
    assert(rules_view(list@).take(list@.len() as int) =~= rules@.1);
    append_footer(output);
    assert(final(output)@ =~= old(output)@ + render_entry(rules@));
}

/// The dump of a snapshot: the blocks of all its entries, in order.
pub fn render_dump(entries: &Vec<UserRule>) -> (r: Vec<u8>)
    ensures
        r@ == render_all(entries_view(entries@)),
{
    let mut output: Vec<u8> = Vec::new();
    let mut i: usize = 0;
    while i < entries.len()
        invariant
            i <= entries@.len(),
            output@ == render_all(entries_view(entries@.take(i as int))),
        decreases entries@.len() - i,
    {
        pretty_print_rules(&entries[i], &mut output);
        let ghost s = entries_view(entries@.take(i as int + 1));
        assert(s.drop_last() =~= entries_view(entries@.take(i as int)));
        i = i + 1;
    }
    assert(entries@.take(entries@.len() as int) =~= entries@);
    output
}

} // verus!
