use vstd::prelude::*;

use crate::codec::{
    bound_response, bounded_response, le_u32, rule_field_value, IoctlArgument, IoctlReadArgument,
    ARGUMENT_SIZE, READ_ARGUMENT_SIZE,
};
use crate::dump::{pretty_print_rules, render_entry};
use crate::registry::{model_add, model_query, model_remove, RegistryModel, UserRule, UserRuleStore};
use crate::rule::{RuleError, RULE_BUFFER_SIZE};

verus! {

/// Request code that adds a rule (written, type `'s'`, number 1).
pub const IOCTL_ADD_RULE: u32 = 0x4104_7301;

/// Request code that removes a rule (written, type `'s'`, number 2).
pub const IOCTL_REMOVE_RULE: u32 = 0x4104_7302;

/// Request code that reads the rules of one principal (read, type `'s'`, number 3).
pub const IOCTL_READ_RULES: u32 = 0x9004_7303;

/// The rule an add or remove request carries in `arg`.
pub open spec fn request_rule(arg: Seq<u8>) -> Seq<u8> {
    rule_field_value(arg.subrange(4, ARGUMENT_SIZE as int))
}

/// The rendered block of `uid`, or nothing when it has no rules.
pub open spec fn query_output(s: RegistryModel, uid: u32) -> Seq<u8> {
    match model_query(s, uid) {
        Some(rules) => render_entry((uid, rules)),
        None => Seq::empty(),
    }
}

/// Handles one control request. `arg` is the caller's record, absent when
/// the caller passed none. Add and remove answer with no bytes; a query answers
/// with the block of the principal, cut to `RULE_BUFFER_SIZE` bytes, and
/// with no bytes for a principal without rules.
pub fn rust_ioctl(store: &mut UserRuleStore, cmd: u32, arg: Option<&[u8]>) -> (r: Result<
    Vec<u8>,
    RuleError,
>)
    requires
        old(store).wf(),
    ensures
        final(store).wf(),
        arg is None ==> r == Err::<Vec<u8>, RuleError>(RuleError::InvalidArgument),
        arg is Some && cmd != IOCTL_ADD_RULE && cmd != IOCTL_REMOVE_RULE && cmd
            != IOCTL_READ_RULES ==> r == Err::<Vec<u8>, RuleError>(
            RuleError::UnsupportedOperation,
        ),
        arg is Some && (cmd == IOCTL_ADD_RULE || cmd == IOCTL_REMOVE_RULE) && arg->Some_0@.len()
            < ARGUMENT_SIZE ==> r == Err::<Vec<u8>, RuleError>(RuleError::InvalidArgument),
        arg is Some && cmd == IOCTL_READ_RULES && arg->Some_0@.len() < READ_ARGUMENT_SIZE ==> r
            == Err::<Vec<u8>, RuleError>(RuleError::InvalidArgument),
        arg is Some && cmd == IOCTL_ADD_RULE && arg->Some_0@.len() >= ARGUMENT_SIZE ==> r is Ok
            && r->Ok_0@.len() == 0 && final(store)@ == model_add(
            old(store)@,
            le_u32(arg->Some_0@) as u32,
            request_rule(arg->Some_0@),
        ),
        arg is Some && cmd == IOCTL_REMOVE_RULE && arg->Some_0@.len() >= ARGUMENT_SIZE ==> r is Ok
            && r->Ok_0@.len() == 0 && final(store)@ == model_remove(
            old(store)@,
            le_u32(arg->Some_0@) as u32,
            request_rule(arg->Some_0@),
        ),
        arg is Some && cmd == IOCTL_READ_RULES && arg->Some_0@.len() >= READ_ARGUMENT_SIZE ==> r
            is Ok && r->Ok_0@ == bounded_response(
            query_output(old(store)@, le_u32(arg->Some_0@) as u32),
        ),
        r is Ok ==> r->Ok_0@.len() <= RULE_BUFFER_SIZE,
        !(arg is Some && (cmd == IOCTL_ADD_RULE || cmd == IOCTL_REMOVE_RULE) && arg->Some_0@.len()
            >= ARGUMENT_SIZE) ==> final(store)@ == old(store)@,
{
    let buf = match arg {
        Some(buf) => buf,
        None => return Err(RuleError::InvalidArgument),
    };
    if cmd == IOCTL_ADD_RULE || cmd == IOCTL_REMOVE_RULE {
        let request = match IoctlArgument::decode(buf) {
            Ok(request) => request,
            Err(e) => return Err(e),
        };
        let rule = request.rule_bytes();
        if cmd == IOCTL_ADD_RULE {
            match store.add_rule(request.uid, rule) {
                Ok(()) => {},
                Err(e) => return Err(e),
            }
        } else {
            match store.remove_rule(request.uid, rule) {
                Ok(()) => {},
                Err(e) => return Err(e),
            }
        }
        Ok(Vec::new())
    } else if cmd == IOCTL_READ_RULES {
        let request = match IoctlReadArgument::decode(buf) {
            Ok(request) => request,
            Err(e) => return Err(e),
        };
        let mut output: Vec<u8> = Vec::new();
        if let Some(rules) = store.get_rules_by_id(request.uid) {
            let entry = UserRule::from_rules(request.uid, rules);
            pretty_print_rules(&entry, &mut output);
            assert(output@ =~= render_entry(entry@));
        }
        Ok(bound_response(&output))
    } else {
        Err(RuleError::UnsupportedOperation)
    }
}

} // verus!
