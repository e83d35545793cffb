use vstd::prelude::*;

use crate::registry::{
    model_add, model_query, model_remove, registry_wf, uid_index, without_rule, RegistryModel,
    RuleList,
};

verus! {

/// The entry at `i` is the one `uid_index` finds for its principal.
proof fn lemma_uid_index_at(s: RegistryModel, uid: u32, i: int)
    requires
        0 <= i < s.len(),
        s[i].0 == uid,
        forall|a: int, b: int|
            0 <= a < s.len() && 0 <= b < s.len() && (#[trigger] s[a]).0 == (#[trigger] s[b]).0
                ==> a == b,
    ensures
        uid_index(s, uid) == i,
{
    assert(exists|k: int| 0 <= k < s.len() && (#[trigger] s[k]).0 == uid) by {
        assert(s[i].0 == uid);
    }
    let k = uid_index(s, uid);
    assert(s[k].0 == s[i].0);
}

/// Removing a rule that a list does not hold keeps the list.
proof fn lemma_without_absent(rules: RuleList, rule: Seq<u8>)
    requires
        !rules.contains(rule),
    ensures
        without_rule(rules, rule) == rules,
    decreases rules.len(),
{
    if rules.len() > 0 {
        let init = rules.drop_last();
        assert(!init.contains(rule)) by {
            if init.contains(rule) {
                let j = choose|j: int| 0 <= j < init.len() && init[j] == rule;
                assert(rules[j] == rule);
            }
        }
        lemma_without_absent(init, rule);
        assert(rules.last() != rule) by {
            assert(rules[rules.len() - 1] == rules.last());
        }
        assert(init.push(rules.last()) =~= rules);
    }
}

/// Removing a rule from a list that holds nothing else leaves it empty.
proof fn lemma_without_all_equal(rules: RuleList, rule: Seq<u8>)
    requires
        forall|k: int| 0 <= k < rules.len() ==> rules[k] == rule,
    ensures
        without_rule(rules, rule).len() == 0,
    decreases rules.len(),
{
    if rules.len() > 0 {
        lemma_without_all_equal(rules.drop_last(), rule);
        assert(rules.last() == rules[rules.len() - 1]);
    }
}

/// Removing a rule that a principal does not hold, or for a principal that has
/// no entry, leaves the registry as it was.
pub proof fn lemma_remove_absent_is_noop(s: RegistryModel, uid: u32, rule: Seq<u8>)
    requires
        registry_wf(s),
        !(model_query(s, uid) is Some && model_query(s, uid)->Some_0.contains(rule)),
    ensures
        model_remove(s, uid, rule) == s,
{
    let i = uid_index(s, uid);
    if i >= 0 {
        assert(exists|k: int| 0 <= k < s.len() && (#[trigger] s[k]).0 == uid);
        lemma_without_absent(s[i].1, rule);
        assert(s[i].1.len() > 0);
        assert(s.update(i, (uid, s[i].1)) =~= s);
    }
}

/// Adding a rule that a principal does not hold yet and then removing it
/// gives back the registry as it was before the add.
pub proof fn lemma_add_then_remove(s: RegistryModel, uid: u32, rule: Seq<u8>)
    requires
        registry_wf(s),
        !(model_query(s, uid) is Some && model_query(s, uid)->Some_0.contains(rule)),
    ensures
        model_remove(model_add(s, uid, rule), uid, rule) == s,
{
    let i = uid_index(s, uid);
    let t = model_add(s, uid, rule);
    if i >= 0 {
        assert(exists|k: int| 0 <= k < s.len() && (#[trigger] s[k]).0 == uid);
        let rules = s[i].1;
        assert(t[i].0 == uid);
        assert forall|a: int, b: int|
            0 <= a < t.len() && 0 <= b < t.len() && (#[trigger] t[a]).0 == (#[trigger] t[b]).0
                implies a == b by {
            assert(s[a].0 == t[a].0 && s[b].0 == t[b].0);
        }
        lemma_uid_index_at(t, uid, i);
        lemma_without_absent(rules, rule);
        assert(rules.push(rule).drop_last() =~= rules);
        assert(without_rule(rules.push(rule), rule) == rules);
        assert(t.update(i, (uid, rules)) =~= s);
    } else {
        assert(forall|k: int| 0 <= k < s.len() ==> (#[trigger] s[k]).0 != uid);
        let n = s.len() as int;
        assert(t[n].0 == uid);
        assert forall|a: int, b: int|
            0 <= a < t.len() && 0 <= b < t.len() && (#[trigger] t[a]).0 == (#[trigger] t[b]).0
                implies a == b by {
            if a < n && b < n {
                assert(s[a].0 == t[a].0 && s[b].0 == t[b].0);
            } else if a < n {
                assert(s[a].0 == t[a].0);
            } else if b < n {
                assert(s[b].0 == t[b].0);
            }
        }
        lemma_uid_index_at(t, uid, n);
        let one: RuleList = seq![rule];
        assert(one.drop_last() =~= Seq::<Seq<u8>>::empty());
        assert(one.last() == rule);
        assert(without_rule(one.drop_last(), rule).len() == 0);
        assert(without_rule(one, rule).len() == 0);
        assert(t.remove(n) =~= s);
    }
}

/// Once every rule a principal holds has been removed, a query finds no entry
/// for it.
pub proof fn lemma_remove_last_prunes(s: RegistryModel, uid: u32, rule: Seq<u8>)
    requires
        registry_wf(s),
        model_query(s, uid) is Some,
        forall|k: int|
            0 <= k < model_query(s, uid)->Some_0.len() ==> model_query(s, uid)->Some_0[k] == rule,
    ensures
        model_query(model_remove(s, uid, rule), uid) is None,
{
    let i = uid_index(s, uid);
    assert(exists|k: int| 0 <= k < s.len() && (#[trigger] s[k]).0 == uid);
    assert(model_query(s, uid)->Some_0 == s[i].1);
    lemma_without_all_equal(s[i].1, rule);
    let t = s.remove(i);
    assert(model_remove(s, uid, rule) == t);
    assert forall|k: int| 0 <= k < t.len() implies (#[trigger] t[k]).0 != uid by {
        if k < i {
            assert(t[k] == s[k]);
        } else {
            assert(t[k] == s[k + 1]);
        }
    }
}

} // verus!
