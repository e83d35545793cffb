use vstd::prelude::*;

use crate::rule::{Rule, RuleError, RULE_SIZE};

verus! {

/// The rules of one principal, as plain byte strings in insertion order.
pub type RuleList = Seq<Seq<u8>>;

/// The registry as a sequence of (principal, rules) entries in registry order.
pub type RegistryModel = Seq<(u32, RuleList)>;

/// The byte strings held by a vector of rules.
pub open spec fn rules_view(v: Seq<Rule>) -> RuleList {
    v.map_values(|r: Rule| r@)
}

/// Position of the entry of `uid` in `s`, or -1 when there is none.
pub open spec fn uid_index(s: RegistryModel, uid: u32) -> int {
    if exists|i: int| 0 <= i < s.len() && (#[trigger] s[i]).0 == uid {
        choose|i: int| 0 <= i < s.len() && (#[trigger] s[i]).0 == uid
    } else {
        -1
    }
}

/// Principals are unique, no entry is empty and no rule is oversized.
pub open spec fn registry_wf(s: RegistryModel) -> bool {
    &&& forall|i: int, j: int|
        0 <= i < s.len() && 0 <= j < s.len() && (#[trigger] s[i]).0 == (#[trigger] s[j]).0 ==> i == j
    &&& forall|i: int| 0 <= i < s.len() ==> (#[trigger] s[i]).1.len() > 0
    &&& forall|i: int, k: int|
        0 <= i < s.len() && 0 <= k < s[i].1.len() ==> (#[trigger] s[i].1[k]).len() <= RULE_SIZE
}

/// The registry after appending `rule` to the rules of `uid`.
pub open spec fn model_add(s: RegistryModel, uid: u32, rule: Seq<u8>) -> RegistryModel {
    let i = uid_index(s, uid);
    if i >= 0 {
        s.update(i, (uid, s[i].1.push(rule)))
    } else {
        s.push((uid, seq![rule]))
    }
}

/// The rules of `rules` that differ from `rule`, in their order.
pub open spec fn without_rule(rules: RuleList, rule: Seq<u8>) -> RuleList
    decreases rules.len(),
{
    if rules.len() == 0 {
        rules
    } else {
        let rest = without_rule(rules.drop_last(), rule);
        if rules.last() == rule {
            rest
        } else {
            rest.push(rules.last())
        }
    }
}

/// Every rule that survives a removal was there before.
pub proof fn lemma_without_rule_from(rules: RuleList, rule: Seq<u8>)
    ensures
        without_rule(rules, rule).len() <= rules.len(),
        forall|k: int|
            0 <= k < without_rule(rules, rule).len() ==> exists|j: int|
                0 <= j < rules.len() && rules[j] == #[trigger] without_rule(rules, rule)[k],
    decreases rules.len(),
{
    if rules.len() > 0 {
        lemma_without_rule_from(rules.drop_last(), rule);
        let rest = without_rule(rules.drop_last(), rule);
        assert forall|k: int| 0 <= k < without_rule(rules, rule).len() implies exists|j: int|
            0 <= j < rules.len() && rules[j] == #[trigger] without_rule(rules, rule)[k] by {
            if k < rest.len() {
                let j = choose|j: int| 0 <= j < rules.drop_last().len() && rules.drop_last()[j] == rest[k];
                assert(rules[j] == without_rule(rules, rule)[k]);
            } else {
                assert(rules[rules.len() - 1] == without_rule(rules, rule)[k]);
            }
        }
    }
}

/// The registry after dropping every copy of `rule` from `uid`, and the entry
/// itself once it holds nothing.
pub open spec fn model_remove(s: RegistryModel, uid: u32, rule: Seq<u8>) -> RegistryModel {
    let i = uid_index(s, uid);
    if i < 0 {
        s
    } else {
        let kept = without_rule(s[i].1, rule);
        if kept.len() == 0 {
            s.remove(i)
        } else {
            s.update(i, (uid, kept))
        }
    }
}

/// The rules of `uid`, if it has an entry.
pub open spec fn model_query(s: RegistryModel, uid: u32) -> Option<RuleList> {
    let i = uid_index(s, uid);
    if i >= 0 {
        Some(s[i].1)
    } else {
        None
    }
}

/// Principal that a freshly started registry holds a rule for.
pub const DEFAULT_UID: u32 = 1001;

/// The bytes of the rule a freshly started registry holds: `"Hello Rust :)"`.
pub open spec fn default_rule() -> Seq<u8> {
    seq![72u8, 101, 108, 108, 111, 32, 82, 117, 115, 116, 32, 58, 41]
}

/// The rules that one principal owns.
#[derive(Debug)]
pub struct UserRule {
    uid: u32,
    rules: Vec<Rule>,
}

impl View for UserRule {
    type V = (u32, RuleList);

    closed spec fn view(&self) -> (u32, RuleList) {
        (self.uid, rules_view(self.rules@))
    }
}

/// Deep copy of a vector of rules.
fn clone_rules(v: &Vec<Rule>) -> (r: Vec<Rule>)
    ensures
        rules_view(r@) == rules_view(v@),
{
    let mut out: Vec<Rule> = Vec::with_capacity(v.len());
    let mut i: usize = 0;
    while i < v.len()
        invariant
            i <= v@.len(),
            out@.len() == i,
            forall|j: int| 0 <= j < i ==> (#[trigger] out@[j])@ == v@[j]@,
        decreases v@.len() - i,
    {
        out.push(v[i].clone());
        i = i + 1;
    }
    assert(rules_view(out@) =~= rules_view(v@));
    out
}

/// Deep copies of the rules of `v` that differ from `rule`, in their order.
fn keep_other_rules(v: &Vec<Rule>, rule: &Vec<u8>) -> (r: Vec<Rule>)
    ensures
        rules_view(r@) == without_rule(rules_view(v@), rule@),
{
    let mut out: Vec<Rule> = Vec::new();
    let mut i: usize = 0;
    while i < v.len()
        invariant
            i <= v@.len(),
            rules_view(out@) == without_rule(rules_view(v@.take(i as int)), rule@),
        decreases v@.len() - i,
    {
        let ghost prev = rules_view(v@.take(i as int));
        let ghost next = rules_view(v@.take(i as int + 1));
        assert(next.drop_last() =~= prev);
        assert(next.last() == v@[i as int]@);
        if !v[i].matches(rule) {
            out.push(v[i].clone());
            assert(rules_view(out@) =~= without_rule(prev, rule@).push(v@[i as int]@));
        }
        i = i + 1;
    }
    assert(v@.take(v@.len() as int) =~= v@);
    out
}

impl UserRule {
    /// An entry for `uid` built from already validated rules.
    pub fn from_rules(uid: u32, rules: Vec<Rule>) -> (r: UserRule)
        ensures
            r@ == (uid, rules_view(rules@)),
    {
        UserRule { uid, rules }
    }

    /// The principal that owns these rules.
    pub fn uid(&self) -> (r: u32)
        ensures
            r == self@.0,
    {
        self.uid
    }

    /// The rules in insertion order.
    pub fn rules(&self) -> (r: &Vec<Rule>)
        ensures
            rules_view(r@) == self@.1,
    {
        &self.rules
    }

    /// A deep copy of this entry.
    pub fn clone(&self) -> (r: UserRule)
        ensures
            r@ == self@,
    {
        UserRule { uid: self.uid, rules: clone_rules(&self.rules) }
    }
}

/// The views of a vector of entries.
pub open spec fn entries_view(v: Seq<UserRule>) -> RegistryModel {
    v.map_values(|u: UserRule| u@)
}

/// The registry: at most one entry per principal, each holding at least one rule.
pub struct UserRuleStore {
    store: Vec<UserRule>,
}

impl View for UserRuleStore {
    type V = RegistryModel;

    closed spec fn view(&self) -> RegistryModel {
        entries_view(self.store@)
    }
}

impl UserRuleStore {
    /// The store's invariant.
    pub open spec fn wf(&self) -> bool {
        registry_wf(self@)
    }

    /// An empty registry.
    pub fn new() -> (r: UserRuleStore)
        ensures
            r.wf(),
            r@ == Seq::<(u32, RuleList)>::empty(),
    {
        let r = UserRuleStore { store: Vec::new() };
        assert(r@ =~= Seq::<(u32, RuleList)>::empty());
        r
    }

    /// A registry seeded with the default rule for `DEFAULT_UID`.
    pub fn init_rules() -> (r: UserRuleStore)
        ensures
            r.wf(),
            r@ == seq![(DEFAULT_UID, seq![default_rule()])],
    {
        let mut store = UserRuleStore::new();
        let rule: Vec<u8> = vec![72, 101, 108, 108, 111, 32, 82, 117, 115, 116, 32, 58, 41];
        assert(rule@ =~= default_rule());
        let _ = store.add_rule(DEFAULT_UID, rule);
        assert(store@ =~= seq![(DEFAULT_UID, seq![default_rule()])]);
        store
    }

    /// Position of the entry of `uid`, found by a scan in registry order.
    fn find(&self, uid: u32) -> (r: Option<usize>)
        requires
            self.wf(),
        ensures
            r is Some <==> uid_index(self@, uid) >= 0,
            r is Some ==> r->Some_0 as int == uid_index(self@, uid) && r->Some_0 < self@.len(),
            r is None ==> uid_index(self@, uid) == -1,
    {
        let mut i: usize = 0;
        while i < self.store.len()
            invariant
                self.wf(),
                i <= self@.len(),
                self@.len() == self.store@.len(),
                forall|j: int| 0 <= j < i ==> (#[trigger] self@[j]).0 != uid,
            decreases self@.len() - i,
        {
            if self.store[i].uid == uid {
                assert(self@[i as int].0 == uid);
                let ghost k = uid_index(self@, uid);
                assert(0 <= k < self@.len() && self@[k].0 == uid);
                assert(k == i as int);
                return Some(i);
            }
            assert(self@[i as int].0 != uid);
            i = i + 1;
        }
        assert(!exists|j: int| 0 <= j < self@.len() && (#[trigger] self@[j]).0 == uid);
        None
    }

    /// Appends `new_rule` to the rules of `uid`, creating its entry when it has
    /// none. Duplicates are kept. A payload over `RULE_SIZE` bytes is refused and
    /// leaves the registry unchanged.
    pub fn add_rule(&mut self, uid: u32, new_rule: Vec<u8>) -> (r: Result<(), RuleError>)
        requires
            old(self).wf(),
        ensures
            final(self).wf(),
            new_rule@.len() <= RULE_SIZE ==> r is Ok && final(self)@ == model_add(
                old(self)@,
                uid,
                new_rule@,
            ),
            new_rule@.len() > RULE_SIZE ==> r == Err::<(), RuleError>(RuleError::RuleTooLarge)
                && final(self)@ == old(self)@,
    {
        let rule = match Rule::new(new_rule) {
            Ok(rule) => rule,
            Err(e) => return Err(e),
        };
        let ghost before = self@;
        match self.find(uid) {
            Some(i) => {
                let ghost entry = self.store@[i as int];
                self.store[i].rules.push(rule);
                assert(rules_view(self.store@[i as int].rules@) =~= entry@.1.push(new_rule@));
                assert(self@ =~= before.update(i as int, (uid, before[i as int].1.push(new_rule@))));
            },
            None => {
                let mut rules: Vec<Rule> = Vec::new();
                rules.push(rule);
                let entry = UserRule { uid, rules };
                assert(entry@.1 =~= seq![new_rule@]);
                self.store.push(entry);
                assert(self@ =~= before.push((uid, seq![new_rule@])));
            },
        }
        Ok(())
    }

    /// Drops every rule of `uid` equal to `rule_to_remove`, and the entry of
    /// `uid` once it holds no rule. Absent principals and rules are no error.
    pub fn remove_rule(&mut self, uid: u32, rule_to_remove: Vec<u8>) -> (r: Result<(), RuleError>)
        requires
            old(self).wf(),
        ensures
            final(self).wf(),
            r is Ok,
            final(self)@ == model_remove(old(self)@, uid, rule_to_remove@),
    {
        let ghost before = self@;
        if let Some(i) = self.find(uid) {
            let kept = keep_other_rules(&self.store[i].rules, &rule_to_remove);
            proof {
                lemma_without_rule_from(before[i as int].1, rule_to_remove@);
            }
            if kept.len() == 0 {
                self.store.remove(i);
                assert(self@ =~= before.remove(i as int));
            } else {
                self.store[i].rules = kept;
                assert(self@ =~= before.update(i as int, (uid, without_rule(before[i as int].1, rule_to_remove@))));
            }
        }
        Ok(())
    }

    /// A deep copy of the rules of `uid`, or `None` when it has no entry.
    pub fn get_rules_by_id(&self, uid: u32) -> (r: Option<Vec<Rule>>)
        requires
            self.wf(),
        ensures
            r is Some <==> model_query(self@, uid) is Some,
            r is Some ==> Some(rules_view(r->Some_0@)) == model_query(self@, uid),
    {
        match self.find(uid) {
            Some(i) => Some(clone_rules(&self.store[i].rules)),
            None => None,
        }
    }

    /// A deep copy of every entry, in registry order.
    pub fn get_all_rules(&self) -> (r: Vec<UserRule>)
        ensures
            entries_view(r@) == self@,
    {
        let mut out: Vec<UserRule> = Vec::with_capacity(self.store.len());
        let mut i: usize = 0;
        while i < self.store.len()
            invariant
                i <= self.store@.len(),
                out@.len() == i,
                forall|j: int| 0 <= j < i ==> (#[trigger] out@[j])@ == self.store@[j]@,
            decreases self.store@.len() - i,
        {
            out.push(self.store[i].clone());
            i = i + 1;
        }
        assert(entries_view(out@) =~= self@);
        out
    }
}

} // verus!
