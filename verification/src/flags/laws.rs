use vstd::prelude::*;

use vstd::utf8::encode_utf8;

use super::model::{
    crc32_ieee, flag_decision, rule_matches, some_rule_matches, EvaluationContext, Flag, Rule,
};

verus! {

/// A disabled flag is off for every request, whatever its rules.
pub proof fn lemma_disabled_flag_is_off(rules: Seq<Rule>, user: Option<Seq<char>>, key: Seq<char>)
    ensures
        !flag_decision(false, rules, user, key),
{
}

/// An enabled flag without rules is on for every request, with or without a user id.
pub proof fn lemma_enabled_flag_without_rules_is_on(user: Option<Seq<char>>, key: Seq<char>)
    ensures
        flag_decision(true, Seq::<Rule>::empty(), user, key),
{
}

/// A request without a user id is never admitted by a flag that has rules.
pub proof fn lemma_anonymous_request_is_off_under_rules(
    is_enabled: bool,
    rules: Seq<Rule>,
    key: Seq<char>,
)
    requires
        rules.len() > 0,
    ensures
        !flag_decision(is_enabled, rules, None, key),
{
}

/// Rules combine by union: a user is admitted by the concatenation of two rule lists
/// exactly when one of the two lists admits them.
pub proof fn lemma_rules_combine_by_union(
    first: Seq<Rule>,
    second: Seq<Rule>,
    user: Option<Seq<char>>,
    key: Seq<char>,
)
    ensures
        some_rule_matches(first + second, user, key) == (some_rule_matches(first, user, key)
            || some_rule_matches(second, user, key)),
{
    let all = first + second;
    if some_rule_matches(all, user, key) {
        let i = choose|i: int| 0 <= i < all.len() && rule_matches(#[trigger] all[i], user, key);
        if i < first.len() {
            assert(first[i] == all[i]);
        } else {
            assert(second[i - first.len()] == all[i]);
        }
    }
    if some_rule_matches(first, user, key) {
        let i = choose|i: int| 0 <= i < first.len() && rule_matches(#[trigger] first[i], user, key);
        assert(all[i] == first[i]);
    }
    if some_rule_matches(second, user, key) {
        let i = choose|i: int|
            0 <= i < second.len() && rule_matches(#[trigger] second[i], user, key);
        assert(all[first.len() + i] == second[i]);
    }
}

/// The order of a flag's rules does not change its decision: any rearrangement of the same
/// rules (the same multiset) decides every request alike.
pub proof fn lemma_rule_order_is_irrelevant(
    is_enabled: bool,
    rules: Seq<Rule>,
    reordered: Seq<Rule>,
    user: Option<Seq<char>>,
    key: Seq<char>,
)
    requires
        rules.to_multiset() == reordered.to_multiset(),
    ensures
        flag_decision(is_enabled, rules, user, key) == flag_decision(is_enabled, reordered, user, key),
{
    lemma_same_rules_admit_alike(rules, reordered, user, key);
    lemma_same_rules_admit_alike(reordered, rules, user, key);
    // Equal multisets have equal lengths, so both lists are empty or neither is.
    rules.to_multiset_ensures();
    reordered.to_multiset_ensures();
}

proof fn lemma_same_rules_admit_alike(
    rules: Seq<Rule>,
    reordered: Seq<Rule>,
    user: Option<Seq<char>>,
    key: Seq<char>,
)
    requires
        rules.to_multiset() == reordered.to_multiset(),
    ensures
        some_rule_matches(rules, user, key) ==> some_rule_matches(reordered, user, key),
{
    if some_rule_matches(rules, user, key) {
        let i = choose|i: int| 0 <= i < rules.len() && rule_matches(#[trigger] rules[i], user, key);
        let r = rules[i];
        vstd::seq_lib::to_multiset_contains(rules, r);
        vstd::seq_lib::to_multiset_contains(reordered, r);
        assert(rules.contains(r));
        assert(reordered.contains(r));
        let j = choose|j: int| 0 <= j < reordered.len() && reordered[j] == r;
        assert(rule_matches(reordered[j], user, key));
    }
}

/// A percentage rollout only grows: a user inside a rollout stays inside every larger one.
pub proof fn lemma_rollout_is_monotone(user_id: Seq<char>, key: Seq<char>, smaller: u8, larger: u8)
    requires
        smaller <= larger,
        rule_matches(Rule::Percentage { rollout: smaller }, Some(user_id), key),
    ensures
        rule_matches(Rule::Percentage { rollout: larger }, Some(user_id), key),
{
}

/// A rollout of 0 admits nobody.
pub proof fn lemma_zero_rollout_admits_nobody(user: Option<Seq<char>>, key: Seq<char>)
    ensures
        !rule_matches(Rule::Percentage { rollout: 0 }, user, key),
{
}

/// A rollout of 100 or more admits every request that carries a user id.
pub proof fn lemma_full_rollout_admits_every_user(user_id: Seq<char>, key: Seq<char>, rollout: u8)
    requires
        rollout >= 100,
    ensures
        rule_matches(Rule::Percentage { rollout }, Some(user_id), key),
{
}

/// A targeting rule admits every user it lists, and no request without a user id.
pub proof fn lemma_target_users_admits_listed_users(
    user_ids: Vec<String>,
    listed: int,
    key: Seq<char>,
)
    requires
        0 <= listed < user_ids@.len(),
    ensures
        rule_matches(Rule::TargetUsers { user_ids }, Some(user_ids@[listed]@), key),
        !rule_matches(Rule::TargetUsers { user_ids }, None, key),
{
    assert(user_ids.deep_view()[listed] == user_ids@[listed]@);
}

/// A flag decides on the user id alone: two requests with the same user id (or both without
/// one) get the same decision, whatever else their contexts hold.
pub proof fn lemma_decision_depends_on_user_id_only(
    flag: Flag,
    first: EvaluationContext,
    second: EvaluationContext,
)
    requires
        first.user() == second.user(),
    ensures
        flag.decision(&first) == flag.decision(&second),
{
}

/// A percentage rule admits a user exactly when the CRC-32 (IEEE) checksum of the UTF-8 text
/// `"{user_id}:{key}"`, taken modulo 100, is below the rollout, whatever the rollout is.
pub proof fn lemma_percentage_rule_admits_below_rollout(
    user_id: Seq<char>,
    key: Seq<char>,
    rollout: u8,
)
    ensures
        rule_matches(Rule::Percentage { rollout }, Some(user_id), key) == (crc32_ieee(
            encode_utf8(user_id + seq![':'] + key),
        ) % 100 < rollout),
{
}

/// A targeting rule admits a user id exactly when the id is one of the listed ids, character
/// for character.
pub proof fn lemma_target_rule_admits_exactly_listed(
    user_ids: Vec<String>,
    user_id: Seq<char>,
    key: Seq<char>,
)
    ensures
        rule_matches(Rule::TargetUsers { user_ids }, Some(user_id), key) == (exists|j: int|
            0 <= j < user_ids@.len() && #[trigger] user_ids@[j]@ == user_id),
{
    if rule_matches(Rule::TargetUsers { user_ids }, Some(user_id), key) {
        let j = choose|j: int|
            0 <= j < user_ids.deep_view().len() && user_ids.deep_view()[j] == user_id;
        assert(user_ids@[j]@ == user_id);
    }
    if exists|j: int| 0 <= j < user_ids@.len() && #[trigger] user_ids@[j]@ == user_id {
        let j = choose|j: int| 0 <= j < user_ids@.len() && #[trigger] user_ids@[j]@ == user_id;
        assert(user_ids.deep_view()[j] == user_id);
    }
}

/// What a flag decides for a request, in terms of the flag's fields and the request's user id:
/// a disabled flag is off; an enabled flag without rules is on; otherwise the flag is on
/// exactly when the request carries a user id and some rule admits that id as it is, a
/// targeting rule by listing it, a percentage rule by the id's CRC-32 bucket of
/// `"{user_id}:{key}"` lying below the rollout.
pub proof fn lemma_flag_decision_on_the_request(flag: Flag, context: EvaluationContext)
    ensures
        flag.decision(&context) == (flag.is_enabled && (flag.rules@.len() == 0 || (
        context.user_id matches Some(u) && exists|i: int|
            0 <= i < flag.rules@.len() && match #[trigger] flag.rules@[i] {
                Rule::TargetUsers { user_ids } => exists|j: int|
                    0 <= j < user_ids@.len() && #[trigger] user_ids@[j]@ == u@,
                Rule::Percentage { rollout } => crc32_ieee(encode_utf8(u@ + seq![':'] + flag.key@))
                    % 100 < rollout,
            }))),
{
    if let Some(u) = context.user_id {
        assert forall|i: int| 0 <= i < flag.rules@.len() implies rule_matches(
            #[trigger] flag.rules@[i],
            Some(u@),
            flag.key@,
        ) == match flag.rules@[i] {
            Rule::TargetUsers { user_ids } => exists|j: int|
                0 <= j < user_ids@.len() && #[trigger] user_ids@[j]@ == u@,
            Rule::Percentage { rollout } => crc32_ieee(encode_utf8(u@ + seq![':'] + flag.key@))
                % 100 < rollout,
        } by {
            match flag.rules@[i] {
                Rule::TargetUsers { user_ids } => {
                    lemma_target_rule_admits_exactly_listed(user_ids, u@, flag.key@);
                },
                Rule::Percentage { rollout } => {
                    lemma_percentage_rule_admits_below_rollout(u@, flag.key@, rollout);
                },
            }
        }
    }
}

/// An enabled flag is on for a request whose user id, exactly as given, is listed by one of
/// its targeting rules.
pub proof fn lemma_listed_user_turns_enabled_flag_on(
    flag: Flag,
    context: EvaluationContext,
    rule: int,
    listed: int,
)
    requires
        flag.is_enabled,
        0 <= rule < flag.rules@.len(),
        context.user_id matches Some(u) && flag.rules@[rule] matches Rule::TargetUsers { user_ids }
            && 0 <= listed < user_ids@.len() && user_ids@[listed]@ == u@,
    ensures
        flag.decision(&context),
{
    lemma_flag_decision_on_the_request(flag, context);
    let u = context.user_id->Some_0;
    assert(0 <= rule < flag.rules@.len() && match flag.rules@[rule] {
        Rule::TargetUsers { user_ids } => exists|j: int|
            0 <= j < user_ids@.len() && #[trigger] user_ids@[j]@ == u@,
        Rule::Percentage { rollout } => crc32_ieee(encode_utf8(u@ + seq![':'] + flag.key@)) % 100
            < rollout,
    });
}

} // verus!
