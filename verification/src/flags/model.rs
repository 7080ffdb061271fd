use vstd::prelude::*;
use vstd::utf8::encode_utf8;

verus! {

#[verifier::external_type_specification]
#[verifier::external_body]
pub struct ExUuid(uuid::Uuid);

/// One shift of the reflected CRC-32 register: drop the low bit and, when it was set, xor in
/// the reflected IEEE polynomial `0xEDB88320`.
pub open spec fn crc32_shift(register: u32) -> u32 {
    if register & 1 == 1 {
        (register >> 1) ^ 0xEDB8_8320u32
    } else {
        register >> 1
    }
}

/// `count` shifts of the CRC-32 register.
pub open spec fn crc32_shifts(register: u32, count: nat) -> u32
    decreases count,
{
    if count == 0 {
        register
    } else {
        crc32_shifts(crc32_shift(register), (count - 1) as nat)
    }
}

/// The CRC-32 register after the bytes, starting from all ones: each byte is xored into the
/// low bits and followed by eight shifts.
pub open spec fn crc32_register(data: Seq<u8>) -> u32
    decreases data.len(),
{
    if data.len() == 0 {
        0xFFFF_FFFFu32
    } else {
        crc32_shifts(crc32_register(data.drop_last()) ^ (data.last() as u32), 8)
    }
}

/// The CRC-32 (IEEE 802.3) checksum of a byte sequence: the final register with all bits
/// inverted.
pub open spec fn crc32_ieee(data: Seq<u8>) -> u32 {
    crc32_register(data) ^ 0xFFFF_FFFFu32
}

/// Calls `crc32fast::hash`, which the crate documents as computing the CRC32 (IEEE) checksum of
/// its input (its table and SIMD paths compute that same function). The contract states the
/// checksum by the standard bitwise definition.
#[verifier::external_body]
fn crc32_checksum(data: &[u8]) -> (sum: u32)
    ensures
        sum == crc32_ieee(data@),
{
    crc32fast::hash(data)
}

/// A targeting rule attached to a flag.
pub enum Rule {
    /// Matches the listed user ids.
    TargetUsers { user_ids: Vec<String> },
    /// Matches the users whose hash bucket (0..100) lies below `rollout`.
    Percentage { rollout: u8 },
}

/// Who is asking for a flag.
pub struct EvaluationContext {
    pub user_id: Option<String>,
    pub email: Option<String>,
}

impl EvaluationContext {
    pub open spec fn user(&self) -> Option<Seq<char>> {
        match self.user_id {
            Some(u) => Some(u@),
            None => None,
        }
    }
}

/// The bytes that are hashed to place a user in a rollout bucket: `"{user_id}:{key}"` in UTF-8.
pub open spec fn bucket_input(user_id: Seq<char>, key: Seq<char>) -> Seq<u8> {
    encode_utf8(user_id + seq![':'] + key)
}

/// The rollout bucket (0..100) of a user for a flag key.
pub open spec fn bucket_of(user_id: Seq<char>, key: Seq<char>) -> u32 {
    crc32_ieee(bucket_input(user_id, key)) % 100
}

/// Whether one rule admits a user (none admits a request without a user id).
pub open spec fn rule_matches(rule: Rule, user: Option<Seq<char>>, key: Seq<char>) -> bool {
    match user {
        None => false,
        Some(uid) => match rule {
            Rule::TargetUsers { user_ids } => user_ids.deep_view().contains(uid),
            Rule::Percentage { rollout } => bucket_of(uid, key) < rollout,
        },
    }
}

/// Whether some rule of the list admits the user.
pub open spec fn some_rule_matches(rules: Seq<Rule>, user: Option<Seq<char>>, key: Seq<char>) -> bool {
    exists|i: int| 0 <= i < rules.len() && rule_matches(#[trigger] rules[i], user, key)
}

/// The decision for a flag: off when disabled, on when enabled without rules,
/// otherwise on exactly when some rule admits the user.
pub open spec fn flag_decision(
    is_enabled: bool,
    rules: Seq<Rule>,
    user: Option<Seq<char>>,
    key: Seq<char>,
) -> bool {
    is_enabled && (rules.len() == 0 || some_rule_matches(rules, user, key))
}

impl Rule {
    /// Whether this rule admits the given user for the flag `key`.
    pub fn matches(&self, user_id: &String, key: &String) -> (admitted: bool)
        ensures
            admitted == rule_matches(*self, Some(user_id@), key@),
    {
        match self {
            Rule::TargetUsers { user_ids } => {
                let mut i: usize = 0;
                while i < user_ids.len()
                    invariant
                        0 <= i <= user_ids.len(),
                        *self == (Rule::TargetUsers { user_ids: *user_ids }),
                        forall|j: int| 0 <= j < i ==> user_ids@[j]@ != user_id@,
                    decreases user_ids.len() - i,
                {
                    if user_ids[i] == *user_id {
                        assert(user_ids.deep_view()[i as int] == user_id@);
                        return true;
                    }
                    i += 1;
                }
                assert(!user_ids.deep_view().contains(user_id@)) by {
                    if user_ids.deep_view().contains(user_id@) {
                        let j = choose|j: int|
                            0 <= j < user_ids.deep_view().len() && user_ids.deep_view()[j]
                                == user_id@;
                        assert(user_ids@[j]@ == user_id@);
                    }
                }
                false
            },
            Rule::Percentage { rollout } => {
                let mut input = user_id.clone();
                input.append(":");
                input.append(key.as_str());
                proof {
                    reveal_strlit(":");
                    assert(input@ == user_id@ + seq![':'] + key@);
                }
                let sum = crc32_checksum(input.as_str().as_bytes());
                let bucket = sum % 100;
                (bucket as u8) < *rollout
            },
        }
    }
}

/// A feature flag as it is stored.
pub struct Flag {
    pub id: uuid::Uuid,
    pub key: String,
    pub name: String,
    pub description: Option<String>,
    pub is_enabled: bool,
    pub rules: Vec<Rule>,
    /// Creation time, in microseconds since the Unix epoch (UTC).
    pub created_at: i64,
    /// Last update time, in microseconds since the Unix epoch (UTC).
    pub updated_at: i64,
}

impl Flag {
    /// The decision of this flag for a request context.
    pub open spec fn decision(&self, context: &EvaluationContext) -> bool {
        flag_decision(self.is_enabled, self.rules@, context.user(), self.key@)
    }

    /// Evaluates the flag for a request context: a disabled flag is off, an enabled flag
    /// without rules is on, and otherwise the flag is on when any rule admits the user.
    pub fn evaluate(&self, context: &EvaluationContext) -> (on: bool)
        ensures
            on == self.decision(context),
    {
        if !self.is_enabled {
            return false;
        }
        if self.rules.len() == 0 {
            return true;
        }
        let mut i: usize = 0;
        while i < self.rules.len()
            invariant
                0 <= i <= self.rules.len(),
                self.is_enabled,
                forall|j: int| 0 <= j < i ==> !rule_matches(#[trigger] self.rules@[j], context.user(), self.key@),
            decreases self.rules.len() - i,
        {
            if let Some(uid) = &context.user_id {
                if self.rules[i].matches(uid, &self.key) {
                    return true;
                }
            }
            i += 1;
        }
        false
    }
}

} // verus!
