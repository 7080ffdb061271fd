use vstd::prelude::*;

verus! {

/// The RabbitMQ host used when none is configured.
pub const DEFAULT_RABBITMQ_HOST: &'static str = "localhost";

/// The RabbitMQ port used when none is configured, as text.
pub const DEFAULT_RABBITMQ_PORT: &'static str = "5672";

/// The RabbitMQ user (and password) used when none is configured.
pub const DEFAULT_RABBITMQ_CREDENTIAL: &'static str = "guest";

/// The OTLP collector endpoint used when none is configured.
pub const DEFAULT_OTLP_ENDPOINT: &'static str = "http://localhost:4317";

/// The log filter used when the environment gives no valid one.
pub const DEFAULT_LOG_FILTER: &'static str = "app=debug,tower_http=debug,axum::rejection=trace";

pub open spec fn is_ascii_digit(c: char) -> bool {
    '0' <= c <= '9'
}

/// The number that a string of decimal digits denotes.
pub open spec fn digits_value(digits: Seq<char>) -> nat
    decreases digits.len(),
{
    if digits.len() == 0 {
        0
    } else {
        digits_value(digits.drop_last()) * 10 + (digits.last() as nat - '0' as nat) as nat
    }
}

/// The text without its leading `+`, if it has one.
pub open spec fn without_plus_sign(text: Seq<char>) -> Seq<char> {
    if text.len() > 0 && text[0] == '+' {
        text.drop_first()
    } else {
        text
    }
}

/// Whether every character of a text is an ASCII decimal digit.
pub open spec fn all_ascii_digits(text: Seq<char>) -> bool {
    forall|i: int| 0 <= i < text.len() ==> is_ascii_digit(#[trigger] text[i])
}

/// The `u16` that a text denotes as `str::parse::<u16>` reads it: an optional `+`, then one or
/// more ASCII decimal digits and nothing else, with a value of at most 65535.
pub open spec fn decimal_u16(text: Seq<char>) -> Option<u16> {
    let digits = without_plus_sign(text);
    if digits.len() > 0 && all_ascii_digits(digits) && digits_value(digits) <= u16::MAX {
        Some(digits_value(digits) as u16)
    } else {
        None
    }
}

/// The decimal digit of a value below 10.
pub open spec fn decimal_digit(d: nat) -> char
    recommends
        d < 10,
{
    seq!['0', '1', '2', '3', '4', '5', '6', '7', '8', '9'][d as int]
}

/// A number written in decimal, most significant digit first, without leading zeros.
pub open spec fn decimal_text(n: nat) -> Seq<char>
    decreases n,
{
    if n < 10 {
        seq![decimal_digit(n)]
    } else {
        decimal_text(n / 10) + seq![decimal_digit(n % 10)]
    }
}

proof fn lemma_decimal_text_reads_back(n: nat)
    ensures
        decimal_text(n).len() > 0,
        decimal_text(n)[0] != '+',
        forall|i: int| 0 <= i < decimal_text(n).len() ==> is_ascii_digit(#[trigger] decimal_text(n)[i]),
        digits_value(decimal_text(n)) == n,
    decreases n,
{
    let t = decimal_text(n);
    if n < 10 {
        assert(t.drop_last() =~= Seq::<char>::empty());
        assert(digits_value(Seq::<char>::empty()) == 0);
    } else {
        let d = (n % 10) as nat;
        lemma_decimal_text_reads_back(n / 10);
        assert(t.drop_last() =~= decimal_text(n / 10));
        assert(t[0] == decimal_text(n / 10)[0]);
        assert forall|i: int| 0 <= i < t.len() implies is_ascii_digit(#[trigger] t[i]) by {
            if i < t.len() - 1 {
                assert(t[i] == decimal_text(n / 10)[i]);
            }
        }
        assert(t.last() as nat - '0' as nat == d);
    }
}

/// Every port, written in decimal, is accepted and read back as itself.
pub proof fn lemma_every_port_reads_back(port: u16)
    ensures
        decimal_u16(decimal_text(port as nat)) == Some(port),
{
    lemma_decimal_text_reads_back(port as nat);
}

/// A port text is refused when it is empty, is a lone `+`, or holds any character other than
/// a decimal digit besides one leading `+`.
pub proof fn lemma_malformed_port_is_refused(text: Seq<char>, at: int)
    requires
        text.len() == 0 || text =~= seq!['+'] || (0 <= at < text.len() && !is_ascii_digit(text[at])
            && !(at == 0 && text[at] == '+')),
    ensures
        decimal_u16(text) is None,
{
    let digits = without_plus_sign(text);
    if text =~= seq!['+'] {
        assert(digits.len() == 0);
    } else if text.len() > 0 && text[0] == '+' {
        assert(digits[at - 1] == text[at]);
    } else if text.len() > 0 {
        assert(digits[at] == text[at]);
    }
}

/// The default port text denotes port 5672.
proof fn lemma_default_port_is_5672()
    ensures
        decimal_u16(DEFAULT_RABBITMQ_PORT@) == Some(5672u16),
{
    reveal_strlit("5672");
    let t = DEFAULT_RABBITMQ_PORT@;
    let d1 = seq!['5'];
    let d2 = seq!['5', '6'];
    let d3 = seq!['5', '6', '7'];
    assert(t =~= seq!['5', '6', '7', '2']);
    assert(d1.drop_last() =~= Seq::<char>::empty());
    assert(digits_value(Seq::<char>::empty()) == 0);
    assert(d1.last() == '5');
    assert('5' as nat - '0' as nat == 5);
    assert(digits_value(d1) == 5);
    assert(d2.drop_last() =~= d1);
    assert(digits_value(d2) == 56);
    assert(d3.drop_last() =~= d2);
    assert(digits_value(d3) == 567);
    assert(t.drop_last() =~= d3);
    assert(digits_value(t) == 5672);
    assert(forall|i: int| 0 <= i < t.len() ==> is_ascii_digit(#[trigger] t[i]));
}

#[verifier::external_type_specification]
#[verifier::external_body]
pub struct ExParseIntError(core::num::ParseIntError);

/// Calls `str::parse::<u16>` (std's `FromStr` for `u16`). Its documentation: the text is an
/// optional `+` sign followed by decimal digits only; a sign without digits, any other
/// character, an empty text or a value above `u16::MAX` is an error. The contract states that
/// grammar; of the error it says nothing beyond its presence (std reports the kind: empty,
/// invalid digit, or too large).
#[verifier::external_body]
fn parse_u16(text: &str) -> (value: Result<u16, core::num::ParseIntError>)
    ensures
        value is Ok <==> decimal_u16(text@) is Some,
        value matches Ok(v) ==> decimal_u16(text@) == Some(v),
{
    text.parse::<u16>()
}

/// A configured text, or the default when it is absent.
pub open spec fn or_default(configured: Option<String>, default: Seq<char>) -> Seq<char> {
    match configured {
        Some(value) => value@,
        None => default,
    }
}

/// A configured value is used exactly as it is given, whatever its length; only an absent
/// value gives way to the default.
pub proof fn lemma_configured_value_is_used_verbatim(value: String, default: Seq<char>)
    ensures
        or_default(Some(value), default) == value@,
        or_default(None, default) == default,
{
}

fn owned_text(text: &str) -> (owned: String)
    ensures
        owned@ == text@,
{
    let mut owned = String::new();
    owned.append(text);
    assert(owned@ =~= text@);
    owned
}

fn text_or_default(configured: Option<String>, default: &str) -> (text: String)
    ensures
        text@ == or_default(configured, default@),
{
    match configured {
        Some(value) => value,
        None => owned_text(default),
    }
}

/// Why the configuration is refused.
pub enum ConfigError {
    /// `RABBITMQ_PORT` does not denote a `u16`; the parse error says why.
    InvalidRabbitPort(core::num::ParseIntError),
}

impl ConfigError {
    /// The message that explains the error.
    pub fn message(&self) -> (text: &'static str)
        ensures
            text@ == "RABBITMQ_PORT must be a valid u16"@,
    {
        match self {
            ConfigError::InvalidRabbitPort(_) => "RABBITMQ_PORT must be a valid u16",
        }
    }
}

/// How to reach the RabbitMQ broker.
pub struct RabbitSettings {
    pub host: String,
    pub port: u16,
    pub user: String,
    pub password: String,
}

/// The broker settings from the configured values (`RABBITMQ_HOST`, `RABBITMQ_PORT`,
/// `RABBITMQ_USER`, `RABBITMQ_PASS`; `None` where a variable is unset). Absent values take
/// the defaults `localhost`, `5672`, `guest`, `guest`; a port that is not a `u16` is refused.
pub fn rabbit_settings(
    host: Option<String>,
    port: Option<String>,
    user: Option<String>,
    password: Option<String>,
) -> (settings: Result<RabbitSettings, ConfigError>)
    ensures
        match decimal_u16(or_default(port, DEFAULT_RABBITMQ_PORT@)) {
            Some(p) => settings matches Ok(s) && s.port == p && s.host@ == or_default(
                host,
                DEFAULT_RABBITMQ_HOST@,
            ) && s.user@ == or_default(user, DEFAULT_RABBITMQ_CREDENTIAL@) && s.password@
                == or_default(password, DEFAULT_RABBITMQ_CREDENTIAL@),
            None => settings matches Err(ConfigError::InvalidRabbitPort(_)),
        },
        settings is Ok <==> match port {
            Some(p) => decimal_u16(p@) is Some,
            None => true,
        },
        settings matches Ok(s) ==> match host {
            Some(h) => s.host@ == h@,
            None => s.host@ == DEFAULT_RABBITMQ_HOST@,
        },
        settings matches Ok(s) ==> match port {
            Some(p) => decimal_u16(p@) == Some(s.port),
            None => s.port == 5672,
        },
        settings matches Ok(s) ==> match user {
            Some(u) => s.user@ == u@,
            None => s.user@ == DEFAULT_RABBITMQ_CREDENTIAL@,
        },
        settings matches Ok(s) ==> match password {
            Some(p) => s.password@ == p@,
            None => s.password@ == DEFAULT_RABBITMQ_CREDENTIAL@,
        },
{
    proof {
        lemma_default_port_is_5672();
    }
    let host = text_or_default(host, DEFAULT_RABBITMQ_HOST);
    let port_text = text_or_default(port, DEFAULT_RABBITMQ_PORT);
    let port = match parse_u16(port_text.as_str()) {
        Ok(p) => p,
        Err(cause) => return Err(ConfigError::InvalidRabbitPort(cause)),
    };
    let user = text_or_default(user, DEFAULT_RABBITMQ_CREDENTIAL);
    let password = text_or_default(password, DEFAULT_RABBITMQ_CREDENTIAL);
    Ok(RabbitSettings { host, port, user, password })
}

/// The OTLP collector endpoint: the configured one (`OTEL_EXPORTER_OTLP_ENDPOINT`), or
/// `http://localhost:4317`.
pub fn otlp_endpoint(configured: Option<String>) -> (endpoint: String)
    ensures
        endpoint@ == or_default(configured, DEFAULT_OTLP_ENDPOINT@),
        match configured {
            Some(c) => endpoint@ == c@,
            None => endpoint@ == DEFAULT_OTLP_ENDPOINT@,
        },
{
    text_or_default(configured, DEFAULT_OTLP_ENDPOINT)
}

} // verus!
