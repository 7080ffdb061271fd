use vstd::prelude::*;

verus! {

/// The exchange that receives submitted events.
pub const PAYIN_EXCHANGE: &'static str = "ALTPAY:PAYIN";

/// The dead-letter exchange paired with the events exchange.
pub const PAYIN_DEAD_LETTER_EXCHANGE: &'static str = "DLX__ALTPAY:PAYIN";

/// The routing key of submitted events.
pub const PAYIN_ROUTING_KEY: &'static str = "events.payin";

/// The content type of published events.
pub const EVENT_CONTENT_TYPE: &'static str = "application/json";

/// The kinds of exchange the service declares.
#[derive(PartialEq, Eq, Structural)]
pub enum ExchangeKind {
    Topic,
}

/// An exchange to declare on the broker at start-up.
pub struct ExchangeDeclaration {
    pub name: &'static str,
    pub kind: ExchangeKind,
    pub durable: bool,
}

/// The names of the exchanges declared at start-up, in declaration order.
pub open spec fn declared_exchange_names() -> Seq<Seq<char>> {
    seq![PAYIN_EXCHANGE@, PAYIN_DEAD_LETTER_EXCHANGE@]
}

/// The exchanges to declare at start-up: the events exchange and its dead-letter exchange,
/// both durable topic exchanges.
pub fn exchange_declarations() -> (declarations: Vec<ExchangeDeclaration>)
    ensures
        declarations@.len() == declared_exchange_names().len(),
        forall|i: int|
            0 <= i < declarations@.len() ==> (#[trigger] declarations@[i]).name@
                == declared_exchange_names()[i] && declarations@[i].kind == ExchangeKind::Topic
                && declarations@[i].durable,
{
    let mut declarations: Vec<ExchangeDeclaration> = Vec::new();
    declarations.push(ExchangeDeclaration { name: PAYIN_EXCHANGE, kind: ExchangeKind::Topic, durable: true });
    declarations.push(
        ExchangeDeclaration { name: PAYIN_DEAD_LETTER_EXCHANGE, kind: ExchangeKind::Topic, durable: true },
    );
    declarations
}

/// Where and how an event is published.
pub struct PublishTarget {
    pub exchange: &'static str,
    pub routing_key: &'static str,
    pub content_type: &'static str,
    pub persistent: bool,
}

/// The publication settings of every event: the events exchange, the `events.payin` routing
/// key, JSON content, persistent delivery.
pub fn publish_target() -> (target: PublishTarget)
    ensures
        target.exchange@ == PAYIN_EXCHANGE@,
        target.routing_key@ == PAYIN_ROUTING_KEY@,
        target.content_type@ == EVENT_CONTENT_TYPE@,
        target.persistent,
{
    PublishTarget {
        exchange: PAYIN_EXCHANGE,
        routing_key: PAYIN_ROUTING_KEY,
        content_type: EVENT_CONTENT_TYPE,
        persistent: true,
    }
}

/// Events are published to an exchange that start-up declares.
pub proof fn lemma_events_go_to_a_declared_exchange()
    ensures
        declared_exchange_names().contains(PAYIN_EXCHANGE@),
{
    assert(declared_exchange_names()[0] == PAYIN_EXCHANGE@);
}

} // verus!
