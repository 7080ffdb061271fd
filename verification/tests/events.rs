use publisher::error::{AppError, PublishError};
use publisher::events::confirm::{Confirmation, ConfirmTracker};
use publisher::events::dtos::{resolve_event_id, EventRequest};
use publisher::events::publish::{advance, first_stage, ingest_reply, PublishProgress, PublishStage, StepReport};
use publisher::events::routing::{exchange_declarations, publish_target, ExchangeKind};
use publisher::metrics::{publish_counter, PROM_PIPELINE_EVENTS_FAILED_TOTAL, PROM_PIPELINE_EVENTS_PUBLISHED_TOTAL};

fn is_v4_text(id: &str) -> bool {
    let b = id.as_bytes();
    b.len() == 36
        && b.iter().enumerate().all(|(i, c)| {
            if i == 8 || i == 13 || i == 18 || i == 23 {
                *c == b'-'
            } else {
                c.is_ascii_digit() || (b'a'..=b'f').contains(c)
            }
        })
        && b[14] == b'4'
        && matches!(b[19], b'8' | b'9' | b'a' | b'b')
}

#[test]
fn given_event_id_is_kept() {
    assert_eq!(resolve_event_id(Some("evt-42".to_string()), [7u8; 16]), "evt-42");
    let mut req = EventRequest {
        partner_id: "p1".to_string(),
        payload: serde_json::from_str::<serde_json::Value>("{\"amount\": 10}").unwrap(),
        event_id: Some("evt-42".to_string()),
    };
    let id = req.assign_event_id([0u8; 16]);
    assert_eq!(id, "evt-42");
    assert_eq!(req.event_id.as_deref(), Some("evt-42"));
    assert_eq!(req.partner_id, "p1");
    assert_eq!(req.payload, serde_json::from_str::<serde_json::Value>("{\"amount\": 10}").unwrap());
}

#[test]
fn missing_event_id_is_built_from_random_bytes() {
    let counting: [u8; 16] = [0, 1, 2, 3, 4, 5, 6, 7, 8, 9, 10, 11, 12, 13, 14, 15];
    assert_eq!(resolve_event_id(None, counting), "00010203-0405-4607-8809-0a0b0c0d0e0f");
    assert_eq!(resolve_event_id(None, [0xff; 16]), "ffffffff-ffff-4fff-bfff-ffffffffffff");
    assert_eq!(resolve_event_id(None, [0; 16]), "00000000-0000-4000-8000-000000000000");
    for seed in 0..=255u8 {
        let bytes: [u8; 16] = std::array::from_fn(|i| seed.wrapping_mul(31).wrapping_add(i as u8 * 17));
        let id = resolve_event_id(None, bytes);
        assert!(is_v4_text(&id), "{id}");
    }
    let mut req = EventRequest { partner_id: "p1".to_string(), payload: serde_json::Value::Null, event_id: None };
    let id = req.assign_event_id(counting);
    assert_eq!(id, "00010203-0405-4607-8809-0a0b0c0d0e0f");
    assert_eq!(req.event_id, Some(id));
}

fn run(reports: Vec<StepReport>) -> (Vec<PublishStage>, Option<Result<(), PublishError>>) {
    let mut stage = first_stage();
    let mut visited = vec![];
    for r in reports {
        visited.push(stage);
        match advance(stage, r) {
            PublishProgress::Next(s) => stage = s,
            PublishProgress::Finished(res) => return (visited, Some(res)),
        }
    }
    (visited, None)
}

fn ok() -> StepReport {
    StepReport::Succeeded
}

#[test]
fn publication_runs_every_step_in_order() {
    let (visited, res) = run(vec![ok(), ok(), ok(), ok(), ok(), ok()]);
    assert!(visited
        == vec![
            PublishStage::Serialize,
            PublishStage::OpenChannel,
            PublishStage::RegisterConfirmCallback,
            PublishStage::SelectConfirmMode,
            PublishStage::Publish,
            PublishStage::AwaitConfirmation,
        ]);
    assert!(matches!(res, Some(Ok(()))));
}

#[test]
fn failure_at_any_step_is_invalid() {
    for k in 0..6 {
        let mut reports: Vec<StepReport> = (0..k).map(|_| ok()).collect();
        reports.push(StepReport::Failed(anyhow::Error::msg(format!("step {k} failed"))));
        let (visited, res) = run(reports);
        assert_eq!(visited.len(), k + 1);
        match res {
            Some(Err(PublishError::Invalid(e))) => assert_eq!(e.to_string(), format!("step {k} failed")),
            _ => panic!("a failure ends the publication as invalid"),
        }
    }
}

#[test]
fn broker_refusal_is_a_nack_only_while_awaiting_confirmation() {
    let (_, res) = run(vec![ok(), ok(), ok(), ok(), ok(), StepReport::Nacked(anyhow::Error::msg("nacked"))]);
    assert!(matches!(res, Some(Err(PublishError::Nack(_)))));
    let (_, res) = run(vec![ok(), StepReport::Nacked(anyhow::Error::msg("odd"))]);
    assert!(matches!(res, Some(Err(PublishError::Invalid(_)))));
}

#[test]
fn ingest_reply_accepts_confirmed_events() {
    match ingest_reply(Ok(()), "trace".to_string(), "evt".to_string()) {
        Ok((status, resp)) => {
            assert_eq!(status, 202);
            assert_eq!(resp.trace_id, "trace");
            assert_eq!(resp.event_id, "evt");
        }
        Err(_) => panic!("a confirmed event is accepted"),
    }
    let r = ingest_reply(Err(PublishError::Nack(anyhow::Error::msg("nacked"))), "t".to_string(), "e".to_string());
    assert!(matches!(r, Err(AppError::UnexpectedError(_))));
    let r = ingest_reply(Err(PublishError::Invalid(anyhow::Error::msg("x"))), "t".to_string(), "e".to_string());
    match r {
        Err(e) => assert_eq!(e.into_reply().status, 500),
        Ok(_) => panic!("a failed publication is refused"),
    }
}

#[test]
fn one_counter_per_publication() {
    let c = publish_counter(&Ok(()));
    assert_eq!(c.name, "pipeline_events_published_total");
    assert_eq!(c.name, PROM_PIPELINE_EVENTS_PUBLISHED_TOTAL);
    assert_eq!(c.reason, None);
    let c = publish_counter(&Err(PublishError::Nack(anyhow::Error::msg("n"))));
    assert_eq!(c.name, PROM_PIPELINE_EVENTS_FAILED_TOTAL);
    assert_eq!(c.reason, Some("nack"));
    let c = publish_counter(&Err(PublishError::Invalid(anyhow::Error::msg("i"))));
    assert_eq!(c.name, "pipeline_events_failed_total");
    assert_eq!(c.reason, Some("invalid"));
}

#[test]
fn confirm_tracker_delivers_first_answer_only() {
    let mut t = ConfirmTracker::new();
    assert!(t.on_ack() == Some(Confirmation::Acked));
    assert!(t.on_nack().is_none());
    assert!(t.on_ack().is_none());
    let mut t = ConfirmTracker::new();
    assert!(t.on_nack() == Some(Confirmation::Nacked));
    assert!(t.on_ack().is_none());
    assert!(!t.awaiting);
}

#[test]
fn start_up_declares_the_publish_exchange() {
    let decls = exchange_declarations();
    let names: Vec<&str> = decls.iter().map(|d| d.name).collect();
    assert_eq!(names, vec!["ALTPAY:PAYIN", "DLX__ALTPAY:PAYIN"]);
    assert!(decls.iter().all(|d| d.durable && d.kind == ExchangeKind::Topic));
    let target = publish_target();
    assert_eq!(target.exchange, "ALTPAY:PAYIN");
    assert_eq!(target.routing_key, "events.payin");
    assert_eq!(target.content_type, "application/json");
    assert!(target.persistent);
    assert!(names.contains(&target.exchange));
}
