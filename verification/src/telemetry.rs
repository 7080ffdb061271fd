use vstd::prelude::*;
use vstd::utf8::{encode_utf8, encode_utf8_decode_utf8};

use crate::json::{
    has_no_control_chars, json_quote, json_string_literal, lemma_concat_keeps_no_control_chars,
    lemma_json_string_literal_has_no_control_chars, lemma_json_string_literal_is_decodable,
};

verus! {

/// The service name that telemetry and log lines carry.
pub const TELEMETRY_APP_ID: &'static str = "publisher";

/// Whether two texts are equal, compared through their UTF-8 bytes.
pub fn same_text(a: &str, b: &str) -> (same: bool)
    ensures
        same == (a@ == b@),
{
    let x = a.as_bytes();
    let y = b.as_bytes();
    proof {
        encode_utf8_decode_utf8(a@);
        encode_utf8_decode_utf8(b@);
    }
    if x.len() != y.len() {
        return false;
    }
    let mut i: usize = 0;
    while i < x.len()
        invariant
            x@.len() == y@.len(),
            x@ == encode_utf8(a@),
            y@ == encode_utf8(b@),
            0 <= i <= x@.len(),
            forall|j: int| 0 <= j < i ==> x@[j] == y@[j],
        decreases x@.len() - i,
    {
        if x[i] != y[i] {
            return false;
        }
        i += 1;
    }
    assert(x@ =~= y@);
    true
}

/// The fields of a log event that the log line keeps: its message and its event id.
pub struct EventFields {
    pub message: String,
    pub event_id: String,
}

impl EventFields {
    /// No field recorded yet.
    pub fn new() -> (fields: EventFields)
        ensures
            fields.message@ == Seq::<char>::empty(),
            fields.event_id@ == Seq::<char>::empty(),
    {
        EventFields { message: String::new(), event_id: String::new() }
    }

    /// Records the text of one event field: the `message` and `event_id` fields append to
    /// their text; every other field is ignored.
    pub fn record(&mut self, field: &str, text: &str)
        ensures
            field@ == "message"@ ==> final(self).message@ == old(self).message@ + text@
                && final(self).event_id@ == old(self).event_id@,
            field@ != "message"@ && field@ == "event_id"@ ==> final(self).event_id@ == old(
                self,
            ).event_id@ + text@ && final(self).message@ == old(self).message@,
            field@ != "message"@ && field@ != "event_id"@ ==> final(self).message@ == old(
                self,
            ).message@ && final(self).event_id@ == old(self).event_id@,
    {
        if same_text(field, "message") {
            self.message.append(text);
        } else if same_text(field, "event_id") {
            self.event_id.append(text);
        }
    }
}

/// A log line: one JSON object with the keys in order `event_id`, `level`, `message`,
/// `service`, `timestamp`, `trace_id` (the sorted order in which serde_json writes a map when
/// its `preserve_order` feature is off), followed by a newline.
pub open spec fn log_line(
    timestamp: Seq<char>,
    level: Seq<char>,
    trace_id: Seq<char>,
    event_id: Seq<char>,
    message: Seq<char>,
) -> Seq<char> {
    "{\"event_id\":"@ + json_string_literal(event_id) + ",\"level\":"@ + json_string_literal(level)
        + ",\"message\":"@ + json_string_literal(message) + ",\"service\":"@ + json_string_literal(
        TELEMETRY_APP_ID@,
    ) + ",\"timestamp\":"@ + json_string_literal(timestamp) + ",\"trace_id\":"@
        + json_string_literal(trace_id) + "}\n"@
}

/// After a common key, the field's value is read back: two equal texts made of the same key,
/// a JSON string literal and a rest hold the same value and the same rest.
proof fn lemma_field_reads_back(
    key: Seq<char>,
    a: Seq<char>,
    b: Seq<char>,
    rest_a: Seq<char>,
    rest_b: Seq<char>,
)
    requires
        key + (json_string_literal(a) + rest_a) == key + (json_string_literal(b) + rest_b),
    ensures
        a == b,
        rest_a == rest_b,
{
    let s = key + (json_string_literal(a) + rest_a);
    assert(s.subrange(key.len() as int, s.len() as int) =~= json_string_literal(a) + rest_a);
    assert(s.subrange(key.len() as int, s.len() as int) =~= json_string_literal(b) + rest_b);
    lemma_json_string_literal_is_decodable(a, b, rest_a, rest_b);
}

proof fn lemma_regroup_line(
    k1: Seq<char>,
    v1: Seq<char>,
    k2: Seq<char>,
    v2: Seq<char>,
    k3: Seq<char>,
    v3: Seq<char>,
    k4: Seq<char>,
    v4: Seq<char>,
    k5: Seq<char>,
    v5: Seq<char>,
    k6: Seq<char>,
    v6: Seq<char>,
    end: Seq<char>,
)
    ensures
        k1 + v1 + k2 + v2 + k3 + v3 + k4 + v4 + k5 + v5 + k6 + v6 + end == k1 + (v1 + (k2 + (v2 + (
        k3 + (v3 + ((k4 + v4 + k5) + (v5 + (k6 + (v6 + end))))))))),
{
    assert(k1 + v1 + k2 + v2 + k3 + v3 + k4 + v4 + k5 + v5 + k6 + v6 + end =~= k1 + (v1 + (k2 + (
    v2 + (k3 + (v3 + ((k4 + v4 + k5) + (v5 + (k6 + (v6 + end))))))))));
}

/// A log line gives back every field it was written from, whole: two events that give the
/// same line have the same time stamp, level, trace id, event id and message, whatever their
/// lengths and characters.
pub proof fn lemma_log_line_gives_back_its_fields(
    timestamp: Seq<char>,
    level: Seq<char>,
    trace_id: Seq<char>,
    event_id: Seq<char>,
    message: Seq<char>,
    other_timestamp: Seq<char>,
    other_level: Seq<char>,
    other_trace_id: Seq<char>,
    other_event_id: Seq<char>,
    other_message: Seq<char>,
)
    requires
        log_line(timestamp, level, trace_id, event_id, message) == log_line(
            other_timestamp,
            other_level,
            other_trace_id,
            other_event_id,
            other_message,
        ),
    ensures
        timestamp == other_timestamp,
        level == other_level,
        trace_id == other_trace_id,
        event_id == other_event_id,
        message == other_message,
{
    let k1 = "{\"event_id\":"@;
    let k2 = ",\"level\":"@;
    let k3 = ",\"message\":"@;
    let k4 = ",\"service\":"@;
    let k5 = ",\"timestamp\":"@;
    let k6 = ",\"trace_id\":"@;
    let app = json_string_literal(TELEMETRY_APP_ID@);
    let end = "}\n"@;
    let km = k4 + app + k5;
    let r5 = json_string_literal(timestamp) + (k6 + (json_string_literal(trace_id) + end));
    let r3 = json_string_literal(message) + (km + r5);
    let r2 = json_string_literal(level) + (k3 + r3);
    let o5 = json_string_literal(other_timestamp) + (k6 + (json_string_literal(other_trace_id)
        + end));
    let o3 = json_string_literal(other_message) + (km + o5);
    let o2 = json_string_literal(other_level) + (k3 + o3);
    lemma_regroup_line(
        k1,
        json_string_literal(event_id),
        k2,
        json_string_literal(level),
        k3,
        json_string_literal(message),
        k4,
        app,
        k5,
        json_string_literal(timestamp),
        k6,
        json_string_literal(trace_id),
        end,
    );
    lemma_regroup_line(
        k1,
        json_string_literal(other_event_id),
        k2,
        json_string_literal(other_level),
        k3,
        json_string_literal(other_message),
        k4,
        app,
        k5,
        json_string_literal(other_timestamp),
        k6,
        json_string_literal(other_trace_id),
        end,
    );
    lemma_field_reads_back(k1, event_id, other_event_id, k2 + r2, k2 + o2);
    lemma_field_reads_back(k2, level, other_level, k3 + r3, k3 + o3);
    lemma_field_reads_back(k3, message, other_message, km + r5, km + o5);
    lemma_field_reads_back(
        km,
        timestamp,
        other_timestamp,
        k6 + (json_string_literal(trace_id) + end),
        k6 + (json_string_literal(other_trace_id) + end),
    );
    lemma_field_reads_back(k6, trace_id, other_trace_id, end, end);
}

proof fn lemma_log_keys_have_no_control_chars()
    ensures
        has_no_control_chars("{\"event_id\":"@),
        has_no_control_chars(",\"level\":"@),
        has_no_control_chars(",\"message\":"@),
        has_no_control_chars(",\"service\":"@),
        has_no_control_chars(",\"timestamp\":"@),
        has_no_control_chars(",\"trace_id\":"@),
        has_no_control_chars("}"@),
{
    reveal_strlit("{\"event_id\":");
    reveal_strlit(",\"level\":");
    reveal_strlit(",\"message\":");
    reveal_strlit(",\"service\":");
    reveal_strlit(",\"timestamp\":");
    reveal_strlit(",\"trace_id\":");
    reveal_strlit("}");
}

/// Formats one log event as a JSON line with its time stamp, level, trace id and recorded
/// fields, under the service name `publisher`. The line ends with its only line break, so each
/// event is one line of output whatever its texts hold.
pub fn format_log_line(timestamp: &str, level: &str, trace_id: &str, fields: &EventFields) -> (line: String)
    ensures
        line@ == log_line(timestamp@, level@, trace_id@, fields.event_id@, fields.message@),
        line@.len() > 0,
        line@.last() == '\n',
        forall|i: int| 0 <= i < line@.len() - 1 ==> line@[i] != '\n',
{
    proof {
        lemma_log_keys_have_no_control_chars();
        lemma_json_string_literal_has_no_control_chars(fields.event_id@);
        lemma_json_string_literal_has_no_control_chars(level@);
        lemma_json_string_literal_has_no_control_chars(fields.message@);
        lemma_json_string_literal_has_no_control_chars(TELEMETRY_APP_ID@);
        lemma_json_string_literal_has_no_control_chars(timestamp@);
        lemma_json_string_literal_has_no_control_chars(trace_id@);
    }
    let mut line = String::new();
    line.append("{\"event_id\":");
    assert(line@ =~= "{\"event_id\":"@);
    let part = json_quote(fields.event_id.as_str());
    proof { lemma_concat_keeps_no_control_chars(line@, part@); }
    line.append(part.as_str());
    proof { lemma_concat_keeps_no_control_chars(line@, ",\"level\":"@); }
    line.append(",\"level\":");
    let part = json_quote(level);
    proof { lemma_concat_keeps_no_control_chars(line@, part@); }
    line.append(part.as_str());
    proof { lemma_concat_keeps_no_control_chars(line@, ",\"message\":"@); }
    line.append(",\"message\":");
    let part = json_quote(fields.message.as_str());
    proof { lemma_concat_keeps_no_control_chars(line@, part@); }
    line.append(part.as_str());
    proof { lemma_concat_keeps_no_control_chars(line@, ",\"service\":"@); }
    line.append(",\"service\":");
    let part = json_quote(TELEMETRY_APP_ID);
    proof { lemma_concat_keeps_no_control_chars(line@, part@); }
    line.append(part.as_str());
    proof { lemma_concat_keeps_no_control_chars(line@, ",\"timestamp\":"@); }
    line.append(",\"timestamp\":");
    let part = json_quote(timestamp);
    proof { lemma_concat_keeps_no_control_chars(line@, part@); }
    line.append(part.as_str());
    proof { lemma_concat_keeps_no_control_chars(line@, ",\"trace_id\":"@); }
    line.append(",\"trace_id\":");
    let part = json_quote(trace_id);
    proof { lemma_concat_keeps_no_control_chars(line@, part@); }
    line.append(part.as_str());
    proof { lemma_concat_keeps_no_control_chars(line@, "}"@); }
    line.append("}");
    let ghost body = line@;
    line.append("\n");
    proof {
        reveal_strlit("}");
        reveal_strlit("\n");
        reveal_strlit("}\n");
        assert("}"@ + "\n"@ =~= "}\n"@);
        assert(line@ =~= body + seq!['\n']);
        assert forall|i: int| 0 <= i < line@.len() - 1 implies line@[i] != '\n' by {
            assert(line@[i] == body[i]);
            assert((body[i]) as u32 >= 0x20);
        }
    }
    line
}

} // verus!
