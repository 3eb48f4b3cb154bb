//! What the orchestration spans are made of (names, kinds, attributes), and
//! the conversion between W3C trace contexts and span contexts.

use vstd::prelude::*;

use crate::config::opt_view;
use crate::durabletask::proto::{TimerFiredEvent, TraceContext};
use crate::text::{
    all_digits, char_index_from, digit_value, digits_value, int_text, is_digit,
    lemma_char_index_bounds, nat_digits, parse_unsigned, parse_unsigned_at_most,
    parse_unsigned_bounded, split_char, split_on, unsigned_body,
};

verus! {

#[verifier::external_type_specification]
#[verifier::external_body]
pub struct ExTraceState(opentelemetry::trace::TraceState);

/// The kind of a span, as `opentelemetry::trace::SpanKind` lists them.
#[derive(Clone, Copy, Debug, PartialEq, Eq, Structural)]
pub enum SpanKindTag {
    Client,
    Server,
    Producer,
    Consumer,
    Internal,
}

/// The value of a span attribute.
#[derive(Clone, Debug, PartialEq, Eq)]
pub enum AttributeValue {
    Text(String),
    Int(i64),
}

/// A span attribute: a key and its value.
#[derive(Clone, Debug, PartialEq, Eq)]
pub struct SpanAttribute {
    pub key: String,
    pub value: AttributeValue,
}

/// What a span is started with: the task's type, name and version (which
/// make up the span's name), its attributes and its kind.
#[derive(Clone, Debug)]
pub struct SpanRequest {
    pub task_type: String,
    pub task_name: String,
    pub task_version: String,
    pub attributes: Vec<SpanAttribute>,
    pub kind: SpanKindTag,
}

/// A span's name: `type||name||version` when there is a version, else
/// `type||name` when there is a name, else the (empty) name.
pub open spec fn spec_span_name(task_type: Seq<char>, task_name: Seq<char>, task_version: Seq<char>) -> Seq<char> {
    if task_version.len() != 0 {
        task_type + "||"@ + task_name + "||"@ + task_version
    } else if task_name.len() != 0 {
        task_type + "||"@ + task_name
    } else {
        task_name
    }
}

/// The span name of a task (see [`spec_span_name`]).
pub fn span_name(task_type: &str, task_name: &str, task_version: &str) -> (r: String)
    ensures
        r@ == spec_span_name(task_type@, task_name@, task_version@),
{
    if task_version.unicode_len() != 0 {
        String::from_str(task_type).concat("||").concat(task_name).concat("||").concat(task_version)
    } else if task_name.unicode_len() != 0 {
        String::from_str(task_type).concat("||").concat(task_name)
    } else {
        String::from_str(task_name)
    }
}

impl SpanRequest {
    /// The name of the span (see [`spec_span_name`]).
    pub fn name(&self) -> (r: String)
        ensures
            r@ == spec_span_name(self.task_type@, self.task_name@, self.task_version@),
    {
        span_name(self.task_type.as_str(), self.task_name.as_str(), self.task_version.as_str())
    }
}

/// Whether `a` is the text attribute `key` = `value`.
pub open spec fn is_text_attribute(a: SpanAttribute, key: Seq<char>, value: Seq<char>) -> bool {
    a.key@ == key && (a.value matches AttributeValue::Text(v) && v@ == value)
}

fn text_attribute(key: &str, value: &str) -> (r: SpanAttribute)
    ensures
        is_text_attribute(r, key@, value@),
{
    SpanAttribute { key: String::from_str(key), value: AttributeValue::Text(String::from_str(value)) }
}

/// The attributes shared by orchestration and activity spans: the type,
/// the task's name and the instance id.
pub open spec fn task_attributes(attrs: Seq<SpanAttribute>, kind: Seq<char>, name: Seq<char>, instance_id: Seq<char>) -> bool {
    &&& attrs.len() >= 3
    &&& is_text_attribute(attrs[0], "durabletask.type"@, kind)
    &&& is_text_attribute(attrs[1], "durabletask.task.name"@, name)
    &&& is_text_attribute(attrs[2], "durabletask.task.instance_id"@, instance_id)
}

fn task_attributes_vec(kind: &str, name: &str, instance_id: &str) -> (r: Vec<SpanAttribute>)
    ensures
        r@.len() == 3,
        task_attributes(r@, kind@, name@, instance_id@),
{
    let mut v = Vec::new();
    v.push(text_attribute("durabletask.type", kind));
    v.push(text_attribute("durabletask.task.name", name));
    v.push(text_attribute("durabletask.task.instance_id", instance_id));
    v
}

/// The span that records the creation of orchestration `instance_id` of
/// `name`: type `create_orchestration`, kind client.
pub fn create_orchestration_span(name: &str, version: &str, instance_id: &str) -> (r: SpanRequest)
    ensures
        r.task_type@ == "create_orchestration"@,
        r.task_name@ == name@,
        r.task_version@ == version@,
        r.kind == SpanKindTag::Client,
        r.attributes@.len() == 3,
        task_attributes(r.attributes@, "orchestration"@, name@, instance_id@),
{
    SpanRequest {
        task_type: String::from_str("create_orchestration"),
        task_name: String::from_str(name),
        task_version: String::from_str(version),
        attributes: task_attributes_vec("orchestration", name, instance_id),
        kind: SpanKindTag::Client,
    }
}

/// The span that records a run of orchestration `instance_id` of `name`:
/// type `orchestration`, kind server.
pub fn run_orchestration_span(name: &str, version: &str, instance_id: &str) -> (r: SpanRequest)
    ensures
        r.task_type@ == "orchestration"@,
        r.task_name@ == name@,
        r.task_version@ == version@,
        r.kind == SpanKindTag::Server,
        r.attributes@.len() == 3,
        task_attributes(r.attributes@, "orchestration"@, name@, instance_id@),
{
    SpanRequest {
        task_type: String::from_str("orchestration"),
        task_name: String::from_str(name),
        task_version: String::from_str(version),
        attributes: task_attributes_vec("orchestration", name, instance_id),
        kind: SpanKindTag::Server,
    }
}

/// The span that records activity task `task_id` of instance
/// `instance_id`: type `create_orchestration` (the same type as the span of an
/// orchestration's creation),
/// kind client, with the task id as a fourth attribute.
pub fn activity_span(name: &str, version: &str, instance_id: &str, task_id: i32) -> (r: SpanRequest)
    ensures
        r.task_type@ == "create_orchestration"@,
        r.task_name@ == name@,
        r.task_version@ == version@,
        r.kind == SpanKindTag::Client,
        r.attributes@.len() == 4,
        task_attributes(r.attributes@, "activity"@, name@, instance_id@),
        r.attributes@[3].key@ == "durabletask.task.task_id"@,
        r.attributes@[3].value == AttributeValue::Int(task_id as i64),
{
    let mut attributes = task_attributes_vec("activity", name, instance_id);
    attributes.push(
        SpanAttribute {
            key: String::from_str("durabletask.task.task_id"),
            value: AttributeValue::Int(task_id as i64),
        },
    );
    SpanRequest {
        task_type: String::from_str("create_orchestration"),
        task_name: String::from_str(name),
        task_version: String::from_str(version),
        attributes,
        kind: SpanKindTag::Client,
    }
}

/// The RFC 3339 text of the UTC time `seconds` and `nanos` past the Unix
/// epoch, as `chrono` renders it; `None` when `chrono` cannot represent the
/// time.
pub uninterp spec fn utc_rfc3339(seconds: i64, nanos: u32) -> Option<Seq<char>>;

/// `chrono::DateTime::from_timestamp` followed by `to_rfc3339`.
#[verifier::external_body]
fn format_rfc3339(seconds: i64, nanos: u32) -> (r: Option<String>)
    ensures
        opt_view(r) == utc_rfc3339(seconds, nanos),
{
    match chrono::DateTime::from_timestamp(seconds, nanos) {
        Some(d) => Some(d.to_rfc3339()),
        None => None,
    }
}

/// Whether a timer span can be made for `tf`: it has a firing time that
/// `chrono` can render.
pub open spec fn timer_span_possible(tf: TimerFiredEvent) -> bool {
    tf.fire_at matches Some(t) && utc_rfc3339(t.seconds, t.nanos as u32) is Some
}

/// The span that records timer `tf.timer_id` firing: type `timer`, no name
/// or version, kind internal; its name attribute is the firing time in RFC
/// 3339.
pub fn timer_span(tf: &TimerFiredEvent, instance_id: &str) -> (r: SpanRequest)
    requires
        timer_span_possible(*tf),
    ensures
        r.task_type@ == "timer"@,
        r.task_name@.len() == 0,
        r.task_version@.len() == 0,
        r.kind == SpanKindTag::Internal,
        r.attributes@.len() == 4,
        task_attributes(
            r.attributes@,
            "timer"@,
            utc_rfc3339(tf.fire_at->0.seconds, tf.fire_at->0.nanos as u32)->0,
            instance_id@,
        ),
        r.attributes@[3].key@ == "durabletask.task.task_id"@,
        r.attributes@[3].value == AttributeValue::Int(tf.timer_id as i64),
{
    let fire_at = match tf.fire_at {
        Some(t) => t,
        None => {
            assert(false);
            return SpanRequest {
                task_type: String::new(),
                task_name: String::new(),
                task_version: String::new(),
                attributes: Vec::new(),
                kind: SpanKindTag::Internal,
            };
        },
    };
    let time = match format_rfc3339(fire_at.seconds, fire_at.nanos as u32) {
        Some(t) => t,
        None => {
            assert(false);
            String::new()
        },
    };
    let mut attributes = task_attributes_vec("timer", time.as_str(), instance_id);
    attributes.push(
        SpanAttribute {
            key: String::from_str("durabletask.task.task_id"),
            value: AttributeValue::Int(tf.timer_id as i64),
        },
    );
    proof { reveal_strlit(""); }
    SpanRequest {
        task_type: String::from_str("timer"),
        task_name: String::from_str(""),
        task_version: String::from_str(""),
        attributes,
        kind: SpanKindTag::Internal,
    }
}

/// The timer span for `tf` when one can be made (see [`timer_span`]), and
/// `None` when `tf` has no firing time or `chrono` cannot render it.
pub fn checked_timer_span(tf: &TimerFiredEvent, instance_id: &str) -> (r: Option<SpanRequest>)
    ensures
        r is Some <==> timer_span_possible(*tf),
        r matches Some(s) ==> s.task_type@ == "timer"@ && s.task_name@.len() == 0
            && s.task_version@.len() == 0 && s.kind == SpanKindTag::Internal
            && s.attributes@.len() == 4 && s.attributes@[3].key@ == "durabletask.task.task_id"@
            && s.attributes@[3].value == AttributeValue::Int(tf.timer_id as i64) && task_attributes(
            s.attributes@,
            "timer"@,
            utc_rfc3339(tf.fire_at->0.seconds, tf.fire_at->0.nanos as u32)->0,
            instance_id@,
        ),
{
    match tf.fire_at {
        Some(t) => match format_rfc3339(t.seconds, t.nanos as u32) {
            Some(_) => Some(timer_span(tf, instance_id)),
            None => None,
        },
        None => None,
    }
}


/// Whether `opentelemetry` accepts `header` as a W3C `tracestate` list
/// (`TraceState::from_str`).
pub uninterp spec fn trace_state_accepted(header: Seq<char>) -> bool;

/// `opentelemetry::trace::TraceState::from_str`: the parsed trace state, or
/// `None` when the text is not a valid list.
#[verifier::external_body]
fn parse_trace_state(header: &str) -> (r: Option<opentelemetry::trace::TraceState>)
    ensures
        r is Some <==> trace_state_accepted(header@),
{
    match header.parse::<opentelemetry::trace::TraceState>() {
        Ok(t) => Some(t),
        Err(_) => None,
    }
}

/// Why a trace context could not be turned into a span context.
#[derive(Debug, PartialEq, Eq, Structural)]
pub enum TraceContextError {
    /// The trace id is not a decimal `u128`.
    InvalidTraceId,
    /// The trace state is not a valid W3C list.
    InvalidTraceState,
    /// The span id is not a decimal `u64`.
    InvalidSpanId,
    /// The first character of the trace flags is not a digit.
    InvalidTraceFlags,
}

/// The parts of a span context read from a trace context.
#[derive(Debug)]
pub struct SpanContextParts {
    pub trace_id: u128,
    pub span_id: u64,
    pub trace_flags: u8,
    /// The parsed trace state; `None` when the trace context has none.
    pub trace_state: Option<opentelemetry::trace::TraceState>,
}

/// The trace id, span id and flags texts of a trace context: the second,
/// third and fourth `-`-separated pieces of `trace_parent` when it has four,
/// else the whole `trace_parent`, the `span_id` field, and `01`.
pub open spec fn trace_fields(tc: TraceContext) -> (Seq<char>, Seq<char>, Seq<char>) {
    let parts = split_on(tc.trace_parent@, '-');
    if parts.len() == 4 {
        (parts[1], parts[2], parts[3])
    } else {
        (tc.trace_parent@, tc.span_id@, "01"@)
    }
}

/// Whether the trace state, if any, is accepted.
pub open spec fn trace_state_ok(tc: TraceContext) -> bool {
    match tc.trace_state {
        Some(s) => trace_state_accepted(s@),
        None => true,
    }
}

/// The value of the flags: the first character read as a `u8`.
pub open spec fn flags_value(f: Seq<char>) -> Option<nat> {
    parse_unsigned_at_most(seq![f[0]], u8::MAX as nat)
}

/// Whether reading `tc` gets as far as the flags and finds them empty (the
/// reading cannot go on there).
pub open spec fn span_context_panics(tc: TraceContext) -> bool {
    let (t, s, f) = trace_fields(tc);
    &&& parse_unsigned_at_most(t, u128::MAX as nat) is Some
    &&& trace_state_ok(tc)
    &&& parse_unsigned_at_most(s, u64::MAX as nat) is Some
    &&& f.len() == 0
}

/// What reading `tc` gives: the trace id, span id and flags, or the first
/// check that fails, in the order trace id, trace state, span id, flags.
pub open spec fn span_context_outcome(tc: TraceContext) -> Result<(u128, u64, u8), TraceContextError> {
    let (t, s, f) = trace_fields(tc);
    match parse_unsigned_at_most(t, u128::MAX as nat) {
        None => Err(TraceContextError::InvalidTraceId),
        Some(tid) => if !trace_state_ok(tc) {
            Err(TraceContextError::InvalidTraceState)
        } else {
            match parse_unsigned_at_most(s, u64::MAX as nat) {
                None => Err(TraceContextError::InvalidSpanId),
                Some(sid) => match flags_value(f) {
                    None => Err(TraceContextError::InvalidTraceFlags),
                    Some(fl) => Ok((tid as u128, sid as u64, fl as u8)),
                },
            }
        },
    }
}

proof fn lemma_single_char_value(c: char)
    ensures
        parse_unsigned_at_most(seq![c], u8::MAX as nat) == if is_digit(c) {
            Some(digit_value(c))
        } else {
            None::<nat>
        },
{
    let s = seq![c];
    if c == '+' {
        assert(unsigned_body(s) =~= Seq::<char>::empty());
    } else {
        assert(unsigned_body(s) == s);
        assert(s.drop_last() =~= Seq::<char>::empty());
        assert(digits_value(s.drop_last()) == 0);
        assert(s.last() == c);
        assert(digits_value(s) == digit_value(c));
        if !is_digit(c) {
            assert(!all_digits(s));
        }
    }
}

/// Reads a span context out of a W3C trace context (see
/// [`span_context_outcome`]). The trace and span ids are read as decimal
/// numbers.
pub fn span_context_from_trace_context(tc: &TraceContext) -> (r: Result<
    SpanContextParts,
    TraceContextError,
>)
    requires
        !span_context_panics(*tc),
    ensures
        match span_context_outcome(*tc) {
            Ok((tid, sid, fl)) => r matches Ok(p) && p.trace_id == tid && p.span_id == sid
                && p.trace_flags == fl && (p.trace_state is Some <==> tc.trace_state is Some),
            Err(e) => r matches Err(x) && x == e,
        },
{
    proof { reveal_strlit("01"); }
    let parts = split_char(tc.trace_parent.as_str(), '-');
    let ghost views = parts@.map_values(|p: String| p@);
    assert(views == split_on(tc.trace_parent@, '-'));
    let (tid_text, sid_text, flags_text): (&str, &str, &str) = if parts.len() == 4 {
        assert(views[1] == parts@[1]@ && views[2] == parts@[2]@ && views[3] == parts@[3]@);
        (parts[1].as_str(), parts[2].as_str(), parts[3].as_str())
    } else {
        (tc.trace_parent.as_str(), tc.span_id.as_str(), "01")
    };
    let trace_id = match parse_unsigned_bounded(tid_text, u128::MAX) {
        Some(v) => v,
        None => return Err(TraceContextError::InvalidTraceId),
    };
    let trace_state = match &tc.trace_state {
        Some(st) => match parse_trace_state(st.as_str()) {
            Some(t) => Some(t),
            None => return Err(TraceContextError::InvalidTraceState),
        },
        None => None,
    };
    let span_id = match parse_unsigned_bounded(sid_text, u64::MAX as u128) {
        Some(v) => v as u64,
        None => return Err(TraceContextError::InvalidSpanId),
    };
    let c = flags_text.get_char(0);
    proof {
        lemma_single_char_value(c);
    }
    if !('0' <= c && c <= '9') {
        return Err(TraceContextError::InvalidTraceFlags);
    }
    let trace_flags: u8 = ((c as u32) - ('0' as u32)) as u8;
    Ok(SpanContextParts { trace_id, span_id, trace_flags, trace_state })
}

/// Reads a span context out of `tc` when the reading does not reach empty
/// flags, and says `None` when it does.
pub fn checked_span_context_from_trace_context(tc: &TraceContext) -> (r: Option<
    Result<SpanContextParts, TraceContextError>,
>)
    ensures
        r is None <==> span_context_panics(*tc),
        r matches Some(res) ==> match span_context_outcome(*tc) {
            Ok((tid, sid, fl)) => res matches Ok(p) && p.trace_id == tid && p.span_id == sid
                && p.trace_flags == fl && (p.trace_state is Some <==> tc.trace_state is Some),
            Err(e) => res matches Err(x) && x == e,
        },
{
    proof { reveal_strlit("01"); }
    let parts = split_char(tc.trace_parent.as_str(), '-');
    let ghost views = parts@.map_values(|p: String| p@);
    let (tid_text, sid_text, flags_text): (&str, &str, &str) = if parts.len() == 4 {
        assert(views[1] == parts@[1]@ && views[2] == parts@[2]@ && views[3] == parts@[3]@);
        (parts[1].as_str(), parts[2].as_str(), parts[3].as_str())
    } else {
        (tc.trace_parent.as_str(), tc.span_id.as_str(), "01")
    };
    let state_ok = match &tc.trace_state {
        Some(st) => parse_trace_state(st.as_str()).is_some(),
        None => true,
    };
    if parse_unsigned_bounded(tid_text, u128::MAX).is_some() && state_ok
        && parse_unsigned_bounded(sid_text, u64::MAX as u128).is_some()
        && flags_text.unicode_len() == 0 {
        None
    } else {
        Some(span_context_from_trace_context(tc))
    }
}

/// The hexadecimal digit for a value below sixteen (lower case).
pub open spec fn hex_char(d: nat) -> char {
    if d < 10 {
        crate::text::digit_char(d)
    } else if d == 10 {
        'a'
    } else if d == 11 {
        'b'
    } else if d == 12 {
        'c'
    } else if d == 13 {
        'd'
    } else if d == 14 {
        'e'
    } else {
        'f'
    }
}

/// `n` in lower-case hexadecimal, zero-padded to `width` digits (the lowest
/// `width` digits when it has more).
pub open spec fn hex_padded(n: nat, width: nat) -> Seq<char>
    decreases width,
{
    if width == 0 {
        Seq::empty()
    } else {
        hex_padded(n / 16, (width - 1) as nat).push(hex_char(n % 16))
    }
}

/// The text of a trace id, from `opentelemetry::trace::TraceId`'s
/// `Display`, which writes `{:032x}`: 32 lower-case hexadecimal digits.
#[verifier::external_body]
fn trace_id_text(id: u128) -> (r: String)
    ensures
        r@ == hex_padded(id as nat, 32),
{
    opentelemetry::trace::TraceId::from(id).to_string()
}

/// The text of a span id, from `opentelemetry::trace::SpanId`'s `Display`,
/// which writes `{:016x}`: 16 lower-case hexadecimal digits.
#[verifier::external_body]
fn span_id_text(id: u64) -> (r: String)
    ensures
        r@ == hex_padded(id as nat, 16),
{
    opentelemetry::trace::SpanId::from(id).to_string()
}

/// What is read off a live span: whether it is sampled and valid, its ids
/// and flags, and its trace state as a W3C header.
pub struct SpanSnapshot {
    pub sampled: bool,
    pub valid: bool,
    pub trace_id: u128,
    pub span_id: u64,
    pub trace_flags: u8,
    pub trace_state_header: String,
}

/// The W3C trace parent of a span snapshot.
pub open spec fn trace_parent_text(s: SpanSnapshot) -> Seq<char> {
    "00-"@ + hex_padded(s.trace_id as nat, 32) + "-"@ + hex_padded(s.span_id as nat, 16) + "-"@
        + int_text(s.trace_flags as int)
}

/// The trace context to propagate for a span (see [`trace_parent_text`]).
pub fn trace_from_context_span(span: Option<SpanSnapshot>) -> (r: Option<TraceContext>)
    ensures
        r is Some <==> (span matches Some(s) && s.sampled && s.valid),
        r matches Some(tc) ==> tc.trace_parent@ == trace_parent_text(span->0) && tc.span_id@
            == hex_padded(span->0.span_id as nat, 16) && opt_view(tc.trace_state) == if span->0.trace_state_header@.len() == 0 {
            None
        } else {
            Some(span->0.trace_state_header@)
        },
{
    let s = match span {
        Some(s) => s,
        None => return None,
    };
    if !s.sampled {
        return None;
    }
    if !s.valid {
        return None;
    }
    let mut trace_parent = String::from_str("00-");
    trace_parent.append(trace_id_text(s.trace_id).as_str());
    trace_parent.append("-");
    trace_parent.append(span_id_text(s.span_id).as_str());
    trace_parent.append("-");
    crate::text::append_u64(&mut trace_parent, s.trace_flags as u64);
    let trace_state = if s.trace_state_header.as_str().unicode_len() == 0 {
        None
    } else {
        Some(s.trace_state_header)
    };
    Some(TraceContext { trace_parent, span_id: span_id_text(s.span_id), trace_state })
}


/// No digit of a hexadecimal or decimal text is a `-`.
proof fn lemma_hex_has_no_dash(n: nat, width: nat)
    ensures
        forall|i: int| 0 <= i < hex_padded(n, width).len() ==> #[trigger] hex_padded(n, width)[i] != '-',
        hex_padded(n, width).len() == width,
    decreases width,
{
    if width > 0 {
        lemma_hex_has_no_dash(n / 16, (width - 1) as nat);
    }
}

proof fn lemma_digits_have_no_dash(n: nat)
    ensures
        forall|i: int| 0 <= i < nat_digits(n).len() ==> #[trigger] nat_digits(n)[i] != '-',
    decreases n,
{
    if n >= 10 {
        lemma_digits_have_no_dash(n / 10);
        let d = nat_digits(n / 10);
        assert forall|i: int| 0 <= i < nat_digits(n).len() implies #[trigger] nat_digits(n)[i]
            != '-' by {
            if i < d.len() {
                assert(nat_digits(n)[i] == d[i]);
            }
        }
    }
}

proof fn lemma_char_index_at_separator(a: Seq<char>, rest: Seq<char>, c: char, i: int)
    requires
        0 <= i <= a.len(),
        forall|j: int| 0 <= j < a.len() ==> #[trigger] a[j] != c,
    ensures
        char_index_from(a + seq![c] + rest, c, i) == a.len(),
    decreases a.len() - i,
{
    let s = a + seq![c] + rest;
    if i < a.len() {
        assert(s[i] == a[i]);
        lemma_char_index_at_separator(a, rest, c, i + 1);
    } else {
        assert(s[i] == c);
    }
}

/// Splitting text made of a piece without `c`, then `c`, then more text,
/// gives the piece and then the splits of the rest.
proof fn lemma_split_after_piece(a: Seq<char>, rest: Seq<char>, c: char)
    requires
        forall|j: int| 0 <= j < a.len() ==> #[trigger] a[j] != c,
    ensures
        split_on(a + seq![c] + rest, c) == seq![a] + split_on(rest, c),
{
    let s = a + seq![c] + rest;
    lemma_char_index_at_separator(a, rest, c, 0);
    assert(s.take(a.len() as int) =~= a);
    assert(s.skip(a.len() as int + 1) =~= rest);
}

proof fn lemma_split_single_piece(a: Seq<char>, c: char)
    requires
        forall|j: int| 0 <= j < a.len() ==> #[trigger] a[j] != c,
    ensures
        split_on(a, c) == seq![a],
{
    lemma_char_index_bounds(a, c, 0);
}

/// What the reader takes from a propagated trace context is what the writer
/// put there: the trace parent splits into the version and the three texts
/// written for the trace id, the span id and the flags. (The ids are written
/// in hexadecimal and read back as decimal numbers, so the values read are
/// not the values written.)
pub proof fn lemma_propagated_trace_fields(s: SpanSnapshot, tc: TraceContext)
    requires
        tc.trace_parent@ == trace_parent_text(s),
    ensures
        trace_fields(tc) == (
            hex_padded(s.trace_id as nat, 32),
            hex_padded(s.span_id as nat, 16),
            int_text(s.trace_flags as int),
        ),
{
    reveal_strlit("00-");
    reveal_strlit("-");
    let t = hex_padded(s.trace_id as nat, 32);
    let sp = hex_padded(s.span_id as nat, 16);
    let f = int_text(s.trace_flags as int);
    lemma_hex_has_no_dash(s.trace_id as nat, 32);
    lemma_hex_has_no_dash(s.span_id as nat, 16);
    lemma_digits_have_no_dash(s.trace_flags as nat);
    let v = seq!['0', '0'];
    assert(trace_parent_text(s) =~= v + seq!['-'] + (t + seq!['-'] + (sp + seq!['-'] + f)));
    lemma_split_single_piece(f, '-');
    lemma_split_after_piece(sp, f, '-');
    lemma_split_after_piece(t, sp + seq!['-'] + f, '-');
    lemma_split_after_piece(v, t + seq!['-'] + (sp + seq!['-'] + f), '-');
    let parts = split_on(tc.trace_parent@, '-');
    assert(parts =~= seq![v, t, sp, f]);
}

} // verus!
