//! Classification of raw gateway messages.
//!
//! A close frame, and any text body whose minimal envelope carries the
//! event type `READY`, `RESUMED`, or a null or absent event type, is
//! lifecycle noise and is suppressed; every other text body is
//! forwarded downstream byte for byte.

use vstd::prelude::*;

verus! {

/// One decoded message handed over by the gateway stream.
pub enum RawMessage {
    /// A textual event payload (UTF-8 bytes of the original text).
    Text(Vec<u8>),
    /// A close frame.
    Close,
}

/// What the filter decides for one message.
pub enum Classification {
    /// Relay this body downstream, unmodified.
    Forwardable(Vec<u8>),
    /// Lifecycle or control noise; do not relay.
    Suppressed,
}

/// The event type a minimal envelope carries.
pub enum EventTypeView {
    /// The envelope opens with a string-valued event-type field.
    Named(Seq<u8>),
    /// The envelope opens with a null event-type field.
    Null,
    /// No event type can be read from the body.
    Absent,
}

/// The five bytes `{"t":` that open a minimal envelope.
pub open spec fn envelope_prefix() -> Seq<u8> {
    seq![123u8, 34u8, 116u8, 34u8, 58u8]
}

/// The bytes of `READY`.
pub open spec fn ready_name() -> Seq<u8> {
    seq![82u8, 69u8, 65u8, 68u8, 89u8]
}

/// The bytes of `RESUMED`.
pub open spec fn resumed_name() -> Seq<u8> {
    seq![82u8, 69u8, 83u8, 85u8, 77u8, 69u8, 68u8]
}

/// The four bytes `null`.
pub open spec fn null_lit() -> Seq<u8> {
    seq![110u8, 117u8, 108u8, 108u8]
}

/// The first index at or after `i` holding a quote (`"`) or a
/// backslash, or `s.len()` if there is none.
pub open spec fn find_string_end(s: Seq<u8>, i: int) -> int
    decreases s.len() - i,
{
    if i >= s.len() {
        s.len() as int
    } else if s[i] == 34 || s[i] == 92 {
        i
    } else {
        find_string_end(s, i + 1)
    }
}

/// The event type of a body read as a minimal envelope: the body must
/// open with `{"t":` followed by either a plain string (no escapes) or
/// `null` ended by a separator; anything else carries no event type.
pub open spec fn envelope_event_type(s: Seq<u8>) -> EventTypeView {
    if s.len() < 6 || s.subrange(0, 5) != envelope_prefix() {
        EventTypeView::Absent
    } else if s[5] == 34 {
        let e = find_string_end(s, 6);
        if e < s.len() && s[e] == 34 {
            EventTypeView::Named(s.subrange(6, e))
        } else {
            EventTypeView::Absent
        }
    } else if s.len() >= 9 && s.subrange(5, 9) == null_lit() && (s.len() == 9 || s[9] == 44
        || s[9] == 125) {
        EventTypeView::Null
    } else {
        EventTypeView::Absent
    }
}

/// A body is suppressed when its event type is `READY`, `RESUMED`,
/// null, or absent.
pub open spec fn suppressed_body(s: Seq<u8>) -> bool {
    match envelope_event_type(s) {
        EventTypeView::Named(t) => t == ready_name() || t == resumed_name(),
        EventTypeView::Null => true,
        EventTypeView::Absent => true,
    }
}

/// A body is forwardable when it is not suppressed.
pub open spec fn forwardable_body(s: Seq<u8>) -> bool {
    !suppressed_body(s)
}

proof fn lemma_find_string_end_step(s: Seq<u8>, i: int)
    requires
        0 <= i < s.len(),
        s[i] != 34,
        s[i] != 92,
    ensures
        find_string_end(s, i) == find_string_end(s, i + 1),
{
}

proof fn lemma_find_string_end_at(s: Seq<u8>, i: int)
    requires
        0 <= i,
    ensures
        i >= s.len() ==> find_string_end(s, i) == s.len(),
        i < s.len() && (s[i] == 34 || s[i] == 92) ==> find_string_end(s, i) == i,
{
}

/// Whether this body is suppressed, decided by scanning its minimal
/// envelope.
pub fn body_suppressed(b: &Vec<u8>) -> (r: bool)
    ensures
        r == suppressed_body(b@),
{
    let ghost s = b@;
    if b.len() < 6 {
        return true;
    }
    // The envelope must open with `{"t":`.
    if !(b[0] == 123 && b[1] == 34 && b[2] == 116 && b[3] == 34 && b[4] == 58) {
        proof {
            assert(s.subrange(0, 5) != envelope_prefix()) by {
                if s.subrange(0, 5) == envelope_prefix() {
                    assert(s[0] == envelope_prefix()[0]);
                    assert(s[1] == envelope_prefix()[1]);
                    assert(s[2] == envelope_prefix()[2]);
                    assert(s[3] == envelope_prefix()[3]);
                    assert(s[4] == envelope_prefix()[4]);
                }
            }
        }
        return true;
    }
    proof {
        assert(s.subrange(0, 5) =~= envelope_prefix());
    }
    if b[5] == 34 {
        // String-valued event type: scan for its closing quote.
        let mut i: usize = 6;
        while i < b.len() && b[i] != 34 && b[i] != 92
            invariant
                6 <= i <= s.len(),
                s == b@,
                find_string_end(s, 6) == find_string_end(s, i as int),
            decreases s.len() - i,
        {
            proof {
                lemma_find_string_end_step(s, i as int);
            }
            i += 1;
        }
        proof {
            lemma_find_string_end_at(s, i as int);
        }
        if i == b.len() || b[i] != 34 {
            // No plain closing quote: no readable event type.
            assert(envelope_event_type(s) is Absent);
            return true;
        }
        let ghost t = s.subrange(6, i as int);
        assert(envelope_event_type(s) == EventTypeView::Named(t));
        let tlen: usize = i - 6;
        let is_ready = tlen == 5 && b[6] == 82 && b[7] == 69 && b[8] == 65 && b[9] == 68
            && b[10] == 89;
        let is_resumed = tlen == 7 && b[6] == 82 && b[7] == 69 && b[8] == 83 && b[9] == 85
            && b[10] == 77 && b[11] == 69 && b[12] == 68;
        proof {
            assert(t.len() == tlen);
            if is_ready {
                assert(t =~= ready_name());
            } else if t == ready_name() {
                assert(t[0] == 82 && t[1] == 69 && t[2] == 65 && t[3] == 68 && t[4] == 89);
                assert(b@[6] == 82 && b@[7] == 69 && b@[8] == 65 && b@[9] == 68 && b@[10] == 89);
            }
            if is_resumed {
                assert(t =~= resumed_name());
            } else if t == resumed_name() {
                assert(t[0] == 82 && t[1] == 69 && t[2] == 83 && t[3] == 85 && t[4] == 77
                    && t[5] == 69 && t[6] == 68);
                assert(b@[6] == 82 && b@[7] == 69 && b@[8] == 83 && b@[9] == 85 && b@[10] == 77
                    && b@[11] == 69 && b@[12] == 68);
            }
        }
        is_ready || is_resumed
    } else {
        // The value is not a string, so the event type is null at best
        // and absent otherwise; either way the body is noise.
        true
    }
}

/// Classify one gateway message: a close frame and every suppressed
/// body are noise; any other text body is handed on byte for byte.
pub fn classify(msg: RawMessage) -> (c: Classification)
    ensures
        match c {
            Classification::Forwardable(out) => msg matches RawMessage::Text(b) && out@ == b@
                && forwardable_body(b@),
            Classification::Suppressed => msg matches RawMessage::Close || (
            msg matches RawMessage::Text(b) && suppressed_body(b@)),
        },
{
    match msg {
        RawMessage::Close => Classification::Suppressed,
        RawMessage::Text(b) => {
            if body_suppressed(&b) {
                Classification::Suppressed
            } else {
                Classification::Forwardable(b)
            }
        },
    }
}

} // verus!
