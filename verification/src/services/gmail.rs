use vstd::prelude::*;

verus! {

use crate::models::EmailSummary;
use crate::services::scoring::{classify, EmailScorer};
use crate::text::{find_char, str_eq, trim_spaces, trim_spec};

/// One raw header of a provider message: a name and its text.
#[derive(Debug, Clone)]
pub struct RawHeader {
    pub name: String,
    pub value: String,
}

/// A provider message as the library receives it: the provider id, the
/// preview snippet, the label list, and the raw headers in their
/// original order.
#[derive(Debug, Clone)]
pub struct RawMessage {
    pub id: String,
    pub snippet: String,
    pub label_ids: Vec<String>,
    pub headers: Vec<RawHeader>,
}

/// The value of the last header named `name`, or the empty string when no
/// header carries that name.
pub open spec fn header_value(headers: Seq<RawHeader>, name: Seq<char>) -> Seq<char>
    decreases headers.len(),
{
    if headers.len() == 0 {
        Seq::empty()
    } else if headers.last().name@ == name {
        headers.last().value@
    } else {
        header_value(headers.drop_last(), name)
    }
}

/// The display name and the address read from a `From` header value: with a
/// well-formed `<...>` pair the bracketed part is the address and the trimmed
/// text before `<` is the display name (the address stands in for an empty
/// name); otherwise the whole value serves as both.
pub open spec fn parsed_sender(from: Seq<char>) -> (Seq<char>, Seq<char>) {
    match (crate::text::first_index_of(from, '<'), crate::text::first_index_of(from, '>')) {
        (Some(i), Some(j)) => {
            if i < j {
                let addr = from.subrange(i + 1, j);
                let name = trim_spec(from.subrange(0, i));
                if name.len() == 0 {
                    (addr, addr)
                } else {
                    (name, addr)
                }
            } else {
                (from, from)
            }
        },
        _ => (from, from),
    }
}

/// A `From` value that opens no angle bracket serves whole as both the
/// display name and the address.
pub proof fn lemma_bare_sender(from: Seq<char>)
    requires
        crate::text::first_index_of(from, '<') is None,
    ensures
        parsed_sender(from) == (from, from),
{
}

/// The timestamp, in UTC seconds since the Unix epoch, that the RFC 2822
/// date-time grammar reads from `s`, if `s` parses under it.
pub uninterp spec fn rfc2822_timestamp_of(s: Seq<char>) -> Option<i64>;

/// Relies on `chrono::DateTime::parse_from_rfc2822`: whether the text parses,
/// and the instant it denotes, depend on the text alone. Empty text fails the
/// parse, whose grammar demands at least a day.
#[verifier::external_body]
fn parse_rfc2822_timestamp(s: &str) -> (r: Option<i64>)
    ensures
        r == rfc2822_timestamp_of(s@),
        s@.len() == 0 ==> r is None,
{
    match chrono::DateTime::parse_from_rfc2822(s) {
        Ok(dt) => Some(dt.with_timezone(&chrono::Utc).timestamp()),
        Err(_) => None,
    }
}

/// Relies on `std::time::SystemTime::now` for the current wall-clock time;
/// nothing is assumed of the value it returns. Both clock states are handled,
/// so the call cannot fail: a clock before the Unix epoch gives a negative
/// timestamp.
#[verifier::external_body]
fn current_timestamp() -> i64 {
    match std::time::SystemTime::now().duration_since(std::time::UNIX_EPOCH) {
        Ok(d) => d.as_secs().min(i64::MAX as u64) as i64,
        Err(e) => -(e.duration().as_secs().min(i64::MAX as u64) as i64),
    }
}

/// The value of the last header named `name`, scanning all headers in order.
fn extract_header(headers: &Vec<RawHeader>, name: &str) -> (r: String)
    ensures
        r@ == header_value(headers@, name@),
{
    let mut result = String::new();
    let mut i: usize = 0;
    while i < headers.len()
        invariant
            0 <= i <= headers@.len(),
            result@ == header_value(headers@.take(i as int), name@),
        decreases headers@.len() - i,
    {
        let h = &headers[i];
        proof {
            assert(headers@.take(i + 1).drop_last() =~= headers@.take(i as int));
            assert(headers@.take(i + 1).last() == headers@[i as int]);
        }
        if str_eq(h.name.as_str(), name) {
            result = h.value.clone();
        }
        i = i + 1;
    }
    proof {
        assert(headers@.take(headers@.len() as int) =~= headers@);
    }
    result
}

/// The display name and the address read from a `From` header value.
pub fn parse_sender(from_value: &str) -> (r: (String, String))
    ensures
        r.0@ == parsed_sender(from_value@).0,
        r.1@ == parsed_sender(from_value@).1,
{
    let lt = find_char(from_value, '<');
    let gt = find_char(from_value, '>');
    if let Some(i) = lt {
        if let Some(j) = gt {
            if i < j {
                let addr = from_value.substring_char(i + 1, j).to_owned();
                let name_part = from_value.substring_char(0, i);
                let name = trim_spaces(name_part);
                if name.is_empty() {
                    return (addr.clone(), addr);
                }
                return (name.to_owned(), addr);
            }
        }
    }
    (from_value.to_owned(), from_value.to_owned())
}

/// Whether one of the labels reads exactly `name`.
fn string_labels_contain(labels: &Vec<String>, name: &str) -> (r: bool)
    ensures
        r == labels.deep_view().contains(name@),
{
    let mut i: usize = 0;
    while i < labels.len()
        invariant
            0 <= i <= labels@.len(),
            forall|j: int| 0 <= j < i ==> #[trigger] labels.deep_view()[j] != name@,
        decreases labels@.len() - i,
    {
        if str_eq(labels[i].as_str(), name) {
            proof {
                assert(labels.deep_view()[i as int] == name@);
            }
            return true;
        }
        i = i + 1;
    }
    false
}

/// Builds the canonical summary of one provider message: header fields
/// extracted as `parsed_sender` and `header_value` state, the read flag from
/// the unread label, a timestamp that falls back to `now` when the `Date`
/// header does not parse, and the importance score from `classify`.
pub fn parse_message(scorer: &EmailScorer, raw: &RawMessage, now: i64) -> (r: EmailSummary)
    requires
        scorer.wf(),
    ensures
        r.id@ == raw.id@,
        r.snippet@ == raw.snippet@,
        r.labels.deep_view() == raw.label_ids.deep_view(),
        r.subject@ == header_value(raw.headers@, "Subject"@),
        r.sender@ == parsed_sender(header_value(raw.headers@, "From"@)).0,
        r.sender_email@ == parsed_sender(header_value(raw.headers@, "From"@)).1,
        r.date == match rfc2822_timestamp_of(header_value(raw.headers@, "Date"@)) {
            Some(t) => t,
            None => now,
        },
        header_value(raw.headers@, "Date"@).len() == 0 ==> r.date == now,
        r.is_read == !raw.label_ids.deep_view().contains("UNREAD"@),
        r.importance_score == classify(
            scorer.domains(),
            parsed_sender(header_value(raw.headers@, "From"@)).1,
            header_value(raw.headers@, "Subject"@),
            raw.label_ids.deep_view(),
        ),
{
    let subject = extract_header(&raw.headers, "Subject");
    let from_value = extract_header(&raw.headers, "From");
    let date_str = extract_header(&raw.headers, "Date");

    let (sender, sender_email) = parse_sender(from_value.as_str());

    let date = match parse_rfc2822_timestamp(date_str.as_str()) {
        Some(t) => t,
        None => now,
    };

    let is_read = !string_labels_contain(&raw.label_ids, "UNREAD");

    let mut label_strs: Vec<&str> = Vec::new();
    let mut i: usize = 0;
    while i < raw.label_ids.len()
        invariant
            0 <= i <= raw.label_ids@.len(),
            label_strs@.len() == i,
            forall|j: int|
                0 <= j < i ==> #[trigger] label_strs.deep_view()[j]
                    == raw.label_ids.deep_view()[j],
        decreases raw.label_ids@.len() - i,
    {
        let ghost pre_v = label_strs@;
        let ghost pre_dv = label_strs.deep_view();
        let s = raw.label_ids[i].as_str();
        label_strs.push(s);
        proof {
            assert forall|j: int| 0 <= j < i + 1 implies #[trigger] label_strs.deep_view()[j]
                == raw.label_ids.deep_view()[j] by {
                assert(label_strs.deep_view()[j] == label_strs@[j].deep_view());
                if j < i {
                    assert(label_strs@[j] == pre_v[j]);
                    assert(pre_dv[j] == pre_v[j].deep_view());
                    assert(pre_dv[j] == raw.label_ids.deep_view()[j]);
                } else {
                    assert(label_strs@[j] == s);
                    assert(s.deep_view() == raw.label_ids@[i as int]@);
                }
            }
        }
        i = i + 1;
    }
    proof {
        assert(label_strs.deep_view() =~= raw.label_ids.deep_view());
    }

    let labels_slice = label_strs.as_slice();
    proof {
        assert(labels_slice.deep_view() =~= label_strs.deep_view());
    }
    let importance_score = scorer.calculate_score(
        sender_email.as_str(),
        subject.as_str(),
        labels_slice,
    );

    EmailSummary {
        id: raw.id.clone(),
        subject,
        sender,
        sender_email,
        date,
        snippet: raw.snippet.clone(),
        is_read,
        labels: raw.label_ids.clone(),
        importance_score,
    }
}

/// Builds the canonical summary of one provider message, reading the clock
/// for the fallback timestamp. When the `Date` header parses, the timestamp
/// is the parsed instant; otherwise it is whatever the clock returned.
pub fn parse_message_now(scorer: &EmailScorer, raw: &RawMessage) -> (r: EmailSummary)
    requires
        scorer.wf(),
    ensures
        r.id@ == raw.id@,
        r.snippet@ == raw.snippet@,
        r.labels.deep_view() == raw.label_ids.deep_view(),
        r.subject@ == header_value(raw.headers@, "Subject"@),
        r.sender@ == parsed_sender(header_value(raw.headers@, "From"@)).0,
        r.sender_email@ == parsed_sender(header_value(raw.headers@, "From"@)).1,
        rfc2822_timestamp_of(header_value(raw.headers@, "Date"@)) matches Some(t) ==> r.date == t,
        r.is_read == !raw.label_ids.deep_view().contains("UNREAD"@),
        r.importance_score == classify(
            scorer.domains(),
            parsed_sender(header_value(raw.headers@, "From"@)).1,
            header_value(raw.headers@, "Subject"@),
            raw.label_ids.deep_view(),
        ),
{
    let now = current_timestamp();
    parse_message(scorer, raw, now)
}

} // verus!
