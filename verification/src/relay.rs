//! The notification relay's decisions: whether a contact message goes out at
//! all, what the outbound text says, and what each outcome renders.
//!
//! A blank message — empty, or nothing but whitespace — is rejected before
//! any network activity. A non-blank one is dispatched exactly once, as the
//! channel-broadcast text `<!channel> homepage: <message>` (the one
//! canonical outbound format of this library); the caller performs the
//! single POST and reports back whether it was delivered. A failed delivery
//! echoes the original message so the client can repopulate the form; a
//! successful one does not echo it.

use vstd::prelude::*;
use vstd::string::*;
use crate::payload::{fields_view, RenderPayload};

verus! {

/// A whitespace character: the Unicode White_Space set, the same characters
/// `str::trim` strips.
pub open spec fn is_space_char(c: char) -> bool {
    ||| 0x09 <= c as int && c as int <= 0x0D
    ||| c as int == 0x20
    ||| c as int == 0x85
    ||| c as int == 0xA0
    ||| c as int == 0x1680
    ||| 0x2000 <= c as int && c as int <= 0x200A
    ||| c as int == 0x2028
    ||| c as int == 0x2029
    ||| c as int == 0x202F
    ||| c as int == 0x205F
    ||| c as int == 0x3000
}

/// A message with nothing in it: every character is whitespace.
pub open spec fn is_blank(s: Seq<char>) -> bool {
    forall|i: int| 0 <= i < s.len() ==> is_space_char(#[trigger] s[i])
}

/// The outbound text of a relayed message: the channel-broadcast marker,
/// the site's name, then the message itself.
pub open spec fn outbound_text(msg: Seq<char>) -> Seq<char> {
    "<!channel> homepage: "@ + msg
}

/// Fields rendered when a blank message is rejected: an empty echo and the
/// reminder to write something.
pub open spec fn reject_fields() -> Seq<(Seq<char>, Seq<char>)> {
    seq![
        ("msg"@, Seq::<char>::empty()),
        ("error-msg"@, "Don't forget to write a message"@),
    ]
}

/// Fields rendered when delivery failed: the original message, echoed so the
/// form can be repopulated, and the retry suggestion.
pub open spec fn failure_fields(msg: Seq<char>) -> Seq<(Seq<char>, Seq<char>)> {
    seq![
        ("msg"@, msg),
        ("error-msg"@, "An error occurred while sending, try again in a little bit"@),
    ]
}

/// Fields rendered when delivery succeeded; the message is not echoed.
pub open spec fn delivered_fields() -> Seq<(Seq<char>, Seq<char>)> {
    seq![("success-msg"@, "Message received, expect a response within 24 hours"@)]
}

/// Whether a message is blank.
pub fn message_is_blank(s: &str) -> (r: bool)
    ensures
        r == is_blank(s@),
{
    let len = s.unicode_len();
    let mut i: usize = 0;
    while i < len
        invariant
            0 <= i <= len,
            len == s@.len(),
            forall|j: int| 0 <= j < i ==> is_space_char(#[trigger] s@[j]),
        decreases len - i,
    {
        let c = s.get_char(i);
        let u = c as u32;
        let white = (0x09 <= u && u <= 0x0D) || u == 0x20 || u == 0x85 || u == 0xA0
            || u == 0x1680 || (0x2000 <= u && u <= 0x200A) || u == 0x2028 || u == 0x2029
            || u == 0x202F || u == 0x205F || u == 0x3000;
        if !white {
            return false;
        }
        i = i + 1;
    }
    true
}

/// What to do with one inbound contact message: reject it on the spot, or
/// dispatch one outbound call with the given text.
pub enum RelayStep {
    Rejected { payload: RenderPayload },
    Dispatch { text: String },
}

/// A payload for the `index` template with exactly two fields.
fn two_field_payload(
    key1: String,
    value1: String,
    key2: String,
    value2: String,
) -> (p: RenderPayload)
    ensures
        p.template_name@ == "index"@,
        fields_view(p.fields@) == seq![(key1@, value1@), (key2@, value2@)],
{
    let ghost expected = seq![(key1@, value1@), (key2@, value2@)];
    let mut fields: Vec<(String, String)> = Vec::new();
    fields.push((key1, value1));
    fields.push((key2, value2));
    let p = RenderPayload { template_name: String::from_str("index"), fields };
    proof {
        assert(fields_view(p.fields@) =~= expected);
    }
    p
}

/// Decides one inbound contact message. A blank message is rejected with its
/// payload ready, and nothing may be sent for it; any other message is to be
/// dispatched, exactly once, with the canonical outbound text.
pub fn relay_request(message: &str) -> (r: RelayStep)
    ensures
        is_blank(message@) <==> r is Rejected,
        r matches RelayStep::Rejected { payload } ==> {
            &&& payload.template_name@ == "index"@
            &&& fields_view(payload.fields@) == reject_fields()
        },
        r matches RelayStep::Dispatch { text } ==> text@ == outbound_text(message@),
{
    if message_is_blank(message) {
        let payload = two_field_payload(
            String::from_str("msg"),
            String::new(),
            String::from_str("error-msg"),
            String::from_str("Don't forget to write a message"),
        );
        RelayStep::Rejected { payload }
    } else {
        let mut text = String::from_str("<!channel> homepage: ");
        text.append(message);
        RelayStep::Dispatch { text }
    }
}

/// Maps the one outbound call's outcome to its payload: a delivered message
/// is acknowledged without an echo, a failed one is echoed with the retry
/// suggestion.
pub fn relay_result(message: &str, delivered: bool) -> (p: RenderPayload)
    ensures
        p.template_name@ == "index"@,
        delivered ==> fields_view(p.fields@) == delivered_fields(),
        !delivered ==> fields_view(p.fields@) == failure_fields(message@),
{
    if delivered {
        crate::payload::single_field_payload(
            String::from_str("success-msg"),
            String::from_str("Message received, expect a response within 24 hours"),
        )
    } else {
        two_field_payload(
            String::from_str("msg"),
            message.to_owned(),
            String::from_str("error-msg"),
            String::from_str("An error occurred while sending, try again in a little bit"),
        )
    }
}

} // verus!
