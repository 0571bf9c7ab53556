//! Composition of the alert that the notifier delivers when a run had
//! failures: a headline over the failure count, the check time, a divider,
//! and one block of fields per failing target, in join order.

use vstd::prelude::*;
use crate::numeral::{dec_seq, u64_to_dec};
use crate::outcome::CheckResult;

verus! {

/// One piece of text inside a message block, tagged with its rendering type.
pub struct SlackText {
    pub text_type: String,
    pub text: String,
}

/// One block of the structured message: a header, a section, or a divider.
pub struct SlackBlock {
    pub block_type: String,
    pub text: Option<SlackText>,
    pub fields: Option<Vec<SlackText>>,
}

/// The whole alert: a plain-text fallback line and the ordered blocks.
pub struct SlackMessage {
    pub text: String,
    pub blocks: Vec<SlackBlock>,
}

/// The headline over a failure count, singular for exactly one failure.
pub open spec fn headline_text(n: nat) -> Seq<char> {
    "Uptime Alert: "@ + dec_seq(n) + (if n == 1 {
        " domain is"@
    } else {
        " domains are"@
    }) + " down"@
}

/// The fallback line of the alert: the headline, emphasised.
pub open spec fn alert_text(n: nat) -> Seq<char> {
    "🚨 *"@ + headline_text(n) + "*"@
}

/// The error text shown for a failure, with a fixed fallback where the
/// outcome carries none.
pub open spec fn entry_error_text(r: CheckResult) -> Seq<char> {
    if r.error is Some {
        r.error->0@
    } else {
        "Unknown error"@
    }
}

/// The response time shown for a failure, in milliseconds, zero where the
/// outcome carries none.
pub open spec fn entry_response_ms(r: CheckResult) -> nat {
    if r.response_time_ms is Some {
        r.response_time_ms->0 as nat
    } else {
        0
    }
}

/// A markdown-rendered text with the given content.
pub open spec fn is_mrkdwn(t: SlackText, content: Seq<char>) -> bool {
    t.text_type@ == "mrkdwn"@ && t.text@ == content
}

/// The block of fields describing one failure: its name, its error text,
/// its URL as a clickable link, and its response time in milliseconds.
pub open spec fn is_entry_block(b: SlackBlock, r: CheckResult) -> bool {
    &&& b.block_type@ == "section"@
    &&& b.text is None
    &&& b.fields matches Some(fs) && {
        &&& fs@.len() == 4
        &&& is_mrkdwn(fs@[0], "*Domain:*\n"@ + r.name@)
        &&& is_mrkdwn(fs@[1], "*Error:*\n"@ + entry_error_text(r))
        &&& is_mrkdwn(fs@[2], "*URL:*\n<"@ + r.url@ + "|"@ + r.url@ + ">"@)
        &&& is_mrkdwn(fs@[3], "*Response Time:*\n"@ + dec_seq(entry_response_ms(r)) + "ms"@)
    }
}

/// The opening header block, carrying the headline over the failure count.
pub open spec fn is_header_block(b: SlackBlock, n: nat) -> bool {
    &&& b.block_type@ == "header"@
    &&& b.text matches Some(t) && t.text_type@ == "plain_text"@ && t.text@ == headline_text(n)
    &&& b.fields is None
}

/// The section naming the wall-clock time of the run's checks.
pub open spec fn is_time_block(b: SlackBlock, ts: Seq<char>) -> bool {
    &&& b.block_type@ == "section"@
    &&& b.text matches Some(t) && is_mrkdwn(t, "*Check Time:* "@ + ts)
    &&& b.fields is None
}

/// The divider between the preamble and the per-failure blocks.
pub open spec fn is_divider_block(b: SlackBlock) -> bool {
    &&& b.block_type@ == "divider"@
    &&& b.text is None
    &&& b.fields is None
}

/// The shape of a whole alert over a failure sequence: a headline block, the
/// check time, a divider, and then exactly one entry block per failure, in
/// the same order as the failures.
pub open spec fn is_alert_for(m: SlackMessage, failures: Seq<CheckResult>, ts: Seq<char>) -> bool {
    &&& m.text@ == alert_text(failures.len())
    &&& m.blocks@.len() == 3 + failures.len()
    &&& is_header_block(m.blocks@[0], failures.len())
    &&& is_time_block(m.blocks@[1], ts)
    &&& is_divider_block(m.blocks@[2])
    &&& forall|i: int|
        0 <= i < failures.len() ==> is_entry_block(#[trigger] m.blocks@[3 + i], failures[i])
}

fn mrkdwn(text: String) -> (t: SlackText)
    ensures
        is_mrkdwn(t, text@),
{
    SlackText { text_type: String::from_str("mrkdwn"), text }
}

/// Renders the headline over a failure count: singular wording for exactly
/// one failure, plural otherwise.
pub fn headline(count: u64) -> (s: String)
    ensures
        s@ == headline_text(count as nat),
{
    let mut s = String::from_str("Uptime Alert: ");
    let digits = u64_to_dec(count);
    s.append(digits.as_str());
    if count == 1 {
        s.append(" domain is");
    } else {
        s.append(" domains are");
    }
    s.append(" down");
    proof {
        assert(s@ =~= headline_text(count as nat));
    }
    s
}

fn alert_fallback_text(count: u64) -> (s: String)
    ensures
        s@ == alert_text(count as nat),
{
    let mut s = String::from_str("🚨 *");
    let h = headline(count);
    s.append(h.as_str());
    s.append("*");
    proof {
        assert(s@ =~= alert_text(count as nat));
    }
    s
}

fn header_block(count: u64) -> (b: SlackBlock)
    ensures
        is_header_block(b, count as nat),
{
    let t = SlackText { text_type: String::from_str("plain_text"), text: headline(count) };
    SlackBlock { block_type: String::from_str("header"), text: Some(t), fields: None }
}

fn time_block(timestamp: String) -> (b: SlackBlock)
    ensures
        is_time_block(b, timestamp@),
{
    let mut text = String::from_str("*Check Time:* ");
    text.append(timestamp.as_str());
    SlackBlock { block_type: String::from_str("section"), text: Some(mrkdwn(text)), fields: None }
}

fn divider_block() -> (b: SlackBlock)
    ensures
        is_divider_block(b),
{
    SlackBlock { block_type: String::from_str("divider"), text: None, fields: None }
}

fn entry_block(r: &CheckResult) -> (b: SlackBlock)
    ensures
        is_entry_block(b, *r),
{
    let mut domain_text = String::from_str("*Domain:*\n");
    domain_text.append(r.name.as_str());

    let mut error_text = String::from_str("*Error:*\n");
    match &r.error {
        Some(e) => error_text.append(e.as_str()),
        None => error_text.append("Unknown error"),
    }

    let mut url_text = String::from_str("*URL:*\n<");
    url_text.append(r.url.as_str());
    url_text.append("|");
    url_text.append(r.url.as_str());
    url_text.append(">");

    let mut rt_text = String::from_str("*Response Time:*\n");
    let ms: u64 = match r.response_time_ms {
        Some(v) => v,
        None => 0,
    };
    let digits = u64_to_dec(ms);
    rt_text.append(digits.as_str());
    rt_text.append("ms");

    let mut fields: Vec<SlackText> = Vec::new();
    fields.push(mrkdwn(domain_text));
    fields.push(mrkdwn(error_text));
    fields.push(mrkdwn(url_text));
    fields.push(mrkdwn(rt_text));

    SlackBlock { block_type: String::from_str("section"), text: None, fields: Some(fields) }
}

/// Builds the alert for a run's failures, stamped with the given check time.
/// When there are no failures there is no message at all, so a caller that
/// delivers whatever is returned makes no network call on an all-clear run.
pub fn build_alert(failures: &Vec<CheckResult>, timestamp: String) -> (m: Option<SlackMessage>)
    ensures
        (failures@.len() == 0) <==> (m is None),
        m matches Some(msg) ==> is_alert_for(msg, failures@, timestamp@),
{
    let ghost ts = timestamp@;
    if failures.len() == 0 {
        return None;
    }
    let count: u64 = failures.len() as u64;
    let mut blocks: Vec<SlackBlock> = Vec::new();
    blocks.push(header_block(count));
    blocks.push(time_block(timestamp));
    blocks.push(divider_block());
    let mut i: usize = 0;
    while i < failures.len()
        invariant
            count == failures@.len(),
            i <= failures@.len(),
            blocks@.len() == 3 + i,
            is_header_block(blocks@[0], failures@.len() as nat),
            is_time_block(blocks@[1], ts),
            is_divider_block(blocks@[2]),
            forall|j: int| 0 <= j < i ==> is_entry_block(#[trigger] blocks@[3 + j], failures@[j]),
        decreases failures@.len() - i,
    {
        blocks.push(entry_block(&failures[i]));
        i = i + 1;
    }
    let text = alert_fallback_text(count);
    Some(SlackMessage { text, blocks })
}

/// Builds the alert for a run's failures, stamped with the wall-clock time
/// of the call.
pub fn build_alert_now(failures: &Vec<CheckResult>) -> (m: Option<SlackMessage>)
    ensures
        (failures@.len() == 0) <==> (m is None),
        m matches Some(msg) ==> exists|ts: Seq<char>| is_alert_for(msg, failures@, ts),
{
    let timestamp = crate::clock::now_alert_timestamp();
    let ghost ts = timestamp@;
    let m = build_alert(failures, timestamp);
    proof {
        if m is Some {
            assert(is_alert_for(m->0, failures@, ts));
        }
    }
    m
}

} // verus!
