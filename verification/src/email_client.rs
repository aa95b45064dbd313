//! The outbound notification client: its immutable configuration, the
//! exact wire format of the request it sends, and the classification of
//! what came back. The HTTP transport itself lives outside the library;
//! callers perform the POST and feed the outcome back in.

use crate::domain::SubscriberEmail;
use crate::text::{lemma_contains_in_left, lemma_contains_in_right, push_char, seq_contains};
use vstd::prelude::*;

verus! {

/// The hexadecimal digit character for a value below sixteen.
pub open spec fn hex_digit_char(d: u32) -> char {
    if d == 0 {
        '0'
    } else if d == 1 {
        '1'
    } else if d == 2 {
        '2'
    } else if d == 3 {
        '3'
    } else if d == 4 {
        '4'
    } else if d == 5 {
        '5'
    } else if d == 6 {
        '6'
    } else if d == 7 {
        '7'
    } else if d == 8 {
        '8'
    } else if d == 9 {
        '9'
    } else if d == 10 {
        'a'
    } else if d == 11 {
        'b'
    } else if d == 12 {
        'c'
    } else if d == 13 {
        'd'
    } else if d == 14 {
        'e'
    } else {
        'f'
    }
}

/// How one character is written inside a JSON string literal: quotes
/// and backslashes are escaped, control characters take the `\u00XX`
/// form, and everything else stands for itself.
pub open spec fn json_escape_char(c: char) -> Seq<char> {
    if c == '"' {
        seq!['\\', '"']
    } else if c == '\\' {
        seq!['\\', '\\']
    } else if (c as u32) < 0x20 {
        seq!['\\', 'u', '0', '0', hex_digit_char((c as u32) / 16), hex_digit_char((c as u32) % 16)]
    } else {
        seq![c]
    }
}

/// A whole string escaped for use inside a JSON string literal.
pub open spec fn json_escaped(s: Seq<char>) -> Seq<char>
    decreases s.len(),
{
    if s.len() == 0 {
        Seq::empty()
    } else {
        json_escaped(s.drop_last()) + json_escape_char(s.last())
    }
}

/// A JSON string literal: the escaped text between double quotes.
pub open spec fn json_string_of(s: Seq<char>) -> Seq<char> {
    seq!['"'] + json_escaped(s) + seq!['"']
}

fn hex_digit(d: u32) -> (c: char)
    requires
        d < 16,
    ensures
        c == hex_digit_char(d),
{
    if d == 0 {
        '0'
    } else if d == 1 {
        '1'
    } else if d == 2 {
        '2'
    } else if d == 3 {
        '3'
    } else if d == 4 {
        '4'
    } else if d == 5 {
        '5'
    } else if d == 6 {
        '6'
    } else if d == 7 {
        '7'
    } else if d == 8 {
        '8'
    } else if d == 9 {
        '9'
    } else if d == 10 {
        'a'
    } else if d == 11 {
        'b'
    } else if d == 12 {
        'c'
    } else if d == 13 {
        'd'
    } else if d == 14 {
        'e'
    } else {
        'f'
    }
}

/// Appends one JSON string literal holding `s` to `out`.
fn append_json_string(out: &mut String, s: &str)
    ensures
        final(out)@ == old(out)@ + json_string_of(s@),
{
    push_char(out, '"');
    let n = s.unicode_len();
    let mut i: usize = 0;
    while i < n
        invariant
            i <= n,
            n == s@.len(),
            out@ == old(out)@.push('"') + json_escaped(s@.subrange(0, i as int)),
        decreases n - i,
    {
        let ghost prefix = s@.subrange(0, i as int);
        let ghost before = out@;
        let c = s.get_char(i);
        if c == '"' {
            push_char(out, '\\');
            push_char(out, '"');
        } else if c == '\\' {
            push_char(out, '\\');
            push_char(out, '\\');
        } else if (c as u32) < 0x20 {
            push_char(out, '\\');
            push_char(out, 'u');
            push_char(out, '0');
            push_char(out, '0');
            push_char(out, hex_digit((c as u32) / 16));
            push_char(out, hex_digit((c as u32) % 16));
        } else {
            push_char(out, c);
        }
        proof {
            assert(out@ =~= before + json_escape_char(c));
            assert(s@.subrange(0, i + 1).drop_last() =~= prefix);
            assert(s@.subrange(0, i + 1).last() == c);
            assert(out@ =~= old(out)@.push('"') + json_escaped(s@.subrange(0, i + 1)));
        }
        i += 1;
    }
    push_char(out, '"');
    proof {
        assert(s@.subrange(0, n as int) =~= s@);
        assert(out@ =~= old(out)@ + json_string_of(s@));
    }
}

/// The JSON object the notification service expects: the five fields
/// `From`, `To`, `Subject`, `HtmlBody` and `TextBody`, in that order.
pub open spec fn email_request_body_of(
    from: Seq<char>,
    to: Seq<char>,
    subject: Seq<char>,
    html: Seq<char>,
    text: Seq<char>,
) -> Seq<char> {
    "{\"From\":"@ + json_string_of(from) + ",\"To\":"@ + json_string_of(to) + ",\"Subject\":"@
        + json_string_of(subject) + ",\"HtmlBody\":"@ + json_string_of(html) + ",\"TextBody\":"@
        + json_string_of(text) + "}"@
}

/// How one attempted delivery can fail.
#[derive(Debug, PartialEq, Eq, Structural)]
pub enum DeliveryError {
    /// No response arrived within the configured timeout; the remote
    /// side may or may not have received the request.
    Timeout,
    /// The connection could not be established or broke down.
    Transport,
    /// A response arrived, with a status outside the success range.
    RejectedByServer(u16),
}

/// What one HTTP attempt came to, as the transport reports it.
#[derive(Debug, PartialEq, Eq, Structural)]
pub enum SendOutcome {
    /// A response arrived, with this status code.
    Responded(u16),
    /// The timeout elapsed first.
    TimedOut,
    /// The connection failed before any response.
    TransportFailed,
}

/// Sends one message to one recipient through an HTTP+JSON service,
/// authenticated by a secret token and bounded by a timeout. Cloning
/// copies the configuration; the client holds no other state.
#[derive(Clone)]
pub struct EmailClient {
    base_url: String,
    sender: SubscriberEmail,
    authorization_token: String,
    timeout_millis: u64,
}

impl EmailClient {
    /// The configured base URL.
    pub closed spec fn spec_base_url(&self) -> Seq<char> {
        self.base_url@
    }

    /// The configured sender address.
    pub closed spec fn spec_sender(&self) -> Seq<char> {
        self.sender@
    }

    /// The configured authentication token.
    pub closed spec fn spec_authorization_token(&self) -> Seq<char> {
        self.authorization_token@
    }

    /// The configured timeout.
    pub closed spec fn spec_timeout_millis(&self) -> u64 {
        self.timeout_millis
    }

    /// A client for the service at `base_url`, sending as `sender`,
    /// authenticating with `authorization_token`, giving each request
    /// at most `timeout_millis` milliseconds.
    pub fn new(
        base_url: String,
        sender: SubscriberEmail,
        authorization_token: String,
        timeout_millis: u64,
    ) -> (r: EmailClient)
        ensures
            r.spec_base_url() == base_url@,
            r.spec_sender() == sender@,
            r.spec_authorization_token() == authorization_token@,
            r.spec_timeout_millis() == timeout_millis,
    {
        EmailClient { base_url, sender, authorization_token, timeout_millis }
    }

    /// The address every request goes to: `/email` under the base URL.
    pub fn request_url(&self) -> (r: String)
        ensures
            r@ == self.spec_base_url() + "/email"@,
    {
        let mut out = String::new();
        out.append(self.base_url.as_str());
        out.append("/email");
        out
    }

    /// The header that carries the authentication token.
    pub fn authorization_header_name() -> (r: &'static str)
        ensures
            r@ == "X-Postmark-Server-Token"@,
    {
        "X-Postmark-Server-Token"
    }

    /// The value of the authentication header: the token itself.
    pub fn authorization_token(&self) -> (r: &str)
        ensures
            r@ == self.spec_authorization_token(),
    {
        self.authorization_token.as_str()
    }

    /// The sender address the client was configured with.
    pub fn sender(&self) -> (r: &SubscriberEmail)
        ensures
            r@ == self.spec_sender(),
    {
        &self.sender
    }

    /// How long one request may take, in milliseconds.
    pub fn timeout_millis(&self) -> (r: u64)
        ensures
            r == self.spec_timeout_millis(),
    {
        self.timeout_millis
    }

    /// The exact body of one send request: the five-field JSON object,
    /// with this client's sender as `From`.
    pub fn request_body(
        &self,
        recipient: &SubscriberEmail,
        subject: &str,
        html_content: &str,
        text_content: &str,
    ) -> (r: String)
        ensures
            r@ == email_request_body_of(
                self.spec_sender(),
                recipient@,
                subject@,
                html_content@,
                text_content@,
            ),
    {
        let mut out = String::new();
        out.append("{\"From\":");
        append_json_string(&mut out, self.sender.as_ref());
        out.append(",\"To\":");
        append_json_string(&mut out, recipient.as_ref());
        out.append(",\"Subject\":");
        append_json_string(&mut out, subject);
        out.append(",\"HtmlBody\":");
        append_json_string(&mut out, html_content);
        out.append(",\"TextBody\":");
        append_json_string(&mut out, text_content);
        out.append("}");
        proof {
            assert(out@ =~= email_request_body_of(
                self.spec_sender(),
                recipient@,
                subject@,
                html_content@,
                text_content@,
            ));
        }
        out
    }

    /// Turns what the transport reported into the delivery result: a
    /// success-range status is Ok, any other status is rejection by the
    /// server, and timeout and transport failure keep their identity.
    pub fn classify_outcome(outcome: &SendOutcome) -> (r: Result<(), DeliveryError>)
        ensures
            match *outcome {
                SendOutcome::Responded(status) => if 200 <= status < 300 {
                    r is Ok
                } else {
                    r == Result::<(), DeliveryError>::Err(DeliveryError::RejectedByServer(status))
                },
                SendOutcome::TimedOut => r == Result::<(), DeliveryError>::Err(
                    DeliveryError::Timeout,
                ),
                SendOutcome::TransportFailed => r == Result::<(), DeliveryError>::Err(
                    DeliveryError::Transport,
                ),
            },
    {
        match outcome {
            SendOutcome::Responded(status) => {
                if 200 <= *status && *status < 300 {
                    Ok(())
                } else {
                    Err(DeliveryError::RejectedByServer(*status))
                }
            },
            SendOutcome::TimedOut => Err(DeliveryError::Timeout),
            SendOutcome::TransportFailed => Err(DeliveryError::Transport),
        }
    }
}

/// Whatever the five field values are, the request body carries each
/// of the five field names, spelled between double quotes and followed
/// by a colon, somewhere in the text.
pub proof fn law_request_body_names_all_fields(
    from: Seq<char>,
    to: Seq<char>,
    subject: Seq<char>,
    html: Seq<char>,
    text: Seq<char>,
)
    ensures
        seq_contains(email_request_body_of(from, to, subject, html, text), "\"From\":"@),
        seq_contains(email_request_body_of(from, to, subject, html, text), "\"To\":"@),
        seq_contains(email_request_body_of(from, to, subject, html, text), "\"Subject\":"@),
        seq_contains(email_request_body_of(from, to, subject, html, text), "\"HtmlBody\":"@),
        seq_contains(email_request_body_of(from, to, subject, html, text), "\"TextBody\":"@),
{
    reveal_strlit("{\"From\":");
    reveal_strlit(",\"To\":");
    reveal_strlit(",\"Subject\":");
    reveal_strlit(",\"HtmlBody\":");
    reveal_strlit(",\"TextBody\":");
    reveal_strlit("\"From\":");
    reveal_strlit("\"To\":");
    reveal_strlit("\"Subject\":");
    reveal_strlit("\"HtmlBody\":");
    reveal_strlit("\"TextBody\":");
    let k_from = "\"From\":"@;
    let k_to = "\"To\":"@;
    let k_subject = "\"Subject\":"@;
    let k_html = "\"HtmlBody\":"@;
    let k_text = "\"TextBody\":"@;
    // Each field name sits just past the brace or comma of the piece
    // of the template that carries it.
    assert("{\"From\":"@.subrange(1, 1 + k_from.len() as int) =~= k_from);
    assert(",\"To\":"@.subrange(1, 1 + k_to.len() as int) =~= k_to);
    assert(",\"Subject\":"@.subrange(1, 1 + k_subject.len() as int) =~= k_subject);
    assert(",\"HtmlBody\":"@.subrange(1, 1 + k_html.len() as int) =~= k_html);
    assert(",\"TextBody\":"@.subrange(1, 1 + k_text.len() as int) =~= k_text);
    // The body is assembled from those pieces left to right; carry each
    // field name along the assembly.
    let b1 = "{\"From\":"@;
    let b2 = b1 + json_string_of(from);
    let b3 = b2 + ",\"To\":"@;
    let b4 = b3 + json_string_of(to);
    let b5 = b4 + ",\"Subject\":"@;
    let b6 = b5 + json_string_of(subject);
    let b7 = b6 + ",\"HtmlBody\":"@;
    let b8 = b7 + json_string_of(html);
    let b9 = b8 + ",\"TextBody\":"@;
    let b10 = b9 + json_string_of(text);
    let body = b10 + "}"@;
    assert(body == email_request_body_of(from, to, subject, html, text));
    lemma_contains_in_left(b1, json_string_of(from), k_from);
    lemma_contains_in_left(b2, ",\"To\":"@, k_from);
    lemma_contains_in_left(b3, json_string_of(to), k_from);
    lemma_contains_in_left(b4, ",\"Subject\":"@, k_from);
    lemma_contains_in_left(b5, json_string_of(subject), k_from);
    lemma_contains_in_left(b6, ",\"HtmlBody\":"@, k_from);
    lemma_contains_in_left(b7, json_string_of(html), k_from);
    lemma_contains_in_left(b8, ",\"TextBody\":"@, k_from);
    lemma_contains_in_left(b9, json_string_of(text), k_from);
    lemma_contains_in_left(b10, "}"@, k_from);

    lemma_contains_in_right(b2, ",\"To\":"@, k_to);
    lemma_contains_in_left(b3, json_string_of(to), k_to);
    lemma_contains_in_left(b4, ",\"Subject\":"@, k_to);
    lemma_contains_in_left(b5, json_string_of(subject), k_to);
    lemma_contains_in_left(b6, ",\"HtmlBody\":"@, k_to);
    lemma_contains_in_left(b7, json_string_of(html), k_to);
    lemma_contains_in_left(b8, ",\"TextBody\":"@, k_to);
    lemma_contains_in_left(b9, json_string_of(text), k_to);
    lemma_contains_in_left(b10, "}"@, k_to);

    lemma_contains_in_right(b4, ",\"Subject\":"@, k_subject);
    lemma_contains_in_left(b5, json_string_of(subject), k_subject);
    lemma_contains_in_left(b6, ",\"HtmlBody\":"@, k_subject);
    lemma_contains_in_left(b7, json_string_of(html), k_subject);
    lemma_contains_in_left(b8, ",\"TextBody\":"@, k_subject);
    lemma_contains_in_left(b9, json_string_of(text), k_subject);
    lemma_contains_in_left(b10, "}"@, k_subject);

    lemma_contains_in_right(b6, ",\"HtmlBody\":"@, k_html);
    lemma_contains_in_left(b7, json_string_of(html), k_html);
    lemma_contains_in_left(b8, ",\"TextBody\":"@, k_html);
    lemma_contains_in_left(b9, json_string_of(text), k_html);
    lemma_contains_in_left(b10, "}"@, k_html);

    lemma_contains_in_right(b8, ",\"TextBody\":"@, k_text);
    lemma_contains_in_left(b9, json_string_of(text), k_text);
    lemma_contains_in_left(b10, "}"@, k_text);
}

} // verus!
