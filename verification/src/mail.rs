//! Building and parsing the RFC 2822 message used by both mail paths.
//!
//! The SMTP path hands the mailbox strings and body to the relay; the
//! Gmail path base64url-encodes the whole raw message.  Parsing recovers
//! the from/to/subject/body fields from a raw message, and the round-trip
//! law states that it recovers exactly what the builder wrote.

use vstd::prelude::*;
use crate::strutil::{find_char, starts_with, find_char_in, str_starts_with};
use crate::strutil::{lemma_find_char_at};

verus! {

/// A mail message's fields, as exchanged with the caller.
pub struct MailMessage {
    pub from_name: String,
    pub from_email: String,
    pub to_name: String,
    pub to_email: String,
    pub subject: String,
    pub html_body: String,
}

/// The same fields at the specification level.
pub struct MailFields {
    pub from_name: Seq<char>,
    pub from_email: Seq<char>,
    pub to_name: Seq<char>,
    pub to_email: Seq<char>,
    pub subject: Seq<char>,
    pub html_body: Seq<char>,
}

/// A display-name mailbox: `name <email>`.
pub open spec fn mailbox_chars(name: Seq<char>, email: Seq<char>) -> Seq<char> {
    name + " <"@ + email + ">"@
}

/// Formats a display-name mailbox.
pub fn format_mailbox(name: &str, email: &str) -> (r: String)
    ensures
        r@ == mailbox_chars(name@, email@),
{
    let mut s = String::from_str(name);
    s.append(" <");
    s.append(email);
    s.append(">");
    proof {
        assert(s@ =~= mailbox_chars(name@, email@));
    }
    s
}

/// The sender display name for the SMTP path: the configured name, or the
/// application's own name when none is configured.
pub fn effective_from_name(from_name: &Option<String>) -> (r: String)
    ensures
        match from_name {
            Some(n) => r@ == n@,
            None => r@ == "POTracker"@,
        },
{
    match from_name {
        Some(n) => n.clone(),
        None => String::from_str("POTracker"),
    }
}

/// The fixed header block between the subject line and the body.
pub open spec fn mime_headers_tail() -> Seq<char> {
    "\r\nMIME-Version: 1.0\r\nContent-Type: text/html; charset=utf-8\r\n\r\n"@
}

/// The raw RFC 2822 message: from and to mailboxes, subject, the fixed
/// HTML content-type headers, and the body.
pub open spec fn mime_message_chars(
    from_name: Seq<char>,
    from_email: Seq<char>,
    to_name: Seq<char>,
    to_email: Seq<char>,
    subject: Seq<char>,
    html_body: Seq<char>,
) -> Seq<char> {
    "From: "@ + mailbox_chars(from_name, from_email) + "\r\nTo: "@ + mailbox_chars(
        to_name,
        to_email,
    ) + "\r\nSubject: "@ + subject + mime_headers_tail() + html_body
}

/// Builds the raw RFC 2822 message.
pub fn build_mime_message(
    from_name: &str,
    from_email: &str,
    to_name: &str,
    to_email: &str,
    subject: &str,
    html_body: &str,
) -> (r: String)
    ensures
        r@ == mime_message_chars(from_name@, from_email@, to_name@, to_email@, subject@, html_body@),
{
    let mut s = String::from_str("From: ");
    s.append(format_mailbox(from_name, from_email).as_str());
    s.append("\r\nTo: ");
    s.append(format_mailbox(to_name, to_email).as_str());
    s.append("\r\nSubject: ");
    s.append(subject);
    s.append("\r\nMIME-Version: 1.0\r\nContent-Type: text/html; charset=utf-8\r\n\r\n");
    s.append(html_body);
    proof {
        assert(s@ =~= mime_message_chars(
            from_name@,
            from_email@,
            to_name@,
            to_email@,
            subject@,
            html_body@,
        ));
    }
    s
}

/// Parses a raw message of the builder's shape back into its fields.
/// The from and to lines are read as `name <email>` with the name up to
/// the last space before the first `<` and the email up to the next `>`;
/// the subject runs to the first carriage return, which must open the
/// fixed header block; the rest is the body.
pub open spec fn parse_mime_chars(raw: Seq<char>) -> Option<MailFields> {
    if !starts_with(raw, "From: "@) {
        None
    } else {
        let r1 = raw.skip("From: "@.len() as int);
        match find_char(r1, '<') {
            None => None,
            Some(p1) => if p1 < 1 || r1[p1 - 1] != ' ' {
                None
            } else {
                let from_name = r1.take(p1 - 1);
                let r2 = r1.skip(p1 + 1);
                match find_char(r2, '>') {
                    None => None,
                    Some(p2) => {
                        let from_email = r2.take(p2);
                        let r3 = r2.skip(p2 + 1);
                        if !starts_with(r3, "\r\nTo: "@) {
                            None
                        } else {
                            let r4 = r3.skip("\r\nTo: "@.len() as int);
                            match find_char(r4, '<') {
                                None => None,
                                Some(p3) => if p3 < 1 || r4[p3 - 1] != ' ' {
                                    None
                                } else {
                                    let to_name = r4.take(p3 - 1);
                                    let r5 = r4.skip(p3 + 1);
                                    match find_char(r5, '>') {
                                        None => None,
                                        Some(p4) => {
                                            let to_email = r5.take(p4);
                                            let r6 = r5.skip(p4 + 1);
                                            if !starts_with(r6, "\r\nSubject: "@) {
                                                None
                                            } else {
                                                let r7 = r6.skip("\r\nSubject: "@.len() as int);
                                                match find_char(r7, '\r') {
                                                    None => None,
                                                    Some(p5) => {
                                                        let subject = r7.take(p5);
                                                        let r8 = r7.skip(p5);
                                                        if !starts_with(r8, mime_headers_tail()) {
                                                            None
                                                        } else {
                                                            Some(
                                                                MailFields {
                                                                    from_name,
                                                                    from_email,
                                                                    to_name,
                                                                    to_email,
                                                                    subject,
                                                                    html_body: r8.skip(
                                                                        mime_headers_tail().len() as int,
                                                                    ),
                                                                },
                                                            )
                                                        }
                                                    },
                                                }
                                            }
                                        },
                                    }
                                },
                            }
                        }
                    },
                }
            },
        }
    }
}

/// Parses a raw message back into its fields, exactly as
/// [`parse_mime_chars`] describes.
pub fn parse_mime_message(raw: &str) -> (r: Option<MailMessage>)
    ensures
        match (r, parse_mime_chars(raw@)) {
            (Some(m), Some(f)) => {
                &&& m.from_name@ == f.from_name
                &&& m.from_email@ == f.from_email
                &&& m.to_name@ == f.to_name
                &&& m.to_email@ == f.to_email
                &&& m.subject@ == f.subject
                &&& m.html_body@ == f.html_body
            },
            (None, None) => true,
            _ => false,
        },
{
    let n = raw.unicode_len();
    if !str_starts_with(raw, "From: ") {
        return None;
    }
    let from_marker_len = "From: ".unicode_len();
    let r1 = raw.substring_char(from_marker_len, n);
    proof {
        assert(r1@ =~= raw@.skip("From: "@.len() as int));
    }
    let n1 = r1.unicode_len();
    let p1 = match find_char_in(r1, '<') {
        None => {
            return None;
        },
        Some(p) => p,
    };
    proof {
        crate::strutil::lemma_find_char_props(r1@, '<');
    }
    if p1 < 1 || r1.get_char(p1 - 1) != ' ' {
        return None;
    }
    let from_name = r1.substring_char(0, p1 - 1);
    proof {
        assert(from_name@ =~= r1@.take(p1 - 1));
    }
    let r2 = r1.substring_char(p1 + 1, n1);
    proof {
        assert(r2@ =~= r1@.skip(p1 + 1));
    }
    let n2 = r2.unicode_len();
    let p2 = match find_char_in(r2, '>') {
        None => {
            return None;
        },
        Some(p) => p,
    };
    proof {
        crate::strutil::lemma_find_char_props(r2@, '>');
    }
    let from_email = r2.substring_char(0, p2);
    proof {
        assert(from_email@ =~= r2@.take(p2 as int));
    }
    let r3 = r2.substring_char(p2 + 1, n2);
    proof {
        assert(r3@ =~= r2@.skip(p2 + 1));
    }
    if !str_starts_with(r3, "\r\nTo: ") {
        return None;
    }
    let to_marker_len = "\r\nTo: ".unicode_len();
    let n3 = r3.unicode_len();
    let r4 = r3.substring_char(to_marker_len, n3);
    proof {
        assert(r4@ =~= r3@.skip("\r\nTo: "@.len() as int));
    }
    let n4 = r4.unicode_len();
    let p3 = match find_char_in(r4, '<') {
        None => {
            return None;
        },
        Some(p) => p,
    };
    proof {
        crate::strutil::lemma_find_char_props(r4@, '<');
    }
    if p3 < 1 || r4.get_char(p3 - 1) != ' ' {
        return None;
    }
    let to_name = r4.substring_char(0, p3 - 1);
    proof {
        assert(to_name@ =~= r4@.take(p3 - 1));
    }
    let r5 = r4.substring_char(p3 + 1, n4);
    proof {
        assert(r5@ =~= r4@.skip(p3 + 1));
    }
    let n5 = r5.unicode_len();
    let p4 = match find_char_in(r5, '>') {
        None => {
            return None;
        },
        Some(p) => p,
    };
    proof {
        crate::strutil::lemma_find_char_props(r5@, '>');
    }
    let to_email = r5.substring_char(0, p4);
    proof {
        assert(to_email@ =~= r5@.take(p4 as int));
    }
    let r6 = r5.substring_char(p4 + 1, n5);
    proof {
        assert(r6@ =~= r5@.skip(p4 + 1));
    }
    if !str_starts_with(r6, "\r\nSubject: ") {
        return None;
    }
    let subject_marker_len = "\r\nSubject: ".unicode_len();
    let n6 = r6.unicode_len();
    let r7 = r6.substring_char(subject_marker_len, n6);
    proof {
        assert(r7@ =~= r6@.skip("\r\nSubject: "@.len() as int));
    }
    let n7 = r7.unicode_len();
    let p5 = match find_char_in(r7, '\r') {
        None => {
            return None;
        },
        Some(p) => p,
    };
    proof {
        crate::strutil::lemma_find_char_props(r7@, '\r');
    }
    let subject = r7.substring_char(0, p5);
    proof {
        assert(subject@ =~= r7@.take(p5 as int));
    }
    let r8 = r7.substring_char(p5, n7);
    proof {
        assert(r8@ =~= r7@.skip(p5 as int));
    }
    if !str_starts_with(r8, "\r\nMIME-Version: 1.0\r\nContent-Type: text/html; charset=utf-8\r\n\r\n")
    {
        return None;
    }
    let tail_len = "\r\nMIME-Version: 1.0\r\nContent-Type: text/html; charset=utf-8\r\n\r\n".unicode_len();
    let n8 = r8.unicode_len();
    let html_body = r8.substring_char(tail_len, n8);
    proof {
        assert(html_body@ =~= r8@.skip(mime_headers_tail().len() as int));
    }
    Some(
        MailMessage {
            from_name: String::from_str(from_name),
            from_email: String::from_str(from_email),
            to_name: String::from_str(to_name),
            to_email: String::from_str(to_email),
            subject: String::from_str(subject),
            html_body: String::from_str(html_body),
        },
    )
}

/// Law: parsing a built message recovers the fields exactly, whenever the
/// names contain no `<`, the addresses no `>`, and the subject no carriage
/// return.
#[verifier::rlimit(100)]
pub proof fn lemma_mime_round_trip(
    from_name: Seq<char>,
    from_email: Seq<char>,
    to_name: Seq<char>,
    to_email: Seq<char>,
    subject: Seq<char>,
    html_body: Seq<char>,
)
    requires
        forall|k: int| 0 <= k < from_name.len() ==> from_name[k] != '<',
        forall|k: int| 0 <= k < from_email.len() ==> from_email[k] != '>',
        forall|k: int| 0 <= k < to_name.len() ==> to_name[k] != '<',
        forall|k: int| 0 <= k < to_email.len() ==> to_email[k] != '>',
        forall|k: int| 0 <= k < subject.len() ==> subject[k] != '\r',
    ensures
        parse_mime_chars(mime_message_chars(from_name, from_email, to_name, to_email, subject, html_body))
            == Some(MailFields { from_name, from_email, to_name, to_email, subject, html_body }),
{
    reveal_strlit("From: ");
    reveal_strlit(" <");
    reveal_strlit(">");
    reveal_strlit("\r\nTo: ");
    reveal_strlit("\r\nSubject: ");
    reveal_strlit("\r\nMIME-Version: 1.0\r\nContent-Type: text/html; charset=utf-8\r\n\r\n");
    let raw = mime_message_chars(from_name, from_email, to_name, to_email, subject, html_body);
    assert(raw.take("From: "@.len() as int) =~= "From: "@);
    let r1 = raw.skip("From: "@.len() as int);
    assert(r1 =~= from_name + " <"@ + from_email + ">"@ + "\r\nTo: "@ + mailbox_chars(
        to_name,
        to_email,
    ) + "\r\nSubject: "@ + subject + mime_headers_tail() + html_body);
    let q1 = from_name.len() as int + 1;
    assert(r1[q1] == '<');
    assert(forall|j: int| 0 <= j < q1 ==> r1[j] != '<');
    lemma_find_char_at(r1, '<', q1);
    assert(r1[q1 - 1] == ' ');
    assert(r1.take(q1 - 1) =~= from_name);
    let r2 = r1.skip(q1 + 1);
    assert(r2 =~= from_email + ">"@ + "\r\nTo: "@ + mailbox_chars(to_name, to_email)
        + "\r\nSubject: "@ + subject + mime_headers_tail() + html_body);
    let q2 = from_email.len() as int;
    assert(r2[q2] == '>');
    lemma_find_char_at(r2, '>', q2);
    assert(r2.take(q2) =~= from_email);
    let r3 = r2.skip(q2 + 1);
    assert(r3 =~= "\r\nTo: "@ + mailbox_chars(to_name, to_email) + "\r\nSubject: "@ + subject
        + mime_headers_tail() + html_body);
    assert(r3.take("\r\nTo: "@.len() as int) =~= "\r\nTo: "@);
    let r4 = r3.skip("\r\nTo: "@.len() as int);
    assert(r4 =~= to_name + " <"@ + to_email + ">"@ + "\r\nSubject: "@ + subject
        + mime_headers_tail() + html_body);
    let q3 = to_name.len() as int + 1;
    assert(r4[q3] == '<');
    assert(forall|j: int| 0 <= j < q3 ==> r4[j] != '<');
    lemma_find_char_at(r4, '<', q3);
    assert(r4[q3 - 1] == ' ');
    assert(r4.take(q3 - 1) =~= to_name);
    let r5 = r4.skip(q3 + 1);
    assert(r5 =~= to_email + ">"@ + "\r\nSubject: "@ + subject + mime_headers_tail() + html_body);
    let q4 = to_email.len() as int;
    assert(r5[q4] == '>');
    lemma_find_char_at(r5, '>', q4);
    assert(r5.take(q4) =~= to_email);
    let r6 = r5.skip(q4 + 1);
    assert(r6 =~= "\r\nSubject: "@ + subject + mime_headers_tail() + html_body);
    assert(r6.take("\r\nSubject: "@.len() as int) =~= "\r\nSubject: "@);
    let r7 = r6.skip("\r\nSubject: "@.len() as int);
    assert(r7 =~= subject + mime_headers_tail() + html_body);
    let q5 = subject.len() as int;
    assert(r7[q5] == '\r');
    lemma_find_char_at(r7, '\r', q5);
    assert(r7.take(q5) =~= subject);
    let r8 = r7.skip(q5);
    assert(r8 =~= mime_headers_tail() + html_body);
    assert(r8.take(mime_headers_tail().len() as int) =~= mime_headers_tail());
    assert(r8.skip(mime_headers_tail().len() as int) =~= html_body);
}

} // verus!
