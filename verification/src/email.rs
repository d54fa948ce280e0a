use vstd::prelude::*;

verus! {

#[verifier::external_type_specification]
#[verifier::external_body]
pub struct ExParsedMail<'a>(mailparse::ParsedMail<'a>);

#[verifier::external_type_specification]
#[verifier::external_body]
pub struct ExMailParseError(mailparse::MailParseError);

/// Whether `mailparse::parse_mail` reads the raw bytes as a message.
pub uninterp spec fn mail_parses(raw: Seq<u8>) -> bool;

/// The value `MailHeaderMap::get_first_value` finds for `key` among the headers of the
/// message that mailparse reads from `raw`.
pub uninterp spec fn mail_header(raw: Seq<u8>, key: Seq<char>) -> Option<Seq<char>>;

/// The text body `ParsedMail::get_body` decodes from the message that mailparse reads from
/// `raw`; `None` where it cannot decode it.
pub uninterp spec fn mail_body_text(raw: Seq<u8>) -> Option<Seq<char>>;

/// A parsed message together with the bytes it was parsed from. Only `parse_mail` below
/// makes one, so `mail` is always what mailparse reads from `raw`.
pub struct ParsedRaw<'a> {
    raw: &'a [u8],
    mail: mailparse::ParsedMail<'a>,
}

impl<'a> ParsedRaw<'a> {
    /// The bytes the message was parsed from.
    pub closed spec fn source(&self) -> Seq<u8> {
        self.raw@
    }
}

/// `mailparse::parse_mail`: the message structure of raw RFC 822 bytes, kept with the bytes.
/// Parsing is deterministic, so whether it succeeds is a function of the bytes.
#[verifier::external_body]
fn parse_mail<'a>(raw: &'a [u8]) -> (r: Result<ParsedRaw<'a>, mailparse::MailParseError>)
    ensures
        r is Ok <==> mail_parses(raw@),
        r matches Ok(p) ==> p.source() == raw@,
{
    mailparse::parse_mail(raw).map(|mail| ParsedRaw { raw, mail })
}

/// `MailHeaderMap::get_first_value` on the headers of a parsed message: the decoded value
/// of the first header named `key` (case-insensitively), if any.
#[verifier::external_body]
fn first_header_value(parsed: &ParsedRaw, key: &str) -> (r: Option<String>)
    ensures
        match r {
            Some(v) => mail_header(parsed.source(), key@) == Some(v@),
            None => mail_header(parsed.source(), key@) is None,
        },
{
    mailparse::MailHeaderMap::get_first_value(&parsed.mail.headers[..], key)
}

/// `ParsedMail::get_body`: the decoded text body of a parsed message.
#[verifier::external_body]
fn mail_body(parsed: &ParsedRaw) -> (r: Result<String, mailparse::MailParseError>)
    ensures
        match r {
            Ok(b) => mail_body_text(parsed.source()) == Some(b@),
            Err(_) => mail_body_text(parsed.source()) is None,
        },
{
    parsed.mail.get_body()
}

/// A message could not be read.
#[derive(Debug, Clone, Copy, PartialEq, Eq)]
pub enum MailError {
    /// The raw bytes are not a message.
    Parse,
    /// The body could not be decoded.
    Body,
}

/// An incoming email, reduced to what a ticket needs.
#[derive(Debug, Clone, PartialEq, Eq)]
pub struct ParsedEmail {
    pub from: String,
    pub subject: String,
    pub body: String,
}

/// The text of an optional header, empty when the header is absent.
pub open spec fn header_or_empty(h: Option<String>) -> Seq<char> {
    match h {
        Some(v) => v@,
        None => Seq::empty(),
    }
}

/// The email made of a message's `Subject` and `From` headers (empty when absent) and its
/// decoded body; a body that could not be decoded makes the whole message unreadable.
pub fn email_from_parts(
    subject: Option<String>,
    from: Option<String>,
    body: Result<String, MailError>,
) -> (r: Result<ParsedEmail, MailError>)
    ensures
        match body {
            Ok(b) => r matches Ok(e) && e.subject@ == header_or_empty(subject)
                && e.from@ == header_or_empty(from) && e.body@ == b@,
            Err(m) => r == Err::<ParsedEmail, MailError>(m),
        },
{
    let body = match body {
        Ok(b) => b,
        Err(m) => return Err(m),
    };
    let subject = match subject {
        Some(v) => v,
        None => String::new(),
    };
    let from = match from {
        Some(v) => v,
        None => String::new(),
    };
    Ok(ParsedEmail { from, subject, body })
}

/// The text of an optional header value, empty when the header is absent.
pub open spec fn value_or_empty(v: Option<Seq<char>>) -> Seq<char> {
    match v {
        Some(t) => t,
        None => Seq::empty(),
    }
}

/// The sender, subject and body of a raw RFC 822 message, read with mailparse: the first
/// `From` and `Subject` headers (empty when absent) and the decoded text body. A message
/// mailparse cannot parse, or whose body it cannot decode, gives an error.
pub fn parse_email(raw: &[u8]) -> (r: Result<ParsedEmail, MailError>)
    ensures
        !mail_parses(raw@) ==> r == Err::<ParsedEmail, MailError>(MailError::Parse),
        mail_parses(raw@) && mail_body_text(raw@) is None ==> r == Err::<ParsedEmail, MailError>(MailError::Body),
        mail_parses(raw@) && mail_body_text(raw@) is Some ==> (r matches Ok(e)
            && e.from@ == value_or_empty(mail_header(raw@, "From"@))
            && e.subject@ == value_or_empty(mail_header(raw@, "Subject"@))
            && e.body@ == mail_body_text(raw@)->0),
{
    let mail = match parse_mail(raw) {
        Ok(m) => m,
        Err(_) => return Err(MailError::Parse),
    };
    let subject = first_header_value(&mail, "Subject");
    let from = first_header_value(&mail, "From");
    let body = match mail_body(&mail) {
        Ok(b) => Ok(b),
        Err(_) => Err(MailError::Body),
    };
    email_from_parts(subject, from, body)
}

} // verus!
