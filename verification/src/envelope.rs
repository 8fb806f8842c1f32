//! Decoding of the provider's response envelope into a record or a typed
//! error.
use vstd::prelude::*;
use vstd::string::StringSliceAdditionalSpecFns;
use crate::error::AuthError;
use crate::records::{dict_entries, get_record, get_signed, get_text, new_record, no_entries,
    plist_document, put_integer, put_text, read_document, record_at, signed_at, text_at, Node};
use crate::text::{chars_of, extend_chars, find, find_from, slice_of, string_of, trim_bounds,
    trim_range};

verus! {

/// The message used where a failed response names no cause of its own.
pub open spec fn risk_notice() -> Seq<char> {
    "Possibly triggered Apple's risk control."@
}

/// The title of an HTML page: the text between the first `>` that follows
/// the first `<title` and the next `</title>`, trimmed. Nothing where a step
/// finds nothing or the trimmed text is empty.
pub open spec fn html_title(body: Seq<char>) -> Option<Seq<char>> {
    match find_from(body, "<title"@, 0) {
        None => None,
        Some(tag) => match find_from(body, ">"@, tag) {
            None => None,
            Some(gt) => if gt + 1 < body.len() {
                match find_from(body, "</title>"@, gt + 1) {
                    None => None,
                    Some(end) => {
                        let (a, b) = trim_bounds(body, gt + 1, end);
                        if a < b {
                            Some(body.subrange(a, b))
                        } else {
                            None
                        }
                    },
                }
            } else {
                None
            },
        },
    }
}

/// The message of the error record made for a failed response: the page's
/// title, where it has one, in front of the general notice.
pub open spec fn error_message(body: Seq<char>) -> Seq<char> {
    match html_title(body) {
        Some(title) => title + ". "@ + risk_notice(),
        None => risk_notice(),
    }
}

/// A status in the range that HTTP calls successful.
pub open spec fn is_success(status: u16) -> bool {
    200 <= status < 300
}

/// The record made for a failed response: the status as its code, and the
/// message.
pub open spec fn failure_record(status: u16, body: Seq<char>) -> Map<Seq<char>, Node> {
    no_entries().insert("ec"@, Node::Int(status as int)).insert(
        "em"@,
        Node::Text(error_message(body)),
    )
}

/// The record that a response carries: for a failed one the record made from
/// its status and body; for a successful one the dictionary under `Response`
/// of the document in its body, and nothing where the body is no document or
/// holds no such dictionary.
pub open spec fn response_record(status: u16, body: &str) -> Option<Map<Seq<char>, Node>> {
    if !is_success(status) {
        Some(failure_record(status, body@))
    } else {
        match plist_document(body.spec_bytes()) {
            None => None,
            Some(doc) => record_at(doc, "Response"@),
        }
    }
}

/// Looks for the title of an HTML page.
pub fn extract_title(body: &[char]) -> (r: Option<Vec<char>>)
    ensures
        match r {
            Some(title) => html_title(body@) == Some(title@),
            None => html_title(body@) is None,
        },
{
    let open_tag = chars_of("<title");
    let gt_mark = chars_of(">");
    let close_tag = chars_of("</title>");
    let tag = match find(body, open_tag.as_slice(), 0) {
        Some(i) => i,
        None => { return None; },
    };
    let gt = match find(body, gt_mark.as_slice(), tag) {
        Some(i) => i,
        None => { return None; },
    };
    proof {
        reveal_strlit(">");
    }
    if gt + 1 >= body.len() {
        return None;
    }
    let end = match find(body, close_tag.as_slice(), gt + 1) {
        Some(i) => i,
        None => { return None; },
    };
    let (a, b) = trim_range(body, gt + 1, end);
    if a < b {
        Some(slice_of(body, a, b))
    } else {
        None
    }
}

/// Builds the message of the error record for a failed response.
pub fn failure_message(body: &str) -> (msg: String)
    ensures
        msg@ == error_message(body@),
{
    let chars = chars_of(body);
    let notice = chars_of("Possibly triggered Apple's risk control.");
    match extract_title(chars.as_slice()) {
        Some(title) => {
            let mut out = title;
            let sep = chars_of(". ");
            extend_chars(&mut out, sep.as_slice());
            extend_chars(&mut out, notice.as_slice());
            string_of(out.as_slice())
        },
        None => string_of(notice.as_slice()),
    }
}

/// Turns a response, given by its HTTP status and its body, into a record.
///
/// A failed response always gives a record: its code is the status, its
/// message names the page's title where the body has one. A successful one
/// gives the dictionary under `Response`, or a parse error.
pub fn parse_response(status: u16, body: &str) -> (r: Result<plist::Dictionary, AuthError>)
    ensures
        match response_record(status, body) {
            Some(record) => r matches Ok(d) && dict_entries(d) == record,
            None => r == Err::<plist::Dictionary, AuthError>(AuthError::Parse),
        },
{
    if status < 200 || status >= 300 {
        let mut record = new_record();
        put_integer(&mut record, "ec", status);
        put_text(&mut record, "em", failure_message(body));
        return Ok(record);
    }
    let doc = match read_document(body.as_bytes()) {
        Ok(d) => d,
        Err(_) => { return Err(AuthError::Parse); },
    };
    match get_record(&doc, "Response") {
        Some(inner) => Ok(inner),
        None => Err(AuthError::Parse),
    }
}

/// The record that carries the error code: the dictionary under `Status`
/// where there is one, else the record itself.
pub open spec fn status_record(record: Map<Seq<char>, Node>) -> Map<Seq<char>, Node> {
    match record_at(record, "Status"@) {
        Some(inner) => inner,
        None => record,
    }
}

/// What a record says of the request.
pub enum Verdict {
    /// The code is zero: the request succeeded.
    Clean,
    /// The provider reported this code and message.
    Rejected(i64, Seq<char>),
    /// The record has no signed code, or a code but no message.
    Malformed,
}

/// Reads the verdict off the record that carries the code: the code stands
/// under `ec`, the message under `em`.
pub open spec fn status_verdict(status: Map<Seq<char>, Node>) -> Verdict {
    match signed_at(status, "ec"@) {
        None => Verdict::Malformed,
        Some(code) => if code == 0 {
            Verdict::Clean
        } else {
            match text_at(status, "em"@) {
                Some(message) => Verdict::Rejected(code, message),
                None => Verdict::Malformed,
            }
        },
    }
}

/// Reads the verdict off a record: that of its status record.
pub open spec fn verdict(record: Map<Seq<char>, Node>) -> Verdict {
    status_verdict(status_record(record))
}

/// A record reports an error exactly when the code of its status record is
/// not zero, and success exactly when it is zero; the status record is the
/// one under `Status` wherever there is one.
pub proof fn lemma_error_iff_code_not_zero(record: Map<Seq<char>, Node>)
    ensures
        verdict(record) is Clean <==> signed_at(status_record(record), "ec"@) == Some(0i64),
        verdict(record) is Rejected ==> signed_at(status_record(record), "ec"@) is Some
            && signed_at(status_record(record), "ec"@) != Some(0i64),
        record_at(record, "Status"@) is Some ==> verdict(record) == status_verdict(
            record_at(record, "Status"@)->0,
        ),
{
}

/// What `check_error` returns on a record with the given verdict.
pub open spec fn check_outcome(v: Verdict, r: Result<(), AuthError>) -> bool {
    match v {
        Verdict::Clean => r is Ok,
        Verdict::Rejected(code, message) => r matches Err(AuthError::AuthSrpWithMessage(c, m))
            && c == code && m@ == message,
        Verdict::Malformed => r == Err::<(), AuthError>(AuthError::Parse),
    }
}

/// Checks a record for an error that the provider reported.
pub fn check_error(res: &plist::Dictionary) -> (r: Result<(), AuthError>)
    ensures
        check_outcome(verdict(dict_entries(*res)), r),
{
    match get_record(res, "Status") {
        Some(inner) => check_status(&inner),
        None => check_status(res),
    }
}

/// Checks the record that carries the code itself.
pub fn check_status(status: &plist::Dictionary) -> (r: Result<(), AuthError>)
    ensures
        check_outcome(status_verdict(dict_entries(*status)), r),
{
    let code = match get_signed(status, "ec") {
        Some(c) => c,
        None => { return Err(AuthError::Parse); },
    };
    if code == 0 {
        return Ok(());
    }
    match get_text(status, "em") {
        Some(message) => Err(AuthError::AuthSrpWithMessage(code, message)),
        None => Err(AuthError::Parse),
    }
}

/// What `decode` returns on a response. A failed response is always an
/// error: it carries the status as its code and the message made from the
/// body. A successful one is read by its record.
pub open spec fn decode_outcome(
    status: u16,
    body: &str,
    r: Result<plist::Dictionary, AuthError>,
) -> bool {
    if !is_success(status) {
        r matches Err(AuthError::AuthSrpWithMessage(c, m)) && c == status && m@ == error_message(
            body@,
        )
    } else {
        match response_record(status, body) {
            None => r == Err::<plist::Dictionary, AuthError>(AuthError::Parse),
            Some(record) => match verdict(record) {
                Verdict::Clean => r matches Ok(d) && dict_entries(d) == record,
                Verdict::Rejected(code, message) => r matches Err(
                    AuthError::AuthSrpWithMessage(c, m),
                ) && c == code && m@ == message,
                Verdict::Malformed => r == Err::<plist::Dictionary, AuthError>(AuthError::Parse),
            },
        }
    }
}

/// Decodes a response: the record that it carries where the provider
/// reported no error, else the typed error.
pub fn decode(status: u16, body: &str) -> (r: Result<plist::Dictionary, AuthError>)
    ensures
        decode_outcome(status, body, r),
{
    if status < 200 || status >= 300 {
        return Err(AuthError::AuthSrpWithMessage(status as i64, failure_message(body)));
    }
    let record = match parse_response(status, body) {
        Ok(d) => d,
        Err(e) => { return Err(e); },
    };
    match check_error(&record) {
        Ok(()) => Ok(record),
        Err(e) => Err(e),
    }
}

/// A failed response is never decoded as a success, whatever its status,
/// and where its body holds a title the message begins with that title.
pub proof fn lemma_failed_response_is_error(
    status: u16,
    body: &str,
    r: Result<plist::Dictionary, AuthError>,
)
    requires
        !is_success(status),
        decode_outcome(status, body, r),
    ensures
        r is Err,
        html_title(body@) matches Some(title) ==> r matches Err(
            AuthError::AuthSrpWithMessage(_, m),
        ) && m@.subrange(0, title.len() as int) == title,
{
    match html_title(body@) {
        Some(title) => {
            assert(error_message(body@).subrange(0, title.len() as int) =~= title);
        },
        None => {},
    }
}

} // verus!
