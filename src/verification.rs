//! Token extraction, the verification exchange's payload and reply, and the
//! header edits made on a verified request.
use vstd::prelude::*;
use crate::config::Configuration;
use crate::json::{JsonItem, find_member, json_members, member_index, parse_members};
use crate::text::{decimal_text, i64_text};

verus! {

/// The inbound header that carries the token.
pub const TOKEN_HEADER: &'static str = "X-hCaptcha-Response";

/// The outbound header that carries the score.
pub const SCORE_HEADER: &'static str = "X-hCaptcha-Score";

/// The outbound header that carries the score reasons.
pub const SCORE_REASON_HEADER: &'static str = "X-hCaptcha-Score-Reason";

/// The outbound header that carries the shared secret.
pub const EDGE_SECRET_HEADER: &'static str = "X-hCaptcha-Edge-Secret";

#[derive(Debug, Clone, Copy, PartialEq, Eq, Structural)]
pub enum ExtractionError {
    MissingHeader,
    NoContentLength,
    BodyTooLarge,
    MalformedBody,
}

#[derive(Debug, Clone, Copy, PartialEq, Eq, Structural)]
pub enum VerificationError {
    /// The call failed, the status was not 2xx, or the reply was not usable JSON.
    TransportOrParse,
}

/// The verification service's verdict on one token.
pub struct VerificationOutcome {
    pub success: bool,
    pub score: Option<i64>,
    pub score_reasons: Option<Vec<String>>,
}

/// A change to the forwarded request's headers: set `name` to the value, or
/// remove it where there is none.
pub struct HeaderEdit {
    pub name: String,
    pub value: Option<String>,
}

impl View for HeaderEdit {
    type V = (Seq<char>, Option<Seq<char>>);

    open spec fn view(&self) -> (Seq<char>, Option<Seq<char>>) {
        (
            self.name@,
            match self.value {
                Some(v) => Some(v@),
                None => None,
            },
        )
    }
}

/// The views of a list of header edits.
pub open spec fn edit_views(edits: Seq<HeaderEdit>) -> Seq<(Seq<char>, Option<Seq<char>>)> {
    edits.map_values(|e: HeaderEdit| e@)
}

/// The value of the member named `key`, if there is one.
pub open spec fn member_of(members: Seq<(String, JsonItem)>, key: Seq<char>) -> Option<JsonItem> {
    match member_index(members, key) {
        Some(i) => Some(members[i].1),
        None => None,
    }
}

/// Whether a status reports success (2xx).
pub open spec fn status_ok(status: Option<u16>) -> bool {
    status matches Some(s) && 200 <= s < 300
}

/// Whether the reply says `"success": true`; anything else is a refusal.
pub open spec fn reply_success(members: Seq<(String, JsonItem)>) -> bool {
    member_of(members, "success"@) == Some(JsonItem::Bool(true))
}

/// The integer score of the reply, where it has one.
pub open spec fn reply_score(members: Seq<(String, JsonItem)>) -> Option<i64> {
    match member_of(members, "score"@) {
        Some(JsonItem::Number(Some(n))) => Some(n),
        _ => None,
    }
}

/// Whether the reply has a `score_reason` array with an element that is not a string.
pub open spec fn reasons_malformed(members: Seq<(String, JsonItem)>) -> bool {
    match member_of(members, "score_reason"@) {
        Some(JsonItem::List(items)) => exists|i: int| 0 <= i < items@.len() && items@[i] is None,
        _ => false,
    }
}

/// The score reasons of the reply, where it has an array of them.
pub open spec fn reply_reasons(members: Seq<(String, JsonItem)>) -> Option<Seq<Seq<char>>> {
    match member_of(members, "score_reason"@) {
        Some(JsonItem::List(items)) => Some(items@.map_values(|x: Option<String>| x->Some_0@)),
        _ => None,
    }
}

/// The views of a list of strings.
pub open spec fn text_views(v: Seq<String>) -> Seq<Seq<char>> {
    v.map_values(|s: String| s@)
}

/// The reasons joined for the header: each one followed by a single space.
pub open spec fn reasons_text(reasons: Seq<Seq<char>>) -> Seq<char>
    decreases reasons.len(),
{
    if reasons.len() == 0 {
        Seq::empty()
    } else {
        reasons_text(reasons.drop_last()) + reasons.last() + seq![' ']
    }
}

/// The form sent to the verification service.
pub open spec fn form_text(token: Seq<char>, secret: Seq<char>, sitekey: Seq<char>, ip: Seq<char>) -> Seq<
    char,
> {
    "response="@ + token + "&secret="@ + secret + "&sitekey="@ + sitekey + "&remoteip="@ + ip
}

/// The header edits for a successful verification, in the order they are made:
/// the score, the reasons, the shared secret, then the token header's removal.
pub open spec fn success_edits(
    conf: Configuration,
    score: Option<i64>,
    reasons: Option<Seq<Seq<char>>>,
) -> Seq<(Seq<char>, Option<Seq<char>>)> {
    let e0: Seq<(Seq<char>, Option<Seq<char>>)> = Seq::empty();
    let e1 = match score {
        Some(n) => e0.push((SCORE_HEADER@, Some(decimal_text(n as int)))),
        None => e0,
    };
    let e2 = match reasons {
        Some(r) => e1.push((SCORE_REASON_HEADER@, Some(reasons_text(r)))),
        None => e1,
    };
    let e3 = match conf.shared_secret {
        Some(s) => e2.push((EDGE_SECRET_HEADER@, Some(s@))),
        None => e2,
    };
    if conf.keep_hcaptcha_response_header == 0 {
        e3.push((TOKEN_HEADER@, None))
    } else {
        e3
    }
}

/// The views of an outcome's score reasons.
pub open spec fn outcome_reasons(o: VerificationOutcome) -> Option<Seq<Seq<char>>> {
    match o.score_reasons {
        Some(v) => Some(text_views(v@)),
        None => None,
    }
}

/// The header edits for an outcome: none unless the verification succeeded.
pub open spec fn outcome_edits(conf: Configuration, o: VerificationOutcome) -> Seq<
    (Seq<char>, Option<Seq<char>>),
> {
    if o.success {
        success_edits(conf, o.score, outcome_reasons(o))
    } else {
        Seq::empty()
    }
}

/// Reads the token from the token header's value, where the request has one.
pub fn token_from_header(header: &Option<String>) -> (r: Result<String, ExtractionError>)
    ensures
        *header matches Some(t) ==> r == Ok::<String, ExtractionError>(t),
        header is None ==> r == Err::<String, ExtractionError>(ExtractionError::MissingHeader),
{
    match header {
        Some(t) => Ok(t.clone()),
        None => Err(ExtractionError::MissingHeader),
    }
}

/// Checks the declared body length before the body is read.
pub fn check_body_length(content_length: Option<usize>, max_post_size: usize) -> (r: Result<
    (),
    ExtractionError,
>)
    ensures
        content_length is None ==> r == Err::<(), ExtractionError>(ExtractionError::NoContentLength),
        content_length matches Some(n) && n >= max_post_size ==> r == Err::<(), ExtractionError>(
            ExtractionError::BodyTooLarge,
        ),
        content_length matches Some(n) && n < max_post_size ==> r is Ok,
{
    match content_length {
        None => Err(ExtractionError::NoContentLength),
        Some(n) => if n >= max_post_size {
            Err(ExtractionError::BodyTooLarge)
        } else {
            Ok(())
        },
    }
}

/// The token read from the string member `field` of a JSON body.
pub open spec fn body_token(body: Seq<u8>, field: Seq<char>) -> Result<String, ExtractionError> {
    match json_members(body) {
        Some(m) => match member_of(m@, field) {
            Some(JsonItem::Text(t)) => Ok(t),
            _ => Err(ExtractionError::MalformedBody),
        },
        None => Err(ExtractionError::MalformedBody),
    }
}

/// Reads the token from the string member `field` of a JSON body.
pub fn token_from_body(body: &[u8], field: &str) -> (r: Result<String, ExtractionError>)
    ensures
        r == body_token(body@, field@),
{
    let members = match parse_members(body) {
        Some(m) => m,
        None => return Err(ExtractionError::MalformedBody),
    };
    match find_member(&members, field) {
        Some(i) => match &members[i].1 {
            JsonItem::Text(t) => Ok(t.clone()),
            _ => Err(ExtractionError::MalformedBody),
        },
        None => Err(ExtractionError::MalformedBody),
    }
}

/// Builds the form sent to the verification service. The values are sent as
/// they are, without URL encoding.
pub fn verification_form(token: &str, conf: &Configuration, client_ip: &str) -> (r: String)
    ensures
        r@ == form_text(token@, conf.secret_key@, conf.sitekey@, client_ip@),
{
    let mut r = String::from_str("response=");
    r.append(token);
    r.append("&secret=");
    r.append(conf.secret_key.as_str());
    r.append("&sitekey=");
    r.append(conf.sitekey.as_str());
    r.append("&remoteip=");
    r.append(client_ip);
    r
}

/// Reads the verification service's reply, given its status (`None` when the
/// call itself failed) and its body.
pub fn read_verification(status: Option<u16>, body: &[u8]) -> (r: Result<
    VerificationOutcome,
    VerificationError,
>)
    ensures
        !status_ok(status) || json_members(body@) is None ==> r is Err,
        json_members(body@) matches Some(m) ==> status_ok(status) ==> {
            &&& !reply_success(m@) ==> (r matches Ok(o) && (!o.success && o.score is None
                && o.score_reasons is None))
            &&& reply_success(m@) && reasons_malformed(m@) ==> r is Err
            &&& reply_success(m@) && !reasons_malformed(m@) ==> (r matches Ok(o) && (o.success
                && o.score == reply_score(m@) && outcome_reasons(o) == reply_reasons(m@)))
        },
{
    match status {
        Some(s) => if s < 200 || s >= 300 {
            return Err(VerificationError::TransportOrParse);
        },
        None => return Err(VerificationError::TransportOrParse),
    }
    let members = match parse_members(body) {
        Some(m) => m,
        None => return Err(VerificationError::TransportOrParse),
    };
    let success = match find_member(&members, "success") {
        Some(i) => match &members[i].1 {
            JsonItem::Bool(b) => *b,
            _ => false,
        },
        None => false,
    };
    if !success {
        return Ok(VerificationOutcome { success: false, score: None, score_reasons: None });
    }
    let score = match find_member(&members, "score") {
        Some(i) => match &members[i].1 {
            JsonItem::Number(n) => *n,
            _ => None,
        },
        None => None,
    };
    let score_reasons = match find_member(&members, "score_reason") {
        Some(i) => match &members[i].1 {
            JsonItem::List(items) => match reason_list(items) {
                Some(v) => Some(v),
                None => return Err(VerificationError::TransportOrParse),
            },
            _ => None,
        },
        None => None,
    };
    Ok(VerificationOutcome { success: true, score, score_reasons })
}

/// The strings of a list whose elements are all strings.
fn reason_list(items: &Vec<Option<String>>) -> (r: Option<Vec<String>>)
    ensures
        r is None <==> exists|i: int| 0 <= i < items@.len() && items@[i] is None,
        r matches Some(v) ==> text_views(v@) == items@.map_values(|x: Option<String>| x->Some_0@),
{
    let mut out: Vec<String> = Vec::new();
    let mut i: usize = 0;
    while i < items.len()
        invariant
            i <= items@.len(),
            forall|j: int| 0 <= j < i ==> items@[j] is Some,
            text_views(out@) == items@.take(i as int).map_values(|x: Option<String>| x->Some_0@),
        decreases items.len() - i,
    {
        match &items[i] {
            Some(s) => {
                out.push(s.clone());
                assert(items@.take(i + 1).map_values(|x: Option<String>| x->Some_0@) =~= items@.take(
                    i as int,
                ).map_values(|x: Option<String>| x->Some_0@).push(s@));
                assert(text_views(out@) =~= items@.take(i as int).map_values(
                    |x: Option<String>| x->Some_0@,
                ).push(s@));
            },
            None => return None,
        }
        i = i + 1;
    }
    assert(items@.take(i as int) =~= items@);
    Some(out)
}

/// Joins the reasons for the header, each followed by a single space.
pub fn join_reasons(reasons: &Vec<String>) -> (r: String)
    ensures
        r@ == reasons_text(text_views(reasons@)),
{
    let mut r = String::new();
    let mut i: usize = 0;
    while i < reasons.len()
        invariant
            i <= reasons@.len(),
            r@ == reasons_text(text_views(reasons@).take(i as int)),
        decreases reasons.len() - i,
    {
        let ghost before = r@;
        proof {
            assert(text_views(reasons@).take(i + 1).drop_last() =~= text_views(reasons@).take(
                i as int,
            ));
            assert(text_views(reasons@).take(i + 1).last() == reasons@[i as int]@);
            reveal_strlit(" ");
        }
        r.append(reasons[i].as_str());
        r.append(" ");
        assert(r@ =~= before + reasons@[i as int]@ + seq![' ']);
        i = i + 1;
    }
    assert(text_views(reasons@).take(i as int) =~= text_views(reasons@));
    r
}

/// The header edits for a verification outcome; none where it failed.
pub fn augment_edits(outcome: &VerificationOutcome, conf: &Configuration) -> (r: Vec<HeaderEdit>)
    ensures
        edit_views(r@) == outcome_edits(*conf, *outcome),
{
    let mut r: Vec<HeaderEdit> = Vec::new();
    if !outcome.success {
        assert(edit_views(r@) =~= Seq::empty());
        return r;
    }
    let ghost e0 = edit_views(r@);
    assert(e0 =~= Seq::empty());
    match outcome.score {
        Some(n) => r.push(HeaderEdit { name: SCORE_HEADER.to_owned(), value: Some(i64_text(n)) }),
        None => {},
    }
    let ghost e1 = edit_views(r@);
    assert(e1 =~= match outcome.score {
        Some(n) => e0.push((SCORE_HEADER@, Some(decimal_text(n as int)))),
        None => e0,
    });
    match &outcome.score_reasons {
        Some(v) => r.push(
            HeaderEdit { name: SCORE_REASON_HEADER.to_owned(), value: Some(join_reasons(v)) },
        ),
        None => {},
    }
    let ghost e2 = edit_views(r@);
    assert(e2 =~= match outcome.score_reasons {
        Some(v) => e1.push((SCORE_REASON_HEADER@, Some(reasons_text(text_views(v@))))),
        None => e1,
    });
    match &conf.shared_secret {
        Some(s) => r.push(HeaderEdit { name: EDGE_SECRET_HEADER.to_owned(), value: Some(s.clone()) }),
        None => {},
    }
    let ghost e3 = edit_views(r@);
    assert(e3 =~= match conf.shared_secret {
        Some(s) => e2.push((EDGE_SECRET_HEADER@, Some(s@))),
        None => e2,
    });
    if conf.keep_hcaptcha_response_header == 0 {
        r.push(HeaderEdit { name: TOKEN_HEADER.to_owned(), value: None });
    }
    assert(edit_views(r@) =~= outcome_edits(*conf, *outcome));
    r
}

} // verus!
