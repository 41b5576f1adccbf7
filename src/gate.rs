//! The request gate: from configuration, request and the results of outside
//! work to the next thing to do.
//!
//! The host calls `begin` for each request. Where it answers `ReadBody`, the
//! host reads at most that many bytes of the body and calls `after_body`; where
//! an answer is `Verify`, the host posts the form to the verification service
//! and calls `after_reply`. `Forward` sends the request to the origin after the
//! header edits, `Reject` answers with the status alone.
use vstd::prelude::*;
use crate::config::{ConfigError, Configuration, RawConfig, config_loaded, config_missing};
use crate::json::json_members;
use crate::pattern::{first_match, first_match_of, glob_matches, lemma_first_match, pattern_texts};
use crate::verification::{
    HeaderEdit, augment_edits, body_token, check_body_length, edit_views, form_text,
    read_verification, reasons_malformed, reply_reasons, reply_score, reply_success, status_ok,
    success_edits, token_from_body, token_from_header, verification_form,
};

verus! {

/// The status of a rejected verification.
pub const UNAUTHORIZED: u16 = 401;

/// The status of a request met with an invalid configuration.
pub const INTERNAL_ERROR: u16 = 500;

/// The facts of an inbound request that are known when it arrives.
pub struct RequestInfo {
    pub method: String,
    pub path: String,
    /// The value of the token header, where the request has one.
    pub token_header: Option<String>,
    /// The declared body length, where the request declares one.
    pub content_length: Option<usize>,
    /// The client's address in text form, where it is known.
    pub client_ip: Option<String>,
}

/// The next thing the host does for a request.
pub enum Step {
    /// Send the request to the origin after these header edits, and answer with its response.
    Forward(Vec<HeaderEdit>),
    /// Answer with this status and an empty body; nothing is sent anywhere.
    Reject(u16),
    /// Read at most this many bytes of the body, then call `after_body`.
    ReadBody(usize),
    /// Post this form to the verification service, then call `after_reply`.
    Verify(String),
}

pub enum StepView {
    Forward(Seq<(Seq<char>, Option<Seq<char>>)>),
    Reject(u16),
    ReadBody(usize),
    Verify(Seq<char>),
}

impl View for Step {
    type V = StepView;

    open spec fn view(&self) -> StepView {
        match self {
            Step::Forward(e) => StepView::Forward(edit_views(e@)),
            Step::Reject(s) => StepView::Reject(*s),
            Step::ReadBody(n) => StepView::ReadBody(*n),
            Step::Verify(f) => StepView::Verify(f@),
        }
    }
}

/// Forward with no header edit: the request passes through unchanged.
pub open spec fn pass_through() -> StepView {
    StepView::Forward(Seq::empty())
}

/// Whether the request falls under protection: its method is the configured
/// one and some protected pattern matches its path.
pub open spec fn is_protected(conf: Configuration, req: RequestInfo) -> bool {
    req.method@ == conf.method@ && first_match_of(pattern_texts(conf.protected_paths@), req.path@) is Some
}

/// The step once a token is in hand: verify, where the client's address is known.
pub open spec fn verify_step(conf: Configuration, req: RequestInfo, token: Seq<char>) -> StepView {
    match req.client_ip {
        Some(ip) => StepView::Verify(form_text(token, conf.secret_key@, conf.sitekey@, ip@)),
        None => StepView::Reject(UNAUTHORIZED),
    }
}

/// The first step for a request.
pub open spec fn begin_step(conf: Result<Configuration, ConfigError>, req: RequestInfo) -> StepView {
    match conf {
        Err(_) => StepView::Reject(INTERNAL_ERROR),
        Ok(c) => if !is_protected(c, req) {
            pass_through()
        } else {
            match c.use_post_body_field {
                Some(_) => match req.content_length {
                    Some(n) => if n < c.max_post_size {
                        StepView::ReadBody(c.max_post_size)
                    } else {
                        StepView::Reject(UNAUTHORIZED)
                    },
                    None => StepView::Reject(UNAUTHORIZED),
                },
                None => match req.token_header {
                    Some(t) => verify_step(c, req, t@),
                    None => StepView::Reject(UNAUTHORIZED),
                },
            }
        },
    }
}

/// The step after the body was read, when the token comes from a body field.
pub open spec fn body_step(conf: Configuration, req: RequestInfo, body: Seq<u8>) -> StepView {
    match body_token(body, conf.use_post_body_field->Some_0@) {
        Ok(t) => verify_step(conf, req, t@),
        Err(_) => StepView::Reject(UNAUTHORIZED),
    }
}

/// The step after the verification service replied.
pub open spec fn reply_step(conf: Configuration, status: Option<u16>, body: Seq<u8>) -> StepView {
    match json_members(body) {
        Some(m) => if status_ok(status) && reply_success(m@) && !reasons_malformed(m@) {
            StepView::Forward(success_edits(conf, reply_score(m@), reply_reasons(m@)))
        } else {
            StepView::Reject(UNAUTHORIZED)
        },
        None => StepView::Reject(UNAUTHORIZED),
    }
}

/// Decides the first step for a request.
pub fn begin(conf: &Result<Configuration, ConfigError>, req: &RequestInfo) -> (r: Step)
    ensures
        r@ == begin_step(*conf, *req),
{
    let c = match conf {
        Ok(c) => c,
        Err(_) => return Step::Reject(INTERNAL_ERROR),
    };
    if c.method != req.method {
        return pass();
    }
    if first_match(&c.protected_paths, req.path.as_str()).is_none() {
        return pass();
    }
    match &c.use_post_body_field {
        Some(_) => match check_body_length(req.content_length, c.max_post_size) {
            Ok(()) => Step::ReadBody(c.max_post_size),
            Err(_) => Step::Reject(UNAUTHORIZED),
        },
        None => match token_from_header(&req.token_header) {
            Ok(t) => verify(c, req, t.as_str()),
            Err(_) => Step::Reject(UNAUTHORIZED),
        },
    }
}

fn pass() -> (r: Step)
    ensures
        r@ == pass_through(),
{
    let edits: Vec<HeaderEdit> = Vec::new();
    assert(edit_views(edits@) =~= Seq::empty());
    Step::Forward(edits)
}

fn verify(conf: &Configuration, req: &RequestInfo, token: &str) -> (r: Step)
    ensures
        r@ == verify_step(*conf, *req, token@),
{
    match &req.client_ip {
        Some(ip) => Step::Verify(verification_form(token, conf, ip.as_str())),
        None => Step::Reject(UNAUTHORIZED),
    }
}

/// Decides the step after the body was read.
pub fn after_body(conf: &Configuration, req: &RequestInfo, body: &[u8]) -> (r: Step)
    requires
        conf.use_post_body_field is Some,
    ensures
        r@ == body_step(*conf, *req, body@),
{
    let field = match &conf.use_post_body_field {
        Some(f) => f,
        None => return Step::Reject(UNAUTHORIZED),
    };
    match token_from_body(body, field.as_str()) {
        Ok(t) => verify(conf, req, t.as_str()),
        Err(_) => Step::Reject(UNAUTHORIZED),
    }
}

/// Decides the step after the verification service replied with `status`
/// (`None` when the call failed) and `body`.
pub fn after_reply(conf: &Configuration, status: Option<u16>, body: &[u8]) -> (r: Step)
    ensures
        r@ == reply_step(*conf, status, body@),
{
    match read_verification(status, body) {
        Ok(o) => if o.success {
            Step::Forward(augment_edits(&o, conf))
        } else {
            Step::Reject(UNAUTHORIZED)
        },
        Err(_) => Step::Reject(UNAUTHORIZED),
    }
}

/// A request whose method is not the configured one passes through
/// unchanged, and nothing is verified.
pub proof fn lemma_other_method_passes(conf: Configuration, req: RequestInfo)
    requires
        req.method@ != conf.method@,
    ensures
        begin_step(Ok(conf), req) == pass_through(),
{
}

/// A request whose path no protected pattern matches passes through
/// unchanged, and nothing is verified.
pub proof fn lemma_unprotected_path_passes(conf: Configuration, req: RequestInfo)
    requires
        forall|j: int|
            0 <= j < conf.protected_paths@.len() ==> !glob_matches(
                #[trigger] pattern_texts(conf.protected_paths@)[j],
                req.path@,
            ),
    ensures
        begin_step(Ok(conf), req) == pass_through(),
{
    lemma_first_match(pattern_texts(conf.protected_paths@), req.path@);
}

/// A configuration without `sitekey`, without `secret_key` or without a usable
/// protected path fails closed: every request is answered 500, and neither the
/// origin nor the verification service is contacted.
pub proof fn lemma_missing_config_fails_closed(
    raw: RawConfig,
    conf: Result<Configuration, ConfigError>,
    req: RequestInfo,
)
    requires
        config_missing(raw),
        config_loaded(raw, conf),
    ensures
        begin_step(conf, req) == StepView::Reject(INTERNAL_ERROR),
{
}

/// A reply whose `success` member is not `true` is a rejection: the answer is
/// 401 and nothing is forwarded, so no header is added.
pub proof fn lemma_refused_verdict_rejects(conf: Configuration, status: Option<u16>, body: Seq<u8>)
    requires
        json_members(body) matches Some(m) && !reply_success(m@),
    ensures
        reply_step(conf, status, body) == StepView::Reject(UNAUTHORIZED),
{
}

/// With the token read from the header, a protected request without that
/// header is answered 401 before any call to the verification service.
pub proof fn lemma_missing_token_rejects(conf: Configuration, req: RequestInfo)
    requires
        is_protected(conf, req),
        conf.use_post_body_field is None,
        req.token_header is None,
    ensures
        begin_step(Ok(conf), req) == StepView::Reject(UNAUTHORIZED),
{
}

/// With the token read from the body, a protected request that declares a body
/// length of at least the limit is answered 401, and its body is never read.
pub proof fn lemma_oversized_body_rejects(conf: Configuration, req: RequestInfo)
    requires
        is_protected(conf, req),
        conf.use_post_body_field is Some,
        req.content_length matches Some(n) && n >= conf.max_post_size,
    ensures
        begin_step(Ok(conf), req) == StepView::Reject(UNAUTHORIZED),
{
}

} // verus!
