//! The lifecycle of a single 3DS transaction as seen by the 3DS Server.

use crate::error::{Error, ErrorView, Result};
use crate::message::creq;
use crate::message::{
    AuthenticationRequest, AuthenticationResponse, ChallengeRequest, ChallengeResponse,
    ErrorMessage, ResultsRequest,
};
use crate::text::opt_view;
use crate::types::{ChallengeWindowSize, Eci, MessageVersion, TransStatus, TransStatusReason};
use vstd::prelude::*;

verus! {

/// The lifecycle of a single 3DS transaction as seen by the 3DS Server.
///
/// Transitions are driven by sending an AReq and receiving subsequent messages.
/// Terminal states are `Authenticated`, `NotAuthenticated`, and `Failed`.
///
/// ```text
///  Created
///    │  areq_sent()
///    ▼
///  AwaitingARes
///    │  receive_ares()
///    ├─(Y/A)──────────────────────► Authenticated
///    ├─(N/U/I/R)──────────────────► NotAuthenticated
///    ├─(C)
///    │    │
///    │    ▼
///    │  AwaitingCRes
///    │    │  receive_cres()
///    │    ├─(Y/A)────────────────► Authenticated
///    │    └─(otherwise)──────────► NotAuthenticated
///    └─(D)
///         │
///         ▼
///       AwaitingRReq
///         │  receive_rreq()
///         ├─(Y/A)──────────────────► Authenticated
///         └─(otherwise)────────────► NotAuthenticated
///
///  Any state + receive_error() ──► Failed
/// ```
#[derive(Debug, Clone)]
pub enum TransactionState {
    /// AReq has been constructed and is ready to send.
    Created { areq: Box<AuthenticationRequest> },
    /// AReq sent; waiting for the ARes from the DS.
    AwaitingARes { three_ds_server_trans_id: String },
    /// ARes received with transStatus=C; challenge must be presented.
    AwaitingCRes {
        three_ds_server_trans_id: String,
        acs_trans_id: String,
        /// ACS URL to redirect/embed (browser channel), or None for app/decoupled.
        acs_url: Option<String>,
    },
    /// ARes received with transStatus=D; waiting for the ACS to send an RReq
    /// after completing decoupled out-of-band authentication.
    AwaitingRReq { three_ds_server_trans_id: String, acs_trans_id: String },
    /// Authentication completed successfully (frictionless Y/A or challenge Y).
    Authenticated {
        three_ds_server_trans_id: String,
        acs_trans_id: String,
        ds_trans_id: Option<String>,
        eci: Option<Eci>,
        /// CAVV / AAV value to include in the authorization request.
        authentication_value: Option<String>,
    },
    /// Authentication was rejected or failed (N, U, R, or challenge N).
    NotAuthenticated {
        three_ds_server_trans_id: String,
        trans_status: TransStatus,
        reason_code: Option<String>,
    },
    /// A protocol error was received; the transaction cannot continue.
    Failed { error: String },
}

/// The mathematical value of a [`TransactionState`]: its texts as character sequences.
pub enum TransactionStateView {
    Created { areq: AuthenticationRequest },
    AwaitingARes { three_ds_server_trans_id: Seq<char> },
    AwaitingCRes {
        three_ds_server_trans_id: Seq<char>,
        acs_trans_id: Seq<char>,
        acs_url: Option<Seq<char>>,
    },
    AwaitingRReq { three_ds_server_trans_id: Seq<char>, acs_trans_id: Seq<char> },
    Authenticated {
        three_ds_server_trans_id: Seq<char>,
        acs_trans_id: Seq<char>,
        ds_trans_id: Option<Seq<char>>,
        eci: Option<Eci>,
        authentication_value: Option<Seq<char>>,
    },
    NotAuthenticated {
        three_ds_server_trans_id: Seq<char>,
        trans_status: TransStatus,
        reason_code: Option<Seq<char>>,
    },
    Failed { error: Seq<char> },
}

impl View for TransactionState {
    type V = TransactionStateView;

    open spec fn view(&self) -> TransactionStateView {
        match self {
            TransactionState::Created { areq } => TransactionStateView::Created { areq: **areq },
            TransactionState::AwaitingARes { three_ds_server_trans_id } =>
                TransactionStateView::AwaitingARes {
                    three_ds_server_trans_id: three_ds_server_trans_id@,
                },
            TransactionState::AwaitingCRes { three_ds_server_trans_id, acs_trans_id, acs_url } =>
                TransactionStateView::AwaitingCRes {
                    three_ds_server_trans_id: three_ds_server_trans_id@,
                    acs_trans_id: acs_trans_id@,
                    acs_url: opt_view(*acs_url),
                },
            TransactionState::AwaitingRReq { three_ds_server_trans_id, acs_trans_id } =>
                TransactionStateView::AwaitingRReq {
                    three_ds_server_trans_id: three_ds_server_trans_id@,
                    acs_trans_id: acs_trans_id@,
                },
            TransactionState::Authenticated {
                three_ds_server_trans_id,
                acs_trans_id,
                ds_trans_id,
                eci,
                authentication_value,
            } => TransactionStateView::Authenticated {
                three_ds_server_trans_id: three_ds_server_trans_id@,
                acs_trans_id: acs_trans_id@,
                ds_trans_id: opt_view(*ds_trans_id),
                eci: *eci,
                authentication_value: opt_view(*authentication_value),
            },
            TransactionState::NotAuthenticated {
                three_ds_server_trans_id,
                trans_status,
                reason_code,
            } => TransactionStateView::NotAuthenticated {
                three_ds_server_trans_id: three_ds_server_trans_id@,
                trans_status: *trans_status,
                reason_code: opt_view(*reason_code),
            },
            TransactionState::Failed { error } => TransactionStateView::Failed { error: error@ },
        }
    }
}

impl TransactionStateView {
    /// The name of the state, as errors report it.
    pub open spec fn name(self) -> Seq<char> {
        match self {
            TransactionStateView::Created { .. } => "Created"@,
            TransactionStateView::AwaitingARes { .. } => "AwaitingARes"@,
            TransactionStateView::AwaitingCRes { .. } => "AwaitingCRes"@,
            TransactionStateView::AwaitingRReq { .. } => "AwaitingRReq"@,
            TransactionStateView::Authenticated { .. } => "Authenticated"@,
            TransactionStateView::NotAuthenticated { .. } => "NotAuthenticated"@,
            TransactionStateView::Failed { .. } => "Failed"@,
        }
    }

    /// The terminal states: `Authenticated`, `NotAuthenticated` and `Failed`.
    pub open spec fn is_terminal(self) -> bool {
        ||| self is Authenticated
        ||| self is NotAuthenticated
        ||| self is Failed
    }

    /// The 3DS Server transaction ID that the state carries (that of the AReq
    /// before it is sent); `Failed` carries none.
    pub open spec fn trans_id(self) -> Option<Seq<char>> {
        match self {
            TransactionStateView::Created { areq } => Some(areq.three_ds_server_trans_id@),
            TransactionStateView::AwaitingARes { three_ds_server_trans_id } => Some(
                three_ds_server_trans_id,
            ),
            TransactionStateView::AwaitingCRes { three_ds_server_trans_id, .. } => Some(
                three_ds_server_trans_id,
            ),
            TransactionStateView::AwaitingRReq { three_ds_server_trans_id, .. } => Some(
                three_ds_server_trans_id,
            ),
            TransactionStateView::Authenticated { three_ds_server_trans_id, .. } => Some(
                three_ds_server_trans_id,
            ),
            TransactionStateView::NotAuthenticated { three_ds_server_trans_id, .. } => Some(
                three_ds_server_trans_id,
            ),
            TransactionStateView::Failed { .. } => None,
        }
    }

    /// The stage of the lifecycle: 0 before the AReq is sent, 1 while the ARes
    /// is awaited, 2 while a CRes or RReq is awaited, 3 once terminal.
    pub open spec fn stage(self) -> nat {
        match self {
            TransactionStateView::Created { .. } => 0,
            TransactionStateView::AwaitingARes { .. } => 1,
            TransactionStateView::AwaitingCRes { .. } => 2,
            TransactionStateView::AwaitingRReq { .. } => 2,
            _ => 3,
        }
    }
}

/// The error of a step that the current state does not allow.
pub open spec fn invalid_transition(from: Seq<char>, to: Seq<char>) -> ErrorView {
    ErrorView::InvalidTransition { from, to }
}

/// The error of a response whose transaction ID is not that of the AReq.
pub open spec fn trans_id_mismatch(reason: Seq<char>) -> ErrorView {
    ErrorView::InvalidField { field: "threeDSServerTransID"@, reason }
}

/// The reason code that a `NotAuthenticated` state records: the name of the
/// reason, as `Debug` writes it.
pub open spec fn reason_code_of(r: Option<TransStatusReason>) -> Option<Seq<char>> {
    match r {
        Some(reason) => Some(reason.spec_debug_name()),
        None => None,
    }
}

/// The mathematical value of the result of a transition.
pub open spec fn state_result_view(r: Result<TransactionState>) -> std::result::Result<
    TransactionStateView,
    ErrorView,
> {
    match r {
        Ok(s) => Ok(s@),
        Err(e) => Err(e@),
    }
}

/// `areq_sent`: `Created` hands out its AReq and awaits the ARes.
pub open spec fn spec_areq_sent(s: TransactionStateView) -> std::result::Result<
    (TransactionStateView, AuthenticationRequest),
    ErrorView,
> {
    match s {
        TransactionStateView::Created { areq } => Ok(
            (
                TransactionStateView::AwaitingARes {
                    three_ds_server_trans_id: areq.three_ds_server_trans_id@,
                },
                areq,
            ),
        ),
        _ => Err(invalid_transition(s.name(), "AwaitingARes"@)),
    }
}

/// `receive_ares`: the ARes of this transaction decides by its `transStatus`.
pub open spec fn spec_receive_ares(
    s: TransactionStateView,
    ares: AuthenticationResponse,
) -> std::result::Result<TransactionStateView, ErrorView> {
    match s {
        TransactionStateView::AwaitingARes { three_ds_server_trans_id: id } => {
            if ares.three_ds_server_trans_id@ != id {
                Err(trans_id_mismatch("ARes trans ID does not match AReq"@))
            } else if ares.trans_status.spec_is_authenticated() {
                Ok(
                    TransactionStateView::Authenticated {
                        three_ds_server_trans_id: id,
                        acs_trans_id: ares.acs_trans_id@,
                        ds_trans_id: Some(ares.ds_trans_id@),
                        eci: ares.eci,
                        authentication_value: opt_view(ares.authentication_value),
                    },
                )
            } else if ares.trans_status is ChallengeRequired {
                Ok(
                    TransactionStateView::AwaitingCRes {
                        three_ds_server_trans_id: id,
                        acs_trans_id: ares.acs_trans_id@,
                        acs_url: opt_view(ares.acs_url),
                    },
                )
            } else if ares.trans_status is DecoupledRequired {
                Ok(
                    TransactionStateView::AwaitingRReq {
                        three_ds_server_trans_id: id,
                        acs_trans_id: ares.acs_trans_id@,
                    },
                )
            } else {
                Ok(
                    TransactionStateView::NotAuthenticated {
                        three_ds_server_trans_id: id,
                        trans_status: ares.trans_status,
                        reason_code: reason_code_of(ares.trans_status_reason),
                    },
                )
            }
        },
        _ => Err(invalid_transition(s.name(), "post-ARes"@)),
    }
}

/// `receive_cres`: the challenge outcome ends the transaction.
pub open spec fn spec_receive_cres(
    s: TransactionStateView,
    cres: ChallengeResponse,
) -> std::result::Result<TransactionStateView, ErrorView> {
    match s {
        TransactionStateView::AwaitingCRes { three_ds_server_trans_id, acs_trans_id, .. } => {
            if cres.trans_status.spec_is_authenticated() {
                Ok(
                    TransactionStateView::Authenticated {
                        three_ds_server_trans_id,
                        acs_trans_id,
                        ds_trans_id: None,
                        eci: None,
                        authentication_value: None,
                    },
                )
            } else {
                Ok(
                    TransactionStateView::NotAuthenticated {
                        three_ds_server_trans_id,
                        trans_status: cres.trans_status,
                        reason_code: None,
                    },
                )
            }
        },
        _ => Err(invalid_transition(s.name(), "post-CRes"@)),
    }
}

/// `receive_rreq`: the decoupled outcome of this transaction ends it.
pub open spec fn spec_receive_rreq(
    s: TransactionStateView,
    rreq: ResultsRequest,
) -> std::result::Result<TransactionStateView, ErrorView> {
    match s {
        TransactionStateView::AwaitingRReq { three_ds_server_trans_id: id, acs_trans_id } => {
            if rreq.three_ds_server_trans_id@ != id {
                Err(trans_id_mismatch("RReq trans ID does not match AReq"@))
            } else if rreq.trans_status.spec_is_authenticated() {
                Ok(
                    TransactionStateView::Authenticated {
                        three_ds_server_trans_id: id,
                        acs_trans_id,
                        ds_trans_id: opt_view(rreq.ds_trans_id),
                        eci: rreq.eci,
                        authentication_value: opt_view(rreq.authentication_value),
                    },
                )
            } else {
                Ok(
                    TransactionStateView::NotAuthenticated {
                        three_ds_server_trans_id: id,
                        trans_status: rreq.trans_status,
                        reason_code: reason_code_of(rreq.trans_status_reason),
                    },
                )
            }
        },
        _ => Err(invalid_transition(s.name(), "post-RReq"@)),
    }
}

/// `receive_error`: a protocol error fails the transaction, whatever its state,
/// with the text `[code] description: detail`.
pub open spec fn spec_receive_error(err: ErrorMessage) -> TransactionStateView {
    TransactionStateView::Failed {
        error: "["@ + err.error_code@ + "] "@ + err.error_description@ + ": "@
            + err.error_detail@,
    }
}

/// The CReq that `build_creq` writes for the challenge of transaction `id` at the ACS
/// transaction `acs_trans_id`.
pub open spec fn is_creq_for(
    c: ChallengeRequest,
    id: Seq<char>,
    acs_trans_id: Seq<char>,
    window_size: Option<ChallengeWindowSize>,
) -> bool {
    &&& c.message_type == creq::MessageType::CReq
    &&& c.message_version == MessageVersion::V220
    &&& c.three_ds_server_trans_id@ == id
    &&& c.acs_trans_id@ == acs_trans_id
    &&& c.challenge_data_entry is None
    &&& c.challenge_window_size == window_size
    &&& c.challenge_completion_ind is None
    &&& c.sdk_trans_id is None
    &&& c.resend_challenge is None
    &&& c.whitelist_status_source is None
}

impl TransactionState {
    /// Create a new transaction from a constructed AReq.
    pub fn new(areq: AuthenticationRequest) -> (r: Self)
        ensures
            r@ == (TransactionStateView::Created { areq }),
    {
        TransactionState::Created { areq: Box::new(areq) }
    }

    /// Mark the AReq as sent and transition to awaiting the ARes.
    pub fn areq_sent(self) -> (r: Result<(Self, AuthenticationRequest)>)
        ensures
            match r {
                Ok((next, areq)) => spec_areq_sent(self@) == Ok::<_, ErrorView>((next@, areq)),
                Err(e) => spec_areq_sent(self@) == Err::<(TransactionStateView, AuthenticationRequest), _>(e@),
            },
    {
        match self {
            TransactionState::Created { areq } => {
                let id = areq.three_ds_server_trans_id.clone();
                let next = TransactionState::AwaitingARes { three_ds_server_trans_id: id };
                Ok((next, *areq))
            },
            other => Err(
                Error::InvalidTransition {
                    from: other.name().to_owned(),
                    to: "AwaitingARes".to_owned(),
                },
            ),
        }
    }

    /// Process an incoming ARes and advance the state.
    pub fn receive_ares(self, ares: AuthenticationResponse) -> (r: Result<Self>)
        ensures
            state_result_view(r) == spec_receive_ares(self@, ares),
    {
        match self {
            TransactionState::AwaitingARes { three_ds_server_trans_id } => {
                if !(ares.three_ds_server_trans_id == three_ds_server_trans_id) {
                    return Err(
                        Error::InvalidField {
                            field: "threeDSServerTransID",
                            reason: "ARes trans ID does not match AReq".to_owned(),
                        },
                    );
                }
                let next = match ares.trans_status {
                    TransStatus::Success | TransStatus::Attempted => TransactionState::Authenticated {
                        three_ds_server_trans_id,
                        acs_trans_id: ares.acs_trans_id,
                        ds_trans_id: Some(ares.ds_trans_id),
                        eci: ares.eci,
                        authentication_value: ares.authentication_value,
                    },
                    TransStatus::ChallengeRequired => TransactionState::AwaitingCRes {
                        three_ds_server_trans_id,
                        acs_trans_id: ares.acs_trans_id,
                        acs_url: ares.acs_url,
                    },
                    TransStatus::DecoupledRequired => TransactionState::AwaitingRReq {
                        three_ds_server_trans_id,
                        acs_trans_id: ares.acs_trans_id,
                    },
                    status => TransactionState::NotAuthenticated {
                        three_ds_server_trans_id,
                        trans_status: status,
                        reason_code: reason_code(ares.trans_status_reason),
                    },
                };
                Ok(next)
            },
            other => Err(
                Error::InvalidTransition {
                    from: other.name().to_owned(),
                    to: "post-ARes".to_owned(),
                },
            ),
        }
    }

    /// Build the CReq that should be submitted to the ACS challenge URL.
    pub fn build_creq(&self, window_size: Option<ChallengeWindowSize>) -> (r: Result<ChallengeRequest>)
        ensures
            match self@ {
                TransactionStateView::AwaitingCRes { three_ds_server_trans_id, acs_trans_id, .. } =>
                    r matches Ok(c) && is_creq_for(c, three_ds_server_trans_id, acs_trans_id, window_size),
                _ => r matches Err(e) && e@ == invalid_transition(self@.name(), "CReq"@),
            },
    {
        match self {
            TransactionState::AwaitingCRes { three_ds_server_trans_id, acs_trans_id, .. } => {
                Ok(
                    ChallengeRequest {
                        message_type: creq::MessageType::CReq,
                        message_version: MessageVersion::V220,
                        three_ds_server_trans_id: three_ds_server_trans_id.clone(),
                        acs_trans_id: acs_trans_id.clone(),
                        challenge_data_entry: None,
                        challenge_window_size: window_size,
                        challenge_completion_ind: None,
                        sdk_trans_id: None,
                        resend_challenge: None,
                        whitelist_status_source: None,
                    },
                )
            },
            _ => Err(
                Error::InvalidTransition { from: self.name().to_owned(), to: "CReq".to_owned() },
            ),
        }
    }

    /// Process an incoming CRes and advance to a terminal state.
    pub fn receive_cres(self, cres: ChallengeResponse) -> (r: Result<Self>)
        ensures
            state_result_view(r) == spec_receive_cres(self@, cres),
    {
        match self {
            TransactionState::AwaitingCRes { three_ds_server_trans_id, acs_trans_id, .. } => {
                let next = if cres.trans_status.is_authenticated() {
                    TransactionState::Authenticated {
                        three_ds_server_trans_id,
                        acs_trans_id,
                        ds_trans_id: None,
                        eci: None,
                        authentication_value: None,
                    }
                } else {
                    TransactionState::NotAuthenticated {
                        three_ds_server_trans_id,
                        trans_status: cres.trans_status,
                        reason_code: None,
                    }
                };
                Ok(next)
            },
            other => Err(
                Error::InvalidTransition {
                    from: other.name().to_owned(),
                    to: "post-CRes".to_owned(),
                },
            ),
        }
    }

    /// Process an incoming RReq and advance to a terminal state.
    /// The caller must send `ResultsResponse::acknowledge(&rreq)` to the ACS.
    pub fn receive_rreq(self, rreq: ResultsRequest) -> (r: Result<Self>)
        ensures
            state_result_view(r) == spec_receive_rreq(self@, rreq),
    {
        match self {
            TransactionState::AwaitingRReq { three_ds_server_trans_id, acs_trans_id } => {
                if !(rreq.three_ds_server_trans_id == three_ds_server_trans_id) {
                    return Err(
                        Error::InvalidField {
                            field: "threeDSServerTransID",
                            reason: "RReq trans ID does not match AReq".to_owned(),
                        },
                    );
                }
                let next = if rreq.trans_status.is_authenticated() {
                    TransactionState::Authenticated {
                        three_ds_server_trans_id,
                        acs_trans_id,
                        ds_trans_id: rreq.ds_trans_id,
                        eci: rreq.eci,
                        authentication_value: rreq.authentication_value,
                    }
                } else {
                    TransactionState::NotAuthenticated {
                        three_ds_server_trans_id,
                        trans_status: rreq.trans_status,
                        reason_code: reason_code(rreq.trans_status_reason),
                    }
                };
                Ok(next)
            },
            other => Err(
                Error::InvalidTransition {
                    from: other.name().to_owned(),
                    to: "post-RReq".to_owned(),
                },
            ),
        }
    }

    /// Handle a protocol error; always transitions to `Failed`.
    pub fn receive_error(self, err: &ErrorMessage) -> (r: Self)
        ensures
            r@ == spec_receive_error(*err),
    {
        let mut error = "[".to_owned();
        error.append(err.error_code.as_str());
        error.append("] ");
        error.append(err.error_description.as_str());
        error.append(": ");
        error.append(err.error_detail.as_str());
        TransactionState::Failed { error }
    }

    /// Returns true if the transaction reached a terminal state.
    pub fn is_terminal(&self) -> (r: bool)
        ensures
            r == self@.is_terminal(),
    {
        match self {
            TransactionState::Authenticated { .. }
            | TransactionState::NotAuthenticated { .. }
            | TransactionState::Failed { .. } => true,
            _ => false,
        }
    }

    /// The name of the state, as errors report it.
    fn name(&self) -> (r: &'static str)
        ensures
            r@ == self@.name(),
    {
        match self {
            TransactionState::Created { .. } => "Created",
            TransactionState::AwaitingARes { .. } => "AwaitingARes",
            TransactionState::AwaitingCRes { .. } => "AwaitingCRes",
            TransactionState::AwaitingRReq { .. } => "AwaitingRReq",
            TransactionState::Authenticated { .. } => "Authenticated",
            TransactionState::NotAuthenticated { .. } => "NotAuthenticated",
            TransactionState::Failed { .. } => "Failed",
        }
    }
}

/// The reason code recorded for a non-authenticated outcome.
fn reason_code(reason: Option<TransStatusReason>) -> (r: Option<String>)
    ensures
        opt_view(r) == reason_code_of(reason),
{
    match reason {
        Some(reason) => Some(reason.debug_name().to_owned()),
        None => None,
    }
}

/// A terminal state takes no further step: sending the AReq and receiving an
/// ARes, a CRes or an RReq are all refused there, and a protocol error leads
/// to a terminal state from any state.
pub proof fn lemma_terminal_states_are_final(
    s: TransactionStateView,
    ares: AuthenticationResponse,
    cres: ChallengeResponse,
    rreq: ResultsRequest,
    err: ErrorMessage,
)
    ensures
        s.is_terminal() ==> spec_areq_sent(s) is Err,
        s.is_terminal() ==> spec_receive_ares(s, ares) is Err,
        s.is_terminal() ==> spec_receive_cres(s, cres) is Err,
        s.is_terminal() ==> spec_receive_rreq(s, rreq) is Err,
        spec_receive_error(err).is_terminal(),
{
}

/// Every step that succeeds moves the transaction to a later stage of its
/// lifecycle, so no state is ever entered twice and at most three steps succeed.
pub proof fn lemma_steps_advance_the_lifecycle(
    s: TransactionStateView,
    ares: AuthenticationResponse,
    cres: ChallengeResponse,
    rreq: ResultsRequest,
)
    ensures
        spec_areq_sent(s) matches Ok((t, _)) ==> t.stage() > s.stage(),
        spec_receive_ares(s, ares) matches Ok(t) ==> t.stage() > s.stage(),
        spec_receive_cres(s, cres) matches Ok(t) ==> t.stage() > s.stage(),
        spec_receive_rreq(s, rreq) matches Ok(t) ==> t.stage() > s.stage(),
{
}

/// The transaction keeps the 3DS Server transaction ID of its AReq through every
/// step that succeeds, and it accepts an ARes or an RReq only when that message
/// carries the same ID.
pub proof fn lemma_transaction_id_is_kept(
    s: TransactionStateView,
    ares: AuthenticationResponse,
    cres: ChallengeResponse,
    rreq: ResultsRequest,
)
    ensures
        spec_areq_sent(s) matches Ok((t, _)) ==> t.trans_id() == s.trans_id(),
        spec_receive_ares(s, ares) matches Ok(t) ==> t.trans_id() == s.trans_id()
            && s.trans_id() == Some(ares.three_ds_server_trans_id@),
        spec_receive_cres(s, cres) matches Ok(t) ==> t.trans_id() == s.trans_id(),
        spec_receive_rreq(s, rreq) matches Ok(t) ==> t.trans_id() == s.trans_id()
            && s.trans_id() == Some(rreq.three_ds_server_trans_id@),
{
}

/// The outcome follows the `transStatus`: an ARes that asks for a challenge
/// (`C` or `D`) leaves the transaction waiting, any other ends it; it ends
/// authenticated exactly when the status is `Y` or `A`. A CRes or an RReq
/// always ends it, authenticated exactly when its status is `Y` or `A`.
pub proof fn lemma_outcome_follows_trans_status(
    s: TransactionStateView,
    ares: AuthenticationResponse,
    cres: ChallengeResponse,
    rreq: ResultsRequest,
)
    ensures
        spec_receive_ares(s, ares) matches Ok(t) ==> {
            &&& t.is_terminal() <==> !ares.trans_status.spec_requires_challenge()
            &&& t is Authenticated <==> ares.trans_status.spec_is_authenticated()
        },
        spec_receive_cres(s, cres) matches Ok(t) ==> {
            &&& t.is_terminal()
            &&& t is Authenticated <==> cres.trans_status.spec_is_authenticated()
        },
        spec_receive_rreq(s, rreq) matches Ok(t) ==> {
            &&& t.is_terminal()
            &&& t is Authenticated <==> rreq.trans_status.spec_is_authenticated()
        },
{
}

/// Sending the AReq from `Created` hands back exactly the AReq that the
/// transaction was created with, and then awaits the ARes for that AReq's
/// transaction ID; from any other state it is refused with an
/// `InvalidTransition` that names the state.
pub proof fn lemma_areq_sent_hands_back_the_areq(s: TransactionStateView, areq: AuthenticationRequest)
    ensures
        spec_areq_sent(TransactionStateView::Created { areq }) == Ok::<_, ErrorView>(
            (
                TransactionStateView::AwaitingARes {
                    three_ds_server_trans_id: areq.three_ds_server_trans_id@,
                },
                areq,
            ),
        ),
        !(s is Created) ==> spec_areq_sent(s) == Err::<(TransactionStateView, AuthenticationRequest), _>(
            ErrorView::InvalidTransition { from: s.name(), to: "AwaitingARes"@ },
        ),
{
}

/// What an ARes does to the transaction awaiting it, field by field: with the
/// transaction's ID and status `Y` or `A` it ends authenticated, carrying the
/// ARes's ACS and DS transaction IDs, its ECI and its authentication value
/// alike for `Y` and `A`; `C` awaits a CRes at the ARes's ACS transaction and
/// ACS URL; `D` awaits an RReq at its ACS transaction; `N`, `U`, `I` and `R`
/// end it not authenticated with that status and the name of the reason. An
/// ARes with another transaction ID is refused, and so is an ARes in any other
/// state.
pub proof fn lemma_ares_outcome(s: TransactionStateView, id: Seq<char>, ares: AuthenticationResponse)
    ensures
        ({
            let r = spec_receive_ares(TransactionStateView::AwaitingARes { three_ds_server_trans_id: id }, ares);
            let acs = ares.acs_trans_id@;
            &&& ares.three_ds_server_trans_id@ != id ==> r == Err::<TransactionStateView, _>(
                ErrorView::InvalidField {
                    field: "threeDSServerTransID"@,
                    reason: "ARes trans ID does not match AReq"@,
                },
            )
            &&& ares.three_ds_server_trans_id@ == id && (ares.trans_status == TransStatus::Success
                || ares.trans_status == TransStatus::Attempted) ==> r == Ok::<_, ErrorView>(
                TransactionStateView::Authenticated {
                    three_ds_server_trans_id: id,
                    acs_trans_id: acs,
                    ds_trans_id: Some(ares.ds_trans_id@),
                    eci: ares.eci,
                    authentication_value: opt_view(ares.authentication_value),
                },
            )
            &&& ares.three_ds_server_trans_id@ == id && ares.trans_status
                == TransStatus::ChallengeRequired ==> r == Ok::<_, ErrorView>(
                TransactionStateView::AwaitingCRes {
                    three_ds_server_trans_id: id,
                    acs_trans_id: acs,
                    acs_url: opt_view(ares.acs_url),
                },
            )
            &&& ares.three_ds_server_trans_id@ == id && ares.trans_status
                == TransStatus::DecoupledRequired ==> r == Ok::<_, ErrorView>(
                TransactionStateView::AwaitingRReq { three_ds_server_trans_id: id, acs_trans_id: acs },
            )
            &&& ares.three_ds_server_trans_id@ == id && (ares.trans_status == TransStatus::Failure
                || ares.trans_status == TransStatus::Unable || ares.trans_status
                == TransStatus::InformationalOnly || ares.trans_status == TransStatus::Rejected)
                ==> r == Ok::<_, ErrorView>(
                TransactionStateView::NotAuthenticated {
                    three_ds_server_trans_id: id,
                    trans_status: ares.trans_status,
                    reason_code: match ares.trans_status_reason {
                        Some(reason) => Some(reason.spec_debug_name()),
                        None => None,
                    },
                },
            )
        }),
        !(s is AwaitingARes) ==> spec_receive_ares(s, ares) == Err::<TransactionStateView, _>(
            ErrorView::InvalidTransition { from: s.name(), to: "post-ARes"@ },
        ),
{
}

/// What a CRes does to the transaction awaiting it: with status `Y` or `A` it
/// ends authenticated at the state's ACS transaction, with no DS transaction ID,
/// ECI or authentication value; with any other status it ends not authenticated
/// with that status and no reason code. A CRes in any other state is refused.
pub proof fn lemma_cres_outcome(
    s: TransactionStateView,
    id: Seq<char>,
    acs: Seq<char>,
    url: Option<Seq<char>>,
    cres: ChallengeResponse,
)
    ensures
        ({
            let r = spec_receive_cres(
                TransactionStateView::AwaitingCRes {
                    three_ds_server_trans_id: id,
                    acs_trans_id: acs,
                    acs_url: url,
                },
                cres,
            );
            &&& (cres.trans_status == TransStatus::Success || cres.trans_status
                == TransStatus::Attempted) ==> r == Ok::<_, ErrorView>(
                TransactionStateView::Authenticated {
                    three_ds_server_trans_id: id,
                    acs_trans_id: acs,
                    ds_trans_id: None,
                    eci: None,
                    authentication_value: None,
                },
            )
            &&& !(cres.trans_status == TransStatus::Success || cres.trans_status
                == TransStatus::Attempted) ==> r == Ok::<_, ErrorView>(
                TransactionStateView::NotAuthenticated {
                    three_ds_server_trans_id: id,
                    trans_status: cres.trans_status,
                    reason_code: None,
                },
            )
        }),
        !(s is AwaitingCRes) ==> spec_receive_cres(s, cres) == Err::<TransactionStateView, _>(
            ErrorView::InvalidTransition { from: s.name(), to: "post-CRes"@ },
        ),
{
}

/// What an RReq does to the transaction awaiting it: with the transaction's ID
/// and status `Y` or `A` it ends authenticated at the state's ACS transaction,
/// carrying the RReq's DS transaction ID, ECI and authentication value; with
/// any other status it ends not authenticated with that status and the name of
/// the reason. An RReq with another transaction ID is refused, and so is an
/// RReq in any other state.
pub proof fn lemma_rreq_outcome(s: TransactionStateView, id: Seq<char>, acs: Seq<char>, rreq: ResultsRequest)
    ensures
        ({
            let r = spec_receive_rreq(
                TransactionStateView::AwaitingRReq { three_ds_server_trans_id: id, acs_trans_id: acs },
                rreq,
            );
            &&& rreq.three_ds_server_trans_id@ != id ==> r == Err::<TransactionStateView, _>(
                ErrorView::InvalidField {
                    field: "threeDSServerTransID"@,
                    reason: "RReq trans ID does not match AReq"@,
                },
            )
            &&& rreq.three_ds_server_trans_id@ == id && (rreq.trans_status == TransStatus::Success
                || rreq.trans_status == TransStatus::Attempted) ==> r == Ok::<_, ErrorView>(
                TransactionStateView::Authenticated {
                    three_ds_server_trans_id: id,
                    acs_trans_id: acs,
                    ds_trans_id: opt_view(rreq.ds_trans_id),
                    eci: rreq.eci,
                    authentication_value: opt_view(rreq.authentication_value),
                },
            )
            &&& rreq.three_ds_server_trans_id@ == id && !(rreq.trans_status == TransStatus::Success
                || rreq.trans_status == TransStatus::Attempted) ==> r == Ok::<_, ErrorView>(
                TransactionStateView::NotAuthenticated {
                    three_ds_server_trans_id: id,
                    trans_status: rreq.trans_status,
                    reason_code: match rreq.trans_status_reason {
                        Some(reason) => Some(reason.spec_debug_name()),
                        None => None,
                    },
                },
            )
        }),
        !(s is AwaitingRReq) ==> spec_receive_rreq(s, rreq) == Err::<TransactionStateView, _>(
            ErrorView::InvalidTransition { from: s.name(), to: "post-RReq"@ },
        ),
{
}

/// A protocol error fails the transaction with the text
/// `[errorCode] errorDescription: errorDetail`.
pub proof fn lemma_error_text(err: ErrorMessage)
    ensures
        spec_receive_error(err) == (TransactionStateView::Failed {
            error: seq!['['] + err.error_code@ + seq![']', ' '] + err.error_description@
                + seq![':', ' '] + err.error_detail@,
        }),
{
    reveal_strlit("[");
    reveal_strlit("] ");
    reveal_strlit(": ");
    assert("["@ =~= seq!['[']);
    assert("] "@ =~= seq![']', ' ']);
    assert(": "@ =~= seq![':', ' ']);
}

/// The state names that errors report.
pub proof fn lemma_state_names(s: TransactionStateView)
    ensures
        s is Created ==> s.name() == "Created"@,
        s is AwaitingARes ==> s.name() == "AwaitingARes"@,
        s is AwaitingCRes ==> s.name() == "AwaitingCRes"@,
        s is AwaitingRReq ==> s.name() == "AwaitingRReq"@,
        s is Authenticated ==> s.name() == "Authenticated"@,
        s is NotAuthenticated ==> s.name() == "NotAuthenticated"@,
        s is Failed ==> s.name() == "Failed"@,
        s.is_terminal() <==> (s is Authenticated || s is NotAuthenticated || s is Failed),
{
}

/// A state's view keeps each field in its place, the texts as their characters.
pub proof fn lemma_state_view(s: TransactionState)
    ensures
        s matches TransactionState::Created { areq } ==> s@ == (TransactionStateView::Created {
            areq: *areq,
        }),
        s matches TransactionState::AwaitingARes { three_ds_server_trans_id: id } ==> s@
            == (TransactionStateView::AwaitingARes { three_ds_server_trans_id: id@ }),
        s matches TransactionState::AwaitingCRes { three_ds_server_trans_id: id, acs_trans_id: acs, acs_url: url }
            ==> s@ == (TransactionStateView::AwaitingCRes {
            three_ds_server_trans_id: id@,
            acs_trans_id: acs@,
            acs_url: opt_view(url),
        }),
        s matches TransactionState::AwaitingRReq { three_ds_server_trans_id: id, acs_trans_id: acs }
            ==> s@ == (TransactionStateView::AwaitingRReq {
            three_ds_server_trans_id: id@,
            acs_trans_id: acs@,
        }),
        s matches TransactionState::Authenticated {
            three_ds_server_trans_id: id,
            acs_trans_id: acs,
            ds_trans_id: ds,
            eci: e,
            authentication_value: av,
        } ==> s@ == (TransactionStateView::Authenticated {
            three_ds_server_trans_id: id@,
            acs_trans_id: acs@,
            ds_trans_id: opt_view(ds),
            eci: e,
            authentication_value: opt_view(av),
        }),
        s matches TransactionState::NotAuthenticated { three_ds_server_trans_id: id, trans_status: st, reason_code: rc }
            ==> s@ == (TransactionStateView::NotAuthenticated {
            three_ds_server_trans_id: id@,
            trans_status: st,
            reason_code: opt_view(rc),
        }),
        s matches TransactionState::Failed { error } ==> s@ == (TransactionStateView::Failed {
            error: error@,
        }),
{
}

/// The CReq that `build_creq` writes: message type `CReq`, version 2.2.0, the
/// given transaction IDs and window size, and no other field.
pub proof fn lemma_creq_fields(
    c: ChallengeRequest,
    id: Seq<char>,
    acs: Seq<char>,
    window_size: Option<ChallengeWindowSize>,
)
    ensures
        is_creq_for(c, id, acs, window_size) <==> (c.message_type == creq::MessageType::CReq
            && c.message_version == MessageVersion::V220 && c.three_ds_server_trans_id@ == id
            && c.acs_trans_id@ == acs && c.challenge_window_size == window_size
            && c.challenge_data_entry is None && c.challenge_completion_ind is None
            && c.sdk_trans_id is None && c.resend_challenge is None
            && c.whitelist_status_source is None),
{
}

} // verus!
