use emv_3ds::message::{
    areq, ares, cres, error_msg, AuthenticationRequest, AuthenticationResponse, ChallengeResponse,
    ErrorMessage,
};
use emv_3ds::transaction::TransactionState;
use emv_3ds::types::{DeviceChannel, Eci, MessageCategory, MessageVersion, TransStatus};

fn minimal_areq() -> AuthenticationRequest {
    AuthenticationRequest {
        message_type: areq::MessageType::AReq,
        message_version: MessageVersion::V220,
        three_ds_server_trans_id: "test-txn-id".to_owned(),
        device_channel: DeviceChannel::Browser,
        message_category: MessageCategory::PaymentAuthentication,
        three_ds_requestor_id: "req-001".to_owned(),
        three_ds_requestor_name: "Test Merchant".to_owned(),
        three_ds_requestor_url: "https://merchant.example.com".to_owned(),
        acct_number: "4111111111111111".to_owned(),
        card_expiry_date: "2612".to_owned(),
        three_ds_requestor_authentication_ind: None,
        three_ds_requestor_authentication_info: None,
        three_ds_requestor_challenge_ind: None,
        three_ds_requestor_prior_authentication_info: None,
        acct_type: None,
        acct_info: None,
        acct_id: None,
        purchase_amount: Some("1000".to_owned()),
        purchase_currency: Some("826".to_owned()),
        purchase_exponent: Some("2".to_owned()),
        purchase_date: Some("20261225120000".to_owned()),
        trans_type: Some("01".to_owned()),
        recurring_expiry: None,
        recurring_frequency: None,
        purchase_instal_data: None,
        merchant_id: None,
        mcc: None,
        merchant_name: None,
        merchant_country_code: None,
        merchant_risk_indicator: None,
        cardholder_name: None,
        email: None,
        home_phone: None,
        mobile_phone: None,
        work_phone: None,
        bill_addr_city: None,
        bill_addr_country: None,
        bill_addr_line1: None,
        bill_addr_line2: None,
        bill_addr_line3: None,
        bill_addr_post_code: None,
        bill_addr_state: None,
        ship_addr_city: None,
        ship_addr_country: None,
        ship_addr_line1: None,
        ship_addr_line2: None,
        ship_addr_line3: None,
        ship_addr_post_code: None,
        ship_addr_state: None,
        addr_match: None,
        three_ds_comp_ind: None,
        notification_url: Some("https://merchant.example.com/3ds/notify".to_owned()),
        browser_info: None,
        sdk_info: None,
        device_render_options: None,
    }
}

fn frictionless_ares(trans_id: &str, status: TransStatus) -> AuthenticationResponse {
    AuthenticationResponse {
        message_type: ares::MessageType::ARes,
        message_version: MessageVersion::V220,
        three_ds_server_trans_id: trans_id.to_owned(),
        acs_trans_id: "acs-001".to_owned(),
        ds_trans_id: "ds-001".to_owned(),
        trans_status: status,
        trans_status_reason: None,
        acs_challenge_mandated: None,
        eci: Some(Eci::VisaFullyAuthenticated),
        authentication_value: Some("abc123==".to_owned()),
        acs_url: None,
        acs_signed_content: None,
        acs_dec_con_ind: None,
        acs_reference_number: None,
        ds_reference_number: None,
        cardholder_info: None,
        whitelist_status: None,
        whitelist_status_source: None,
    }
}

fn challenge_ares(trans_id: &str) -> AuthenticationResponse {
    AuthenticationResponse {
        message_type: ares::MessageType::ARes,
        message_version: MessageVersion::V220,
        three_ds_server_trans_id: trans_id.to_owned(),
        acs_trans_id: "acs-001".to_owned(),
        ds_trans_id: "ds-001".to_owned(),
        trans_status: TransStatus::ChallengeRequired,
        trans_status_reason: None,
        acs_challenge_mandated: Some(ares::AcsMandated::Yes),
        eci: None,
        authentication_value: None,
        acs_url: Some("https://acs.bank.com/challenge".to_owned()),
        acs_signed_content: None,
        acs_dec_con_ind: None,
        acs_reference_number: None,
        ds_reference_number: None,
        cardholder_info: None,
        whitelist_status: None,
        whitelist_status_source: None,
    }
}

#[test]
fn frictionless_success_flow() {
    let state = TransactionState::new(minimal_areq());
    let (state, _areq) = state.areq_sent().unwrap();
    let state = state
        .receive_ares(frictionless_ares("test-txn-id", TransStatus::Success))
        .unwrap();
    assert!(matches!(state, TransactionState::Authenticated { .. }));
    assert!(state.is_terminal());
}

#[test]
fn frictionless_attempted_flow() {
    let state = TransactionState::new(minimal_areq());
    let (state, _) = state.areq_sent().unwrap();
    let state = state
        .receive_ares(frictionless_ares("test-txn-id", TransStatus::Attempted))
        .unwrap();
    assert!(matches!(state, TransactionState::Authenticated { .. }));
}

#[test]
fn frictionless_failure_flow() {
    let state = TransactionState::new(minimal_areq());
    let (state, _) = state.areq_sent().unwrap();
    let state = state
        .receive_ares(frictionless_ares("test-txn-id", TransStatus::Failure))
        .unwrap();
    assert!(matches!(state, TransactionState::NotAuthenticated { .. }));
    assert!(state.is_terminal());
}

#[test]
fn challenge_success_flow() {
    let state = TransactionState::new(minimal_areq());
    let (state, _) = state.areq_sent().unwrap();
    let state = state.receive_ares(challenge_ares("test-txn-id")).unwrap();
    assert!(matches!(state, TransactionState::AwaitingCRes { .. }));

    // Build and check the CReq
    let creq = state.build_creq(None).unwrap();
    assert_eq!(creq.three_ds_server_trans_id, "test-txn-id");
    assert_eq!(creq.acs_trans_id, "acs-001");

    let cres = ChallengeResponse {
        message_type: cres::MessageType::CRes,
        message_version: MessageVersion::V220,
        three_ds_server_trans_id: "test-txn-id".to_owned(),
        acs_trans_id: "acs-001".to_owned(),
        trans_status: TransStatus::Success,
        challenge_completion_ind: cres::CompletionIndicator::Complete,
        acs_ui: None,
        acs_ui_type: None,
        acs_html: None,
        whitelist_status: None,
    };

    let state = state.receive_cres(cres).unwrap();
    assert!(matches!(state, TransactionState::Authenticated { .. }));
}

#[test]
fn trans_id_mismatch_is_error() {
    let state = TransactionState::new(minimal_areq());
    let (state, _) = state.areq_sent().unwrap();
    let result = state.receive_ares(frictionless_ares("wrong-id", TransStatus::Success));
    assert!(result.is_err());
}

#[test]
fn invalid_transition_from_created() {
    let state = TransactionState::new(minimal_areq());
    let result = state.receive_ares(frictionless_ares("test-txn-id", TransStatus::Success));
    assert!(result.is_err());
}

#[test]
fn error_message_transitions_to_failed() {
    let state = TransactionState::new(minimal_areq());
    let (state, _) = state.areq_sent().unwrap();
    let err = ErrorMessage {
        message_type: error_msg::MessageType::Erro,
        message_version: MessageVersion::V220,
        error_code: "202".to_owned(),
        error_description: "Critical element missing".to_owned(),
        error_detail: "acctNumber".to_owned(),
        error_message_type: "AReq".to_owned(),
        three_ds_server_trans_id: None,
        acs_trans_id: None,
        ds_trans_id: None,
        sdk_trans_id: None,
    };
    let state = state.receive_error(&err);
    assert!(matches!(state, TransactionState::Failed { .. }));
    assert!(state.is_terminal());
}

#[test]
fn areq_sent_hands_back_the_areq_and_awaits_ares() {
    let state = TransactionState::new(minimal_areq());
    let (state, areq) = state.areq_sent().unwrap();
    assert_eq!(areq.acct_number, "4111111111111111");
    match &state {
        TransactionState::AwaitingARes { three_ds_server_trans_id } => {
            assert_eq!(three_ds_server_trans_id, "test-txn-id")
        }
        other => panic!("expected AwaitingARes, got {other:?}"),
    }
    match state.areq_sent() {
        Err(emv_3ds::Error::InvalidTransition { from, to }) => {
            assert_eq!(from, "AwaitingARes");
            assert_eq!(to, "AwaitingARes");
        }
        other => panic!("expected InvalidTransition, got {other:?}"),
    }
}

#[test]
fn frictionless_success_carries_ares_fields() {
    let (state, _) = TransactionState::new(minimal_areq()).areq_sent().unwrap();
    let state = state
        .receive_ares(frictionless_ares("test-txn-id", TransStatus::Success))
        .unwrap();
    match state {
        TransactionState::Authenticated {
            three_ds_server_trans_id,
            acs_trans_id,
            ds_trans_id,
            eci,
            authentication_value,
        } => {
            assert_eq!(three_ds_server_trans_id, "test-txn-id");
            assert_eq!(acs_trans_id, "acs-001");
            assert_eq!(ds_trans_id.as_deref(), Some("ds-001"));
            assert_eq!(eci, Some(Eci::VisaFullyAuthenticated));
            assert_eq!(authentication_value.as_deref(), Some("abc123=="));
        }
        other => panic!("expected Authenticated, got {other:?}"),
    }
}

#[test]
fn trans_id_mismatch_names_the_field() {
    let (state, _) = TransactionState::new(minimal_areq()).areq_sent().unwrap();
    match state.receive_ares(frictionless_ares("wrong-id", TransStatus::Success)) {
        Err(emv_3ds::Error::InvalidField { field, reason }) => {
            assert_eq!(field, "threeDSServerTransID");
            assert_eq!(reason, "ARes trans ID does not match AReq");
        }
        other => panic!("expected InvalidField, got {other:?}"),
    }
}

#[test]
fn failure_records_the_reason_name() {
    let (state, _) = TransactionState::new(minimal_areq()).areq_sent().unwrap();
    let mut ares = frictionless_ares("test-txn-id", TransStatus::Rejected);
    ares.trans_status_reason = Some(emv_3ds::types::TransStatusReason::SuspectedFraud);
    match state.receive_ares(ares).unwrap() {
        TransactionState::NotAuthenticated { three_ds_server_trans_id, trans_status, reason_code } => {
            assert_eq!(three_ds_server_trans_id, "test-txn-id");
            assert_eq!(trans_status, TransStatus::Rejected);
            assert_eq!(reason_code.as_deref(), Some("SuspectedFraud"));
        }
        other => panic!("expected NotAuthenticated, got {other:?}"),
    }
}

#[test]
fn challenge_keeps_acs_url_and_failed_challenge_ends_not_authenticated() {
    let (state, _) = TransactionState::new(minimal_areq()).areq_sent().unwrap();
    let state = state.receive_ares(challenge_ares("test-txn-id")).unwrap();
    match &state {
        TransactionState::AwaitingCRes { acs_url, .. } => {
            assert_eq!(acs_url.as_deref(), Some("https://acs.bank.com/challenge"))
        }
        other => panic!("expected AwaitingCRes, got {other:?}"),
    }
    let creq = state
        .build_creq(Some(emv_3ds::types::ChallengeWindowSize::W500x600))
        .unwrap();
    assert_eq!(creq.message_version, MessageVersion::V220);
    assert_eq!(
        creq.challenge_window_size,
        Some(emv_3ds::types::ChallengeWindowSize::W500x600)
    );
    assert!(creq.challenge_data_entry.is_none());
    let cres = ChallengeResponse {
        message_type: cres::MessageType::CRes,
        message_version: MessageVersion::V220,
        three_ds_server_trans_id: "test-txn-id".to_owned(),
        acs_trans_id: "acs-001".to_owned(),
        trans_status: TransStatus::Failure,
        challenge_completion_ind: cres::CompletionIndicator::Complete,
        acs_ui: None,
        acs_ui_type: None,
        acs_html: None,
        whitelist_status: None,
    };
    match state.receive_cres(cres).unwrap() {
        TransactionState::NotAuthenticated { trans_status, reason_code, .. } => {
            assert_eq!(trans_status, TransStatus::Failure);
            assert!(reason_code.is_none());
        }
        other => panic!("expected NotAuthenticated, got {other:?}"),
    }
}

#[test]
fn build_creq_outside_challenge_is_invalid_transition() {
    let state = TransactionState::new(minimal_areq());
    match state.build_creq(None) {
        Err(emv_3ds::Error::InvalidTransition { from, to }) => {
            assert_eq!(from, "Created");
            assert_eq!(to, "CReq");
        }
        other => panic!("expected InvalidTransition, got {other:?}"),
    }
}

#[test]
fn error_message_text_is_code_description_detail() {
    let err = ErrorMessage {
        message_type: error_msg::MessageType::Erro,
        message_version: MessageVersion::V220,
        error_code: "202".to_owned(),
        error_description: "Critical element missing".to_owned(),
        error_detail: "acctNumber".to_owned(),
        error_message_type: "AReq".to_owned(),
        three_ds_server_trans_id: None,
        acs_trans_id: None,
        ds_trans_id: None,
        sdk_trans_id: None,
    };
    let state = TransactionState::new(minimal_areq()).receive_error(&err);
    match &state {
        TransactionState::Failed { error } => {
            assert_eq!(error, "[202] Critical element missing: acctNumber")
        }
        other => panic!("expected Failed, got {other:?}"),
    }
    // A terminal state refuses every further message.
    assert!(state.clone().areq_sent().is_err());
    assert!(state
        .clone()
        .receive_ares(frictionless_ares("test-txn-id", TransStatus::Success))
        .is_err());
}
