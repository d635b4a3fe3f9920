use emv_3ds::message::{pres, CardRangeData, PreparationResponse};
use emv_3ds::message::{
    areq, ares, cres, AuthenticationRequest, AuthenticationResponse, ChallengeResponse,
    ErrorMessage,
};
use emv_3ds::transaction::TransactionState;
use emv_3ds::types::{
    ActionIndicator, ChallengeWindowSize, DeviceChannel, Eci, MessageCategory, MessageVersion,
    ResultsStatus, TransStatus,
};

const ALL_STATUSES: [TransStatus; 8] = [
    TransStatus::Success,
    TransStatus::Failure,
    TransStatus::Unable,
    TransStatus::Attempted,
    TransStatus::ChallengeRequired,
    TransStatus::DecoupledRequired,
    TransStatus::InformationalOnly,
    TransStatus::Rejected,
];

const AUTH_STATUSES: [TransStatus; 2] = [TransStatus::Success, TransStatus::Attempted];

const NON_AUTH_NON_CHALLENGE_STATUSES: [TransStatus; 4] = [
    TransStatus::Failure,
    TransStatus::Unable,
    TransStatus::InformationalOnly,
    TransStatus::Rejected,
];

const ALL_ECIS: [Eci; 6] = [
    Eci::VisaFullyAuthenticated,
    Eci::VisaAttempted,
    Eci::VisaNotAuthenticated,
    Eci::MastercardFullyAuthenticated,
    Eci::MastercardAttempted,
    Eci::MastercardNotAuthenticated,
];

const ALL_VERSIONS: [MessageVersion; 3] = [MessageVersion::V210, MessageVersion::V220, MessageVersion::V230];

fn minimal_areq() -> AuthenticationRequest {
    AuthenticationRequest {
        message_type: areq::MessageType::AReq,
        message_version: MessageVersion::V220,
        three_ds_server_trans_id: "txn-prop".to_owned(),
        device_channel: DeviceChannel::Browser,
        message_category: MessageCategory::PaymentAuthentication,
        three_ds_requestor_id: "req-001".to_owned(),
        three_ds_requestor_name: "PropTest Merchant".to_owned(),
        three_ds_requestor_url: "https://merchant.example.com".to_owned(),
        acct_number: "4111111111111111".to_owned(),
        card_expiry_date: "2812".to_owned(),
        three_ds_requestor_authentication_ind: None,
        three_ds_requestor_authentication_info: None,
        three_ds_requestor_challenge_ind: None,
        three_ds_requestor_prior_authentication_info: None,
        acct_type: None,
        acct_info: None,
        acct_id: None,
        purchase_amount: Some("1000".to_owned()),
        purchase_currency: Some("826".to_owned()),
        purchase_exponent: Some("2".to_owned()),
        purchase_date: Some("20261201120000".to_owned()),
        trans_type: Some("01".to_owned()),
        recurring_expiry: None,
        recurring_frequency: None,
        purchase_instal_data: None,
        merchant_id: None,
        mcc: None,
        merchant_name: None,
        merchant_country_code: None,
        merchant_risk_indicator: None,
        cardholder_name: None,
        email: None,
        home_phone: None,
        mobile_phone: None,
        work_phone: None,
        bill_addr_city: None,
        bill_addr_country: None,
        bill_addr_line1: None,
        bill_addr_line2: None,
        bill_addr_line3: None,
        bill_addr_post_code: None,
        bill_addr_state: None,
        ship_addr_city: None,
        ship_addr_country: None,
        ship_addr_line1: None,
        ship_addr_line2: None,
        ship_addr_line3: None,
        ship_addr_post_code: None,
        ship_addr_state: None,
        addr_match: None,
        three_ds_comp_ind: None,
        notification_url: Some("https://merchant.example.com/3ds/notify".to_owned()),
        browser_info: None,
        sdk_info: None,
        device_render_options: None,
    }
}

fn make_ares(status: TransStatus) -> AuthenticationResponse {
    AuthenticationResponse {
        message_type: ares::MessageType::ARes,
        message_version: MessageVersion::V220,
        three_ds_server_trans_id: "txn-prop".to_owned(),
        acs_trans_id: "acs-prop".to_owned(),
        ds_trans_id: "ds-prop".to_owned(),
        trans_status: status,
        trans_status_reason: None,
        acs_challenge_mandated: None,
        eci: None,
        authentication_value: None,
        acs_url: None,
        acs_signed_content: None,
        acs_dec_con_ind: None,
        acs_reference_number: None,
        ds_reference_number: None,
        cardholder_info: None,
        whitelist_status: None,
        whitelist_status_source: None,
    }
}

fn make_failed_cres() -> ChallengeResponse {
    ChallengeResponse {
        message_type: cres::MessageType::CRes,
        message_version: MessageVersion::V220,
        three_ds_server_trans_id: "txn-prop".to_owned(),
        acs_trans_id: "acs-prop".to_owned(),
        trans_status: TransStatus::Failure,
        challenge_completion_ind: cres::CompletionIndicator::Complete,
        acs_ui: None,
        acs_ui_type: None,
        acs_html: None,
        whitelist_status: None,
    }
}

fn make_rreq(trans_id: &str, status: TransStatus) -> emv_3ds::message::ResultsRequest {
    emv_3ds::message::ResultsRequest {
        message_type: emv_3ds::message::rreq::MessageType::RReq,
        message_version: MessageVersion::V220,
        three_ds_server_trans_id: trans_id.to_owned(),
        acs_trans_id: "acs-prop".to_owned(),
        ds_trans_id: None,
        sdk_trans_id: None,
        message_category: MessageCategory::PaymentAuthentication,
        trans_status: status,
        trans_status_reason: None,
        authentication_method: None,
        authentication_type: None,
        authentication_value: None,
        eci: None,
        interaction_counter: None,
        acs_rendering_type: None,
        message_extension: None,
    }
}

#[test]
fn cres_failed_challenge_is_not_authenticated() {
    assert!(!make_failed_cres().is_authenticated());
}

#[test]
fn message_type_value_is_areq() {
    assert_eq!(AuthenticationRequest::message_type_value(), "AReq");
}

#[test]
fn is_terminal_for_each_state() {
    let state = TransactionState::new(minimal_areq());
    assert!(!state.is_terminal(), "Created must not be terminal");

    let (awaiting, _) = state.areq_sent().unwrap();
    assert!(!awaiting.is_terminal(), "AwaitingARes must not be terminal");

    let challenge = awaiting
        .receive_ares(make_ares(TransStatus::ChallengeRequired))
        .unwrap();
    assert!(
        !challenge.is_terminal(),
        "AwaitingCRes must not be terminal"
    );

    // After the AwaitingCRes check, add:
    let rreq_wait = TransactionState::new(minimal_areq())
        .areq_sent()
        .unwrap()
        .0
        .receive_ares(make_ares(TransStatus::DecoupledRequired))
        .unwrap();
    assert!(
        !rreq_wait.is_terminal(),
        "AwaitingRReq must not be terminal"
    );

    let auth = TransactionState::new(minimal_areq())
        .areq_sent()
        .unwrap()
        .0
        .receive_ares(make_ares(TransStatus::Success))
        .unwrap();
    assert!(auth.is_terminal(), "Authenticated must be terminal");

    let not_auth = TransactionState::new(minimal_areq())
        .areq_sent()
        .unwrap()
        .0
        .receive_ares(make_ares(TransStatus::Failure))
        .unwrap();
    assert!(not_auth.is_terminal(), "NotAuthenticated must be terminal");

    let err_msg = ErrorMessage {
        message_type: emv_3ds::message::error_msg::MessageType::Erro,
        message_version: MessageVersion::V220,
        error_code: "500".to_owned(),
        error_description: "System error".to_owned(),
        error_detail: "internal".to_owned(),
        error_message_type: "AReq".to_owned(),
        three_ds_server_trans_id: None,
        acs_trans_id: None,
        ds_trans_id: None,
        sdk_trans_id: None,
    };
    let failed = TransactionState::new(minimal_areq())
        .areq_sent()
        .unwrap()
        .0
        .receive_error(&err_msg);
    assert!(failed.is_terminal(), "Failed must be terminal");
}

#[test]
fn invalid_transition_error_names_current_state() {
    let created = TransactionState::new(minimal_areq());
    let err = created
        .receive_ares(make_ares(TransStatus::Success))
        .unwrap_err();
    match err {
        emv_3ds::Error::InvalidTransition { from, .. } => {
            assert_eq!(from, "Created", "error must name the actual current state");
        }
        other => panic!("expected InvalidTransition, got {other:?}"),
    }
}

#[test]
fn rreq_trans_id_mismatch_is_error() {
    let state = TransactionState::new(minimal_areq());
    let (state, _) = state.areq_sent().unwrap();
    let state = state
        .receive_ares(make_ares(TransStatus::DecoupledRequired))
        .unwrap();
    let result = state.receive_rreq(make_rreq("wrong-id", TransStatus::Success));
    assert!(result.is_err());
}

#[test]
fn rreq_invalid_transition_from_awaiting_ares() {
    let state = TransactionState::new(minimal_areq());
    let (awaiting, _) = state.areq_sent().unwrap();
    let result = awaiting.receive_rreq(make_rreq("txn-prop", TransStatus::Success));
    assert!(result.is_err());
}

#[test]
fn rres_acknowledge_status_is_received() {
    let rreq = make_rreq("txn-prop", TransStatus::Success);
    let rres = emv_3ds::message::ResultsResponse::acknowledge(&rreq);
    assert_eq!(rres.results_status, ResultsStatus::Received);
    assert_eq!(rres.three_ds_server_trans_id, "txn-prop");
}

#[test]
fn range_for_pan_finds_correct_range() {

    let pres = PreparationResponse {
        message_type: pres::MessageType::PRes,
        message_version: MessageVersion::V220,
        three_ds_server_trans_id: "prep-001".to_owned(),
        ds_trans_id: None,
        serial_num: None,
        ds_reference_number: None,
        ds_start_protocol_version: "2.1.0".to_owned(),
        ds_end_protocol_version: "2.2.0".to_owned(),
        card_range_data: vec![CardRangeData {
            start_range: "4000000000000000".to_owned(),
            end_range: "4999999999999999".to_owned(),
            action_ind: ActionIndicator::Add,
            acs_start_protocol_version: "2.1.0".to_owned(),
            acs_end_protocol_version: "2.2.0".to_owned(),
            three_ds_method_url: None,
            ds_start_protocol_version: None,
            ds_end_protocol_version: None,
            ds_trans_id: None,
            acs_info_ind: None,
        }],
    };

    assert!(pres.range_for_pan("4111111111111111").is_some());
    assert!(pres.range_for_pan("5200000000000000").is_none());
    assert_eq!(
        pres.range_for_pan("4000000000000000").unwrap().start_range,
        "4000000000000000"
    );
}

#[test]
fn is_authenticated_spec() {
    for s in ALL_STATUSES {
        let want = matches!(s, TransStatus::Success | TransStatus::Attempted);
        assert_eq!(s.is_authenticated(), want);
    }
}

#[test]
fn requires_challenge_spec() {
    for s in ALL_STATUSES {
        let want = matches!(s, TransStatus::ChallengeRequired | TransStatus::DecoupledRequired);
        assert_eq!(s.requires_challenge(), want);
    }
}

#[test]
fn authenticated_and_challenge_are_disjoint() {
    for s in ALL_STATUSES {
        assert!(!(s.is_authenticated() && s.requires_challenge()));
    }
}

#[test]
fn has_liability_shift_spec() {
    for e in ALL_ECIS {
        let want = matches!(
            e,
            Eci::VisaFullyAuthenticated
                | Eci::VisaAttempted
                | Eci::MastercardFullyAuthenticated
                | Eci::MastercardAttempted
        );
        assert_eq!(e.has_liability_shift(), want);
    }
}

#[test]
fn ares_is_frictionless_spec() {
    for s in ALL_STATUSES {
        assert_eq!(make_ares(s).is_frictionless(), s.is_authenticated());
    }
}

#[test]
fn ares_requires_challenge_spec() {
    for s in ALL_STATUSES {
        assert_eq!(make_ares(s).requires_challenge(), s.requires_challenge());
    }
}

#[test]
fn message_version_display_equals_as_str() {
    for v in ALL_VERSIONS {
        assert_eq!(v.to_string(), v.as_str());
    }
}

#[test]
fn ares_auth_status_gives_authenticated() {
    for status in AUTH_STATUSES {
        let (state, _) = TransactionState::new(minimal_areq()).areq_sent().unwrap();
        let next = state.receive_ares(make_ares(status)).unwrap();
        assert!(matches!(next, TransactionState::Authenticated { .. }));
        assert!(next.is_terminal());
    }
}

#[test]
fn ares_challenge_status_gives_awaiting_cres() {
    let (state, _) = TransactionState::new(minimal_areq()).areq_sent().unwrap();
    let next = state.receive_ares(make_ares(TransStatus::ChallengeRequired)).unwrap();
    assert!(matches!(next, TransactionState::AwaitingCRes { .. }));
    assert!(!next.is_terminal());
}

#[test]
fn ares_failure_status_gives_not_authenticated() {
    for status in NON_AUTH_NON_CHALLENGE_STATUSES {
        let (state, _) = TransactionState::new(minimal_areq()).areq_sent().unwrap();
        let next = state.receive_ares(make_ares(status)).unwrap();
        assert!(matches!(next, TransactionState::NotAuthenticated { .. }));
        assert!(next.is_terminal());
    }
}

#[test]
fn ares_decoupled_gives_awaiting_rreq() {
    let (state, _) = TransactionState::new(minimal_areq()).areq_sent().unwrap();
    let next = state.receive_ares(make_ares(TransStatus::DecoupledRequired)).unwrap();
    assert!(matches!(next, TransactionState::AwaitingRReq { .. }));
    assert!(!next.is_terminal());
}

#[test]
fn rreq_auth_status_gives_authenticated() {
    for status in AUTH_STATUSES {
        let (state, _) = TransactionState::new(minimal_areq()).areq_sent().unwrap();
        let state = state.receive_ares(make_ares(TransStatus::DecoupledRequired)).unwrap();
        let next = state.receive_rreq(make_rreq("txn-prop", status)).unwrap();
        assert!(matches!(next, TransactionState::Authenticated { .. }));
        assert!(next.is_terminal());
    }
}

#[test]
fn rreq_failure_status_gives_not_authenticated() {
    for status in NON_AUTH_NON_CHALLENGE_STATUSES {
        let (state, _) = TransactionState::new(minimal_areq()).areq_sent().unwrap();
        let state = state.receive_ares(make_ares(TransStatus::DecoupledRequired)).unwrap();
        let next = state.receive_rreq(make_rreq("txn-prop", status)).unwrap();
        assert!(matches!(next, TransactionState::NotAuthenticated { .. }));
        assert!(next.is_terminal());
    }
}

#[test]
fn trans_status_code_roundtrip() {
    for s in ALL_STATUSES {
        assert_eq!(TransStatus::from_code(s.code()), Some(s));
    }
    assert_eq!(TransStatus::Success.code(), "Y");
    assert_eq!(TransStatus::ChallengeRequired.code(), "C");
    assert_eq!(TransStatus::from_code("Z"), None);
}

#[test]
fn eci_code_roundtrip() {
    for e in ALL_ECIS {
        assert_eq!(Eci::from_code(e.code()), Some(e));
    }
    assert_eq!(Eci::VisaFullyAuthenticated.code(), "05");
    assert_eq!(Eci::MastercardNotAuthenticated.code(), "00");
}

#[test]
fn message_version_code_roundtrip() {
    for v in ALL_VERSIONS {
        assert_eq!(MessageVersion::from_code(v.as_str()), Some(v));
    }
    assert_eq!(MessageVersion::from_code("2.4.0"), None);
}

#[test]
fn device_channel_and_category_codes() {
    for c in [DeviceChannel::App, DeviceChannel::Browser, DeviceChannel::ThreeDsRequestorInitiated] {
        assert_eq!(DeviceChannel::from_code(c.code()), Some(c));
    }
    assert_eq!(DeviceChannel::Browser.code(), "02");
    for c in [MessageCategory::PaymentAuthentication, MessageCategory::NonPaymentAuthentication] {
        assert_eq!(MessageCategory::from_code(c.code()), Some(c));
    }
    assert_eq!(MessageCategory::PaymentAuthentication.code(), "01");
}

#[test]
fn challenge_window_size_code_roundtrip() {
    for w in [
        ChallengeWindowSize::W250x400,
        ChallengeWindowSize::W390x400,
        ChallengeWindowSize::W500x600,
        ChallengeWindowSize::W600x400,
        ChallengeWindowSize::FullScreen,
    ] {
        assert_eq!(ChallengeWindowSize::from_code(w.code()), Some(w));
    }
    assert_eq!(ChallengeWindowSize::W500x600.code(), "03");
}

#[test]
fn action_indicator_and_results_status_codes() {
    for a in [ActionIndicator::Add, ActionIndicator::Modify, ActionIndicator::Delete] {
        assert_eq!(ActionIndicator::from_code(a.code()), Some(a));
    }
    for s in [ResultsStatus::Received, ResultsStatus::OutOfSync] {
        assert_eq!(ResultsStatus::from_code(s.code()), Some(s));
    }
}

#[test]
fn range_for_pan_picks_first_covering_range_and_bounds_are_inclusive() {
    let range = |start: &str, end: &str, acs: &str| CardRangeData {
        start_range: start.to_owned(),
        end_range: end.to_owned(),
        action_ind: ActionIndicator::Add,
        acs_start_protocol_version: acs.to_owned(),
        acs_end_protocol_version: "2.2.0".to_owned(),
        three_ds_method_url: None,
        ds_start_protocol_version: None,
        ds_end_protocol_version: None,
        ds_trans_id: None,
        acs_info_ind: None,
    };
    let pres = PreparationResponse {
        message_type: pres::MessageType::PRes,
        message_version: MessageVersion::V220,
        three_ds_server_trans_id: "prep-002".to_owned(),
        ds_trans_id: None,
        serial_num: None,
        ds_reference_number: None,
        ds_start_protocol_version: "2.1.0".to_owned(),
        ds_end_protocol_version: "2.2.0".to_owned(),
        card_range_data: vec![
            range("5000000000000000", "5099999999999999", "first"),
            range("4000000000000000", "4999999999999999", "second"),
            range("4100000000000000", "4199999999999999", "third"),
        ],
    };
    assert_eq!(pres.range_for_pan("4111111111111111").unwrap().acs_start_protocol_version, "second");
    assert_eq!(pres.range_for_pan("4999999999999999").unwrap().acs_start_protocol_version, "second");
    assert_eq!(pres.range_for_pan("5099999999999999").unwrap().acs_start_protocol_version, "first");
    assert!(pres.range_for_pan("3999999999999999").is_none());
    // Strings order by bytes: "41" lies between "4000..." and "4999...".
    assert!(pres.range_for_pan("41").is_some());
}
