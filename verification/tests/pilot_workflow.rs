use b2b_product_catalog_quote_system_api::error::ApiError;
use b2b_product_catalog_quote_system_api::pilot::{
    apply_action, apply_action_now, invalid, make_proposal, parse_action, same_request,
    save_outcome, save_reply, text_valid, validate_request, ActionKind, ActionRequest, Quote,
    QuoteRequest, QuoteStatus, SaveOutcome,
};

const OPERATOR: &str = "operator@example.invalid";
const ID: u128 = 0x1234_5678_9abc_def0_1234_5678_9abc_def0;

fn request() -> QuoteRequest {
    QuoteRequest {
        id: ID,
        company: "Synthetic buyer".to_string(),
        contact: "Example person".to_string(),
        product: "Example machine".to_string(),
        quantity: 2,
        notes: String::new(),
    }
}

fn received(r: &QuoteRequest) -> Quote {
    Quote {
        id: r.id,
        company: r.company.clone(),
        contact: r.contact.clone(),
        product: r.product.clone(),
        quantity: r.quantity,
        unit_price_cents: 0,
        tax_bps: 0,
        currency: "PEN".to_string(),
        terms: String::new(),
        status: QuoteStatus::Received,
        version: 1,
        approved_by: None,
        approved_at: None,
        proposal: None,
        created_at: 1_700_000_000_000_000,
        updated_at: 1_700_000_000_000_000,
    }
}

fn action(version: i32, name: &str) -> ActionRequest {
    ActionRequest {
        version,
        action: name.to_string(),
        quantity: None,
        unit_price_cents: None,
        tax_bps: None,
        currency: None,
        terms: None,
        human_confirmed: false,
    }
}

fn edit(version: i32) -> ActionRequest {
    ActionRequest {
        quantity: Some(2),
        unit_price_cents: Some(10001),
        tax_bps: Some(1800),
        currency: Some("PEN".to_string()),
        terms: Some("Synthetic terms, human review required".to_string()),
        ..action(version, "edit")
    }
}

/// What the store does after a successful action: the version goes up.
fn stored(mut q: Quote) -> Quote {
    q.version += 1;
    q
}

fn is_conflict(r: &Result<Quote, ApiError>) -> bool {
    matches!(r, Err(ApiError::Conflict(_)))
}

fn is_bad_request(r: &Result<Quote, ApiError>) -> bool {
    matches!(r, Err(ApiError::BadRequest(_)))
}

#[test]
fn pilot_vertical_workflow() {
    let r = request();
    assert!(validate_request(&r).is_ok());
    assert_eq!(save_outcome(true, Some(&r), &r), Ok(SaveOutcome::Inserted));
    let reply = save_reply(SaveOutcome::Inserted);
    assert!(reply.saved);
    assert!(!reply.replayed);
    assert_eq!(reply.notification_status, "disabled");
    assert_eq!(save_outcome(false, Some(&r), &r), Ok(SaveOutcome::Replayed));
    assert!(save_reply(SaveOutcome::Replayed).replayed);
    let mut changed = r.clone();
    changed.quantity = 3;
    assert!(matches!(save_outcome(false, Some(&r), &changed), Err(ApiError::Conflict(_))));
    assert_eq!(
        save_outcome(true, None, &r),
        Err(ApiError::Conflict("Identificador reutilizado para otro pedido".to_string()))
    );

    let q = received(&r);
    let now = 1_758_800_000_000_000;
    assert!(is_conflict(&apply_action(q.clone(), action(1, "proposal"), OPERATOR, now)));
    let q = stored(apply_action(q, action(1, "draft"), OPERATOR, now).unwrap());
    assert_eq!(q.status, QuoteStatus::Draft);
    let mut approve = action(2, "approve");
    approve.human_confirmed = true;
    assert!(is_bad_request(&apply_action(q.clone(), approve, OPERATOR, now)));
    let mut negative = edit(2);
    negative.unit_price_cents = Some(-1);
    assert!(is_bad_request(&apply_action(q.clone(), negative, OPERATOR, now)));
    let q = stored(apply_action(q, edit(2), OPERATOR, now).unwrap());
    assert_eq!(q.version, 3);
    assert!(is_conflict(&apply_action(q.clone(), edit(2), OPERATOR, now)));
    assert!(is_bad_request(&apply_action(q.clone(), action(3, "approve"), OPERATOR, now)));
    let mut approve = action(3, "approve");
    approve.human_confirmed = true;
    let q = stored(apply_action(q, approve, OPERATOR, now).unwrap());
    assert_eq!(q.status, QuoteStatus::Approved);
    assert_eq!(q.approved_by.as_deref(), Some(OPERATOR));
    assert_eq!(q.approved_at, Some(now));
    let q = stored(apply_action(q, action(4, "proposal"), OPERATOR, now).unwrap());
    let proposal = q.proposal.clone().unwrap();
    assert_eq!(proposal.subtotal_cents, 20002);
    assert_eq!(proposal.tax_cents, 3600);
    assert_eq!(proposal.total_cents, 23602);
    assert_eq!(proposal.approved_by.as_deref(), Some(OPERATOR));
    assert_eq!(proposal.label, "PILOTO SINTÉTICO · NO ENVIADO");
    assert!(is_conflict(&apply_action(q.clone(), action(5, "edit"), OPERATOR, now)));
    let q = stored(apply_action(q, action(5, "followup"), OPERATOR, now).unwrap());
    assert_eq!(q.status, QuoteStatus::Followup);
    assert_eq!(q.proposal, Some(proposal));
    assert_eq!(q.version, 6);
}

#[test]
fn stale_version_is_a_conflict_with_its_message() {
    let q = received(&request());
    assert_eq!(
        apply_action(q, action(7, "draft"), OPERATOR, 0).unwrap_err(),
        ApiError::Conflict("Otro usuario modificó el pedido. Recarga antes de continuar.".to_string())
    );
}

#[test]
fn unknown_action_is_refused_transition() {
    let q = received(&request());
    assert_eq!(
        apply_action(q, action(1, "send"), OPERATOR, 0).unwrap_err(),
        ApiError::Conflict("Transición no permitida. Revisa el estado actual.".to_string())
    );
}

#[test]
fn edit_names_each_missing_value() {
    let mut q = received(&request());
    q.status = QuoteStatus::Draft;
    let cases: Vec<(ActionRequest, &str)> = vec![
        (ActionRequest { quantity: None, ..edit(1) }, "Falta cantidad"),
        (ActionRequest { unit_price_cents: None, ..edit(1) }, "Falta precio en céntimos"),
        (ActionRequest { tax_bps: None, ..edit(1) }, "Falta impuesto en puntos básicos"),
        (ActionRequest { currency: None, ..edit(1) }, "Falta moneda"),
        (ActionRequest { terms: None, ..edit(1) }, "Faltan condiciones"),
    ];
    for (a, message) in cases {
        assert_eq!(
            apply_action(q.clone(), a, OPERATOR, 0).unwrap_err(),
            ApiError::BadRequest(message.to_string())
        );
    }
}

#[test]
fn edit_refuses_values_out_of_range() {
    let mut q = received(&request());
    q.status = QuoteStatus::Draft;
    let refused = ApiError::BadRequest("Importes, cantidad, moneda o condiciones inválidos".to_string());
    let cases = vec![
        ActionRequest { quantity: Some(0), ..edit(1) },
        ActionRequest { quantity: Some(10001), ..edit(1) },
        ActionRequest { unit_price_cents: Some(1_000_000_001), ..edit(1) },
        ActionRequest { tax_bps: Some(10001), ..edit(1) },
        ActionRequest { tax_bps: Some(-1), ..edit(1) },
        ActionRequest { currency: Some("EUR".to_string()), ..edit(1) },
        ActionRequest { terms: Some("   ".to_string()), ..edit(1) },
        ActionRequest { terms: Some("x".repeat(2001)), ..edit(1) },
    ];
    for a in cases {
        assert_eq!(apply_action(q.clone(), a, OPERATOR, 0).unwrap_err(), refused);
    }
    let ok = apply_action(q.clone(), ActionRequest { currency: Some("USD".to_string()), ..edit(1) }, OPERATOR, 0).unwrap();
    assert_eq!(ok.currency, "USD");
    assert_eq!(ok.unit_price_cents, 10001);
    assert_eq!(ok.status, QuoteStatus::Draft);
}

#[test]
fn approval_message_and_clock() {
    let mut q = received(&request());
    q.status = QuoteStatus::Draft;
    q.unit_price_cents = 500;
    q.terms = "Net 30".to_string();
    assert_eq!(
        apply_action(q.clone(), action(1, "approve"), OPERATOR, 0).unwrap_err(),
        ApiError::BadRequest(
            "Revisa precio positivo, impuestos y condiciones; confirma la aprobación humana.".to_string()
        )
    );
    let mut approve = action(1, "approve");
    approve.human_confirmed = true;
    let approved = apply_action_now(q, approve, OPERATOR).unwrap();
    assert_eq!(approved.status, QuoteStatus::Approved);
    assert!(approved.approved_at.unwrap() > 1_600_000_000_000_000);
}

#[test]
fn proposal_rounds_tax_half_up() {
    let mut q = received(&request());
    q.status = QuoteStatus::Approved;
    q.quantity = 1;
    q.unit_price_cents = 25;
    q.tax_bps = 1800; // exact tax 4.5 cents
    let p = make_proposal(&q);
    assert_eq!(p.tax_cents, 5);
    q.unit_price_cents = 24; // exact tax 4.32 cents
    assert_eq!(make_proposal(&q).tax_cents, 4);
    q.unit_price_cents = 1_000_000_000;
    q.quantity = 10000;
    q.tax_bps = 10000;
    let p = make_proposal(&q);
    assert_eq!(p.subtotal_cents, 10_000_000_000_000);
    assert_eq!(p.total_cents, 20_000_000_000_000);
}

#[test]
fn request_rules() {
    let r = request();
    assert!(validate_request(&r).is_ok());
    let refused = ApiError::BadRequest("Revisa empresa, contacto, producto y cantidad (1–10000).".to_string());
    let cases = vec![
        QuoteRequest { company: " \t".to_string(), ..request() },
        QuoteRequest { contact: "é".repeat(201), ..request() },
        QuoteRequest { product: String::new(), ..request() },
        QuoteRequest { quantity: 0, ..request() },
        QuoteRequest { quantity: 10001, ..request() },
        QuoteRequest { notes: "n".repeat(2001), ..request() },
    ];
    for c in cases {
        assert_eq!(validate_request(&c), Err(refused.clone()));
    }
    assert!(validate_request(&QuoteRequest { contact: "é".repeat(200), ..request() }).is_ok());
    assert!(same_request(&r, &request()));
    assert!(!same_request(&r, &QuoteRequest { notes: "x".to_string(), ..request() }));
}

#[test]
fn text_valid_counts_characters() {
    assert!(text_valid("abc", 3));
    assert!(!text_valid("abcd", 3));
    assert!(!text_valid(" \u{3000}\n", 10));
    assert!(text_valid("ñññ", 3));
    assert!(text_valid("  a  ", 5));
}

#[test]
fn invalid_is_a_bad_request() {
    assert_eq!(invalid("Falta moneda"), ApiError::BadRequest("Falta moneda".to_string()));
}

#[test]
fn status_and_action_names() {
    for s in [
        QuoteStatus::Received,
        QuoteStatus::Draft,
        QuoteStatus::Approved,
        QuoteStatus::Proposal,
        QuoteStatus::Followup,
    ] {
        assert_eq!(QuoteStatus::parse(s.as_str()), Some(s));
    }
    assert_eq!(QuoteStatus::parse("Draft"), None);
    assert_eq!(parse_action("approve"), Some(ActionKind::Approve));
    assert_eq!(parse_action("edit "), None);
}

#[test]
fn bounds_and_proposal_due() {
    let mut q = received(&request());
    assert!(q.in_bounds());
    q.status = QuoteStatus::Approved;
    assert!(q.proposal_due(&action(1, "proposal")));
    assert!(!q.proposal_due(&action(2, "proposal")));
    q.tax_bps = 10001;
    assert!(!q.in_bounds());
    assert!(q.proposal_fits());
    q.unit_price_cents = i64::MAX;
    q.quantity = 2;
    assert!(!q.proposal_fits());
    q.quantity = 1;
    q.tax_bps = 1;
    assert!(!q.proposal_fits()); // the half cent added before dividing overflows
    q.tax_bps = 0;
    assert!(q.proposal_fits());
    assert_eq!(make_proposal(&q).total_cents, i64::MAX);
}
