//! The pilot quote workflow: what a saved request must hold, how a repeated
//! save is answered, and the transitions of a quote from received to
//! follow-up, with the priced proposal that approval freezes.

use vstd::prelude::*;
use vstd::string::*;

use crate::error::{ApiError, ErrorView};
use crate::text::{is_blank, lemma_trim_empty_iff_blank, same_text, text_ok, trim};

verus! {

// ---------------------------------------------------------------- messages

pub open spec fn request_refused_msg() -> Seq<char> {
    "Revisa empresa, contacto, producto y cantidad (1–10000)."@
}

pub open spec fn reused_id_msg() -> Seq<char> {
    "Identificador reutilizado para otro pedido"@
}

pub open spec fn stale_version_msg() -> Seq<char> {
    "Otro usuario modificó el pedido. Recarga antes de continuar."@
}

pub open spec fn transition_refused_msg() -> Seq<char> {
    "Transición no permitida. Revisa el estado actual."@
}

pub open spec fn missing_quantity_msg() -> Seq<char> {
    "Falta cantidad"@
}

pub open spec fn missing_price_msg() -> Seq<char> {
    "Falta precio en céntimos"@
}

pub open spec fn missing_tax_msg() -> Seq<char> {
    "Falta impuesto en puntos básicos"@
}

pub open spec fn missing_currency_msg() -> Seq<char> {
    "Falta moneda"@
}

pub open spec fn missing_terms_msg() -> Seq<char> {
    "Faltan condiciones"@
}

pub open spec fn edit_refused_msg() -> Seq<char> {
    "Importes, cantidad, moneda o condiciones inválidos"@
}

pub open spec fn approval_refused_msg() -> Seq<char> {
    "Revisa precio positivo, impuestos y condiciones; confirma la aprobación humana."@
}

pub open spec fn proposal_label() -> Seq<char> {
    "PILOTO SINTÉTICO · NO ENVIADO"@
}

/// A refused request (400) carrying `message`.
pub fn invalid(message: &str) -> (e: ApiError)
    ensures
        e@ == ErrorView::BadRequest(message@),
{
    ApiError::BadRequest(message.to_owned())
}

fn conflict(message: &str) -> (e: ApiError)
    ensures
        e@ == ErrorView::Conflict(message@),
{
    ApiError::Conflict(message.to_owned())
}

/// Whether `value` is not blank once trimmed and has at most `max` characters.
pub fn text_valid(value: &str, max: usize) -> (b: bool)
    ensures
        b == text_ok(value@, max as int),
{
    proof {
        lemma_trim_empty_iff_blank(value@);
    }
    !is_blank(value) && value.unicode_len() <= max
}

// ---------------------------------------------------------------- requests

/// A quote request as an operator submits it; `id` is the client-chosen
/// UUID as a 128-bit number.
#[derive(Debug, Clone, PartialEq, Eq)]
pub struct QuoteRequest {
    pub id: u128,
    pub company: String,
    pub contact: String,
    pub product: String,
    pub quantity: i32,
    pub notes: String,
}

pub struct RequestView {
    pub id: u128,
    pub company: Seq<char>,
    pub contact: Seq<char>,
    pub product: Seq<char>,
    pub quantity: i32,
    pub notes: Seq<char>,
}

impl View for QuoteRequest {
    type V = RequestView;

    open spec fn view(&self) -> RequestView {
        RequestView {
            id: self.id,
            company: self.company@,
            contact: self.contact@,
            product: self.product@,
            quantity: self.quantity,
            notes: self.notes@,
        }
    }
}

/// What a request must hold to be saved: company, contact and product not
/// blank and at most 200 characters, a quantity from 1 to 10000, and notes of
/// at most 2000 characters.
pub open spec fn request_acceptable(r: RequestView) -> bool {
    &&& text_ok(r.company, 200)
    &&& text_ok(r.contact, 200)
    &&& text_ok(r.product, 200)
    &&& 1 <= r.quantity <= 10000
    &&& r.notes.len() <= 2000
}

/// Checks a request before it is saved.
pub fn validate_request(r: &QuoteRequest) -> (res: Result<(), ApiError>)
    ensures
        res is Ok <==> request_acceptable(r@),
        res matches Err(e) ==> e@ == ErrorView::BadRequest(request_refused_msg()),
{
    if !text_valid(r.company.as_str(), 200) || !text_valid(r.contact.as_str(), 200)
        || !text_valid(r.product.as_str(), 200) || !(1 <= r.quantity && r.quantity <= 10000)
        || r.notes.as_str().unicode_len() > 2000 {
        return Err(invalid("Revisa empresa, contacto, producto y cantidad (1–10000)."));
    }
    Ok(())
}

/// Whether two requests hold the same values.
pub fn same_request(a: &QuoteRequest, b: &QuoteRequest) -> (r: bool)
    ensures
        r == (a@ == b@),
{
    a.id == b.id && a.company == b.company && a.contact == b.contact && a.product == b.product
        && a.quantity == b.quantity && a.notes == b.notes
}

/// How a save was answered: the request was stored now, or it had been
/// stored before with the same values.
#[derive(Debug, Clone, Copy, PartialEq, Eq, Structural)]
pub enum SaveOutcome {
    Inserted,
    Replayed,
}

/// The answer to saving `submitted`, given whether the store inserted a new
/// row and the request now stored under its id (`None` when what is stored
/// is not a readable request, so not the submitted one).
pub open spec fn save_answer(inserted: bool, stored: Option<RequestView>, submitted: RequestView) -> Result<
    SaveOutcome,
    ErrorView,
> {
    if stored != Some(submitted) {
        Err(ErrorView::Conflict(reused_id_msg()))
    } else if inserted {
        Ok(SaveOutcome::Inserted)
    } else {
        Ok(SaveOutcome::Replayed)
    }
}

pub open spec fn opt_request(o: Option<&QuoteRequest>) -> Option<RequestView> {
    match o {
        Some(r) => Some(r@),
        None => None,
    }
}

pub open spec fn save_view(r: Result<SaveOutcome, ApiError>) -> Result<SaveOutcome, ErrorView> {
    match r {
        Ok(o) => Ok(o),
        Err(e) => Err(e@),
    }
}

/// Decides the answer to a save once the store has tried to insert the
/// request under its id: an id reused for other values is a conflict, a
/// repeated identical request is a replay.
pub fn save_outcome(inserted: bool, stored: Option<&QuoteRequest>, submitted: &QuoteRequest) -> (r:
    Result<SaveOutcome, ApiError>)
    ensures
        save_view(r) == save_answer(inserted, opt_request(stored), submitted@),
{
    let same = match stored {
        Some(st) => same_request(st, submitted),
        None => false,
    };
    if !same {
        return Err(conflict("Identificador reutilizado para otro pedido"));
    }
    if inserted {
        Ok(SaveOutcome::Inserted)
    } else {
        Ok(SaveOutcome::Replayed)
    }
}


/// The answer to a successful save: it is always saved, it says whether it
/// was a replay, and it says that no notification was sent.
#[derive(Debug, Clone, PartialEq, Eq)]
pub struct SaveReply {
    pub saved: bool,
    pub replayed: bool,
    pub notification_status: String,
}

/// The answer to a successful save with outcome `o`.
pub fn save_reply(o: SaveOutcome) -> (r: SaveReply)
    ensures
        r.saved,
        r.replayed == (o == SaveOutcome::Replayed),
        r.notification_status@ == "disabled"@,
{
    SaveReply {
        saved: true,
        replayed: o == SaveOutcome::Replayed,
        notification_status: "disabled".to_owned(),
    }
}

// ---------------------------------------------------------------- quotes

/// Where a quote stands: received, draft being priced, approved by a
/// person, with a frozen proposal, or in follow-up.
#[derive(Debug, Clone, Copy, PartialEq, Eq, Structural)]
pub enum QuoteStatus {
    Received,
    Draft,
    Approved,
    Proposal,
    Followup,
}

/// The text under which a status is stored.
pub open spec fn status_text(s: QuoteStatus) -> Seq<char> {
    match s {
        QuoteStatus::Received => "received"@,
        QuoteStatus::Draft => "draft"@,
        QuoteStatus::Approved => "approved"@,
        QuoteStatus::Proposal => "proposal"@,
        QuoteStatus::Followup => "followup"@,
    }
}

impl QuoteStatus {
    /// The status stored as `s`, if `s` names one.
    pub fn parse(s: &str) -> (r: Option<QuoteStatus>)
        ensures
            r matches Some(st) ==> status_text(st) == s@,
            r is None ==> forall|st: QuoteStatus| status_text(st) != s@,
    {
        if same_text(s, "received") {
            Some(QuoteStatus::Received)
        } else if same_text(s, "draft") {
            Some(QuoteStatus::Draft)
        } else if same_text(s, "approved") {
            Some(QuoteStatus::Approved)
        } else if same_text(s, "proposal") {
            Some(QuoteStatus::Proposal)
        } else if same_text(s, "followup") {
            Some(QuoteStatus::Followup)
        } else {
            proof {
                assert forall|st: QuoteStatus| status_text(st) != s@ by {
                    match st {
                        QuoteStatus::Received => {},
                        QuoteStatus::Draft => {},
                        QuoteStatus::Approved => {},
                        QuoteStatus::Proposal => {},
                        QuoteStatus::Followup => {},
                    }
                }
            }
            None
        }
    }

    /// The text under which this status is stored.
    pub fn as_str(&self) -> (r: &'static str)
        ensures
            r@ == status_text(*self),
    {
        match self {
            QuoteStatus::Received => "received",
            QuoteStatus::Draft => "draft",
            QuoteStatus::Approved => "approved",
            QuoteStatus::Proposal => "proposal",
            QuoteStatus::Followup => "followup",
        }
    }
}

/// The actions an operator can ask for.
#[derive(Debug, Clone, Copy, PartialEq, Eq, Structural)]
pub enum ActionKind {
    Draft,
    Edit,
    Approve,
    Proposal,
    Followup,
}

/// The action named by `s`, if any.
pub open spec fn action_named(s: Seq<char>) -> Option<ActionKind> {
    if s == "draft"@ {
        Some(ActionKind::Draft)
    } else if s == "edit"@ {
        Some(ActionKind::Edit)
    } else if s == "approve"@ {
        Some(ActionKind::Approve)
    } else if s == "proposal"@ {
        Some(ActionKind::Proposal)
    } else if s == "followup"@ {
        Some(ActionKind::Followup)
    } else {
        None
    }
}

/// The action named by `s`, if any.
pub fn parse_action(s: &str) -> (r: Option<ActionKind>)
    ensures
        r == action_named(s@),
{
    if same_text(s, "draft") {
        Some(ActionKind::Draft)
    } else if same_text(s, "edit") {
        Some(ActionKind::Edit)
    } else if same_text(s, "approve") {
        Some(ActionKind::Approve)
    } else if same_text(s, "proposal") {
        Some(ActionKind::Proposal)
    } else if same_text(s, "followup") {
        Some(ActionKind::Followup)
    } else {
        None
    }
}

/// The frozen offer made from an approved quote. Amounts are in cents and
/// the tax in basis points (1800 is 18%); times are microseconds since the
/// Unix epoch.
#[derive(Debug, Clone, PartialEq, Eq)]
pub struct Proposal {
    pub id: u128,
    pub company: String,
    pub contact: String,
    pub product: String,
    pub quantity: i32,
    pub unit_price_cents: i64,
    pub subtotal_cents: i64,
    pub tax_bps: i32,
    pub tax_cents: i64,
    pub total_cents: i64,
    pub currency: String,
    pub terms: String,
    pub approved_by: Option<String>,
    pub approved_at: Option<i64>,
    pub label: String,
}

pub struct ProposalView {
    pub id: u128,
    pub company: Seq<char>,
    pub contact: Seq<char>,
    pub product: Seq<char>,
    pub quantity: i32,
    pub unit_price_cents: i64,
    pub subtotal_cents: int,
    pub tax_bps: i32,
    pub tax_cents: int,
    pub total_cents: int,
    pub currency: Seq<char>,
    pub terms: Seq<char>,
    pub approved_by: Option<Seq<char>>,
    pub approved_at: Option<i64>,
    pub label: Seq<char>,
}

pub open spec fn opt_text(o: Option<String>) -> Option<Seq<char>> {
    match o {
        Some(s) => Some(s@),
        None => None,
    }
}

impl View for Proposal {
    type V = ProposalView;

    open spec fn view(&self) -> ProposalView {
        ProposalView {
            id: self.id,
            company: self.company@,
            contact: self.contact@,
            product: self.product@,
            quantity: self.quantity,
            unit_price_cents: self.unit_price_cents,
            subtotal_cents: self.subtotal_cents as int,
            tax_bps: self.tax_bps,
            tax_cents: self.tax_cents as int,
            total_cents: self.total_cents as int,
            currency: self.currency@,
            terms: self.terms@,
            approved_by: opt_text(self.approved_by),
            approved_at: self.approved_at,
            label: self.label@,
        }
    }
}

/// A stored quote, without the request it was saved from (which no action
/// changes). `id` is its UUID as a 128-bit number; times are microseconds
/// since the Unix epoch.
#[derive(Debug, Clone)]
pub struct Quote {
    pub id: u128,
    pub company: String,
    pub contact: String,
    pub product: String,
    pub quantity: i32,
    pub unit_price_cents: i64,
    pub tax_bps: i32,
    pub currency: String,
    pub terms: String,
    pub status: QuoteStatus,
    pub version: i32,
    pub approved_by: Option<String>,
    pub approved_at: Option<i64>,
    pub proposal: Option<Proposal>,
    pub created_at: i64,
    pub updated_at: i64,
}

pub struct QuoteView {
    pub id: u128,
    pub company: Seq<char>,
    pub contact: Seq<char>,
    pub product: Seq<char>,
    pub quantity: i32,
    pub unit_price_cents: i64,
    pub tax_bps: i32,
    pub currency: Seq<char>,
    pub terms: Seq<char>,
    pub status: QuoteStatus,
    pub version: i32,
    pub approved_by: Option<Seq<char>>,
    pub approved_at: Option<i64>,
    pub proposal: Option<ProposalView>,
    pub created_at: i64,
    pub updated_at: i64,
}

pub open spec fn opt_proposal(o: Option<Proposal>) -> Option<ProposalView> {
    match o {
        Some(p) => Some(p@),
        None => None,
    }
}

impl View for Quote {
    type V = QuoteView;

    open spec fn view(&self) -> QuoteView {
        QuoteView {
            id: self.id,
            company: self.company@,
            contact: self.contact@,
            product: self.product@,
            quantity: self.quantity,
            unit_price_cents: self.unit_price_cents,
            tax_bps: self.tax_bps,
            currency: self.currency@,
            terms: self.terms@,
            status: self.status,
            version: self.version,
            approved_by: opt_text(self.approved_by),
            approved_at: self.approved_at,
            proposal: opt_proposal(self.proposal),
            created_at: self.created_at,
            updated_at: self.updated_at,
        }
    }
}

/// An operator's action on a quote, with the version the operator last saw.
#[derive(Debug, Clone)]
pub struct ActionRequest {
    pub version: i32,
    pub action: String,
    pub quantity: Option<i32>,
    pub unit_price_cents: Option<i64>,
    pub tax_bps: Option<i32>,
    pub currency: Option<String>,
    pub terms: Option<String>,
    pub human_confirmed: bool,
}

pub struct ActionView {
    pub version: i32,
    pub action: Seq<char>,
    pub quantity: Option<i32>,
    pub unit_price_cents: Option<i64>,
    pub tax_bps: Option<i32>,
    pub currency: Option<Seq<char>>,
    pub terms: Option<Seq<char>>,
    pub human_confirmed: bool,
}

impl View for ActionRequest {
    type V = ActionView;

    open spec fn view(&self) -> ActionView {
        ActionView {
            version: self.version,
            action: self.action@,
            quantity: self.quantity,
            unit_price_cents: self.unit_price_cents,
            tax_bps: self.tax_bps,
            currency: opt_text(self.currency),
            terms: opt_text(self.terms),
            human_confirmed: self.human_confirmed,
        }
    }
}

// ---------------------------------------------------------------- amounts

/// The amount before tax.
pub open spec fn subtotal_of(unit_price_cents: int, quantity: int) -> int {
    unit_price_cents * quantity
}

/// Integer division rounding toward zero, as Rust's `/` does.
pub open spec fn div_toward_zero(x: int, d: int) -> int {
    if x >= 0 {
        x / d
    } else {
        -((-x) / d)
    }
}

/// The tax on `subtotal` at `tax_bps` basis points: `subtotal * tax_bps`
/// plus half a cent's worth (5000), divided by 10000. For amounts that are
/// not negative this is the exact tax rounded to the nearest cent, halves up.
pub open spec fn tax_of(subtotal: int, tax_bps: int) -> int {
    div_toward_zero(subtotal * tax_bps + 5000, 10000)
}

pub open spec fn fits_i64(x: int) -> bool {
    i64::MIN <= x <= i64::MAX
}

/// Whether the proposal's amounts for `q` can be computed in 64 bits.
pub open spec fn proposal_fits(q: QuoteView) -> bool {
    let subtotal = subtotal_of(q.unit_price_cents as int, q.quantity as int);
    &&& fits_i64(subtotal)
    &&& fits_i64(subtotal * q.tax_bps)
    &&& fits_i64(subtotal * q.tax_bps + 5000)
    &&& fits_i64(subtotal + tax_of(subtotal, q.tax_bps as int))
}

/// The ranges an edit admits: quantity 1 to 10000, unit price 0 to
/// 1 000 000 000 cents, tax 0 to 10000 basis points.
pub open spec fn in_bounds(q: QuoteView) -> bool {
    &&& 1 <= q.quantity <= 10000
    &&& 0 <= q.unit_price_cents <= 1_000_000_000
    &&& 0 <= q.tax_bps <= 10000
}

/// The proposal made from `q`.
pub open spec fn proposal_of(q: QuoteView) -> ProposalView {
    let subtotal = subtotal_of(q.unit_price_cents as int, q.quantity as int);
    let tax = tax_of(subtotal, q.tax_bps as int);
    ProposalView {
        id: q.id,
        company: q.company,
        contact: q.contact,
        product: q.product,
        quantity: q.quantity,
        unit_price_cents: q.unit_price_cents,
        subtotal_cents: subtotal,
        tax_bps: q.tax_bps,
        tax_cents: tax,
        total_cents: subtotal + tax,
        currency: q.currency,
        terms: q.terms,
        approved_by: q.approved_by,
        approved_at: q.approved_at,
        label: proposal_label(),
    }
}

proof fn lemma_amounts_fit(price: int, quantity: int, bps: int)
    requires
        1 <= quantity <= 10000,
        0 <= price <= 1_000_000_000,
        0 <= bps <= 10000,
    ensures
        0 <= price * quantity <= 10_000_000_000_000,
        0 <= price * quantity * bps <= 100_000_000_000_000_000,
{
    assert(0 <= price * quantity <= 10_000_000_000_000) by (nonlinear_arith)
        requires
            1 <= quantity <= 10000,
            0 <= price <= 1_000_000_000,
    ;
    assert(0 <= price * quantity * bps <= 100_000_000_000_000_000) by (nonlinear_arith)
        requires
            0 <= price * quantity <= 10_000_000_000_000,
            0 <= bps <= 10000,
    ;
}

/// In the admitted ranges the proposal's amounts fit in 64 bits.
pub proof fn lemma_in_bounds_fits(q: QuoteView)
    requires
        in_bounds(q),
    ensures
        proposal_fits(q),
{
    lemma_amounts_fit(q.unit_price_cents as int, q.quantity as int, q.tax_bps as int);
    let s = q.unit_price_cents as int * q.quantity as int;
    assert(s * q.tax_bps == q.unit_price_cents as int * q.quantity as int * q.tax_bps as int);
    assert(0 <= tax_of(s, q.tax_bps as int) <= 10_000_000_000_001);
}

/// The proposal for quote `q`, whose amounts fit in 64 bits.
pub fn make_proposal(q: &Quote) -> (p: Proposal)
    requires
        proposal_fits(q@),
    ensures
        p@ == proposal_of(q@),
{
    let subtotal: i64 = q.unit_price_cents * (q.quantity as i64);
    let tax: i64 = (subtotal * (q.tax_bps as i64) + 5000) / 10000;
    Proposal {
        id: q.id,
        company: q.company.clone(),
        contact: q.contact.clone(),
        product: q.product.clone(),
        quantity: q.quantity,
        unit_price_cents: q.unit_price_cents,
        subtotal_cents: subtotal,
        tax_bps: q.tax_bps,
        tax_cents: tax,
        total_cents: subtotal + tax,
        currency: q.currency.clone(),
        terms: q.terms.clone(),
        approved_by: q.approved_by.clone(),
        approved_at: q.approved_at,
        label: "PILOTO SINTÉTICO · NO ENVIADO".to_owned(),
    }
}

// ---------------------------------------------------------------- transitions

/// The quote after an edit of a draft, or the refusal: each missing value
/// is named in turn, then the ranges, the currency (PEN or USD) and the
/// terms (not blank, at most 2000 characters) are checked.
pub open spec fn edit_step(q: QuoteView, a: ActionView) -> Result<QuoteView, ErrorView> {
    if a.quantity is None {
        Err(ErrorView::BadRequest(missing_quantity_msg()))
    } else if a.unit_price_cents is None {
        Err(ErrorView::BadRequest(missing_price_msg()))
    } else if a.tax_bps is None {
        Err(ErrorView::BadRequest(missing_tax_msg()))
    } else if a.currency is None {
        Err(ErrorView::BadRequest(missing_currency_msg()))
    } else if a.terms is None {
        Err(ErrorView::BadRequest(missing_terms_msg()))
    } else {
        let quantity = a.quantity->0;
        let price = a.unit_price_cents->0;
        let tax = a.tax_bps->0;
        let currency = a.currency->0;
        let terms = a.terms->0;
        if !(1 <= quantity <= 10000) || !(0 <= price <= 1_000_000_000) || !(0 <= tax <= 10000)
            || !(currency == "PEN"@ || currency == "USD"@) || !text_ok(terms, 2000) {
            Err(ErrorView::BadRequest(edit_refused_msg()))
        } else {
            Ok(
                QuoteView {
                    quantity: quantity,
                    unit_price_cents: price,
                    tax_bps: tax,
                    currency: currency,
                    terms: terms,
                    ..q
                },
            )
        }
    }
}

/// The answer to action `a` on quote `q` by operator `actor` at time `now`:
/// a stale version is a conflict; received quotes become drafts; drafts are
/// edited or, with a person's confirmation, a positive price and terms,
/// approved; approved quotes get their proposal; proposals go to
/// follow-up; every other pairing is a conflict. The stored version is
/// advanced by the store on every success.
pub open spec fn step(q: QuoteView, a: ActionView, actor: Seq<char>, now: i64) -> Result<
    QuoteView,
    ErrorView,
> {
    if a.version != q.version {
        Err(ErrorView::Conflict(stale_version_msg()))
    } else {
        match (q.status, action_named(a.action)) {
            (QuoteStatus::Received, Some(ActionKind::Draft)) => Ok(
                QuoteView { status: QuoteStatus::Draft, ..q },
            ),
            (QuoteStatus::Draft, Some(ActionKind::Edit)) => edit_step(q, a),
            (QuoteStatus::Draft, Some(ActionKind::Approve)) => {
                if !a.human_confirmed || q.unit_price_cents <= 0 || trim(q.terms).len() == 0 {
                    Err(ErrorView::BadRequest(approval_refused_msg()))
                } else {
                    Ok(
                        QuoteView {
                            status: QuoteStatus::Approved,
                            approved_by: Some(actor),
                            approved_at: Some(now),
                            ..q
                        },
                    )
                }
            },
            (QuoteStatus::Approved, Some(ActionKind::Proposal)) => Ok(
                QuoteView { proposal: Some(proposal_of(q)), status: QuoteStatus::Proposal, ..q },
            ),
            (QuoteStatus::Proposal, Some(ActionKind::Followup)) => Ok(
                QuoteView { status: QuoteStatus::Followup, ..q },
            ),
            _ => Err(ErrorView::Conflict(transition_refused_msg())),
        }
    }
}

/// Whether action `a` on `q` would make the proposal, whose amounts must
/// then fit in 64 bits.
pub open spec fn proposal_due(q: QuoteView, a: ActionView) -> bool {
    &&& a.version == q.version
    &&& q.status == QuoteStatus::Approved
    &&& action_named(a.action) == Some(ActionKind::Proposal)
}

pub open spec fn step_view(r: Result<Quote, ApiError>) -> Result<QuoteView, ErrorView> {
    match r {
        Ok(q) => Ok(q@),
        Err(e) => Err(e@),
    }
}

impl Quote {
    /// Whether the amounts lie in the ranges an edit admits.
    pub fn in_bounds(&self) -> (b: bool)
        ensures
            b == in_bounds(self@),
    {
        1 <= self.quantity && self.quantity <= 10000 && 0 <= self.unit_price_cents
            && self.unit_price_cents <= 1_000_000_000 && 0 <= self.tax_bps && self.tax_bps
            <= 10000
    }

    /// Whether the proposal's amounts for this quote fit in 64 bits.
    pub fn proposal_fits(&self) -> (b: bool)
        ensures
            b == proposal_fits(self@),
    {
        let price = self.unit_price_cents as i128;
        let quantity = self.quantity as i128;
        let bps = self.tax_bps as i128;
        assert(-0x4000_0000_0000_0000_0000_0000 <= price * quantity <= 0x4000_0000_0000_0000_0000_0000)
            by (nonlinear_arith)
            requires
                -0x8000_0000_0000_0000 <= price <= 0x7fff_ffff_ffff_ffff,
                -0x8000_0000 <= quantity <= 0x7fff_ffff,
        ;
        let subtotal: i128 = price * quantity;
        assert(-0x2000_0000_0000_0000_0000_0000_0000_0000 <= subtotal * bps
            <= 0x2000_0000_0000_0000_0000_0000_0000_0000) by (nonlinear_arith)
            requires
                -0x4000_0000_0000_0000_0000_0000 <= subtotal <= 0x4000_0000_0000_0000_0000_0000,
                -0x8000_0000 <= bps <= 0x7fff_ffff,
        ;
        let scaled: i128 = subtotal * bps;
        let rounded: i128 = scaled + 5000;
        let tax: i128 = rounded / 10000;
        let lo: i128 = -0x8000_0000_0000_0000;
        let hi: i128 = 0x7fff_ffff_ffff_ffff;
        lo <= subtotal && subtotal <= hi && lo <= scaled && scaled <= hi && lo <= rounded
            && rounded <= hi && lo <= subtotal + tax && subtotal + tax <= hi
    }

    /// Whether action `p` on this quote would make the proposal.
    pub fn proposal_due(&self, p: &ActionRequest) -> (b: bool)
        ensures
            b == proposal_due(self@, p@),
    {
        p.version == self.version && self.status == QuoteStatus::Approved && parse_action(
            p.action.as_str(),
        ) == Some(ActionKind::Proposal)
    }
}

/// Applies action `p` to quote `q` for operator `actor` at time `now`
/// (microseconds since the Unix epoch).
pub fn apply_action(q: Quote, p: ActionRequest, actor: &str, now: i64) -> (r: Result<
    Quote,
    ApiError,
>)
    requires
        proposal_due(q@, p@) ==> proposal_fits(q@),
    ensures
        step_view(r) == step(q@, p@, actor@, now),
{
    if q.version != p.version {
        return Err(conflict("Otro usuario modificó el pedido. Recarga antes de continuar."));
    }
    let kind = parse_action(p.action.as_str());
    let mut q = q;
    match (q.status, kind) {
        (QuoteStatus::Received, Some(ActionKind::Draft)) => {
            q.status = QuoteStatus::Draft;
        },
        (QuoteStatus::Draft, Some(ActionKind::Edit)) => {
            let quantity = match p.quantity {
                Some(v) => v,
                None => return Err(invalid("Falta cantidad")),
            };
            let price = match p.unit_price_cents {
                Some(v) => v,
                None => return Err(invalid("Falta precio en céntimos")),
            };
            let tax = match p.tax_bps {
                Some(v) => v,
                None => return Err(invalid("Falta impuesto en puntos básicos")),
            };
            let currency = match p.currency {
                Some(v) => v,
                None => return Err(invalid("Falta moneda")),
            };
            let terms = match p.terms {
                Some(v) => v,
                None => return Err(invalid("Faltan condiciones")),
            };
            let currency_ok = same_text(currency.as_str(), "PEN") || same_text(
                currency.as_str(),
                "USD",
            );
            if !(1 <= quantity && quantity <= 10000) || !(0 <= price && price <= 1_000_000_000)
                || !(0 <= tax && tax <= 10000) || !currency_ok || !text_valid(
                terms.as_str(),
                2000,
            ) {
                return Err(invalid("Importes, cantidad, moneda o condiciones inválidos"));
            }
            q.quantity = quantity;
            q.unit_price_cents = price;
            q.tax_bps = tax;
            q.currency = currency;
            q.terms = terms;
        },
        (QuoteStatus::Draft, Some(ActionKind::Approve)) => {
            proof {
                lemma_trim_empty_iff_blank(q.terms@);
            }
            if !p.human_confirmed || q.unit_price_cents <= 0 || is_blank(q.terms.as_str()) {
                return Err(
                    invalid(
                        "Revisa precio positivo, impuestos y condiciones; confirma la aprobación humana.",
                    ),
                );
            }
            q.status = QuoteStatus::Approved;
            q.approved_by = Some(actor.to_owned());
            q.approved_at = Some(now);
        },
        (QuoteStatus::Approved, Some(ActionKind::Proposal)) => {
            let proposal = make_proposal(&q);
            q.proposal = Some(proposal);
            q.status = QuoteStatus::Proposal;
        },
        (QuoteStatus::Proposal, Some(ActionKind::Followup)) => {
            q.status = QuoteStatus::Followup;
        },
        _ => {
            return Err(conflict("Transición no permitida. Revisa el estado actual."));
        },
    }
    Ok(q)
}

/// The answer to any action on a quote whose stored status names no
/// status of the workflow: a stale version, or else a refused transition.
pub fn refuse_unknown_status(version: i32, p: &ActionRequest) -> (e: ApiError)
    ensures
        e@ == (if p.version != version {
            ErrorView::Conflict(stale_version_msg())
        } else {
            ErrorView::Conflict(transition_refused_msg())
        }),
{
    if p.version != version {
        conflict("Otro usuario modificó el pedido. Recarga antes de continuar.")
    } else {
        conflict("Transición no permitida. Revisa el estado actual.")
    }
}

/// Reads the system clock through `chrono::Utc::now`, as microseconds since
/// the Unix epoch (`DateTime::timestamp_micros`). Nothing is stated of the
/// value: it is whatever the clock reads.
#[verifier::external_body]
fn utc_now_micros() -> (t: i64) {
    chrono::Utc::now().timestamp_micros()
}

/// Applies action `p` to quote `q` for operator `actor`, stamping an
/// approval with the current time.
pub fn apply_action_now(q: Quote, p: ActionRequest, actor: &str) -> (r: Result<Quote, ApiError>)
    requires
        proposal_due(q@, p@) ==> proposal_fits(q@),
    ensures
        exists|now: i64| step_view(r) == step(q@, p@, actor@, now),
{
    let now = utc_now_micros();
    apply_action(q, p, actor, now)
}

} // verus!
