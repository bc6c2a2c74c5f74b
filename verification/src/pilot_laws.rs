//! What holds of the pilot workflow over every quote and every action.

use vstd::prelude::*;

use crate::error::ErrorView;
use crate::pilot::{
    action_named, in_bounds, proposal_of, reused_id_msg, save_answer, stale_version_msg, step,
    edit_refused_msg, request_acceptable, status_text, subtotal_of, tax_of, transition_refused_msg, ActionKind,
    ActionView, QuoteStatus, QuoteView, RequestView, SaveOutcome,
};
use crate::text::{blank, lemma_trim_empty_iff_blank, trim};

verus! {

/// The shape of a quote that only the workflow has touched: before approval
/// it has no approver and no proposal; once approved it names its approver
/// and time; from the proposal on it holds the proposal made from its own
/// current values.
pub open spec fn consistent(q: QuoteView) -> bool {
    match q.status {
        QuoteStatus::Received | QuoteStatus::Draft => {
            &&& q.proposal is None
            &&& q.approved_by is None
            &&& q.approved_at is None
        },
        QuoteStatus::Approved => {
            &&& q.proposal is None
            &&& q.approved_by is Some
            &&& q.approved_at is Some
        },
        QuoteStatus::Proposal | QuoteStatus::Followup => {
            &&& q.approved_by is Some
            &&& q.approved_at is Some
            &&& q.proposal == Some(proposal_of(q))
        },
    }
}

/// The moves the workflow allows between statuses.
pub open spec fn allowed_move(from: QuoteStatus, to: QuoteStatus) -> bool {
    ||| from == QuoteStatus::Received && to == QuoteStatus::Draft
    ||| from == QuoteStatus::Draft && to == QuoteStatus::Draft
    ||| from == QuoteStatus::Draft && to == QuoteStatus::Approved
    ||| from == QuoteStatus::Approved && to == QuoteStatus::Proposal
    ||| from == QuoteStatus::Proposal && to == QuoteStatus::Followup
}

/// Whether the status lies at or after approval.
pub open spec fn approved_or_later(s: QuoteStatus) -> bool {
    s == QuoteStatus::Approved || s == QuoteStatus::Proposal || s == QuoteStatus::Followup
}

/// An action with a version other than the stored one is answered with a
/// conflict, whatever the action.
pub proof fn lemma_stale_version_conflicts(q: QuoteView, a: ActionView, actor: Seq<char>, now: i64)
    requires
        a.version != q.version,
    ensures
        step(q, a, actor, now) == Err::<QuoteView, ErrorView>(
            ErrorView::Conflict(stale_version_msg()),
        ),
{
}

/// A successful action moves the status only along the workflow and keeps
/// the quote's identity, its version (which the store then
/// advances) and its creation time.
pub proof fn lemma_only_workflow_moves(q: QuoteView, a: ActionView, actor: Seq<char>, now: i64)
    requires
        step(q, a, actor, now) is Ok,
    ensures
        ({
            let q2 = step(q, a, actor, now)->Ok_0;
            &&& allowed_move(q.status, q2.status)
            &&& q2.id == q.id
            &&& q2.version == q.version
            &&& q2.created_at == q.created_at
        }),
{
}

/// Any action that does not fit the current status is answered with a
/// conflict; in particular nothing can be edited after approval.
pub proof fn lemma_other_moves_conflict(q: QuoteView, a: ActionView, actor: Seq<char>, now: i64)
    requires
        a.version == q.version,
        !(q.status == QuoteStatus::Received && action_named(a.action) == Some(ActionKind::Draft)),
        !(q.status == QuoteStatus::Draft && action_named(a.action) == Some(ActionKind::Edit)),
        !(q.status == QuoteStatus::Draft && action_named(a.action) == Some(ActionKind::Approve)),
        !(q.status == QuoteStatus::Approved && action_named(a.action) == Some(
            ActionKind::Proposal,
        )),
        !(q.status == QuoteStatus::Proposal && action_named(a.action) == Some(
            ActionKind::Followup,
        )),
    ensures
        step(q, a, actor, now) == Err::<QuoteView, ErrorView>(
            ErrorView::Conflict(transition_refused_msg()),
        ),
{
}

/// Approval happens only with a person's confirmation, a positive unit
/// price and terms that are not blank, and records who approved and when.
pub proof fn lemma_approval_needs_person(q: QuoteView, a: ActionView, actor: Seq<char>, now: i64)
    requires
        step(q, a, actor, now) is Ok,
        step(q, a, actor, now)->Ok_0.status == QuoteStatus::Approved,
    ensures
        q.status == QuoteStatus::Draft,
        a.human_confirmed,
        q.unit_price_cents > 0,
        trim(q.terms).len() > 0,
        step(q, a, actor, now)->Ok_0.approved_by == Some(actor),
        step(q, a, actor, now)->Ok_0.approved_at == Some(now),
{
}

/// Once a quote is approved, no action changes its quantity, price, tax,
/// currency, terms, approver or approval time, and in a consistent quote a
/// proposal, once made, never changes.
pub proof fn lemma_frozen_after_approval(q: QuoteView, a: ActionView, actor: Seq<char>, now: i64)
    requires
        approved_or_later(q.status),
        step(q, a, actor, now) is Ok,
    ensures
        ({
            let q2 = step(q, a, actor, now)->Ok_0;
            &&& q2.quantity == q.quantity
            &&& q2.unit_price_cents == q.unit_price_cents
            &&& q2.tax_bps == q.tax_bps
            &&& q2.currency == q.currency
            &&& q2.terms == q.terms
            &&& q2.approved_by == q.approved_by
            &&& q2.approved_at == q.approved_at
            &&& consistent(q) && q.proposal is Some ==> q2.proposal == q.proposal
        }),
{
}

/// Every successful action keeps a quote consistent: the proposal always
/// shows the values the quote was approved with.
pub proof fn lemma_step_keeps_consistent(q: QuoteView, a: ActionView, actor: Seq<char>, now: i64)
    requires
        consistent(q),
        step(q, a, actor, now) is Ok,
    ensures
        consistent(step(q, a, actor, now)->Ok_0),
{
    let q2 = step(q, a, actor, now)->Ok_0;
    if q.status == QuoteStatus::Approved || q.status == QuoteStatus::Proposal {
        assert(proposal_of(q2) == proposal_of(q));
    }
}

/// Every successful action keeps the amounts in their admitted ranges.
pub proof fn lemma_step_keeps_in_bounds(q: QuoteView, a: ActionView, actor: Seq<char>, now: i64)
    requires
        in_bounds(q),
        step(q, a, actor, now) is Ok,
    ensures
        in_bounds(step(q, a, actor, now)->Ok_0),
{
}

/// The tax is the exact tax rounded to the nearest cent, halves up:
/// `10000 * tax` lies within half a cent below or at most half a cent
/// above `subtotal * tax_bps`.
pub proof fn lemma_tax_rounds_half_up(subtotal: int, tax_bps: int)
    requires
        subtotal >= 0,
        tax_bps >= 0,
    ensures
        10000 * tax_of(subtotal, tax_bps) <= subtotal * tax_bps + 5000,
        subtotal * tax_bps + 5000 < 10000 * tax_of(subtotal, tax_bps) + 10000,
{
    let x = subtotal * tax_bps + 5000;
    assert(subtotal * tax_bps >= 0) by (nonlinear_arith)
        requires
            subtotal >= 0,
            tax_bps >= 0,
    ;
    vstd::arithmetic::div_mod::lemma_fundamental_div_mod(x, 10000);
}

/// A proposal's amounts: subtotal is unit price times quantity, the tax is
/// rounded half up, and the total is subtotal plus tax.
pub proof fn lemma_proposal_amounts(q: QuoteView)
    requires
        in_bounds(q),
    ensures
        proposal_of(q).subtotal_cents == q.unit_price_cents * q.quantity,
        proposal_of(q).total_cents == proposal_of(q).subtotal_cents + proposal_of(q).tax_cents,
        10000 * proposal_of(q).tax_cents <= proposal_of(q).subtotal_cents * q.tax_bps + 5000,
        proposal_of(q).subtotal_cents * q.tax_bps + 5000 < 10000 * proposal_of(q).tax_cents
            + 10000,
{
    let s = q.unit_price_cents * q.quantity;
    assert(q.unit_price_cents * q.quantity >= 0) by (nonlinear_arith)
        requires
            q.unit_price_cents >= 0,
            q.quantity >= 1,
    ;
    lemma_tax_rounds_half_up(s, q.tax_bps as int);
}

/// Saving is idempotent: the same request under the same id is stored once
/// and then answered as a replay; other values under a stored id are a
/// conflict, never a second record.
pub proof fn lemma_save_idempotent(stored: Option<RequestView>, submitted: RequestView)
    ensures
        stored == Some(submitted) ==> save_answer(true, stored, submitted) == Ok::<
            SaveOutcome,
            ErrorView,
        >(SaveOutcome::Inserted) && save_answer(false, stored, submitted) == Ok::<
            SaveOutcome,
            ErrorView,
        >(SaveOutcome::Replayed),
        stored != Some(submitted) ==> save_answer(true, stored, submitted) == Err::<
            SaveOutcome,
            ErrorView,
        >(ErrorView::Conflict(reused_id_msg())) && save_answer(false, stored, submitted)
            == Err::<SaveOutcome, ErrorView>(ErrorView::Conflict(reused_id_msg())),
{
}

/// Distinct statuses are stored under distinct texts, so a status written
/// with `QuoteStatus::as_str` is read back by `QuoteStatus::parse` as itself.
pub proof fn lemma_status_text_injective(a: QuoteStatus, b: QuoteStatus)
    ensures
        status_text(a) == status_text(b) ==> a == b,
{
    reveal_strlit("received");
    reveal_strlit("draft");
    reveal_strlit("approved");
    reveal_strlit("proposal");
    reveal_strlit("followup");
    if status_text(a) == status_text(b) && a != b {
        assert(status_text(a)[0] != status_text(b)[0] || status_text(a).len() != status_text(
            b,
        ).len());
    }
}

/// The texts that name the actions differ from one another.
pub proof fn lemma_action_names_distinct()
    ensures
        "draft"@.len() == 5,
        "edit"@.len() == 4,
        "approve"@.len() == 7,
        "proposal"@.len() == 8,
        "followup"@.len() == 8,
        "proposal"@[0] != "followup"@[0],
{
    reveal_strlit("draft");
    reveal_strlit("edit");
    reveal_strlit("approve");
    reveal_strlit("proposal");
    reveal_strlit("followup");
}

/// A successful edit of a draft stores exactly the submitted values: for a
/// draft quote and an `edit` action at the current version whose quantity
/// (1 to 10000), unit price (0 to 1 000 000 000 cents), tax (0 to 10000
/// basis points), currency (PEN or USD) and terms (not blank, at most 2000
/// characters) are all given, the quote keeps its status and holds those
/// values, and nothing else changes.
pub proof fn lemma_edit_stores_values(
    q: QuoteView,
    a: ActionView,
    actor: Seq<char>,
    now: i64,
    quantity: i32,
    price: i64,
    tax: i32,
    currency: Seq<char>,
    terms: Seq<char>,
)
    requires
        q.status == QuoteStatus::Draft,
        a.version == q.version,
        a.action == "edit"@,
        a.quantity == Some(quantity),
        a.unit_price_cents == Some(price),
        a.tax_bps == Some(tax),
        a.currency == Some(currency),
        a.terms == Some(terms),
        1 <= quantity <= 10000,
        0 <= price <= 1_000_000_000,
        0 <= tax <= 10000,
        currency == "PEN"@ || currency == "USD"@,
        !blank(terms),
        terms.len() <= 2000,
    ensures
        step(q, a, actor, now) is Ok,
        ({
            let q2 = step(q, a, actor, now)->Ok_0;
            &&& q2.quantity == quantity
            &&& q2.unit_price_cents == price
            &&& q2.tax_bps == tax
            &&& q2.currency == currency
            &&& q2.terms == terms
            &&& q2.status == QuoteStatus::Draft
            &&& q2.id == q.id
            &&& q2.company == q.company
            &&& q2.contact == q.contact
            &&& q2.product == q.product
            &&& q2.version == q.version
            &&& q2.approved_by == q.approved_by
            &&& q2.approved_at == q.approved_at
            &&& q2.proposal == q.proposal
        }),
{
    lemma_action_names_distinct();
    lemma_trim_empty_iff_blank(terms);
    assert(action_named(a.action) == Some(ActionKind::Edit));
}

/// Approval succeeds whenever its conditions hold: a draft quote at the
/// current version, with the person's confirmation, a positive unit price
/// and terms that are not blank, is approved by the acting operator at the
/// given time, whatever its currency, and keeps all its priced values.
pub proof fn lemma_approval_succeeds(q: QuoteView, a: ActionView, actor: Seq<char>, now: i64)
    requires
        q.status == QuoteStatus::Draft,
        a.version == q.version,
        a.action == "approve"@,
        a.human_confirmed,
        q.unit_price_cents > 0,
        !blank(q.terms),
    ensures
        step(q, a, actor, now) is Ok,
        ({
            let q2 = step(q, a, actor, now)->Ok_0;
            &&& q2.status == QuoteStatus::Approved
            &&& q2.approved_by == Some(actor)
            &&& q2.approved_at == Some(now)
            &&& q2.quantity == q.quantity
            &&& q2.unit_price_cents == q.unit_price_cents
            &&& q2.tax_bps == q.tax_bps
            &&& q2.currency == q.currency
            &&& q2.terms == q.terms
            &&& q2.proposal == q.proposal
            &&& q2.version == q.version
        }),
{
    lemma_action_names_distinct();
    lemma_trim_empty_iff_blank(q.terms);
    assert(action_named(a.action) == Some(ActionKind::Approve));
}

/// The proposal is a snapshot of the quote: its id, company, contact,
/// product, quantity, unit price, tax rate, currency, terms, approver and
/// approval time are the quote's; its subtotal is unit price times quantity
/// and its total is subtotal plus tax.
pub proof fn lemma_proposal_is_snapshot(q: QuoteView)
    ensures
        proposal_of(q).id == q.id,
        proposal_of(q).company == q.company,
        proposal_of(q).contact == q.contact,
        proposal_of(q).product == q.product,
        proposal_of(q).quantity == q.quantity,
        proposal_of(q).unit_price_cents == q.unit_price_cents,
        proposal_of(q).tax_bps == q.tax_bps,
        proposal_of(q).currency == q.currency,
        proposal_of(q).terms == q.terms,
        proposal_of(q).approved_by == q.approved_by,
        proposal_of(q).approved_at == q.approved_at,
        proposal_of(q).subtotal_cents == q.unit_price_cents * q.quantity,
        proposal_of(q).total_cents == proposal_of(q).subtotal_cents + proposal_of(q).tax_cents,
{
}

/// Making the proposal of an approved quote at the current version
/// succeeds, moves it to the proposal status and attaches the snapshot of
/// its own values, leaving those values as they were.
pub proof fn lemma_proposal_step_snapshots(q: QuoteView, a: ActionView, actor: Seq<char>, now: i64)
    requires
        q.status == QuoteStatus::Approved,
        a.version == q.version,
        a.action == "proposal"@,
    ensures
        step(q, a, actor, now) is Ok,
        ({
            let q2 = step(q, a, actor, now)->Ok_0;
            &&& q2.status == QuoteStatus::Proposal
            &&& q2.proposal is Some
            &&& q2.proposal->0.currency == q.currency
            &&& q2.proposal->0.terms == q.terms
            &&& q2.proposal->0.quantity == q.quantity
            &&& q2.proposal->0.unit_price_cents == q.unit_price_cents
            &&& q2.proposal->0.tax_bps == q.tax_bps
            &&& q2.proposal->0.approved_by == q.approved_by
            &&& q2.proposal->0.approved_at == q.approved_at
            &&& q2.proposal->0.id == q.id
            &&& q2.currency == q.currency
            &&& q2.terms == q.terms
        }),
{
    lemma_action_names_distinct();
    assert(action_named(a.action) == Some(ActionKind::Proposal));
}

/// A request is accepted exactly when company, contact and product each
/// hold a character that is not white space and have at most 200
/// characters, the quantity is 1 to 10000 and the notes have at most 2000
/// characters; in particular a blank company, contact or product is refused.
pub proof fn lemma_request_acceptance(r: RequestView)
    ensures
        request_acceptable(r) <==> (!blank(r.company) && r.company.len() <= 200 && !blank(
            r.contact,
        ) && r.contact.len() <= 200 && !blank(r.product) && r.product.len() <= 200 && 1
            <= r.quantity <= 10000 && r.notes.len() <= 2000),
        blank(r.company) || blank(r.contact) || blank(r.product) ==> !request_acceptable(r),
{
    lemma_trim_empty_iff_blank(r.company);
    lemma_trim_empty_iff_blank(r.contact);
    lemma_trim_empty_iff_blank(r.product);
}

/// Drafting a received quote and following up a proposal change only the
/// status: every value, the approver and the proposal stay as they were.
pub proof fn lemma_status_only_moves(q: QuoteView, a: ActionView, actor: Seq<char>, now: i64)
    requires
        a.version == q.version,
        (q.status == QuoteStatus::Received && a.action == "draft"@) || (q.status
            == QuoteStatus::Proposal && a.action == "followup"@),
    ensures
        step(q, a, actor, now) is Ok,
        ({
            let q2 = step(q, a, actor, now)->Ok_0;
            &&& q2.status == (if q.status == QuoteStatus::Received {
                QuoteStatus::Draft
            } else {
                QuoteStatus::Followup
            })
            &&& q2 == QuoteView { status: q2.status, ..q }
        }),
{
    lemma_action_names_distinct();
    if q.status == QuoteStatus::Received {
        assert(action_named(a.action) == Some(ActionKind::Draft));
    } else {
        assert(action_named(a.action) == Some(ActionKind::Followup));
    }
}

/// An edit of a draft whose values are all given but one of them lies
/// outside its range (quantity 1 to 10000, price 0 to 1 000 000 000, tax 0
/// to 10000, currency PEN or USD, terms not blank and at most 2000
/// characters) is refused as a bad request.
pub proof fn lemma_edit_out_of_range_refused(q: QuoteView, a: ActionView, actor: Seq<char>, now: i64)
    requires
        q.status == QuoteStatus::Draft,
        a.version == q.version,
        a.action == "edit"@,
        a.quantity is Some,
        a.unit_price_cents is Some,
        a.tax_bps is Some,
        a.currency is Some,
        a.terms is Some,
        !(1 <= a.quantity->0 <= 10000) || !(0 <= a.unit_price_cents->0 <= 1_000_000_000) || !(0
            <= a.tax_bps->0 <= 10000) || !(a.currency->0 == "PEN"@ || a.currency->0 == "USD"@)
            || blank(a.terms->0) || a.terms->0.len() > 2000,
    ensures
        step(q, a, actor, now) == Err::<QuoteView, ErrorView>(
            ErrorView::BadRequest(edit_refused_msg()),
        ),
{
    lemma_action_names_distinct();
    lemma_trim_empty_iff_blank(a.terms->0);
    assert(action_named(a.action) == Some(ActionKind::Edit));
}

} // verus!
