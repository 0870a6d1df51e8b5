//! Onboarding: the profile of the current user, and the transition that
//! writes it and marks the user as onboarded.
//!
//! The transition touches three places that share no transaction: the
//! profile row in the user's store, the flag in the global store, and the
//! flag in the session marker. They are written in this order, which is the
//! order of the plan; a plan that was cut short is taken up by running the
//! whole of it again.

use vstd::prelude::*;
use crate::account::root_location;
use crate::assoc::lemma_lookup_push;
use crate::error::StoreError;
use crate::path::{
    get_app_data_path, global_db_location, global_db_path, user_db_location, user_db_path,
    AppDataPath, StorePathView,
};
use crate::schema::{profile_schema, profile_script};
use crate::session::{
    current_user_db, get_current_user_db_path, lemma_session_round_trip, load_session,
    marker_after_all,
    marker_session, session_doc, store_session, MarkerView, SessionMarker, UserSession,
    UserSessionView,
};
use crate::sql::{
    counter_column, text_column, text_param, upsert, upsert_sql, Action, ActionView, Plan,
    PlanView, Row, RowView, SqlValue, SqlValueView, Statement, StatementView,
};
use crate::stamp::now_rfc3339;

verus! {

/// The business identity of a user: one row of the user's store.
#[derive(Debug, Clone, PartialEq)]
pub struct Profile {
    pub company_name: String,
    pub gst_number: String,
    pub address: String,
    pub city: String,
    pub state: String,
    pub pincode: String,
    pub phone: String,
    pub email: String,
    pub bank_name: String,
    pub bank_branch: String,
    pub bank_ifsc: String,
    pub bank_account_name: String,
    pub bank_account_number: String,
    pub invoice_prefix: String,
    pub next_invoice_number: u32,
    pub next_debit_number: u32,
    pub next_credit_number: u32,
}

/// A profile as the contracts see it.
pub struct ProfileView {
    pub company_name: Seq<char>,
    pub gst_number: Seq<char>,
    pub address: Seq<char>,
    pub city: Seq<char>,
    pub state: Seq<char>,
    pub pincode: Seq<char>,
    pub phone: Seq<char>,
    pub email: Seq<char>,
    pub bank_name: Seq<char>,
    pub bank_branch: Seq<char>,
    pub bank_ifsc: Seq<char>,
    pub bank_account_name: Seq<char>,
    pub bank_account_number: Seq<char>,
    pub invoice_prefix: Seq<char>,
    pub next_invoice_number: u32,
    pub next_debit_number: u32,
    pub next_credit_number: u32,
}

impl DeepView for Profile {
    type V = ProfileView;

    open spec fn deep_view(&self) -> ProfileView {
        ProfileView {
            company_name: self.company_name@,
            gst_number: self.gst_number@,
            address: self.address@,
            city: self.city@,
            state: self.state@,
            pincode: self.pincode@,
            phone: self.phone@,
            email: self.email@,
            bank_name: self.bank_name@,
            bank_branch: self.bank_branch@,
            bank_ifsc: self.bank_ifsc@,
            bank_account_name: self.bank_account_name@,
            bank_account_number: self.bank_account_number@,
            invoice_prefix: self.invoice_prefix@,
            next_invoice_number: self.next_invoice_number,
            next_debit_number: self.next_debit_number,
            next_credit_number: self.next_credit_number,
        }
    }
}

impl View for Profile {
    type V = ProfileView;

    open spec fn view(&self) -> ProfileView {
        self.deep_view()
    }
}

/// The text of the statement that marks an identity as onboarded.
pub const SET_ONBOARDED: &'static str = "UPDATE users SET is_onboarded = 1 WHERE email = ?1";

/// The text of the statement that asks for the profile.
pub const SELECT_PROFILE: &'static str =
    "SELECT company_name, gst_number, phone, email, address, city, state, \
     pincode, bank_name, bank_branch, bank_ifsc, bank_account_name, \
     bank_account_number, invoice_prefix, next_invoice_number, \
     next_debit_number, next_credit_number FROM profile LIMIT 1";

/// The row that is written for a profile at the moment `now`: the fixed key
/// of the one row, the fields of the profile, and the moment of writing.
pub open spec fn profile_cells(profile: ProfileView, now: Seq<char>) -> RowView {
    Seq::empty().push(("id"@, SqlValueView::Text("profile"@))).push(
        ("company_name"@, SqlValueView::Text(profile.company_name)),
    ).push(
        ("gst_number"@, SqlValueView::Text(profile.gst_number)),
    ).push(
        ("address"@, SqlValueView::Text(profile.address)),
    ).push(
        ("city"@, SqlValueView::Text(profile.city)),
    ).push(
        ("state"@, SqlValueView::Text(profile.state)),
    ).push(
        ("pincode"@, SqlValueView::Text(profile.pincode)),
    ).push(
        ("phone"@, SqlValueView::Text(profile.phone)),
    ).push(
        ("email"@, SqlValueView::Text(profile.email)),
    ).push(
        ("bank_name"@, SqlValueView::Text(profile.bank_name)),
    ).push(
        ("bank_branch"@, SqlValueView::Text(profile.bank_branch)),
    ).push(
        ("bank_ifsc"@, SqlValueView::Text(profile.bank_ifsc)),
    ).push(
        ("bank_account_name"@, SqlValueView::Text(profile.bank_account_name)),
    ).push(
        ("bank_account_number"@, SqlValueView::Text(profile.bank_account_number)),
    ).push(
        ("invoice_prefix"@, SqlValueView::Text(profile.invoice_prefix)),
    ).push(
        ("next_invoice_number"@, SqlValueView::Integer(profile.next_invoice_number as i64)),
    ).push(
        ("next_debit_number"@, SqlValueView::Integer(profile.next_debit_number as i64)),
    ).push(
        ("next_credit_number"@, SqlValueView::Integer(profile.next_credit_number as i64)),
    ).push(("updated_at"@, SqlValueView::Text(now)))
}

/// The names of the columns of the profile table differ from each other.
proof fn lemma_profile_columns()
    ensures
        "id"@.len() == 2,
        "company_name"@.len() == 12,
        "gst_number"@.len() == 10,
        "address"@.len() == 7,
        "city"@.len() == 4,
        "state"@.len() == 5,
        "pincode"@.len() == 7,
        "phone"@.len() == 5,
        "email"@.len() == 5,
        "bank_name"@.len() == 9,
        "bank_branch"@.len() == 11,
        "bank_ifsc"@.len() == 9,
        "bank_account_name"@.len() == 17,
        "bank_account_number"@.len() == 19,
        "invoice_prefix"@.len() == 14,
        "next_invoice_number"@.len() == 19,
        "next_debit_number"@.len() == 17,
        "next_credit_number"@.len() == 18,
        "updated_at"@.len() == 10,
        "gst_number"@[0] != "updated_at"@[0],
        "address"@[0] != "pincode"@[0],
        "state"@[0] != "phone"@[0],
        "state"@[0] != "email"@[0],
        "phone"@[0] != "email"@[0],
        "bank_name"@[5] != "bank_ifsc"@[5],
        "bank_account_name"@[0] != "next_debit_number"@[0],
        "bank_account_number"@[0] != "next_invoice_number"@[0],
{
    reveal_strlit("id");
    reveal_strlit("company_name");
    reveal_strlit("gst_number");
    reveal_strlit("address");
    reveal_strlit("city");
    reveal_strlit("state");
    reveal_strlit("pincode");
    reveal_strlit("phone");
    reveal_strlit("email");
    reveal_strlit("bank_name");
    reveal_strlit("bank_branch");
    reveal_strlit("bank_ifsc");
    reveal_strlit("bank_account_name");
    reveal_strlit("bank_account_number");
    reveal_strlit("invoice_prefix");
    reveal_strlit("next_invoice_number");
    reveal_strlit("next_debit_number");
    reveal_strlit("next_credit_number");
    reveal_strlit("updated_at");
}

/// The row that is written for a profile holds that profile: the profile
/// that onboarding wrote is read back field for field.
pub proof fn lemma_profile_read_back(profile: ProfileView, now: Seq<char>)
    ensures
        profile_of_row(profile_cells(profile, now)) == Some(profile),
{
    let row = profile_cells(profile, now);
    assert(text_column(row, "company_name"@) == Some(profile.company_name)) by {
        broadcast use lemma_lookup_push;

        lemma_profile_columns();
    }
    assert(text_column(row, "gst_number"@) == Some(profile.gst_number)) by {
        broadcast use lemma_lookup_push;

        lemma_profile_columns();
    }
    assert(text_column(row, "address"@) == Some(profile.address)) by {
        broadcast use lemma_lookup_push;

        lemma_profile_columns();
    }
    assert(text_column(row, "city"@) == Some(profile.city)) by {
        broadcast use lemma_lookup_push;

        lemma_profile_columns();
    }
    assert(text_column(row, "state"@) == Some(profile.state)) by {
        broadcast use lemma_lookup_push;

        lemma_profile_columns();
    }
    assert(text_column(row, "pincode"@) == Some(profile.pincode)) by {
        broadcast use lemma_lookup_push;

        lemma_profile_columns();
    }
    assert(text_column(row, "phone"@) == Some(profile.phone)) by {
        broadcast use lemma_lookup_push;

        lemma_profile_columns();
    }
    assert(text_column(row, "email"@) == Some(profile.email)) by {
        broadcast use lemma_lookup_push;

        lemma_profile_columns();
    }
    assert(text_column(row, "bank_name"@) == Some(profile.bank_name)) by {
        broadcast use lemma_lookup_push;

        lemma_profile_columns();
    }
    assert(text_column(row, "bank_branch"@) == Some(profile.bank_branch)) by {
        broadcast use lemma_lookup_push;

        lemma_profile_columns();
    }
    assert(text_column(row, "bank_ifsc"@) == Some(profile.bank_ifsc)) by {
        broadcast use lemma_lookup_push;

        lemma_profile_columns();
    }
    assert(text_column(row, "bank_account_name"@) == Some(profile.bank_account_name)) by {
        broadcast use lemma_lookup_push;

        lemma_profile_columns();
    }
    assert(text_column(row, "bank_account_number"@) == Some(profile.bank_account_number)) by {
        broadcast use lemma_lookup_push;

        lemma_profile_columns();
    }
    assert(text_column(row, "invoice_prefix"@) == Some(profile.invoice_prefix)) by {
        broadcast use lemma_lookup_push;

        lemma_profile_columns();
    }
    assert(counter_column(row, "next_invoice_number"@) == Some(profile.next_invoice_number)) by {
        broadcast use lemma_lookup_push;

        lemma_profile_columns();
    }
    assert(counter_column(row, "next_debit_number"@) == Some(profile.next_debit_number)) by {
        broadcast use lemma_lookup_push;

        lemma_profile_columns();
    }
    assert(counter_column(row, "next_credit_number"@) == Some(profile.next_credit_number)) by {
        broadcast use lemma_lookup_push;

        lemma_profile_columns();
    }
}

/// The session after onboarding: the same user, marked as onboarded.
pub open spec fn onboarded(session: UserSessionView) -> UserSessionView {
    UserSessionView { is_onboarded: true, ..session }
}

/// What completing the onboarding of `session` comes to: the profile table is
/// created where it is missing and the profile row is written, then the
/// identity is marked in the global store, then the session marker is
/// rewritten.
pub open spec fn onboarding_plan(
    root: Seq<char>,
    session: UserSessionView,
    profile: ProfileView,
    now: Seq<char>,
) -> PlanView {
    let store = user_db_location(root_location(root), session.user_hash);
    PlanView {
        actions: seq![
            ActionView::Batch { store, script: profile_script() },
            ActionView::Execute(upsert(store, "profile"@, profile_cells(profile, now))),
            ActionView::Execute(
                StatementView {
                    store: global_db_location(root),
                    sql: SET_ONBOARDED@,
                    params: seq![SqlValueView::Text(session.user_email)],
                    documents: Seq::empty(),
                },
            ),
            ActionView::WriteMarker(session_doc(onboarded(session))),
        ],
        message: "Onboarding completed."@,
    }
}

/// What completing the onboarding comes to, or why it comes to nothing.
pub open spec fn onboarding_outcome(
    root: Option<Seq<char>>,
    marker: MarkerView,
    profile: ProfileView,
    now: Seq<char>,
) -> Result<PlanView, StoreError> {
    match root {
        None => Err(StoreError::PathUnavailable),
        Some(root) => match marker_session(marker) {
            Err(error) => Err(error),
            Ok(session) => Ok(onboarding_plan(root, session, profile, now)),
        },
    }
}

/// The row that is written for a profile at the moment `now`.
pub fn profile_row(profile: &Profile, now: String) -> (row: Row)
    ensures
        row@ == profile_cells(profile@, now@),
{
    let mut row = Row::new();
    row.put("id", SqlValue::Text(String::from_str("profile")));
    row.put("company_name", text_param(&profile.company_name));
    row.put("gst_number", text_param(&profile.gst_number));
    row.put("address", text_param(&profile.address));
    row.put("city", text_param(&profile.city));
    row.put("state", text_param(&profile.state));
    row.put("pincode", text_param(&profile.pincode));
    row.put("phone", text_param(&profile.phone));
    row.put("email", text_param(&profile.email));
    row.put("bank_name", text_param(&profile.bank_name));
    row.put("bank_branch", text_param(&profile.bank_branch));
    row.put("bank_ifsc", text_param(&profile.bank_ifsc));
    row.put("bank_account_name", text_param(&profile.bank_account_name));
    row.put("bank_account_number", text_param(&profile.bank_account_number));
    row.put("invoice_prefix", text_param(&profile.invoice_prefix));
    row.put("next_invoice_number", SqlValue::Integer(profile.next_invoice_number as i64));
    row.put("next_debit_number", SqlValue::Integer(profile.next_debit_number as i64));
    row.put("next_credit_number", SqlValue::Integer(profile.next_credit_number as i64));
    row.put("updated_at", SqlValue::Text(now));
    row
}

/// The plan that completes the onboarding of the current user at the moment
/// `now`.
///
/// Fails with `PathUnavailable` where no data root is set; else with
/// `NoActiveSession` where nobody is logged in, and with `CorruptSession`
/// where the marker holds no session.
pub fn complete_onboarding_at(
    slot: &AppDataPath,
    marker: &SessionMarker,
    profile: &Profile,
    now: String,
) -> (outcome: Result<Plan, StoreError>)
    ensures
        match outcome {
            Ok(plan) => onboarding_outcome(slot.root.deep_view(), marker@, profile@, now@)
                == Ok::<PlanView, StoreError>(plan@),
            Err(error) => onboarding_outcome(slot.root.deep_view(), marker@, profile@, now@)
                == Err::<PlanView, StoreError>(error),
        },
{
    let base = get_app_data_path(slot)?;
    let global = global_db_path(slot)?;
    let session = load_session(marker)?;
    let store = user_db_path(&base, session.user_hash.as_str());
    let write = profile_row(profile, now).upsert_into(store.clone(), "profile");
    let mut email: Vec<SqlValue> = Vec::new();
    email.push(text_param(&session.user_email));
    let mark = Statement {
        store: global,
        sql: String::from_str(SET_ONBOARDED),
        params: email,
        documents: Vec::new(),
    };
    let after = UserSession {
        user_email: session.user_email,
        user_hash: session.user_hash,
        is_onboarded: true,
    };
    let mut actions: Vec<Action> = Vec::new();
    actions.push(Action::Batch { store, script: profile_schema() });
    actions.push(Action::Execute(write));
    actions.push(Action::Execute(mark));
    actions.push(store_session(&after));
    let plan = Plan { actions, message: String::from_str("Onboarding completed.") };
    proof {
        let wanted = onboarding_plan(slot.root->0@, session@, profile@, now@);
        assert(mark@.documents =~= Seq::empty());
        assert(mark@.params =~= seq![SqlValueView::Text(session@.user_email)]);
        assert(after@ == onboarded(session@));
        assert(plan@.actions =~= wanted.actions);
    }
    Ok(plan)
}

/// The moment that a plan of `complete_onboarding` writes with the profile.
pub open spec fn onboarding_time(plan: PlanView) -> Seq<char> {
    plan.actions[1]->Execute_0.params[18]->Text_0
}

/// Completes the onboarding of the current user at the present moment.
///
/// Fails as `complete_onboarding_at` does.
pub fn complete_onboarding(
    slot: &AppDataPath,
    marker: &SessionMarker,
    profile: &Profile,
) -> (outcome: Result<Plan, StoreError>)
    ensures
        match outcome {
            Ok(plan) => onboarding_outcome(
                slot.root.deep_view(),
                marker@,
                profile@,
                onboarding_time(plan@),
            ) == Ok::<PlanView, StoreError>(plan@),
            Err(error) => forall|now: Seq<char>|
                #[trigger] onboarding_outcome(slot.root.deep_view(), marker@, profile@, now)
                    == Err::<PlanView, StoreError>(error),
        },
{
    let now = now_rfc3339();
    let outcome = complete_onboarding_at(slot, marker, profile, now);
    proof {
        if outcome is Ok {
            assert(outcome->Ok_0@.actions[1]->Execute_0.params[18] == SqlValueView::Text(now@));
        }
    }
    outcome
}

/// The profile is written before the identity is marked in the global store,
/// and the session marker is rewritten last. The first two steps work on the
/// user's store, the third on the global store.
pub proof fn lemma_onboarding_order(
    root: Seq<char>,
    session: UserSessionView,
    profile: ProfileView,
    now: Seq<char>,
)
    ensures
        ({
            let plan = onboarding_plan(root, session, profile, now);
            let store = user_db_location(root_location(root), session.user_hash);
            &&& plan.actions.len() == 4
            &&& plan.actions[0] == (ActionView::Batch { store, script: profile_script() })
            &&& plan.actions[1] is Execute
            &&& plan.actions[1]->Execute_0.store == store
            &&& plan.actions[1]->Execute_0.sql == upsert_sql(
                "profile"@,
                profile_cells(profile, now),
            )
            &&& plan.actions[2] is Execute
            &&& plan.actions[2]->Execute_0.store == global_db_location(root)
            &&& plan.actions[2]->Execute_0.sql == SET_ONBOARDED@
            &&& plan.actions[3] is WriteMarker
        }),
{
}

/// When the plan has run, the marker holds the session of the same user,
/// marked as onboarded.
pub proof fn lemma_onboarding_marks_session(
    before: MarkerView,
    root: Seq<char>,
    session: UserSessionView,
    profile: ProfileView,
    now: Seq<char>,
)
    ensures
        marker_session(
            marker_after_all(before, onboarding_plan(root, session, profile, now).actions),
        ) == Ok::<UserSessionView, StoreError>(onboarded(session)),
{
    let actions = onboarding_plan(root, session, profile, now).actions;
    let three = actions.drop_last();
    let two = three.drop_last();
    let one = two.drop_last();
    assert(one.drop_last() =~= Seq::empty());
    assert(marker_after_all(before, one.drop_last()) == before);
    assert(marker_after_all(before, one) == before);
    assert(marker_after_all(before, two) == before);
    assert(marker_after_all(before, three) == before);
    lemma_session_round_trip(onboarded(session));
}

/// Running the transition again, from the session that it left or from the
/// one that it started with, comes to the same plan: a transition that was
/// cut short is completed by running it once more.
pub proof fn lemma_onboarding_can_be_run_again(
    root: Seq<char>,
    session: UserSessionView,
    profile: ProfileView,
    now: Seq<char>,
)
    ensures
        onboarding_plan(root, onboarded(session), profile, now) == onboarding_plan(
            root,
            session,
            profile,
            now,
        ),
{
}

/// What the user's store answered when it was asked for the profile.
#[derive(Debug, Clone, PartialEq)]
pub enum ProfileAnswer {
    /// The store has no profile table: onboarding has not run yet.
    TableMissing,
    /// The rows that the statement returned.
    Rows(Vec<Row>),
}

/// An answer as the contracts see it.
pub enum ProfileAnswerView {
    TableMissing,
    Rows(Seq<RowView>),
}

impl DeepView for ProfileAnswer {
    type V = ProfileAnswerView;

    open spec fn deep_view(&self) -> ProfileAnswerView {
        match self {
            ProfileAnswer::TableMissing => ProfileAnswerView::TableMissing,
            ProfileAnswer::Rows(rows) => ProfileAnswerView::Rows(rows.deep_view()),
        }
    }
}

impl View for ProfileAnswer {
    type V = ProfileAnswerView;

    open spec fn view(&self) -> ProfileAnswerView {
        self.deep_view()
    }
}

/// Whether a row of the profile table holds a profile: every column is
/// there, the texts as texts and the counters as integers that a `u32` can
/// hold.
pub open spec fn row_holds_profile(row: RowView) -> bool {
    &&& text_column(row, "company_name"@) is Some
    &&& text_column(row, "gst_number"@) is Some
    &&& text_column(row, "address"@) is Some
    &&& text_column(row, "city"@) is Some
    &&& text_column(row, "state"@) is Some
    &&& text_column(row, "pincode"@) is Some
    &&& text_column(row, "phone"@) is Some
    &&& text_column(row, "email"@) is Some
    &&& text_column(row, "bank_name"@) is Some
    &&& text_column(row, "bank_branch"@) is Some
    &&& text_column(row, "bank_ifsc"@) is Some
    &&& text_column(row, "bank_account_name"@) is Some
    &&& text_column(row, "bank_account_number"@) is Some
    &&& text_column(row, "invoice_prefix"@) is Some
    &&& counter_column(row, "next_invoice_number"@) is Some
    &&& counter_column(row, "next_debit_number"@) is Some
    &&& counter_column(row, "next_credit_number"@) is Some
}

/// The profile that a row of the profile table holds.
pub open spec fn profile_of_row(row: RowView) -> Option<ProfileView> {
    if row_holds_profile(row) {
        Some(
            ProfileView {
                company_name: text_column(row, "company_name"@)->0,
                gst_number: text_column(row, "gst_number"@)->0,
                address: text_column(row, "address"@)->0,
                city: text_column(row, "city"@)->0,
                state: text_column(row, "state"@)->0,
                pincode: text_column(row, "pincode"@)->0,
                phone: text_column(row, "phone"@)->0,
                email: text_column(row, "email"@)->0,
                bank_name: text_column(row, "bank_name"@)->0,
                bank_branch: text_column(row, "bank_branch"@)->0,
                bank_ifsc: text_column(row, "bank_ifsc"@)->0,
                bank_account_name: text_column(row, "bank_account_name"@)->0,
                bank_account_number: text_column(row, "bank_account_number"@)->0,
                invoice_prefix: text_column(row, "invoice_prefix"@)->0,
                next_invoice_number: counter_column(row, "next_invoice_number"@)->0,
                next_debit_number: counter_column(row, "next_debit_number"@)->0,
                next_credit_number: counter_column(row, "next_credit_number"@)->0,
            },
        )
    } else {
        None
    }
}

/// The profile that an answer holds: that of its first row. A missing table
/// and an empty table both say that no profile was created yet.
pub open spec fn profile_details(answer: ProfileAnswerView) -> Result<ProfileView, StoreError> {
    match answer {
        ProfileAnswerView::TableMissing => Err(StoreError::ProfileNotCreated),
        ProfileAnswerView::Rows(rows) => if rows.len() == 0 {
            Err(StoreError::ProfileNotCreated)
        } else {
            match profile_of_row(rows[0]) {
                Some(profile) => Ok(profile),
                None => Err(StoreError::RecordDecodeError),
            }
        },
    }
}

/// The profile that a row holds, if it holds one.
pub fn profile_from_row(row: &Row) -> (found: Option<Profile>)
    ensures
        match found {
            Some(profile) => profile_of_row(row@) == Some(profile@),
            None => profile_of_row(row@) is None,
        },
{
    let company_name = row.text("company_name")?;
    let gst_number = row.text("gst_number")?;
    let address = row.text("address")?;
    let city = row.text("city")?;
    let state = row.text("state")?;
    let pincode = row.text("pincode")?;
    let phone = row.text("phone")?;
    let email = row.text("email")?;
    let bank_name = row.text("bank_name")?;
    let bank_branch = row.text("bank_branch")?;
    let bank_ifsc = row.text("bank_ifsc")?;
    let bank_account_name = row.text("bank_account_name")?;
    let bank_account_number = row.text("bank_account_number")?;
    let invoice_prefix = row.text("invoice_prefix")?;
    let next_invoice_number = row.counter("next_invoice_number")?;
    let next_debit_number = row.counter("next_debit_number")?;
    let next_credit_number = row.counter("next_credit_number")?;
    Some(
        Profile {
            company_name,
            gst_number,
            address,
            city,
            state,
            pincode,
            phone,
            email,
            bank_name,
            bank_branch,
            bank_ifsc,
            bank_account_name,
            bank_account_number,
            invoice_prefix,
            next_invoice_number,
            next_debit_number,
            next_credit_number,
        },
    )
}

/// The statement that asks a store for the profile.
pub open spec fn profile_query(store: StorePathView) -> StatementView {
    StatementView {
        store,
        sql: SELECT_PROFILE@,
        params: Seq::empty(),
        documents: Seq::empty(),
    }
}

/// The statement that asks the current user's store for the profile.
///
/// Fails, as `get_current_user_db_path` does, where no data root is set or
/// nobody is logged in.
pub fn profile_lookup(slot: &AppDataPath, marker: &SessionMarker) -> (outcome: Result<
    Statement,
    StoreError,
>)
    ensures
        match outcome {
            Ok(statement) => current_user_db(slot.root.deep_view(), marker@) is Ok
                && statement@ == profile_query(
                current_user_db(slot.root.deep_view(), marker@)->Ok_0,
            ),
            Err(error) => current_user_db(slot.root.deep_view(), marker@) == Err::<
                StorePathView,
                StoreError,
            >(error),
        },
{
    let store = get_current_user_db_path(slot, marker)?;
    let statement = Statement {
        store,
        sql: String::from_str(SELECT_PROFILE),
        params: Vec::new(),
        documents: Vec::new(),
    };
    proof {
        assert(statement@.params =~= Seq::empty());
        assert(statement@.documents =~= Seq::empty());
    }
    Ok(statement)
}

/// The profile of the current user, from what the store answered to the
/// statement of `profile_lookup`.
///
/// Fails with `ProfileNotCreated` where the profile table is missing or
/// empty, and with `RecordDecodeError` where its first row holds no
/// profile.
pub fn get_profile_details(answer: &ProfileAnswer) -> (outcome: Result<Profile, StoreError>)
    ensures
        match outcome {
            Ok(profile) => profile_details(answer@) == Ok::<ProfileView, StoreError>(profile@),
            Err(error) => profile_details(answer@) == Err::<ProfileView, StoreError>(error),
        },
{
    match answer {
        ProfileAnswer::TableMissing => Err(StoreError::ProfileNotCreated),
        ProfileAnswer::Rows(rows) => {
            if rows.len() == 0 {
                Err(StoreError::ProfileNotCreated)
            } else {
                match profile_from_row(&rows[0]) {
                    Some(profile) => Ok(profile),
                    None => Err(StoreError::RecordDecodeError),
                }
            }
        },
    }
}

} // verus!
