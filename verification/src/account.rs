//! Identities: signing up and logging in against the global store.

use vstd::prelude::*;
use crate::error::StoreError;
use crate::hash::{hash_email, password_digest, password_digest_text, user_key};
use crate::path::{
    get_app_data_path, global_db_location, global_db_path, user_db_location, user_db_path,
    user_dir_location, user_dir_path, AppDataPath, StorePathView,
};
use crate::schema::{batches, run_schema_files, user_schema, user_scripts};
use crate::session::{
    lemma_session_round_trip, marker_after_all, marker_session, session_doc, store_session,
    MarkerView, UserSession, UserSessionView,
};
use crate::sql::{
    flag_column, insert, text_column, Action, ActionView, Plan, PlanView, Row, RowView, SqlValue,
    SqlValueView, Statement, StatementView,
};
use crate::stamp::{new_record_id, now_rfc3339};

verus! {

/// An identity as the global store keeps it.
#[derive(Debug, Clone, PartialEq)]
pub struct User {
    pub id: String,
    pub name: String,
    pub email: String,
    pub password_hash: String,
    pub created_at: String,
}

/// An identity as the contracts see it.
pub struct UserView {
    pub id: Seq<char>,
    pub name: Seq<char>,
    pub email: Seq<char>,
    pub password_hash: Seq<char>,
    pub created_at: Seq<char>,
}

impl DeepView for User {
    type V = UserView;

    open spec fn deep_view(&self) -> UserView {
        UserView {
            id: self.id@,
            name: self.name@,
            email: self.email@,
            password_hash: self.password_hash@,
            created_at: self.created_at@,
        }
    }
}

impl View for User {
    type V = UserView;

    open spec fn view(&self) -> UserView {
        self.deep_view()
    }
}

/// The token that a remote drive hands out. The storage core keeps its shape
/// and does nothing with it.
#[derive(Debug, Clone, PartialEq)]
pub struct GoogleToken {
    pub access_token: String,
    pub expires_in: u64,
    pub refresh_token: Option<String>,
    pub scope: String,
    pub token_type: String,
    pub id_token: Option<String>,
}

/// The row that is written for a new identity. The password goes by its
/// digest; the onboarding flag is left to the table's default, which is no.
pub open spec fn user_cells(
    email: Seq<char>,
    password: Seq<char>,
    id: Seq<char>,
    created_at: Seq<char>,
) -> RowView {
    Seq::empty().push(("id"@, SqlValueView::Text(id))).push(
        ("email"@, SqlValueView::Text(email)),
    ).push(("password_hash"@, SqlValueView::Text(password_digest_text(password)))).push(
        ("created_at"@, SqlValueView::Text(created_at)),
    )
}

/// The text of the statement that asks for the credentials of an email.
pub const SELECT_CREDENTIALS: &'static str =
    "SELECT password_hash, is_onboarded FROM users WHERE email = ?1";

/// The data root as a path.
pub open spec fn root_location(root: Seq<char>) -> StorePathView {
    StorePathView { root, segments: Seq::empty() }
}

/// What signing up comes to: the user's directory is created, then the
/// identity is written to the global store, the password by its digest.
pub open spec fn signup_plan(
    root: Seq<char>,
    email: Seq<char>,
    password: Seq<char>,
    id: Seq<char>,
    created_at: Seq<char>,
) -> PlanView {
    PlanView {
        actions: seq![
            ActionView::CreateDir(user_dir_location(root_location(root), user_key(email))),
            ActionView::Execute(
                insert(
                    global_db_location(root),
                    "users"@,
                    user_cells(email, password, id, created_at),
                ),
            ),
        ],
        message: "User created successfully!"@,
    }
}

/// The plan that signs up `email` under the identifier `id`, at the moment
/// `created_at`.
///
/// Fails with `PathUnavailable` where no data root is set.
pub fn signup_user_with(
    slot: &AppDataPath,
    email: &str,
    password: &str,
    id: String,
    created_at: String,
) -> (outcome: Result<Plan, StoreError>)
    ensures
        match outcome {
            Ok(plan) => slot.root is Some && plan@ == signup_plan(
                slot.root->0@,
                email@,
                password@,
                id@,
                created_at@,
            ),
            Err(error) => slot.root is None && error == StoreError::PathUnavailable,
        },
{
    let base = get_app_data_path(slot)?;
    let store = global_db_path(slot)?;
    let key = hash_email(email);
    let directory = user_dir_path(&base, key.as_str());
    let mut row = Row::new();
    row.put("id", SqlValue::Text(id));
    row.put("email", SqlValue::Text(String::from_str(email)));
    row.put("password_hash", SqlValue::Text(password_digest(password)));
    row.put("created_at", SqlValue::Text(created_at));
    let statement = row.insert_into(store, "users");
    let mut actions: Vec<Action> = Vec::new();
    actions.push(Action::CreateDir(directory));
    actions.push(Action::Execute(statement));
    let plan = Plan { actions, message: String::from_str("User created successfully!") };
    proof {
        let wanted = signup_plan(slot.root->0@, email@, password@, id@, created_at@);
        assert(plan@.actions =~= wanted.actions);
    }
    Ok(plan)
}

/// The identifier under which a plan of `signup_user` stores the identity.
pub open spec fn signup_id(plan: PlanView) -> Seq<char> {
    plan.actions[1]->Execute_0.params[0]->Text_0
}

/// The moment that a plan of `signup_user` stores with the identity.
pub open spec fn signup_time(plan: PlanView) -> Seq<char> {
    plan.actions[1]->Execute_0.params[3]->Text_0
}

/// Signs up `email` under a fresh identifier, at the present moment.
///
/// Fails with `PathUnavailable` where no data root is set.
pub fn signup_user(slot: &AppDataPath, email: &str, password: &str) -> (outcome: Result<
    Plan,
    StoreError,
>)
    ensures
        match outcome {
            Ok(plan) => slot.root is Some && plan@ == signup_plan(
                slot.root->0@,
                email@,
                password@,
                signup_id(plan@),
                signup_time(plan@),
            ) && signup_id(plan@).len() == 36,
            Err(error) => slot.root is None && error == StoreError::PathUnavailable,
        },
{
    signup_user_with(slot, email, password, new_record_id(), now_rfc3339())
}

/// The statement that asks the global store for the credentials of `email`.
pub open spec fn credentials_query(root: Seq<char>, email: Seq<char>) -> StatementView {
    StatementView {
        store: global_db_location(root),
        sql: SELECT_CREDENTIALS@,
        params: seq![SqlValueView::Text(email)],
        documents: Seq::empty(),
    }
}

/// The statement that asks the global store for the credentials of `email`.
///
/// Fails with `PathUnavailable` where no data root is set.
pub fn login_lookup(slot: &AppDataPath, email: &str) -> (outcome: Result<Statement, StoreError>)
    ensures
        match outcome {
            Ok(statement) => slot.root is Some && statement@ == credentials_query(
                slot.root->0@,
                email@,
            ),
            Err(error) => slot.root is None && error == StoreError::PathUnavailable,
        },
{
    let store = global_db_path(slot)?;
    let mut params: Vec<SqlValue> = Vec::new();
    params.push(SqlValue::Text(String::from_str(email)));
    let statement = Statement {
        store,
        sql: String::from_str(SELECT_CREDENTIALS),
        params,
        documents: Vec::new(),
    };
    proof {
        assert(statement@.params =~= seq![SqlValueView::Text(email@)]);
        assert(statement@.documents =~= Seq::empty());
    }
    Ok(statement)
}

/// The session that a login opens: the first row that the global store
/// returned for the email holds a digest and an onboarding flag, and the
/// digest is that of the password. The flag of the session is the one of
/// the global store, whatever an earlier session said.
pub open spec fn login_session(email: Seq<char>, password: Seq<char>, rows: Seq<RowView>)
    -> Option<UserSessionView> {
    if rows.len() == 0 {
        None
    } else {
        match (text_column(rows[0], "password_hash"@), flag_column(rows[0], "is_onboarded"@)) {
            (Some(stored), Some(is_onboarded)) => if stored == password_digest_text(password) {
                Some(
                    UserSessionView {
                        user_email: email,
                        user_hash: user_key(email),
                        is_onboarded,
                    },
                )
            } else {
                None
            },
            _ => None,
        }
    }
}

/// What a login that opens `session` comes to: the session is stored, the
/// data root is created where it is missing, and the user's store is
/// provisioned.
pub open spec fn login_plan(root: Seq<char>, session: UserSessionView) -> PlanView {
    PlanView {
        actions: seq![
            ActionView::WriteMarker(session_doc(session)),
            ActionView::CreateDir(root_location(root)),
        ] + batches(user_db_location(root_location(root), session.user_hash), user_scripts()),
        message: "User Logged In!"@,
    }
}

/// What a login comes to, or why it is refused.
pub open spec fn login_outcome(
    root: Option<Seq<char>>,
    email: Seq<char>,
    password: Seq<char>,
    rows: Seq<RowView>,
) -> Result<PlanView, StoreError> {
    match root {
        None => Err(StoreError::PathUnavailable),
        Some(root) => match login_session(email, password, rows) {
            None => Err(StoreError::InvalidCredentials),
            Some(session) => Ok(login_plan(root, session)),
        },
    }
}

/// The session that a login opens, if it opens one.
pub fn open_session(email: &str, password: &str, rows: &Vec<Row>) -> (found: Option<UserSession>)
    ensures
        match found {
            Some(session) => login_session(email@, password@, rows.deep_view()) == Some(
                session@,
            ),
            None => login_session(email@, password@, rows.deep_view()) is None,
        },
{
    if rows.len() == 0 {
        return None;
    }
    let stored = rows[0].text("password_hash")?;
    let is_onboarded = rows[0].flag("is_onboarded")?;
    if stored == password_digest(password) {
        Some(
            UserSession {
                user_email: String::from_str(email),
                user_hash: hash_email(email),
                is_onboarded,
            },
        )
    } else {
        None
    }
}

/// Logs in with the rows that the statement of `login_lookup` returned.
///
/// Fails with `PathUnavailable` where no data root is set; else with
/// `InvalidCredentials` where the store returned no row for the email, the
/// row cannot be read, or the password is not the stored one.
pub fn login(slot: &AppDataPath, email: &str, password: &str, rows: &Vec<Row>) -> (outcome:
    Result<Plan, StoreError>)
    ensures
        match outcome {
            Ok(plan) => login_outcome(
                slot.root.deep_view(),
                email@,
                password@,
                rows.deep_view(),
            ) == Ok::<PlanView, StoreError>(plan@),
            Err(error) => login_outcome(
                slot.root.deep_view(),
                email@,
                password@,
                rows.deep_view(),
            ) == Err::<PlanView, StoreError>(error),
        },
{
    let base = get_app_data_path(slot)?;
    let session = match open_session(email, password, rows) {
        Some(session) => session,
        None => {
            return Err(StoreError::InvalidCredentials);
        },
    };
    let store = user_db_path(&base, session.user_hash.as_str());
    let mut actions: Vec<Action> = Vec::new();
    actions.push(store_session(&session));
    actions.push(Action::CreateDir(base));
    let ghost head = actions.deep_view();
    let mut provision = run_schema_files(&store, &user_schema());
    let ghost tail = provision.deep_view();
    actions.append(&mut provision);
    let plan = Plan { actions, message: String::from_str("User Logged In!") };
    proof {
        let wanted = login_plan(slot.root->0@, session@);
        assert(head =~= seq![
            ActionView::WriteMarker(session_doc(session@)),
            ActionView::CreateDir(root_location(slot.root->0@)),
        ]);
        assert(plan@.actions =~= head + tail);
        assert(plan@.actions =~= wanted.actions);
    }
    Ok(plan)
}

/// When the plan of a login has run, the marker holds the session that the
/// login opened, whatever it held before: the onboarding flag of the marker
/// is the one of the global store again.
pub proof fn lemma_login_marks_session(
    before: MarkerView,
    root: Seq<char>,
    session: UserSessionView,
)
    ensures
        marker_session(marker_after_all(before, login_plan(root, session).actions)) == Ok::<
            UserSessionView,
            StoreError,
        >(session),
{
    let actions = login_plan(root, session).actions;
    let three = actions.drop_last();
    let two = three.drop_last();
    let one = two.drop_last();
    assert(actions.len() == 4);
    assert(one.drop_last() =~= Seq::empty());
    assert(marker_after_all(before, one.drop_last()) == before);
    assert(one.last() == ActionView::WriteMarker(session_doc(session)));
    assert(marker_after_all(before, one) == MarkerView::Document(session_doc(session)));
    assert(two.last() is CreateDir);
    assert(marker_after_all(before, two) == marker_after_all(before, one));
    assert(three.last() is Batch);
    assert(marker_after_all(before, three) == marker_after_all(before, two));
    assert(actions.last() is Batch);
    lemma_session_round_trip(session);
}

} // verus!
