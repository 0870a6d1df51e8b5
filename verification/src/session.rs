//! The session store: who is logged in, as the session marker says it.
//!
//! The marker is a file that the caller reads and writes. The functions here
//! take what the caller found in its place and hand back the step to take.

use vstd::prelude::*;
use crate::assoc::lemma_lookup_push;
use crate::error::StoreError;
use crate::json::{bool_member, members_view, object, put, text, text_member, Json, JsonView};
use crate::path::{
    get_app_data_path, lemma_user_stores_apart, user_db_location, user_db_path, AppDataPath,
    StorePath, StorePathView,
};
use crate::sql::{Action, ActionView, Plan, PlanView};

verus! {

/// Who is logged in.
#[derive(Debug, Clone, PartialEq)]
pub struct UserSession {
    pub user_email: String,
    /// The key of the user's store. It is kept as it was written at login and
    /// is not derived from the email again.
    pub user_hash: String,
    pub is_onboarded: bool,
}

/// A session as the contracts see it.
pub struct UserSessionView {
    pub user_email: Seq<char>,
    pub user_hash: Seq<char>,
    pub is_onboarded: bool,
}

impl DeepView for UserSession {
    type V = UserSessionView;

    open spec fn deep_view(&self) -> UserSessionView {
        UserSessionView {
            user_email: self.user_email@,
            user_hash: self.user_hash@,
            is_onboarded: self.is_onboarded,
        }
    }
}

impl View for UserSession {
    type V = UserSessionView;

    open spec fn view(&self) -> UserSessionView {
        self.deep_view()
    }
}

/// What the caller found in the place of the session marker.
#[derive(Debug, Clone, PartialEq)]
pub enum SessionMarker {
    /// No file is there.
    Absent,
    /// A file is there and its text is no JSON document.
    Garbled,
    /// A file is there and its text is this document.
    Document(Json),
}

/// A marker as the contracts see it.
pub enum MarkerView {
    Absent,
    Garbled,
    Document(JsonView),
}

impl DeepView for SessionMarker {
    type V = MarkerView;

    open spec fn deep_view(&self) -> MarkerView {
        match self {
            SessionMarker::Absent => MarkerView::Absent,
            SessionMarker::Garbled => MarkerView::Garbled,
            SessionMarker::Document(doc) => MarkerView::Document(doc@),
        }
    }
}

impl View for SessionMarker {
    type V = MarkerView;

    open spec fn view(&self) -> MarkerView {
        self.deep_view()
    }
}

/// The document that is written for a session: an object with the members
/// `user_email`, `user_hash` and `is_onboarded`, in this order.
pub open spec fn session_doc(session: UserSessionView) -> JsonView {
    JsonView::Object(
        seq![
            ("user_email"@, JsonView::Text(session.user_email)),
            ("user_hash"@, JsonView::Text(session.user_hash)),
            ("is_onboarded"@, JsonView::Bool(session.is_onboarded)),
        ],
    )
}

/// The session that a document holds: the document is an object whose
/// members `user_email` and `user_hash` are texts and whose member
/// `is_onboarded` is a truth value. Other members are passed over.
pub open spec fn session_of(doc: JsonView) -> Option<UserSessionView> {
    match (
        text_member(doc, "user_email"@),
        text_member(doc, "user_hash"@),
        bool_member(doc, "is_onboarded"@),
    ) {
        (Some(user_email), Some(user_hash), Some(is_onboarded)) => Some(
            UserSessionView { user_email, user_hash, is_onboarded },
        ),
        _ => None,
    }
}

/// The session that a marker holds, or why it holds none.
pub open spec fn marker_session(marker: MarkerView) -> Result<UserSessionView, StoreError> {
    match marker {
        MarkerView::Absent => Err(StoreError::NoActiveSession),
        MarkerView::Garbled => Err(StoreError::CorruptSession),
        MarkerView::Document(doc) => match session_of(doc) {
            Some(session) => Ok(session),
            None => Err(StoreError::CorruptSession),
        },
    }
}

/// What is in the marker's place after one step was taken.
pub open spec fn marker_after(marker: MarkerView, action: ActionView) -> MarkerView {
    match action {
        ActionView::WriteMarker(doc) => MarkerView::Document(doc),
        ActionView::RemoveMarker => MarkerView::Absent,
        _ => marker,
    }
}

/// What is in the marker's place after the steps were taken in their order.
pub open spec fn marker_after_all(marker: MarkerView, actions: Seq<ActionView>) -> MarkerView
    decreases actions.len(),
{
    if actions.len() == 0 {
        marker
    } else {
        marker_after(marker_after_all(marker, actions.drop_last()), actions.last())
    }
}

/// A session can be read back from the document that is written for it.
pub proof fn lemma_session_round_trip(session: UserSessionView)
    ensures
        session_of(session_doc(session)) == Some(session),
{
    reveal_strlit("user_email");
    reveal_strlit("user_hash");
    reveal_strlit("is_onboarded");
    broadcast use lemma_lookup_push;

    let first = Seq::<(Seq<char>, JsonView)>::empty().push(
        ("user_email"@, JsonView::Text(session.user_email)),
    );
    let second = first.push(("user_hash"@, JsonView::Text(session.user_hash)));
    let third = second.push(("is_onboarded"@, JsonView::Bool(session.is_onboarded)));
    assert(session_doc(session)->Object_0 =~= third);
    assert("user_email"@[5] != "user_hash"@[5]);
    assert("user_email"@[0] != "is_onboarded"@[0]);
    assert("user_hash"@[0] != "is_onboarded"@[0]);
}

/// The document of a session.
pub fn session_to_json(session: &UserSession) -> (doc: Json)
    ensures
        doc@ == session_doc(session@),
{
    let mut members: Vec<(String, Json)> = Vec::new();
    assert(members_view(members@) =~= Seq::empty());
    put(&mut members, "user_email", text(&session.user_email));
    put(&mut members, "user_hash", text(&session.user_hash));
    put(&mut members, "is_onboarded", Json::Bool(session.is_onboarded));
    let doc = object(members);
    assert(doc@->Object_0 =~= session_doc(session@)->Object_0);
    doc
}

/// The session that a document holds, if it holds one.
pub fn session_from_json(doc: &Json) -> (found: Option<UserSession>)
    ensures
        match found {
            Some(session) => session_of(doc@) == Some(session@),
            None => session_of(doc@) is None,
        },
{
    let user_email = match doc.get_text("user_email") {
        Some(s) => s,
        None => {
            return None;
        },
    };
    let user_hash = match doc.get_text("user_hash") {
        Some(s) => s,
        None => {
            return None;
        },
    };
    let is_onboarded = match doc.get_bool("is_onboarded") {
        Some(b) => b,
        None => {
            return None;
        },
    };
    Some(UserSession { user_email, user_hash, is_onboarded })
}

impl SessionMarker {
    /// Keeps this image of the marker in step with a step that was taken.
    pub fn apply(&mut self, action: &Action)
        ensures
            final(self)@ == marker_after(old(self)@, action@),
    {
        match action {
            Action::WriteMarker(doc) => {
                *self = SessionMarker::Document(doc.clone());
            },
            Action::RemoveMarker => {
                *self = SessionMarker::Absent;
            },
            _ => {},
        }
    }

    /// Keeps this image of the marker in step with the steps of a plan.
    pub fn apply_all(&mut self, actions: &Vec<Action>)
        ensures
            final(self)@ == marker_after_all(old(self)@, actions.deep_view()),
    {
        let mut i: usize = 0;
        assert(actions.deep_view().take(0) =~= Seq::empty());
        while i < actions.len()
            invariant
                0 <= i <= actions.len(),
                self@ == marker_after_all(old(self)@, actions.deep_view().take(i as int)),
            decreases actions.len() - i,
        {
            self.apply(&actions[i]);
            proof {
                let done = actions.deep_view().take(i + 1);
                assert(done.drop_last() =~= actions.deep_view().take(i as int));
                assert(done.last() == actions[i as int]@);
            }
            i += 1;
        }
        assert(actions.deep_view().take(actions.len() as int) =~= actions.deep_view());
    }
}

/// The step that makes `session` the current one: the marker is overwritten
/// in full with the session's document.
pub fn store_session(session: &UserSession) -> (action: Action)
    ensures
        action@ == ActionView::WriteMarker(session_doc(session@)),
{
    Action::WriteMarker(session_to_json(session))
}

/// The current session.
///
/// Fails with `NoActiveSession` where no marker is there, and with
/// `CorruptSession` where one is there and holds no session.
pub fn load_session(marker: &SessionMarker) -> (outcome: Result<UserSession, StoreError>)
    ensures
        match outcome {
            Ok(session) => marker_session(marker@) == Ok::<UserSessionView, StoreError>(session@),
            Err(error) => marker_session(marker@) == Err::<UserSessionView, StoreError>(error),
        },
{
    match marker {
        SessionMarker::Absent => Err(StoreError::NoActiveSession),
        SessionMarker::Garbled => Err(StoreError::CorruptSession),
        SessionMarker::Document(doc) => match session_from_json(doc) {
            Some(session) => Ok(session),
            None => Err(StoreError::CorruptSession),
        },
    }
}

/// What logging out comes to.
pub open spec fn logout_plan(marker: MarkerView) -> PlanView {
    if marker is Absent {
        PlanView { actions: Seq::empty(), message: "No active session."@ }
    } else {
        PlanView { actions: seq![ActionView::RemoveMarker], message: "Logged out successfully."@ }
    }
}

/// Logs out: the marker is removed where one is there, whatever it holds.
/// Where none is there nothing is to be done, and that is no failure.
pub fn logout(marker: &SessionMarker) -> (plan: Plan)
    ensures
        plan@ == logout_plan(marker@),
{
    match marker {
        SessionMarker::Absent => {
            let plan = Plan {
                actions: Vec::new(),
                message: String::from_str("No active session."),
            };
            assert(plan@.actions =~= Seq::empty());
            plan
        },
        _ => {
            let mut actions: Vec<Action> = Vec::new();
            actions.push(Action::RemoveMarker);
            let plan = Plan { actions, message: String::from_str("Logged out successfully.") };
            assert(plan@.actions =~= seq![ActionView::RemoveMarker]);
            plan
        },
    }
}

/// Whether somebody is logged in: a marker is there and holds a session. A
/// marker that holds none counts as logged out.
pub fn is_logged_in(marker: &SessionMarker) -> (logged_in: bool)
    ensures
        logged_in == marker_session(marker@) is Ok,
{
    match load_session(marker) {
        Ok(_) => true,
        Err(_) => false,
    }
}

/// Whether the current user has completed onboarding, as the marker says it.
///
/// Where no marker is there the answer is no; where one is there and holds
/// no session the call fails with `CorruptSession`.
pub fn is_onboarded(marker: &SessionMarker) -> (outcome: Result<bool, StoreError>)
    ensures
        outcome == match marker_session(marker@) {
            Ok(session) => Ok::<bool, StoreError>(session.is_onboarded),
            Err(StoreError::NoActiveSession) => Ok(false),
            Err(error) => Err(error),
        },
{
    match load_session(marker) {
        Ok(session) => Ok(session.is_onboarded),
        Err(StoreError::NoActiveSession) => Ok(false),
        Err(error) => Err(error),
    }
}

/// The document in the marker.
///
/// Fails with `NoActiveSession` where no marker is there, and with
/// `CorruptSession` where its text is no document.
pub fn get_session_token(marker: &SessionMarker) -> (outcome: Result<Json, StoreError>)
    ensures
        match outcome {
            Ok(doc) => marker@ == MarkerView::Document(doc@),
            Err(error) => (marker@ is Absent && error == StoreError::NoActiveSession) || (marker@
                is Garbled && error == StoreError::CorruptSession),
        },
{
    match marker {
        SessionMarker::Absent => Err(StoreError::NoActiveSession),
        SessionMarker::Garbled => Err(StoreError::CorruptSession),
        SessionMarker::Document(doc) => Ok(doc.clone()),
    }
}

/// The key of the current user's store, as the session holds it.
pub fn get_current_user_hash(marker: &SessionMarker) -> (outcome: Result<String, StoreError>)
    ensures
        match outcome {
            Ok(key) => marker_session(marker@) is Ok && key@ == marker_session(
                marker@,
            )->Ok_0.user_hash,
            Err(error) => marker_session(marker@) == Err::<UserSessionView, StoreError>(error),
        },
{
    match load_session(marker) {
        Ok(session) => Ok(session.user_hash),
        Err(error) => Err(error),
    }
}

/// The place of the current user's store, or why there is none.
pub open spec fn current_user_db(root: Option<Seq<char>>, marker: MarkerView) -> Result<
    StorePathView,
    StoreError,
> {
    match root {
        None => Err(StoreError::PathUnavailable),
        Some(root) => match marker_session(marker) {
            Err(error) => Err(error),
            Ok(session) => Ok(
                user_db_location(
                    StorePathView { root, segments: Seq::empty() },
                    session.user_hash,
                ),
            ),
        },
    }
}

/// The place of the current user's store: below the data root, under the key
/// that the session holds.
///
/// Fails with `PathUnavailable` where no data root is set; else with
/// `NoActiveSession` where nobody is logged in, and with `CorruptSession`
/// where the marker holds no session.
pub fn get_current_user_db_path(slot: &AppDataPath, marker: &SessionMarker) -> (outcome: Result<
    StorePath,
    StoreError,
>)
    ensures
        match outcome {
            Ok(path) => current_user_db(slot.root.deep_view(), marker@) == Ok::<
                StorePathView,
                StoreError,
            >(path@),
            Err(error) => current_user_db(slot.root.deep_view(), marker@) == Err::<
                StorePathView,
                StoreError,
            >(error),
        },
{
    let base = match get_app_data_path(slot) {
        Ok(base) => base,
        Err(error) => {
            return Err(error);
        },
    };
    let key = match get_current_user_hash(marker) {
        Ok(key) => key,
        Err(error) => {
            return Err(error);
        },
    };
    Ok(user_db_path(&base, key.as_str()))
}

/// Two sessions with different keys speak for different stores: what is
/// written for one user never lands in the store of another.
pub proof fn lemma_sessions_apart(root: Option<Seq<char>>, a: MarkerView, b: MarkerView)
    requires
        current_user_db(root, a) is Ok,
        current_user_db(root, b) is Ok,
        marker_session(a)->Ok_0.user_hash != marker_session(b)->Ok_0.user_hash,
    ensures
        current_user_db(root, a)->Ok_0 != current_user_db(root, b)->Ok_0,
{
    lemma_user_stores_apart(
        StorePathView { root: root->0, segments: Seq::empty() },
        marker_session(a)->Ok_0.user_hash,
        marker_session(b)->Ok_0.user_hash,
    );
}

/// Storing a session and loading it again gives the session that was
/// stored, whatever was in the marker's place before.
pub proof fn lemma_store_then_load(before: MarkerView, session: UserSessionView)
    ensures
        marker_session(marker_after(before, ActionView::WriteMarker(session_doc(session))))
            == Ok::<UserSessionView, StoreError>(session),
{
    lemma_session_round_trip(session);
}

/// After logging out nobody is logged in, and logging out once more takes no
/// step and reports no failure.
pub proof fn lemma_logout_clears(before: MarkerView)
    ensures
        marker_after_all(before, logout_plan(before).actions) is Absent,
        logout_plan(MarkerView::Absent).actions.len() == 0,
        logout_plan(marker_after_all(before, logout_plan(before).actions)).actions.len() == 0,
{
    let actions = logout_plan(before).actions;
    if before is Absent {
        assert(marker_after_all(before, actions) == before);
    } else {
        assert(actions.drop_last() =~= Seq::empty());
        assert(marker_after_all(before, actions.drop_last()) == before);
        assert(actions.last() == ActionView::RemoveMarker);
    }
}

} // verus!
