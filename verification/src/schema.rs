//! The database router and the schema provisioner: which store a command
//! works on, and the scripts that lay out its tables.
//!
//! Every script creates its table only where the table is missing, so that
//! applying it again changes nothing.

use vstd::prelude::*;
use crate::error::StoreError;
use crate::path::{global_db_location, global_db_path, AppDataPath, StorePath, StorePathView};
use crate::session::{current_user_db, get_current_user_db_path, SessionMarker};
use crate::sql::{Action, ActionView, Plan, PlanView};

verus! {

/// The columns of the identity table, in the global store.
pub const USERS_COLUMNS: &'static str =
    "id TEXT PRIMARY KEY, email TEXT NOT NULL UNIQUE, \
     password_hash TEXT NOT NULL, created_at TEXT NOT NULL, \
     is_onboarded INTEGER NOT NULL DEFAULT 0";

/// The columns of the company table, in a user's store.
pub const COMPANY_COLUMNS: &'static str =
    "id TEXT PRIMARY KEY, name TEXT NOT NULL, address TEXT NOT NULL, \
     pincode TEXT NOT NULL, gst_number TEXT NOT NULL, phone TEXT NOT NULL, \
     email TEXT, owner_name TEXT NOT NULL";

/// The columns of the invoice table, in a user's store. The lines and the
/// charges of an invoice are kept as one JSON text each.
pub const INVOICE_COLUMNS: &'static str =
    "id TEXT PRIMARY KEY, invoice_number TEXT NOT NULL, \
     issuer_name TEXT NOT NULL, issuer_address TEXT NOT NULL, \
     issuer_gst_number TEXT NOT NULL, issuer_phone TEXT NOT NULL, \
     issuer_email TEXT, recipient_name TEXT NOT NULL, \
     recipient_address TEXT NOT NULL, recipient_gst_number TEXT NOT NULL, \
     recipient_phone TEXT NOT NULL, recipient_email TEXT, \
     items_json TEXT NOT NULL, invoice_date TEXT NOT NULL, \
     amount REAL NOT NULL, cgst_percentage REAL, sgst_percentage REAL, \
     igst_percentage REAL, additional_charges_json TEXT NOT NULL, \
     total_amount REAL NOT NULL";

/// The columns of the profile table, in a user's store.
pub const PROFILE_COLUMNS: &'static str =
    "id TEXT PRIMARY KEY, company_name TEXT NOT NULL, gst_number TEXT, \
     address TEXT, city TEXT, state TEXT, pincode TEXT, phone TEXT, \
     email TEXT, bank_name TEXT, bank_branch TEXT, bank_ifsc TEXT, \
     bank_account_name TEXT, bank_account_number TEXT, invoice_prefix TEXT, \
     next_invoice_number INTEGER NOT NULL, \
     next_debit_number INTEGER NOT NULL, \
     next_credit_number INTEGER NOT NULL, updated_at TEXT NOT NULL";

/// The script that creates a table where it is missing.
pub open spec fn create_if_absent(table: Seq<char>, columns: Seq<char>) -> Seq<char> {
    "CREATE TABLE IF NOT EXISTS "@ + table + " ("@ + columns + ");"@
}

/// The script that creates a table where it is missing.
pub fn create_table_script(table: &str, columns: &str) -> (script: String)
    ensures
        script@ == create_if_absent(table@, columns@),
{
    let mut script = String::from_str("CREATE TABLE IF NOT EXISTS ");
    script.append(table);
    script.append(" (");
    script.append(columns);
    script.append(");");
    script
}

/// Whether a script begins with the words that create a table only where it
/// is missing.
pub open spec fn creates_only_if_absent(script: Seq<char>) -> bool {
    "CREATE TABLE IF NOT EXISTS "@.is_prefix_of(script)
}

/// A script made by `create_table_script` creates its table only where it is
/// missing, whatever the table and its columns are.
pub proof fn lemma_create_if_absent(table: Seq<char>, columns: Seq<char>)
    ensures
        creates_only_if_absent(create_if_absent(table, columns)),
{
    let head = "CREATE TABLE IF NOT EXISTS "@;
    let script = create_if_absent(table, columns);
    assert(script.subrange(0, head.len() as int) =~= head);
}

/// Every script of the global store, of a user's store and of the profile
/// table creates its table only where it is missing: applying the scripts
/// again, at each start and each login, changes no table that is there.
pub proof fn lemma_provisioning_repeats()
    ensures
        forall|i: int|
            0 <= i < global_scripts().len() ==> creates_only_if_absent(
                #[trigger] global_scripts()[i],
            ),
        forall|i: int|
            0 <= i < user_scripts().len() ==> creates_only_if_absent(
                #[trigger] user_scripts()[i],
            ),
        creates_only_if_absent(profile_script()),
{
    lemma_create_if_absent("users"@, USERS_COLUMNS@);
    lemma_create_if_absent("invoices"@, INVOICE_COLUMNS@);
    lemma_create_if_absent("company"@, COMPANY_COLUMNS@);
    lemma_create_if_absent("profile"@, PROFILE_COLUMNS@);
}

/// The scripts of the global store: the identity table and nothing else.
pub open spec fn global_scripts() -> Seq<Seq<char>> {
    seq![create_if_absent("users"@, USERS_COLUMNS@)]
}

/// The scripts of a user's store: the invoice table, then the company table.
/// The profile table is not among them; onboarding creates it.
pub open spec fn user_scripts() -> Seq<Seq<char>> {
    seq![
        create_if_absent("invoices"@, INVOICE_COLUMNS@),
        create_if_absent("company"@, COMPANY_COLUMNS@),
    ]
}

/// The script of the profile table.
pub open spec fn profile_script() -> Seq<char> {
    create_if_absent("profile"@, PROFILE_COLUMNS@)
}

/// The scripts of the global store.
pub fn global_schema() -> (scripts: Vec<String>)
    ensures
        scripts.deep_view() == global_scripts(),
{
    let mut scripts: Vec<String> = Vec::new();
    scripts.push(create_table_script("users", USERS_COLUMNS));
    assert(scripts.deep_view() =~= global_scripts());
    scripts
}

/// The scripts of a user's store.
pub fn user_schema() -> (scripts: Vec<String>)
    ensures
        scripts.deep_view() == user_scripts(),
{
    let mut scripts: Vec<String> = Vec::new();
    scripts.push(create_table_script("invoices", INVOICE_COLUMNS));
    scripts.push(create_table_script("company", COMPANY_COLUMNS));
    assert(scripts.deep_view() =~= user_scripts());
    scripts
}

/// The script of the profile table.
pub fn profile_schema() -> (script: String)
    ensures
        script@ == profile_script(),
{
    create_table_script("profile", PROFILE_COLUMNS)
}

/// The steps that apply scripts to a store: one batch for each script, in
/// the order of the scripts.
pub open spec fn batches(store: StorePathView, scripts: Seq<Seq<char>>) -> Seq<ActionView> {
    Seq::new(scripts.len(), |i: int| ActionView::Batch { store, script: scripts[i] })
}

/// The steps that apply `scripts` to `store`, each script as one batch, in
/// the order in which they are listed.
pub fn run_schema_files(store: &StorePath, scripts: &Vec<String>) -> (actions: Vec<Action>)
    ensures
        actions.deep_view() == batches(store@, scripts.deep_view()),
{
    let mut actions: Vec<Action> = Vec::new();
    let mut i: usize = 0;
    while i < scripts.len()
        invariant
            0 <= i <= scripts.len(),
            actions@.len() == i,
            forall|j: int|
                0 <= j < i ==> (#[trigger] actions@[j])@ == (ActionView::Batch {
                    store: store@,
                    script: scripts@[j]@,
                }),
        decreases scripts.len() - i,
    {
        actions.push(Action::Batch { store: store.clone(), script: scripts[i].clone() });
        i += 1;
    }
    assert(actions.deep_view() =~= batches(store@, scripts.deep_view()));
    actions
}

/// The store that the commands of the current user work on. See
/// `get_current_user_db_path`.
pub fn get_connection(slot: &AppDataPath, marker: &SessionMarker) -> (outcome: Result<
    StorePath,
    StoreError,
>)
    ensures
        match outcome {
            Ok(path) => current_user_db(slot.root.deep_view(), marker@) == Ok::<
                StorePathView,
                StoreError,
            >(path@),
            Err(error) => current_user_db(slot.root.deep_view(), marker@) == Err::<
                StorePathView,
                StoreError,
            >(error),
        },
{
    get_current_user_db_path(slot, marker)
}

/// What provisioning the global store comes to.
pub open spec fn global_provision(root: Seq<char>) -> PlanView {
    PlanView {
        actions: batches(global_db_location(root), global_scripts()),
        message: "Global user database initialized."@,
    }
}

/// What provisioning a user's store comes to.
pub open spec fn user_provision(store: StorePathView) -> PlanView {
    PlanView {
        actions: batches(store, user_scripts()),
        message: "Database initialized successfully"@,
    }
}

/// Provisions the global store. The session is not looked at.
///
/// Fails with `PathUnavailable` where no data root is set.
pub fn init_global_db(slot: &AppDataPath) -> (outcome: Result<Plan, StoreError>)
    ensures
        match outcome {
            Ok(plan) => slot.root is Some && plan@ == global_provision(slot.root->0@),
            Err(error) => slot.root is None && error == StoreError::PathUnavailable,
        },
{
    let store = global_db_path(slot)?;
    let actions = run_schema_files(&store, &global_schema());
    Ok(Plan { actions, message: String::from_str("Global user database initialized.") })
}

/// Provisions the store of the current user.
///
/// Fails, as `get_current_user_db_path` does, where no data root is set or
/// nobody is logged in.
pub fn init_db(slot: &AppDataPath, marker: &SessionMarker) -> (outcome: Result<Plan, StoreError>)
    ensures
        match outcome {
            Ok(plan) => current_user_db(slot.root.deep_view(), marker@) is Ok && plan@
                == user_provision(current_user_db(slot.root.deep_view(), marker@)->Ok_0),
            Err(error) => current_user_db(slot.root.deep_view(), marker@) == Err::<
                StorePathView,
                StoreError,
            >(error),
        },
{
    let store = get_current_user_db_path(slot, marker)?;
    let actions = run_schema_files(&store, &user_schema());
    Ok(Plan { actions, message: String::from_str("Database initialized successfully") })
}

} // verus!
