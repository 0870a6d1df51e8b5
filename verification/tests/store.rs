use std::collections::HashMap;

use recordkeeper::account::{login, login_lookup, signup_user, signup_user_with};
use recordkeeper::billing::{create_invoice, invoices_matching, search_invoices, InvoiceFilter};
use recordkeeper::company::{
    add_company, add_company_with_id, companies_matching, search_company, Company, CompanyFilter,
};
use recordkeeper::error::StoreError;
use recordkeeper::invoice::{AdditionalCharges, Invoice, InvoiceItem};
use recordkeeper::json::Json;
use recordkeeper::number::Real64;
use recordkeeper::onboarding::{
    complete_onboarding, complete_onboarding_at, get_profile_details, profile_lookup, Profile,
    ProfileAnswer,
};
use recordkeeper::path::{init_app_data_path, AppDataPath, StorePath};
use recordkeeper::schema::{init_db, init_global_db};
use recordkeeper::session::{is_logged_in, is_onboarded, load_session, logout, SessionMarker};
use recordkeeper::sql::{Action, Plan, Row, SqlValue, Statement};

fn to_value(doc: &Json) -> serde_json::Value {
    match doc {
        Json::Null => serde_json::Value::Null,
        Json::Bool(b) => serde_json::Value::Bool(*b),
        Json::Number(n) => match serde_json::Number::from_f64(f64::from_bits(n.to_bits())) {
            Some(number) => serde_json::Value::Number(number),
            None => serde_json::Value::Null,
        },
        Json::Text(s) => serde_json::Value::String(s.clone()),
        Json::Array(elements) => serde_json::Value::Array(elements.iter().map(to_value).collect()),
        Json::Object(members) => {
            let mut map = serde_json::Map::new();
            for (key, value) in members {
                if !map.contains_key(key) {
                    map.insert(key.clone(), to_value(value));
                }
            }
            serde_json::Value::Object(map)
        }
    }
}

fn from_value(value: &serde_json::Value) -> Json {
    match value {
        serde_json::Value::Null => Json::Null,
        serde_json::Value::Bool(b) => Json::Bool(*b),
        serde_json::Value::Number(n) => {
            Json::Number(Real64::from_bits(n.as_f64().unwrap_or(f64::NAN).to_bits()))
        }
        serde_json::Value::String(s) => Json::Text(s.clone()),
        serde_json::Value::Array(elements) => Json::Array(elements.iter().map(from_value).collect()),
        serde_json::Value::Object(map) => {
            Json::Object(map.iter().map(|(k, v)| (k.clone(), from_value(v))).collect())
        }
    }
}

fn print(doc: &Json) -> String {
    to_value(doc).to_string()
}

fn parse(text: &str) -> Option<Json> {
    serde_json::from_str::<serde_json::Value>(text).ok().map(|value| from_value(&value))
}

fn bind(value: &SqlValue) -> rusqlite::types::Value {
    match value {
        SqlValue::Null => rusqlite::types::Value::Null,
        SqlValue::Integer(i) => rusqlite::types::Value::Integer(*i),
        SqlValue::Real(x) => rusqlite::types::Value::Real(f64::from_bits(x.to_bits())),
        SqlValue::Text(s) => rusqlite::types::Value::Text(s.clone()),
        SqlValue::Blob(b) => rusqlite::types::Value::Blob(b.clone()),
        SqlValue::Document(doc) => rusqlite::types::Value::Text(print(doc)),
    }
}

fn unbind(value: rusqlite::types::Value, is_document: bool) -> SqlValue {
    match value {
        rusqlite::types::Value::Null => SqlValue::Null,
        rusqlite::types::Value::Integer(i) => SqlValue::Integer(i),
        rusqlite::types::Value::Real(x) => SqlValue::Real(Real64::from_bits(x.to_bits())),
        rusqlite::types::Value::Text(s) => {
            if is_document {
                match parse(&s) {
                    Some(doc) => SqlValue::Document(doc),
                    None => SqlValue::Text(s),
                }
            } else {
                SqlValue::Text(s)
            }
        }
        rusqlite::types::Value::Blob(b) => SqlValue::Blob(b),
    }
}

fn place(path: &StorePath) -> String {
    let mut text = path.root.clone();
    for segment in &path.segments {
        text.push('/');
        text.push_str(segment);
    }
    text
}

/// A machine in memory: the data root, the session file, and one database
/// for each place that was opened.
struct Machine {
    slot: AppDataPath,
    session_file: Option<String>,
    stores: HashMap<String, rusqlite::Connection>,
    directories: Vec<String>,
}

impl Machine {
    fn start() -> Machine {
        let mut slot = AppDataPath::new();
        init_app_data_path(&mut slot, Some("/data/app".to_string())).unwrap();
        let mut machine = Machine {
            slot,
            session_file: None,
            stores: HashMap::new(),
            directories: Vec::new(),
        };
        let plan = init_global_db(&machine.slot).unwrap();
        assert_eq!(machine.run(&plan), Ok("Global user database initialized.".to_string()));
        machine
    }

    fn marker(&self) -> SessionMarker {
        match &self.session_file {
            None => SessionMarker::Absent,
            Some(text) => match parse(text) {
                Some(doc) => SessionMarker::Document(doc),
                None => SessionMarker::Garbled,
            },
        }
    }

    fn open(&mut self, path: &StorePath) -> &rusqlite::Connection {
        self.stores
            .entry(place(path))
            .or_insert_with(|| rusqlite::Connection::open_in_memory().unwrap())
    }

    fn step(&mut self, action: &Action) -> Result<(), StoreError> {
        match action {
            Action::CreateDir(path) => {
                self.directories.push(place(path));
                Ok(())
            }
            Action::WriteMarker(doc) => {
                self.session_file = Some(print(doc));
                Ok(())
            }
            Action::RemoveMarker => {
                self.session_file = None;
                Ok(())
            }
            Action::Batch { store, script } => self
                .open(store)
                .execute_batch(script)
                .map_err(|e| StoreError::StorageIOError(e.to_string())),
            Action::Execute(statement) => {
                let values: Vec<rusqlite::types::Value> =
                    statement.params.iter().map(bind).collect();
                self.open(&statement.store)
                    .execute(&statement.sql, rusqlite::params_from_iter(values))
                    .map(|_| ())
                    .map_err(|e| StoreError::StorageIOError(e.to_string()))
            }
        }
    }

    fn run(&mut self, plan: &Plan) -> Result<String, StoreError> {
        for action in &plan.actions {
            self.step(action)?;
        }
        Ok(plan.message.clone())
    }

    fn ask(&mut self, statement: &Statement) -> Result<Vec<Row>, String> {
        let documents = statement.documents.clone();
        let values: Vec<rusqlite::types::Value> = statement.params.iter().map(bind).collect();
        let connection = self.open(&statement.store);
        let mut prepared = connection.prepare(&statement.sql).map_err(|e| e.to_string())?;
        let names: Vec<String> =
            prepared.column_names().into_iter().map(|name| name.to_string()).collect();
        let mut rows = prepared
            .query(rusqlite::params_from_iter(values))
            .map_err(|e| e.to_string())?;
        let mut found = Vec::new();
        while let Some(row) = rows.next().map_err(|e| e.to_string())? {
            let mut cells = Row::new();
            for (index, name) in names.iter().enumerate() {
                let value: rusqlite::types::Value = row.get(index).map_err(|e| e.to_string())?;
                cells.put(name, unbind(value, documents.contains(name)));
            }
            found.push(cells);
        }
        Ok(found)
    }

    fn signup(&mut self, email: &str, password: &str) -> Result<String, StoreError> {
        let plan = signup_user(&self.slot, email, password)?;
        self.run(&plan)
    }

    fn login(&mut self, email: &str, password: &str) -> Result<String, StoreError> {
        let lookup = login_lookup(&self.slot, email)?;
        let rows = self.ask(&lookup).unwrap_or_default();
        let plan = login(&self.slot, email, password, &rows)?;
        self.run(&plan)
    }

    fn logout(&mut self) -> String {
        let plan = logout(&self.marker());
        self.run(&plan).unwrap()
    }

    fn complete_onboarding(&mut self, profile: &Profile) -> Result<String, StoreError> {
        let plan = complete_onboarding(&self.slot, &self.marker(), profile)?;
        self.run(&plan)
    }

    fn profile(&mut self) -> Result<Profile, StoreError> {
        let statement = profile_lookup(&self.slot, &self.marker())?;
        let answer = match self.ask(&statement) {
            Ok(rows) => ProfileAnswer::Rows(rows),
            Err(text) if text.contains("no such table") => ProfileAnswer::TableMissing,
            Err(text) => return Err(StoreError::StorageIOError(text)),
        };
        get_profile_details(&answer)
    }

    fn add_company(&mut self, company: &Company) -> Result<String, StoreError> {
        let plan = add_company(&self.slot, &self.marker(), company)?;
        self.run(&plan)
    }

    fn search_company(&mut self, filter: &CompanyFilter) -> Result<Vec<Company>, StoreError> {
        let statement = search_company(&self.slot, &self.marker(), filter)?;
        let rows = self.ask(&statement).map_err(StoreError::StorageIOError)?;
        companies_matching(filter, &rows)
    }

    fn create_invoice(&mut self, invoice: &Invoice) -> Result<String, StoreError> {
        let plan = create_invoice(&self.slot, &self.marker(), invoice)?;
        self.run(&plan)
    }

    fn search_invoices(&mut self, filter: &InvoiceFilter) -> Result<Vec<Invoice>, StoreError> {
        let statement = search_invoices(&self.slot, &self.marker(), filter)?;
        let rows = self.ask(&statement).map_err(StoreError::StorageIOError)?;
        invoices_matching(filter, &rows)
    }
}

fn num(value: f64) -> Real64 {
    Real64::from_bits(value.to_bits())
}

fn acme(owner: &str) -> Company {
    Company {
        id: None,
        name: "Acme".to_string(),
        owner_name: owner.to_string(),
        address: "12 Market Street".to_string(),
        pincode: "560001".to_string(),
        gst_number: "GST1".to_string(),
        phone: "9000000001".to_string(),
        email: Some("office@acme.example".to_string()),
    }
}

fn no_company_filter() -> CompanyFilter {
    CompanyFilter { id: None, name: None, owner_name: None, gst_number: None }
}

fn no_invoice_filter() -> InvoiceFilter {
    InvoiceFilter { id: None, invoice_number: None, recipient_name: None, recipient_gst_number: None }
}

fn sample_profile() -> Profile {
    Profile {
        company_name: "My Shop".to_string(),
        gst_number: "GSTME".to_string(),
        address: "1 Home Road".to_string(),
        city: "Pune".to_string(),
        state: "MH".to_string(),
        pincode: "411001".to_string(),
        phone: "9000000000".to_string(),
        email: "a@x.com".to_string(),
        bank_name: "Bank".to_string(),
        bank_branch: "Main".to_string(),
        bank_ifsc: "IFSC0001".to_string(),
        bank_account_name: "My Shop".to_string(),
        bank_account_number: "0012345".to_string(),
        invoice_prefix: "INV".to_string(),
        next_invoice_number: 1,
        next_debit_number: 7,
        next_credit_number: 4_000_000_000,
    }
}

fn sample_invoice(id: &str, number: &str, recipient: &str) -> Invoice {
    let mut invoice = Invoice::new(
        id.to_string(),
        "My Shop".to_string(),
        "1 Home Road".to_string(),
        "GSTME".to_string(),
        "9000000000".to_string(),
        None,
        recipient.to_string(),
        "12 Market Street".to_string(),
        "GST1".to_string(),
        "9000000001".to_string(),
        Some("office@acme.example".to_string()),
        number.to_string(),
        "2024-04-01".to_string(),
        num(555.0),
        Some(num(9.0)),
        Some(num(9.0)),
        None,
        num(790.65),
        vec![
            InvoiceItem {
                description: "Steel \"rod\"".to_string(),
                hsn: "7214".to_string(),
                quantity: num(10.0),
                rate: num(25.5),
                amount: num(255.0),
            },
            InvoiceItem {
                description: "Cement".to_string(),
                hsn: "2523".to_string(),
                quantity: num(3.0),
                rate: num(100.0),
                amount: num(300.0),
            },
        ],
    );
    invoice.additional_charges = Some(vec![AdditionalCharges {
        description: "Freight".to_string(),
        amount: num(135.75),
    }]);
    invoice
}

fn logged_in(email: &str) -> Machine {
    let mut machine = Machine::start();
    machine.signup(email, "pw1").unwrap();
    machine.login(email, "pw1").unwrap();
    machine
}

#[test]
fn signup_login_and_onboarding_follow_each_other() {
    let mut machine = Machine::start();
    assert_eq!(machine.signup("a@x.com", "pw1"), Ok("User created successfully!".to_string()));

    let refused = machine.login("a@x.com", "wrong");
    assert_eq!(refused, Err(StoreError::InvalidCredentials));
    assert_eq!(refused.unwrap_err().message(), "Invalid email or password.");
    assert!(!is_logged_in(&machine.marker()));

    assert_eq!(machine.login("a@x.com", "pw1"), Ok("User Logged In!".to_string()));
    assert!(is_logged_in(&machine.marker()));
    assert_eq!(is_onboarded(&machine.marker()), Ok(false));
    assert_eq!(machine.profile(), Err(StoreError::ProfileNotCreated));

    let profile = sample_profile();
    assert_eq!(machine.complete_onboarding(&profile), Ok("Onboarding completed.".to_string()));
    assert_eq!(is_onboarded(&machine.marker()), Ok(true));
    assert_eq!(machine.profile(), Ok(profile));
}

#[test]
fn login_of_unknown_email_is_refused() {
    let mut machine = Machine::start();
    assert_eq!(machine.login("nobody@x.com", "pw1"), Err(StoreError::InvalidCredentials));
    machine.signup("a@x.com", "pw1").unwrap();
    assert_eq!(machine.login("A@x.com", "pw1"), Err(StoreError::InvalidCredentials));
    assert_eq!(machine.session_file, None);
}

#[test]
fn login_takes_the_onboarding_flag_from_the_global_store() {
    let mut machine = logged_in("a@x.com");
    machine.complete_onboarding(&sample_profile()).unwrap();
    assert_eq!(machine.logout(), "Logged out successfully.");
    assert_eq!(is_onboarded(&machine.marker()), Ok(false));
    machine.login("a@x.com", "pw1").unwrap();
    assert_eq!(is_onboarded(&machine.marker()), Ok(true));

    // a marker that lags behind the global store is put right by the next login
    let stale = load_session(&machine.marker()).unwrap();
    let stale = recordkeeper::session::UserSession { is_onboarded: false, ..stale };
    machine.step(&recordkeeper::session::store_session(&stale)).unwrap();
    assert_eq!(is_onboarded(&machine.marker()), Ok(false));
    machine.login("a@x.com", "pw1").unwrap();
    assert_eq!(is_onboarded(&machine.marker()), Ok(true));
}

#[test]
fn session_file_holds_the_three_members() {
    let machine = logged_in("a@x.com");
    let text = machine.session_file.clone().unwrap();
    let value: serde_json::Value = serde_json::from_str(&text).unwrap();
    assert_eq!(value["user_email"], serde_json::Value::String("a@x.com".to_string()));
    assert_eq!(
        value["user_hash"],
        serde_json::Value::String(
            "478abec7430569163161dfea8513b8ce89d05f559456a26e945c66e1fe55a29d".to_string()
        )
    );
    assert_eq!(value["is_onboarded"], serde_json::Value::Bool(false));
    assert_eq!(value.as_object().unwrap().len(), 3);
}

#[test]
fn garbled_session_file_counts_as_logged_out() {
    let mut machine = logged_in("a@x.com");
    machine.session_file = Some("{\"user_email\": \"a@x".to_string());
    assert_eq!(machine.marker(), SessionMarker::Garbled);
    assert!(!is_logged_in(&machine.marker()));
    assert_eq!(machine.add_company(&acme("Bob")), Err(StoreError::CorruptSession));
    assert_eq!(machine.logout(), "Logged out successfully.");
    assert_eq!(machine.logout(), "No active session.");
}

#[test]
fn signup_writes_the_digest_and_not_the_password() {
    let mut machine = Machine::start();
    let plan = signup_user_with(
        &machine.slot,
        "a@x.com",
        "pw1",
        "id-1".to_string(),
        "2024-04-01T00:00:00+00:00".to_string(),
    )
    .unwrap();
    assert_eq!(plan.actions.len(), 2);
    assert_eq!(
        plan.actions[0],
        Action::CreateDir(StorePath {
            root: "/data/app".to_string(),
            segments: vec![
                "users".to_string(),
                "478abec7430569163161dfea8513b8ce89d05f559456a26e945c66e1fe55a29d".to_string(),
            ],
        })
    );
    match &plan.actions[1] {
        Action::Execute(statement) => {
            assert_eq!(
                statement.sql,
                "INSERT INTO users (id, email, password_hash, created_at) VALUES (?1, ?2, ?3, ?4)"
            );
            assert_eq!(
                statement.params,
                vec![
                    SqlValue::Text("id-1".to_string()),
                    SqlValue::Text("a@x.com".to_string()),
                    SqlValue::Text(
                        "c592df4a86933b92addc9842402ddf198c638ea9be58916ee6e3734e1e3152f8"
                            .to_string()
                    ),
                    SqlValue::Text("2024-04-01T00:00:00+00:00".to_string()),
                ]
            );
            assert_eq!(statement.store.segments, vec!["app_data.db".to_string()]);
        }
        other => panic!("not a statement: {:?}", other),
    }
    machine.run(&plan).unwrap();
    let again = machine.signup("a@x.com", "other");
    assert!(matches!(again, Err(StoreError::StorageIOError(_))));
}

#[test]
fn signup_stamps_a_fresh_identifier_and_the_present_moment() {
    let machine = Machine::start();
    let first = signup_user(&machine.slot, "a@x.com", "pw1").unwrap();
    let second = signup_user(&machine.slot, "a@x.com", "pw1").unwrap();
    let stamp = |plan: &Plan| match &plan.actions[1] {
        Action::Execute(statement) => match (&statement.params[0], &statement.params[3]) {
            (SqlValue::Text(id), SqlValue::Text(moment)) => (id.clone(), moment.clone()),
            other => panic!("not texts: {:?}", other),
        },
        other => panic!("not a statement: {:?}", other),
    };
    let (first_id, first_moment) = stamp(&first);
    let (second_id, _) = stamp(&second);
    assert_eq!(first_id.len(), 36);
    assert_ne!(first_id, second_id);
    assert!(first_id.chars().all(|c| c == '-' || c.is_ascii_hexdigit()));
    assert!(first_moment.len() >= 20);
    assert_eq!(&first_moment[4..5], "-");
    assert_eq!(&first_moment[10..11], "T");
    assert!(first_moment.ends_with("+00:00"));
}

#[test]
fn added_company_is_found_by_gst_number_and_by_part_of_its_name() {
    let mut machine = logged_in("a@x.com");
    assert_eq!(
        machine.add_company(&acme("Bob")),
        Ok("Company Acme added successfully!".to_string())
    );

    let by_gst = CompanyFilter { gst_number: Some("GST1".to_string()), ..no_company_filter() };
    let found = machine.search_company(&by_gst).unwrap();
    assert_eq!(found.len(), 1);
    let id = found[0].id.clone().unwrap();
    assert_eq!(id.len(), 36);
    assert_eq!(found[0], Company { id: Some(id.clone()), ..acme("Bob") });

    let by_name = CompanyFilter { name: Some("cme".to_string()), ..no_company_filter() };
    assert_eq!(machine.search_company(&by_name).unwrap(), found);

    let by_owner = CompanyFilter { owner_name: Some("Bo".to_string()), ..no_company_filter() };
    assert_eq!(machine.search_company(&by_owner).unwrap(), found);

    let by_id = CompanyFilter { id: Some(id), ..no_company_filter() };
    assert_eq!(machine.search_company(&by_id).unwrap(), found);

    assert_eq!(machine.search_company(&no_company_filter()), Err(StoreError::NoFilterProvided));
}

#[test]
fn company_search_tells_upper_and_lower_case_apart() {
    let mut machine = logged_in("a@x.com");
    machine.add_company(&acme("Bob")).unwrap();
    let upper = CompanyFilter { name: Some("ACME".to_string()), ..no_company_filter() };
    assert_eq!(machine.search_company(&upper), Ok(Vec::new()));
    let wildcard = CompanyFilter { name: Some("A_me".to_string()), ..no_company_filter() };
    assert_eq!(machine.search_company(&wildcard), Ok(Vec::new()));
    let other_gst = CompanyFilter { gst_number: Some("GST".to_string()), ..no_company_filter() };
    assert_eq!(machine.search_company(&other_gst), Ok(Vec::new()));
}

#[test]
fn company_without_email_is_read_back_without_email() {
    let mut machine = logged_in("a@x.com");
    let company = Company { email: None, id: Some("ignored".to_string()), ..acme("Bob") };
    machine.add_company(&company).unwrap();
    let by_name = CompanyFilter { name: Some("Acme".to_string()), ..no_company_filter() };
    let found = machine.search_company(&by_name).unwrap();
    assert_eq!(found.len(), 1);
    assert_eq!(found[0].email, None);
    assert_ne!(found[0].id, Some("ignored".to_string()));
}

#[test]
fn company_statement_names_each_column_once() {
    let store = StorePath { root: "/r".to_string(), segments: vec!["u.db".to_string()] };
    let plan = add_company_with_id(store.clone(), &acme("Bob"), "id-1".to_string());
    assert_eq!(plan.message, "Company Acme added successfully!");
    assert_eq!(plan.actions.len(), 1);
    match &plan.actions[0] {
        Action::Execute(statement) => {
            assert_eq!(statement.store, store);
            assert_eq!(
                statement.sql,
                "INSERT INTO company (id, name, address, pincode, gst_number, phone, email, owner_name) VALUES (?1, ?2, ?3, ?4, ?5, ?6, ?7, ?8)"
            );
            assert_eq!(
                statement.params,
                vec![
                    SqlValue::Text("id-1".to_string()),
                    SqlValue::Text("Acme".to_string()),
                    SqlValue::Text("12 Market Street".to_string()),
                    SqlValue::Text("560001".to_string()),
                    SqlValue::Text("GST1".to_string()),
                    SqlValue::Text("9000000001".to_string()),
                    SqlValue::Text("office@acme.example".to_string()),
                    SqlValue::Text("Bob".to_string()),
                ]
            );
        }
        other => panic!("not a statement: {:?}", other),
    }
}

#[test]
fn two_users_keep_their_companies_apart() {
    let mut machine = Machine::start();
    machine.signup("a@x.com", "pw1").unwrap();
    machine.signup("b@x.com", "pw2").unwrap();

    machine.login("a@x.com", "pw1").unwrap();
    machine.add_company(&acme("Alice's contact")).unwrap();
    machine.logout();

    machine.login("b@x.com", "pw2").unwrap();
    machine.add_company(&acme("Bert's contact")).unwrap();
    let by_name = CompanyFilter { name: Some("Acme".to_string()), ..no_company_filter() };
    let seen_by_b = machine.search_company(&by_name).unwrap();
    assert_eq!(seen_by_b.len(), 1);
    assert_eq!(seen_by_b[0].owner_name, "Bert's contact");
    machine.logout();

    machine.login("a@x.com", "pw1").unwrap();
    let seen_by_a = machine.search_company(&by_name).unwrap();
    assert_eq!(seen_by_a.len(), 1);
    assert_eq!(seen_by_a[0].owner_name, "Alice's contact");
    assert_ne!(seen_by_a[0].id, seen_by_b[0].id);

    // the global store and one store for each user
    assert_eq!(machine.stores.len(), 3);
}

#[test]
fn commands_on_records_need_a_session() {
    let mut machine = Machine::start();
    assert_eq!(machine.add_company(&acme("Bob")), Err(StoreError::NoActiveSession));
    assert_eq!(
        machine.create_invoice(&sample_invoice("i1", "INV-1", "Acme")),
        Err(StoreError::NoActiveSession)
    );
    assert_eq!(machine.profile(), Err(StoreError::NoActiveSession));
    assert_eq!(
        machine.complete_onboarding(&sample_profile()),
        Err(StoreError::NoActiveSession)
    );
    assert_eq!(init_db(&machine.slot, &machine.marker()), Err(StoreError::NoActiveSession));
    assert_eq!(
        add_company(&AppDataPath::new(), &machine.marker(), &acme("Bob")),
        Err(StoreError::PathUnavailable)
    );
    assert_eq!(init_global_db(&AppDataPath::new()), Err(StoreError::PathUnavailable));
    assert_eq!(
        signup_user(&AppDataPath::new(), "a@x.com", "pw1"),
        Err(StoreError::PathUnavailable)
    );
    assert_eq!(
        login_lookup(&AppDataPath::new(), "a@x.com"),
        Err(StoreError::PathUnavailable)
    );
    assert_eq!(
        login(&AppDataPath::new(), "a@x.com", "pw1", &Vec::new()),
        Err(StoreError::PathUnavailable)
    );
}

#[test]
fn created_invoice_is_found_with_its_items_and_charges() {
    let mut machine = logged_in("a@x.com");
    let invoice = sample_invoice("i1", "INV-1", "Acme Traders");
    assert_eq!(
        machine.create_invoice(&invoice),
        Ok("Invoice INV-1 created successfully!".to_string())
    );
    machine.create_invoice(&sample_invoice("i2", "INV-2", "Zenith")).unwrap();

    let by_id = InvoiceFilter { id: Some("i1".to_string()), ..no_invoice_filter() };
    assert_eq!(machine.search_invoices(&by_id), Ok(vec![invoice.clone()]));

    let by_number = InvoiceFilter { invoice_number: Some("INV-1".to_string()), ..no_invoice_filter() };
    assert_eq!(machine.search_invoices(&by_number), Ok(vec![invoice.clone()]));

    let by_recipient =
        InvoiceFilter { recipient_name: Some("Trad".to_string()), ..no_invoice_filter() };
    assert_eq!(machine.search_invoices(&by_recipient), Ok(vec![invoice.clone()]));

    let by_gst =
        InvoiceFilter { recipient_gst_number: Some("GST1".to_string()), ..no_invoice_filter() };
    assert_eq!(
        machine.search_invoices(&by_gst),
        Ok(vec![invoice, sample_invoice("i2", "INV-2", "Zenith")])
    );

    let part_of_number = InvoiceFilter { invoice_number: Some("INV".to_string()), ..no_invoice_filter() };
    assert_eq!(machine.search_invoices(&part_of_number), Ok(Vec::new()));
    assert_eq!(machine.search_invoices(&no_invoice_filter()), Err(StoreError::NoFilterProvided));
}

#[test]
fn absent_and_empty_charges_stay_apart_in_the_store() {
    let mut machine = logged_in("a@x.com");
    let mut absent = sample_invoice("i1", "INV-1", "Acme");
    absent.additional_charges = None;
    let mut empty = sample_invoice("i2", "INV-2", "Acme");
    empty.additional_charges = Some(Vec::new());
    empty.items = Vec::new();
    machine.create_invoice(&absent).unwrap();
    machine.create_invoice(&empty).unwrap();
    let by_id = |id: &str| InvoiceFilter { id: Some(id.to_string()), ..no_invoice_filter() };
    assert_eq!(machine.search_invoices(&by_id("i1")), Ok(vec![absent]));
    assert_eq!(machine.search_invoices(&by_id("i2")), Ok(vec![empty]));
}

#[test]
fn tampered_items_fail_the_whole_search() {
    let mut machine = logged_in("a@x.com");
    machine.create_invoice(&sample_invoice("i1", "INV-1", "Acme")).unwrap();
    machine.create_invoice(&sample_invoice("i2", "INV-2", "Acme")).unwrap();
    let store = recordkeeper::session::get_current_user_db_path(&machine.slot, &machine.marker())
        .unwrap();
    machine
        .open(&store)
        .execute("UPDATE invoices SET items_json = '[{\"description\": 1}]' WHERE id = 'i2'", [])
        .unwrap();
    let by_gst =
        InvoiceFilter { recipient_gst_number: Some("GST1".to_string()), ..no_invoice_filter() };
    assert_eq!(machine.search_invoices(&by_gst), Err(StoreError::RecordDecodeError));
    machine
        .open(&store)
        .execute("UPDATE invoices SET items_json = 'not json' WHERE id = 'i2'", [])
        .unwrap();
    assert_eq!(machine.search_invoices(&by_gst), Err(StoreError::RecordDecodeError));
    let by_id = InvoiceFilter { id: Some("i1".to_string()), ..no_invoice_filter() };
    assert_eq!(machine.search_invoices(&by_id).map(|found| found.len()), Ok(1));
}

#[test]
fn provisioning_again_changes_nothing() {
    let mut machine = logged_in("a@x.com");
    machine.add_company(&acme("Bob")).unwrap();
    for _ in 0..3 {
        let global = init_global_db(&machine.slot).unwrap();
        assert_eq!(machine.run(&global), Ok("Global user database initialized.".to_string()));
        let user = init_db(&machine.slot, &machine.marker()).unwrap();
        assert_eq!(machine.run(&user), Ok("Database initialized successfully".to_string()));
    }
    let by_name = CompanyFilter { name: Some("Acme".to_string()), ..no_company_filter() };
    assert_eq!(machine.search_company(&by_name).map(|found| found.len()), Ok(1));
    assert_eq!(machine.login("a@x.com", "pw1"), Ok("User Logged In!".to_string()));
    assert_eq!(machine.search_company(&by_name).map(|found| found.len()), Ok(1));
}

#[test]
fn provisioning_scripts_are_applied_in_their_order() {
    let machine = logged_in("a@x.com");
    let global = init_global_db(&machine.slot).unwrap();
    assert_eq!(global.actions.len(), 1);
    match &global.actions[0] {
        Action::Batch { store, script } => {
            assert_eq!(store.segments, vec!["app_data.db".to_string()]);
            assert!(script.starts_with("CREATE TABLE IF NOT EXISTS users ("));
        }
        other => panic!("not a batch: {:?}", other),
    }
    let user = init_db(&machine.slot, &machine.marker()).unwrap();
    let tables: Vec<String> = user
        .actions
        .iter()
        .map(|action| match action {
            Action::Batch { script, .. } => script[..38].to_string(),
            other => panic!("not a batch: {:?}", other),
        })
        .collect();
    assert_eq!(
        tables,
        vec![
            "CREATE TABLE IF NOT EXISTS invoices (i".to_string(),
            "CREATE TABLE IF NOT EXISTS company (id".to_string(),
        ]
    );
}

#[test]
fn onboarding_writes_the_profile_then_the_flags() {
    let machine = logged_in("a@x.com");
    let plan = complete_onboarding_at(
        &machine.slot,
        &machine.marker(),
        &sample_profile(),
        "2024-04-01T00:00:00+00:00".to_string(),
    )
    .unwrap();
    assert_eq!(plan.message, "Onboarding completed.");
    assert_eq!(plan.actions.len(), 4);
    let user_store = recordkeeper::session::get_current_user_db_path(&machine.slot, &machine.marker())
        .unwrap();
    match &plan.actions[0] {
        Action::Batch { store, script } => {
            assert_eq!(store, &user_store);
            assert!(script.starts_with("CREATE TABLE IF NOT EXISTS profile ("));
        }
        other => panic!("not a batch: {:?}", other),
    }
    match &plan.actions[1] {
        Action::Execute(statement) => {
            assert_eq!(statement.store, user_store);
            assert!(statement.sql.starts_with(
                "INSERT INTO profile (id, company_name, gst_number, address, city, state, pincode, phone, email, bank_name, bank_branch, bank_ifsc, bank_account_name, bank_account_number, invoice_prefix, next_invoice_number, next_debit_number, next_credit_number, updated_at) VALUES (?1, ?2, ?3, ?4, ?5, ?6, ?7, ?8, ?9, ?10, ?11, ?12, ?13, ?14, ?15, ?16, ?17, ?18, ?19) ON CONFLICT(id) DO UPDATE SET company_name = excluded.company_name, gst_number = excluded.gst_number, "
            ));
            assert!(statement.sql.ends_with(
                "next_credit_number = excluded.next_credit_number, updated_at = excluded.updated_at"
            ));
            assert_eq!(statement.params.len(), 19);
            assert_eq!(statement.params[0], SqlValue::Text("profile".to_string()));
            assert_eq!(statement.params[1], SqlValue::Text("My Shop".to_string()));
            assert_eq!(statement.params[15], SqlValue::Integer(1));
            assert_eq!(statement.params[17], SqlValue::Integer(4_000_000_000));
            assert_eq!(
                statement.params[18],
                SqlValue::Text("2024-04-01T00:00:00+00:00".to_string())
            );
        }
        other => panic!("not a statement: {:?}", other),
    }
    match &plan.actions[2] {
        Action::Execute(statement) => {
            assert_eq!(statement.store.segments, vec!["app_data.db".to_string()]);
            assert_eq!(statement.sql, "UPDATE users SET is_onboarded = 1 WHERE email = ?1");
            assert_eq!(statement.params, vec![SqlValue::Text("a@x.com".to_string())]);
        }
        other => panic!("not a statement: {:?}", other),
    }
    assert!(matches!(plan.actions[3], Action::WriteMarker(_)));
}

#[test]
fn onboarding_can_be_run_again_with_another_profile() {
    let mut machine = logged_in("a@x.com");
    machine.complete_onboarding(&sample_profile()).unwrap();
    let changed = Profile { city: "Mumbai".to_string(), next_invoice_number: 12, ..sample_profile() };
    machine.complete_onboarding(&changed).unwrap();
    assert_eq!(machine.profile(), Ok(changed));
    assert_eq!(is_onboarded(&machine.marker()), Ok(true));
}

#[test]
fn onboarding_cut_short_is_completed_by_running_it_again() {
    let mut machine = logged_in("a@x.com");
    let profile = sample_profile();
    let plan = complete_onboarding(&machine.slot, &machine.marker(), &profile).unwrap();
    machine.step(&plan.actions[0]).unwrap();
    machine.step(&plan.actions[1]).unwrap();
    // the machine stops here: the profile is written, no flag is set
    assert_eq!(is_onboarded(&machine.marker()), Ok(false));
    assert_eq!(machine.profile(), Ok(profile.clone()));
    machine.complete_onboarding(&profile).unwrap();
    assert_eq!(is_onboarded(&machine.marker()), Ok(true));
    assert_eq!(machine.profile(), Ok(profile));
}

#[test]
fn profile_answer_without_row_says_not_created() {
    assert_eq!(
        get_profile_details(&ProfileAnswer::TableMissing),
        Err(StoreError::ProfileNotCreated)
    );
    assert_eq!(
        get_profile_details(&ProfileAnswer::Rows(Vec::new())),
        Err(StoreError::ProfileNotCreated)
    );
    let mut broken = Row::new();
    broken.put("company_name", SqlValue::Text("My Shop".to_string()));
    assert_eq!(
        get_profile_details(&ProfileAnswer::Rows(vec![broken])),
        Err(StoreError::RecordDecodeError)
    );
}

#[test]
fn profile_counter_outside_its_range_is_a_decode_error() {
    let mut machine = logged_in("a@x.com");
    machine.complete_onboarding(&sample_profile()).unwrap();
    let store = recordkeeper::session::get_current_user_db_path(&machine.slot, &machine.marker())
        .unwrap();
    machine.open(&store).execute("UPDATE profile SET next_debit_number = -1", []).unwrap();
    assert_eq!(machine.profile(), Err(StoreError::RecordDecodeError));
    machine
        .open(&store)
        .execute("UPDATE profile SET next_debit_number = 4294967296", [])
        .unwrap();
    assert_eq!(machine.profile(), Err(StoreError::RecordDecodeError));
    machine
        .open(&store)
        .execute("UPDATE profile SET next_debit_number = 4294967295", [])
        .unwrap();
    assert_eq!(
        machine.profile().map(|profile| profile.next_debit_number),
        Ok(4_294_967_295)
    );
}
