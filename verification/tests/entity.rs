use sorm_flow::{
    all_command, default_table_name, delete_by_id_command, delete_command, find_command, relate,
    relate_statement, save_command, Command, Missing, RecordId, SormEntity, SormError,
    SormRelation, Value,
};

struct Person {
    id: Option<RecordId>,
}

impl SormEntity for Person {
    fn table_name() -> &'static str {
        "person"
    }

    fn id(&self) -> Option<RecordId> {
        self.id.clone()
    }
}

struct Knows;

impl SormRelation for Knows {
    fn table_name() -> &'static str {
        "knows"
    }
}

fn stored(key: &str) -> Person {
    Person { id: Some(RecordId::new("person", key)) }
}

fn transient() -> Person {
    Person { id: None }
}

#[test]
fn record_id_parts() {
    let id = RecordId::new("person", "ana");
    assert_eq!(id.table, "person");
    assert_eq!(id.key, "ana");
    assert_eq!(id, RecordId::new("person", "ana"));
    assert_ne!(id, RecordId::new("person", "bob"));
    assert_ne!(id, RecordId::new("people", "ana"));
}

#[test]
fn relation_table_name() {
    assert_eq!(Knows::table_name(), "knows");
}

#[test]
fn save_transient_creates_in_table() {
    assert_eq!(save_command("person", None), Command::Create { table: "person".to_string() });
    assert_eq!(transient().save(), Command::Create { table: "person".to_string() });
}

#[test]
fn save_persisted_updates_that_record() {
    let id = RecordId::new("person", "ana");
    assert_eq!(save_command("person", Some(id.clone())), Command::Update { id: id.clone() });
    assert_eq!(stored("ana").save(), Command::Update { id });
}

#[test]
fn save_goes_by_identity_alone() {
    let elsewhere = RecordId::new("archive", "x1");
    assert_eq!(
        save_command("person", Some(elsewhere.clone())),
        Command::Update { id: elsewhere }
    );
}

#[test]
fn delete_without_identity_fails() {
    assert_eq!(delete_command(None), Err(SormError::PreconditionFailed(Missing::Identifier)));
    assert_eq!(transient().delete(), Err(SormError::PreconditionFailed(Missing::Identifier)));
}

#[test]
fn delete_with_identity_removes_that_record() {
    let id = RecordId::new("person", "ana");
    assert_eq!(delete_command(Some(id.clone())), Ok(Command::Delete { id: id.clone() }));
    assert_eq!(stored("ana").delete(), Ok(Command::Delete { id }));
}

#[test]
fn relate_binds_both_identities() {
    let a = stored("a");
    let b = stored("b");
    let s = relate(&a, "knows", &b).unwrap();
    assert_eq!(s.text, "RELATE $from->knows->$to");
    assert_eq!(
        s.bindings,
        vec![
            ("from".to_string(), Value::Record(RecordId::new("person", "a"))),
            ("to".to_string(), Value::Record(RecordId::new("person", "b"))),
        ]
    );
    assert!(!s.text.contains("person"));
}

#[test]
fn relate_with_transient_target_fails() {
    let a = stored("a");
    let r = relate(&a, "knows", &transient());
    assert_eq!(r, Err(SormError::PreconditionFailed(Missing::Target)));
    assert_eq!(r.unwrap_err().cause(), "target identifier missing");
}

#[test]
fn relate_with_transient_source_fails() {
    let b = stored("b");
    let r = relate(&transient(), "knows", &b);
    assert_eq!(r, Err(SormError::PreconditionFailed(Missing::Source)));
    assert_eq!(r.unwrap_err().cause(), "source identifier missing");
}

#[test]
fn relate_names_the_source_first_when_both_are_missing() {
    assert_eq!(
        relate_statement(None, "knows", None),
        Err(SormError::PreconditionFailed(Missing::Source))
    );
}

#[test]
fn relate_statement_on_plain_identities() {
    let s = relate_statement(
        Some(RecordId::new("person", "a")),
        "works_at",
        Some(RecordId::new("company", "c")),
    )
    .unwrap();
    assert_eq!(s.text, "RELATE $from->works_at->$to");
    assert_eq!(s.bindings.len(), 2);
    assert_eq!(s.bindings[1].1, Value::Record(RecordId::new("company", "c")));
}

#[test]
fn find_all_and_delete_by_key() {
    assert_eq!(
        find_command("person", "ana"),
        Command::Select { table: "person".to_string(), key: "ana".to_string() }
    );
    assert_eq!(Person::find("ana"), find_command("person", "ana"));
    assert_eq!(all_command("person"), Command::SelectAll { table: "person".to_string() });
    assert_eq!(Person::all(), all_command("person"));
    assert_eq!(
        delete_by_id_command("person", "ana"),
        Command::DeleteByKey { table: "person".to_string(), key: "ana".to_string() }
    );
    assert_eq!(Person::delete_by_id("ana"), delete_by_id_command("person", "ana"));
}

#[test]
fn query_starts_from_the_table() {
    let s = Person::query().compile();
    assert_eq!(s.text, "SELECT * FROM person");
    assert!(s.bindings.is_empty());
}

#[test]
fn query_through_the_entity() {
    let s = Person::query()
        .filter("age", ">", Value::Int(18))
        .filter("status", "=", Value::Text("active".to_string()))
        .limit(10)
        .compile();
    assert_eq!(
        s.text,
        "SELECT * FROM person WHERE age > $param_0 AND status = $param_1 LIMIT 10"
    );
}

#[test]
fn table_name_from_a_type_name() {
    assert_eq!(default_table_name("Person"), "person");
    assert_eq!(default_table_name("BlogPost"), "blogpost");
    assert_eq!(default_table_name("already_lower9"), "already_lower9");
    assert_eq!(default_table_name("\u{c9}cole"), "\u{e9}cole");
}

#[test]
fn causes() {
    assert_eq!(SormError::PreconditionFailed(Missing::Identifier).cause(), "missing identifier");
    assert_eq!(
        SormError::PreconditionFailed(Missing::Source).cause(),
        "source identifier missing"
    );
    assert_eq!(
        SormError::PreconditionFailed(Missing::Target).cause(),
        "target identifier missing"
    );
    assert_eq!(SormError::Storage("connection refused".to_string()).cause(), "connection refused");
}
