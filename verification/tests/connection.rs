use batiskaf::connection::{insert_outcome, single_row};
use batiskaf::definition::{Annotation, Attribute, FieldDefinition, TypeDefinition};
use batiskaf::sql_result::FieldValue;
use batiskaf::{
    derive_sql_delete, derive_sql_insert, derive_sql_param, derive_sql_result, derive_sql_update,
    derive_sql_upsert, BatiskafConnection, RuntimeError, SqlDelete, SqlInsert, SqlParam, SqlResult,
    SqlUpdate, SqlUpsert,
};
use rusqlite::types::{FromSql, ToSql, Value, ValueRef};
use rusqlite::{Connection, Row, Statement};

#[derive(Debug, Eq, PartialEq)]
struct Person {
    pub id: i64,
    pub name: String,
    pub age: Option<u32>,
}

impl SqlParam for Person {
    fn to_named_params(&self, stmt: &Statement) -> Vec<(String, Value)> {
        let mut params = Vec::new();
        if let Ok(Some(_)) = stmt.parameter_index(":id") {
            params.push((":id".to_string(), Value::from(self.id)));
        }
        if let Ok(Some(_)) = stmt.parameter_index(":name") {
            params.push((":name".to_string(), Value::from(self.name.clone())));
        }
        if let Ok(Some(_)) = stmt.parameter_index(":age") {
            params.push((":age".to_string(), Value::from(self.age)));
        }
        params
    }
}

impl SqlResult for Person {
    fn from_row(row: &Row) -> Result<Self, RuntimeError> {
        Ok(Person {
            id: row.get("id").map_err(RuntimeError::InvalidValue)?,
            name: row.get("name").map_err(RuntimeError::InvalidValue)?,
            age: row.get("age").unwrap_or_default(),
        })
    }
}

impl SqlInsert for Person {
    fn insert_statement(table: &str) -> String {
        format!("insert into {} (name, age) values (:name, :age)", table)
    }
}

impl SqlUpdate for Person {
    fn update_statement(table: &str) -> String {
        format!(
            "update {} set name = :name, age = :age where id = :id",
            table
        )
    }
}

impl SqlDelete for Person {
    fn delete_statement(table: &str) -> String {
        format!("delete from {} where id = :id", table)
    }
}

fn create_table(conn: &Connection) {
    conn.execute(
        "create table person(id integer primary key, name text not null, age integer)",
        [],
    )
    .unwrap();
}

fn named(params: &[(String, Value)]) -> Vec<(&str, &dyn ToSql)> {
    params.iter().map(|(name, value)| (name.as_str(), value as &dyn ToSql)).collect()
}

#[test]
fn tests_test_sql_param() {
    let conn = Connection::open_in_memory().unwrap();
    create_table(&conn);
    let mut stmt = conn
        .prepare("insert into person (name, age) values (:name, :age)")
        .unwrap();
    let person = Person {
        id: 0,
        name: "Bob".to_string(),
        age: Some(30),
    };
    let params = person.to_named_params(&stmt);
    stmt.execute(&*named(&params)).unwrap();
    let mut select = conn.prepare("select id, name, age from person").unwrap();
    let x = select
        .query_row([], |row| Ok((row.get(0)?, row.get(1)?, row.get(2)?)))
        .unwrap();
    assert_eq!((1, "Bob".to_string(), 30), x);
}

#[test]
fn tests_test_sql_result() {
    let conn = Connection::open_in_memory().unwrap();
    create_table(&conn);
    let mut stmt = conn
        .prepare("insert into person (name, age) values (:name, :age)")
        .unwrap();
    stmt.execute(&[(":name", &"Alice" as &dyn ToSql), (":age", &33)])
        .unwrap();
    let mut select = conn.prepare("select id, name, age from person").unwrap();
    let x = select
        .query_row([], |row| Ok(Person::from_row(row)))
        .unwrap()
        .unwrap();
    assert_eq!(
        Person {
            id: 1,
            name: "Alice".to_string(),
            age: Some(33)
        },
        x
    );
}

#[test]
fn test_sql_result_2() {
    let conn = Connection::open_in_memory().unwrap();
    create_table(&conn);
    let mut stmt = conn
        .prepare("insert into person (name, age) values (:name, :age)")
        .unwrap();
    stmt.execute(&[(":name", &"Alice" as &dyn ToSql), (":age", &33)])
        .unwrap();
    let mut select = conn.prepare("select id, name from person").unwrap();
    let x = select
        .query_row([], |row| Ok(Person::from_row(row)))
        .unwrap()
        .unwrap();
    assert_eq!(
        Person {
            id: 1,
            name: "Alice".to_string(),
            age: None
        },
        x
    );
}

#[test]
fn test_select_one() {
    let conn = Connection::open_in_memory().unwrap();
    create_table(&conn);
    let mut stmt = conn
        .prepare("insert into person (name, age) values (:name, :age)")
        .unwrap();
    stmt.execute(&[(":name", &"Alice" as &dyn ToSql), (":age", &33)])
        .unwrap();
    let x: Person = conn
        .select_one("select id, name, age from person", &vec![])
        .unwrap();
    assert_eq!(
        Person {
            id: 1,
            name: "Alice".to_string(),
            age: Some(33)
        },
        x
    );
}

#[test]
fn test_select_many() {
    let conn = Connection::open_in_memory().unwrap();
    create_table(&conn);
    let alice = Person {
        id: 1,
        name: "Alice".to_string(),
        age: Some(33),
    };
    let bob = Person {
        id: 2,
        name: "Bob".to_string(),
        age: Some(30),
    };
    let mut stmt = conn
        .prepare("insert into person (name, age) values (:name, :age)")
        .unwrap();
    let params = alice.to_named_params(&stmt);
    stmt.execute(&*named(&params)).unwrap();
    let params = bob.to_named_params(&stmt);
    stmt.execute(&*named(&params)).unwrap();
    let people = conn
        .select_many("select id, name, age from person", &vec![])
        .unwrap();
    assert_eq!(vec![alice, bob], people);
}

#[test]
fn test_insert() {
    let conn = Connection::open_in_memory().unwrap();
    create_table(&conn);
    let mut bob = Person {
        id: 0,
        name: "Bob".to_string(),
        age: Some(30),
    };
    bob.id = conn.insert("person", &bob).unwrap();
    let x: Person = conn
        .select_one("select id, name, age from person", &vec![])
        .unwrap();
    assert_eq!(bob, x);
}

#[test]
fn test_update() {
    let conn = Connection::open_in_memory().unwrap();
    create_table(&conn);
    let mut bob = Person {
        id: 0,
        name: "Bob".to_string(),
        age: Some(30),
    };
    bob.id = conn.insert("person", &bob).unwrap();
    bob.name = "Bob Smith".to_string();
    bob.age = None;
    conn.update("person", &bob).unwrap();
    let x: Person = conn
        .select_one("select id, name, age from person", &vec![])
        .unwrap();
    assert_eq!(bob, x);
}

#[test]
fn test_delete() {
    let conn = Connection::open_in_memory().unwrap();
    create_table(&conn);
    let mut bob = Person {
        id: 0,
        name: "Bob".to_string(),
        age: Some(30),
    };
    bob.id = conn.insert("person", &bob).unwrap();
    let mut select = conn.prepare("select id, name, age from person").unwrap();
    assert!(select.exists([]).unwrap());
    conn.delete("person", &bob).unwrap();
    assert!(!select.exists([]).unwrap());
}

#[test]
fn insert_outcome_asks_for_exactly_one_row() {
    assert_eq!(insert_outcome(1, 42), Ok(42));
    assert_eq!(insert_outcome(1, -1), Ok(-1));
    assert_eq!(insert_outcome(0, 42), Err(RuntimeError::ChangedRows(0)));
    assert_eq!(insert_outcome(2, 42), Err(RuntimeError::ChangedRows(2)));
    assert_eq!(insert_outcome(usize::MAX, 0), Err(RuntimeError::ChangedRows(usize::MAX)));
}

#[test]
fn single_row_asks_for_exactly_one_row() {
    assert_eq!(single_row(Some(7), false), Ok(7));
    assert_eq!(single_row(Some(7), true), Err(RuntimeError::MoreThanOneRow));
    assert_eq!(single_row::<i32>(None, false), Err(RuntimeError::NoRows));
    assert_eq!(single_row::<i32>(None, true), Err(RuntimeError::NoRows));
}

#[test]
fn select_one_fails_on_no_row_and_on_many() {
    let conn = Connection::open_in_memory().unwrap();
    create_table(&conn);
    let none: Result<Person, RuntimeError> =
        conn.select_one("select id, name, age from person", &vec![]);
    assert_eq!(none, Err(RuntimeError::NoRows));
    let alice = Person { id: 0, name: "Alice".to_string(), age: Some(33) };
    let bob = Person { id: 0, name: "Bob".to_string(), age: None };
    conn.insert("person", &alice).unwrap();
    conn.insert("person", &bob).unwrap();
    let many: Result<Person, RuntimeError> =
        conn.select_one("select id, name, age from person", &vec![]);
    assert_eq!(many, Err(RuntimeError::MoreThanOneRow));
    let one: Person = conn
        .select_one(
            "select id, name, age from person where name = :name",
            &vec![(":name".to_string(), Value::Text("Bob".to_string()))],
        )
        .unwrap();
    assert_eq!(one, Person { id: 2, name: "Bob".to_string(), age: None });
}

#[test]
fn select_many_keeps_result_order() {
    let conn = Connection::open_in_memory().unwrap();
    create_table(&conn);
    for (name, age) in [("Carol", 41), ("Alice", 33), ("Bob", 30)] {
        let person = Person { id: 0, name: name.to_string(), age: Some(age) };
        conn.insert("person", &person).unwrap();
    }
    let nobody: Vec<Person> = conn
        .select_many("select id, name, age from person where age > :age", &vec![(
            ":age".to_string(),
            Value::Integer(50),
        )])
        .unwrap();
    assert_eq!(nobody, vec![]);
    let by_age: Vec<Person> =
        conn.select_many("select id, name, age from person order by age", &vec![]).unwrap();
    let names: Vec<&str> = by_age.iter().map(|p| p.name.as_str()).collect();
    assert_eq!(names, vec!["Bob", "Alice", "Carol"]);
}

#[test]
fn update_and_delete_report_zero_rows() {
    let conn = Connection::open_in_memory().unwrap();
    create_table(&conn);
    let ghost = Person { id: 99, name: "Nobody".to_string(), age: None };
    assert_eq!(conn.update("person", &ghost), Ok(0));
    assert_eq!(conn.delete("person", &ghost), Ok(0));
    let mut bob = Person { id: 0, name: "Bob".to_string(), age: Some(30) };
    bob.id = conn.insert("person", &bob).unwrap();
    assert_eq!(conn.update("person", &bob), Ok(1));
    assert_eq!(conn.delete("person", &bob), Ok(1));
}

#[test]
fn engine_failures_are_handed_on() {
    let conn = Connection::open_in_memory().unwrap();
    let bob = Person { id: 1, name: "Bob".to_string(), age: None };
    assert!(matches!(conn.insert("person", &bob), Err(RuntimeError::Engine(_))));
    assert!(matches!(conn.update("person", &bob), Err(RuntimeError::Engine(_))));
    assert!(matches!(conn.delete("person", &bob), Err(RuntimeError::Engine(_))));
    let one: Result<Person, RuntimeError> = conn.select_one("select * from person", &vec![]);
    assert!(matches!(one, Err(RuntimeError::Engine(_))));
    let many: Result<Vec<Person>, RuntimeError> = conn.select_many("select * from person", &vec![]);
    assert!(matches!(many, Err(RuntimeError::Engine(_))));
    create_table(&conn);
    let unknown: Result<Vec<Person>, RuntimeError> = conn.select_many(
        "select * from person",
        &vec![(":nothing".to_string(), Value::Null)],
    );
    assert_eq!(
        unknown,
        Err(RuntimeError::Engine(rusqlite::Error::InvalidParameterName(":nothing".to_string())))
    );
}

#[test]
fn insert_that_changes_no_row_fails() {
    struct Quiet;
    impl SqlParam for Quiet {
        fn to_named_params(&self, _: &Statement) -> Vec<(String, Value)> {
            vec![]
        }
    }
    impl SqlInsert for Quiet {
        fn insert_statement(table: &str) -> String {
            format!("insert into {} (name) select name from {0} where 0", table)
        }
    }
    struct Twice;
    impl SqlParam for Twice {
        fn to_named_params(&self, _: &Statement) -> Vec<(String, Value)> {
            vec![]
        }
    }
    impl SqlInsert for Twice {
        fn insert_statement(table: &str) -> String {
            format!("insert into {} (name) values ('a'), ('b')", table)
        }
    }
    let conn = Connection::open_in_memory().unwrap();
    create_table(&conn);
    assert_eq!(conn.insert("person", &Quiet), Err(RuntimeError::ChangedRows(0)));
    assert_eq!(conn.insert("person", &Twice), Err(RuntimeError::ChangedRows(2)));
}

#[test]
fn mapping_errors_pass_through_select() {
    struct Strict;
    impl SqlResult for Strict {
        fn from_row(row: &Row) -> Result<Self, RuntimeError> {
            let def = TypeDefinition {
                ident: "Strict".to_string(),
                attrs: vec![],
                generics: vec![],
                fields: vec![FieldDefinition { ident: "town".to_string(), attrs: vec![] }],
            };
            derive_sql_result(&def).unwrap().from_row(row).map(|_| Strict)
        }
    }
    let conn = Connection::open_in_memory().unwrap();
    create_table(&conn);
    conn.execute("insert into person (name) values ('Bob')", []).unwrap();
    let missing = || rusqlite::Error::InvalidColumnName("town".to_string());
    let one: Result<Strict, RuntimeError> = conn.select_one("select * from person", &vec![]);
    assert_eq!(one.err(), Some(RuntimeError::MissingColumn(missing())));
    let many: Result<Vec<Strict>, RuntimeError> = conn.select_many("select * from person", &vec![]);
    assert_eq!(many.err(), Some(RuntimeError::MissingColumn(missing())));
}

fn flag(name: &str) -> Annotation {
    Annotation { name: name.to_string(), value: None }
}

fn field(ident: &str, items: Vec<Annotation>) -> FieldDefinition {
    FieldDefinition {
        ident: ident.to_string(),
        attrs: vec![Attribute { path: "batiskaf".to_string(), items }],
    }
}

fn decode<T: FromSql + Default>(value: FieldValue) -> T {
    match value {
        FieldValue::Stored(value) => T::column_result(ValueRef::from(&value)).unwrap(),
        FieldValue::Default => T::default(),
    }
}

#[derive(Debug, Clone, PartialEq)]
struct Member {
    id: i64,
    name: String,
    age: Option<u32>,
    visits: i64,
}

fn member_definition() -> TypeDefinition {
    TypeDefinition {
        ident: "Member".to_string(),
        attrs: vec![],
        generics: vec![],
        fields: vec![
            field("id", vec![flag("primary_key"), flag("autogenerated")]),
            field(
                "name",
                vec![Annotation { name: "column".to_string(), value: Some("full_name".to_string()) }],
            ),
            field("age", vec![flag("default")]),
            field("visits", vec![flag("skip"), flag("default")]),
        ],
    }
}

impl SqlParam for Member {
    fn to_named_params(&self, stmt: &Statement) -> Vec<(String, Value)> {
        let values = vec![
            Value::from(self.id),
            Value::from(self.name.clone()),
            Value::from(self.age),
            Value::from(self.visits),
        ];
        derive_sql_param(&member_definition()).unwrap().to_named_params(stmt, &values)
    }
}

impl SqlResult for Member {
    fn from_row(row: &Row) -> Result<Self, RuntimeError> {
        let mut values =
            derive_sql_result(&member_definition()).unwrap().from_row(row)?.into_iter();
        Ok(Member {
            id: decode(values.next().unwrap()),
            name: decode(values.next().unwrap()),
            age: decode(values.next().unwrap()),
            visits: decode(values.next().unwrap()),
        })
    }
}

impl SqlInsert for Member {
    fn insert_statement(table: &str) -> String {
        derive_sql_insert(&member_definition()).unwrap().render(table)
    }
}

impl SqlUpdate for Member {
    fn update_statement(table: &str) -> String {
        derive_sql_update(&member_definition()).unwrap().render(table)
    }
}

impl SqlDelete for Member {
    fn delete_statement(table: &str) -> String {
        derive_sql_delete(&member_definition()).unwrap().render(table)
    }
}

impl SqlUpsert for Member {
    fn upsert_statement(table: &str) -> String {
        derive_sql_upsert(&member_definition()).unwrap().render(table)
    }
}

fn create_members(conn: &Connection) {
    conn.execute(
        "create table member (id integer primary key, full_name text not null, age integer, \
         visits integer not null default 5)",
        [],
    )
    .unwrap();
}

#[test]
fn inserted_record_comes_back() {
    let conn = Connection::open_in_memory().unwrap();
    create_members(&conn);
    let bob = Member { id: 0, name: "Bob".to_string(), age: Some(30), visits: 9 };
    let id = conn.insert("member", &bob).unwrap();
    assert_eq!(id, 1);
    let back: Member =
        conn.select_one("select id, full_name, age, visits from member", &vec![]).unwrap();
    assert_eq!(back.name, bob.name);
    assert_eq!(back.age, bob.age);
    assert_eq!(back.id, id);
    assert_eq!(back.visits, 0);

    let anna = Member { id: 0, name: "Anna".to_string(), age: None, visits: 0 };
    let id = conn.insert("member", &anna).unwrap();
    let back: Member = conn
        .select_one(
            "select id, full_name from member where id = :id",
            &vec![(":id".to_string(), Value::Integer(id))],
        )
        .unwrap();
    assert_eq!(back, Member { id, ..anna });
}

#[test]
fn derived_statements_run_on_the_engine() {
    let conn = Connection::open_in_memory().unwrap();
    create_members(&conn);
    let mut bob = Member { id: 0, name: "Bob".to_string(), age: Some(30), visits: 0 };
    bob.id = conn.insert("member", &bob).unwrap();
    bob.name = "Bob Smith".to_string();
    bob.age = None;
    assert_eq!(conn.update("member", &bob), Ok(1));
    let all: Vec<Member> = conn.select_many("select * from member", &vec![]).unwrap();
    assert_eq!(all, vec![bob.clone()]);

    let mut upsert = conn.prepare(&Member::upsert_statement("member")).unwrap();
    bob.age = Some(31);
    let params = bob.to_named_params(&upsert);
    assert_eq!(upsert.execute(&*named(&params)), Ok(1));
    let carl = Member { id: 7, name: "Carl".to_string(), age: Some(50), visits: 0 };
    let params = carl.to_named_params(&upsert);
    assert_eq!(upsert.execute(&*named(&params)), Ok(1));
    let all: Vec<Member> =
        conn.select_many("select * from member order by id", &vec![]).unwrap();
    assert_eq!(all, vec![bob.clone(), carl.clone()]);

    assert_eq!(conn.delete("member", &bob), Ok(1));
    let all: Vec<Member> = conn.select_many("select * from member", &vec![]).unwrap();
    assert_eq!(all, vec![carl]);
}
