use batiskaf::definition::{
    Annotation, Attribute, Capability, FieldDefinition, GenericParam, TypeDefinition,
};
use batiskaf::{derive_sql_param, ParamBinder, SqlParam};
use rusqlite::types::{ToSql, ToSqlOutput, Value};
use rusqlite::{Connection, Statement};

fn flag(name: &str) -> Annotation {
    Annotation { name: name.to_string(), value: None }
}

fn column(name: &str) -> Annotation {
    Annotation { name: "column".to_string(), value: Some(name.to_string()) }
}

fn field(ident: &str, items: Vec<Annotation>) -> FieldDefinition {
    FieldDefinition {
        ident: ident.to_string(),
        attrs: vec![Attribute { path: "batiskaf".to_string(), items }],
    }
}

fn record(ident: &str, fields: Vec<FieldDefinition>) -> TypeDefinition {
    TypeDefinition { ident: ident.to_string(), attrs: vec![], generics: vec![], fields }
}

fn named(params: &[(String, Value)]) -> Vec<(&str, &dyn ToSql)> {
    params.iter().map(|(name, value)| (name.as_str(), value as &dyn ToSql)).collect()
}

fn pairs(params: &[(String, Value)]) -> Vec<(&str, Value)> {
    params.iter().map(|(name, value)| (name.as_str(), value.clone())).collect()
}

fn create_person(conn: &Connection) {
    conn.execute(
        "create table person (id integer primary key, name text not null, age integer)",
        [],
    )
    .unwrap();
}

struct Person {
    pub id: i64,
    pub name: String,
    pub age: Option<u32>,
}

impl Person {
    fn values(&self) -> Vec<Value> {
        vec![Value::from(self.id), Value::from(self.name.clone()), Value::from(self.age)]
    }
}

fn person_binder() -> ParamBinder {
    derive_sql_param(&record(
        "Person",
        vec![field("id", vec![]), field("name", vec![]), field("age", vec![])],
    ))
    .unwrap()
}

impl SqlParam for Person {
    fn to_named_params(&self, stmt: &Statement) -> Vec<(String, Value)> {
        person_binder().to_named_params(stmt, &self.values())
    }
}

#[test]
fn sql_param_test_sql_param() {
    let conn = Connection::open_in_memory().unwrap();
    conn.execute(
        "create table person (id integer primary key, name text not null, age integer)",
        [],
    )
    .unwrap();
    let mut stmt = conn
        .prepare("insert into person (name, age) values (:name, :age)")
        .unwrap();
    let person = Person {
        id: 0,
        name: "Bob".to_string(),
        age: Some(30),
    };
    let params = person.to_named_params(&stmt);
    stmt.execute(&*named(&params)).unwrap();
    let mut select = conn.prepare("select id, name, age from person").unwrap();
    let x = select
        .query_row([], |row| Ok((row.get(0)?, row.get(1)?, row.get(2)?)))
        .unwrap();
    assert_eq!((1, "Bob".to_string(), 30), x);
}

#[test]
fn test_custom_to_sql() {
    #[allow(unused)]
    enum Status {
        New,
        Completed,
    }
    impl ::rusqlite::types::ToSql for Status {
        fn to_sql(&self) -> ::rusqlite::Result<::rusqlite::types::ToSqlOutput<'_>> {
            match self {
                Status::New => Ok(::rusqlite::types::ToSqlOutput::Owned(
                    ::rusqlite::types::Value::Integer(1),
                )),
                Status::Completed => Ok(::rusqlite::types::ToSqlOutput::Owned(
                    ::rusqlite::types::Value::Integer(2),
                )),
            }
        }
    }
    fn encode(value: &dyn ToSql) -> Value {
        match value.to_sql().unwrap() {
            ToSqlOutput::Owned(owned) => owned,
            ToSqlOutput::Borrowed(borrowed) => Value::try_from(borrowed).unwrap(),
            _ => unreachable!(),
        }
    }
    struct Order {
        pub id: i64,
        pub status: Status,
    }
    impl SqlParam for Order {
        fn to_named_params(&self, stmt: &Statement) -> Vec<(String, Value)> {
            let binder = derive_sql_param(&record(
                "Order",
                vec![field("id", vec![]), field("status", vec![])],
            ))
            .unwrap();
            binder.to_named_params(stmt, &vec![encode(&self.id), encode(&self.status)])
        }
    }
    let conn = Connection::open_in_memory().unwrap();
    conn.execute(
        "create table \"order\" (id integer primary key, status integer)",
        [],
    )
    .unwrap();
    let mut stmt = conn
        .prepare("insert into \"order\" (status) values (:status)")
        .unwrap();
    let order = Order {
        id: 0,
        status: Status::New,
    };
    let params = order.to_named_params(&stmt);
    stmt.execute(&*named(&params)).unwrap();
    let mut select = conn.prepare("select id, status from \"order\"").unwrap();
    let x = select
        .query_row([], |row| Ok((row.get(0)?, row.get(1)?)))
        .unwrap();
    assert_eq!((1, 1), x);
}

#[test]
fn test_skip_param() {
    struct Person {
        pub id: i64,
        pub name: String,
        pub age: Option<u32>,
    }
    impl SqlParam for Person {
        fn to_named_params(&self, stmt: &Statement) -> Vec<(String, Value)> {
            let binder = derive_sql_param(&record(
                "Person",
                vec![field("id", vec![]), field("name", vec![]), field("age", vec![flag("skip")])],
            ))
            .unwrap();
            let values =
                vec![Value::from(self.id), Value::from(self.name.clone()), Value::from(self.age)];
            binder.to_named_params(stmt, &values)
        }
    }
    let conn = Connection::open_in_memory().unwrap();
    conn.execute(
        "create table person (id integer primary key, name text not null, age integer)",
        [],
    )
    .unwrap();
    let mut stmt = conn
        .prepare("insert into person (name, age) values (:name, :age)")
        .unwrap();
    let person = Person {
        id: 0,
        name: "Bob".to_string(),
        age: Some(30),
    };
    let params = person.to_named_params(&stmt);
    stmt.execute(&*named(&params)).unwrap();
    let mut select = conn.prepare("select id, name, age from person").unwrap();
    let x: (i64, String, Option<u32>) = select
        .query_row([], |row| Ok((row.get(0)?, row.get(1)?, row.get(2)?)))
        .unwrap();
    assert_eq!((1, "Bob".to_string(), None), x);
}

#[test]
fn sql_param_test_generic() {
    struct KeyValue<T> {
        pub key: String,
        pub value: T,
    }
    impl<T: Clone + Into<Value>> SqlParam for KeyValue<T> {
        fn to_named_params(&self, stmt: &Statement) -> Vec<(String, Value)> {
            let mut def = record("KeyValue", vec![field("key", vec![]), field("value", vec![])]);
            def.generics = vec![GenericParam::Type { name: "T".to_string(), bounds: vec![] }];
            let binder = derive_sql_param(&def).unwrap();
            assert_eq!(
                binder.generics(),
                &vec![GenericParam::Type {
                    name: "T".to_string(),
                    bounds: vec![Capability::Encodable]
                }]
            );
            let values = vec![Value::from(self.key.clone()), self.value.clone().into()];
            binder.to_named_params(stmt, &values)
        }
    }
    let conn = Connection::open_in_memory().unwrap();
    conn.execute(
        "create table key_value (key text not null, value text not null)",
        [],
    )
    .unwrap();
    let mut stmt = conn
        .prepare("insert into key_value (key, value) values (:key, :value)")
        .unwrap();
    let kv = KeyValue::<String> {
        key: "name".to_string(),
        value: "Bob".to_string(),
    };
    let params = kv.to_named_params(&stmt);
    stmt.execute(&*named(&params)).unwrap();
    let mut select = conn.prepare("select key, value from key_value").unwrap();
    let x: (String, String) = select
        .query_row([], |row| Ok((row.get(0)?, row.get(1)?)))
        .unwrap();
    assert_eq!(("name".to_string(), "Bob".to_string()), x);
}

#[test]
fn binder_offers_only_what_the_statement_declares() {
    let conn = Connection::open_in_memory().unwrap();
    create_person(&conn);
    let person = Person { id: 7, name: "Bob".to_string(), age: Some(30) };
    let binder = person_binder();

    let insert = conn.prepare("insert into person (name, age) values (:name, :age)").unwrap();
    assert_eq!(
        pairs(&binder.to_named_params(&insert, &person.values())),
        vec![(":name", Value::Text("Bob".to_string())), (":age", Value::Integer(30))]
    );
    let update = conn.prepare("update person set age = :age where id = :id").unwrap();
    assert_eq!(
        pairs(&binder.to_named_params(&update, &person.values())),
        vec![(":id", Value::Integer(7)), (":age", Value::Integer(30))]
    );
    let delete = conn.prepare("delete from person where id = :id").unwrap();
    assert_eq!(
        pairs(&binder.to_named_params(&delete, &person.values())),
        vec![(":id", Value::Integer(7))]
    );
    let all = conn.prepare("select * from person").unwrap();
    assert_eq!(pairs(&binder.to_named_params(&all, &person.values())), vec![]);
    let other = conn.prepare("select * from person where name = :Name or id = @id").unwrap();
    assert_eq!(pairs(&binder.to_named_params(&other, &person.values())), vec![]);
}

#[test]
fn binder_uses_the_column_name() {
    let conn = Connection::open_in_memory().unwrap();
    conn.execute("create table person (id integer primary key, full_name text)", []).unwrap();
    let binder = derive_sql_param(&record(
        "Person",
        vec![field("id", vec![]), field("name", vec![column("full_name")])],
    ))
    .unwrap();
    let values = vec![Value::Integer(1), Value::Text("Bob".to_string())];
    let by_field = conn.prepare("insert into person (full_name) values (:name)").unwrap();
    assert_eq!(pairs(&binder.to_named_params(&by_field, &values)), vec![]);
    let by_column = conn.prepare("insert into person (full_name) values (:full_name)").unwrap();
    assert_eq!(
        pairs(&binder.to_named_params(&by_column, &values)),
        vec![(":full_name", Value::Text("Bob".to_string()))]
    );
}

#[test]
fn binder_lists_fields_that_are_not_skipped() {
    let binder = derive_sql_param(&record(
        "Person",
        vec![
            field("id", vec![flag("primary_key"), flag("autogenerated")]),
            field("cache", vec![flag("skip")]),
            field("Name", vec![]),
        ],
    ))
    .unwrap();
    assert_eq!(binder.arity(), 3);
    let listed: Vec<(usize, &str)> =
        binder.fields().iter().map(|f| (f.field(), f.placeholder().as_str())).collect();
    assert_eq!(listed, vec![(0, ":id"), (2, ":name")]);
}

#[test]
fn select_takes_flagged_fields_in_order() {
    let binder = derive_sql_param(&record(
        "Row",
        vec![
            field("a", vec![]),
            field("b", vec![flag("skip")]),
            field("c", vec![]),
            field("d", vec![]),
        ],
    ))
    .unwrap();
    let values = vec![
        Value::Integer(1),
        Value::Null,
        Value::Real(2.5),
        Value::Blob(vec![3, 4]),
    ];
    assert_eq!(
        pairs(&binder.select(&vec![true, false, true], &values)),
        vec![(":a", Value::Integer(1)), (":d", Value::Blob(vec![3, 4]))]
    );
    assert_eq!(
        pairs(&binder.select(&vec![true, true, true], &values)),
        vec![
            (":a", Value::Integer(1)),
            (":c", Value::Real(2.5)),
            (":d", Value::Blob(vec![3, 4]))
        ]
    );
    assert_eq!(pairs(&binder.select(&vec![false, false, false], &values)), vec![]);
}

#[test]
fn binder_of_an_empty_record_binds_nothing() {
    let conn = Connection::open_in_memory().unwrap();
    create_person(&conn);
    let binder = derive_sql_param(&record("Nothing", vec![])).unwrap();
    let stmt = conn.prepare("select * from person where id = :id").unwrap();
    assert_eq!(binder.arity(), 0);
    assert_eq!(pairs(&binder.to_named_params(&stmt, &vec![])), vec![]);
}
