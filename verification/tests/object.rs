use rusqlite::Connection;
use sqlite_types::object::BsonObject;
use sqlite_types::object::JsonObject;
use sqlite_types::ColumnValue;
use sqlite_types::Error;

#[derive(Clone, Debug, PartialEq, Eq, PartialOrd, Ord)]
struct Bar {
    a: i64,
}

#[test]
fn insert_and_retrieve_bson_object() {
    let db = Connection::open_in_memory().expect("Failed to open connection");
    struct Foo {
        bar: BsonObject<Bar>,
    }
    let f = Foo {
        bar: BsonObject::new(Bar { a: 10 }),
    };
    db.execute("create table foo( bar blob ) strict", ())
        .expect("failed to create table");

    let mut document = bson::Document::new();
    document.insert("a", f.bar.unwrap().a);
    let written = bson::ser::to_vec(&document).expect("a document that can be written");
    let res = db.execute("insert into foo(bar) values (?)", (&written,));
    assert!(res.is_ok(), "Failed to insert BsonObject: {:?}", res);

    let res = db.query_row("select * from foo", (), |row| {
        let read: Vec<u8> = row.get("bar")?;
        let document = bson::de::from_slice::<bson::Document>(&read)
            .map_err(|_| rusqlite::types::FromSqlError::InvalidType)?;
        let a = document
            .get_i64("a")
            .map_err(|_| rusqlite::types::FromSqlError::InvalidType)?;
        Ok(Foo {
            bar: BsonObject::new(Bar { a }),
        })
    });
    assert!(res.is_ok(), "Failed to retrieve BsonObject");
    let value = res.unwrap();
    assert_eq!(value.bar.unwrap(), Bar { a: 10 });
}

#[test]
fn insert_and_retrieve_json_object() {
    let db = Connection::open_in_memory().expect("Failed to open connection");
    struct Foo {
        bar: JsonObject<Bar>,
    }
    let f = Foo {
        bar: JsonObject::new(Bar { a: 10 }),
    };
    db.execute("create table foo( bar text ) strict", ())
        .expect("failed to create table");

    let mut object = serde_json::Map::new();
    object.insert("a".to_string(), serde_json::Value::from(f.bar.unwrap().a));
    let written =
        serde_json::to_string(&serde_json::Value::Object(object)).expect("an object to write");
    let res = db.execute("insert into foo(bar) values (?)", (&written,));
    assert!(res.is_ok(), "Failed to insert JsonObject: {:?}", res);

    let res = db.query_row("select * from foo", (), |row| {
        let read: String = row.get("bar")?;
        let object: serde_json::Value = serde_json::from_str(&read)
            .map_err(|_| rusqlite::types::FromSqlError::InvalidType)?;
        let a = object["a"]
            .as_i64()
            .ok_or(rusqlite::types::FromSqlError::InvalidType)?;
        Ok(Foo {
            bar: JsonObject::new(Bar { a }),
        })
    });
    assert!(res.is_ok(), "Failed to retrieve JsonObject");
    let value = res.unwrap();
    assert_eq!(value.bar.unwrap(), Bar { a: 10 });
}

#[test]
fn wrap_and_unwrap_bson_object() {
    let bar = BsonObject::new(Bar { a: 10 });
    assert_eq!(bar.clone(), BsonObject::new(Bar { a: 10 }));
    assert!(bar < BsonObject::new(Bar { a: 11 }));
    assert_eq!(bar.unwrap(), Bar { a: 10 });
}

#[test]
fn wrap_and_unwrap_json_object() {
    let bar = JsonObject::new(Bar { a: 10 });
    assert_eq!(bar.clone(), JsonObject::new(Bar { a: 10 }));
    assert!(bar < JsonObject::new(Bar { a: 11 }));
    assert_eq!(bar.unwrap(), Bar { a: 10 });
}

#[test]
fn column_as_integer() {
    assert_eq!(ColumnValue::Integer(-7).as_i64(), Ok(-7));
    assert_eq!(ColumnValue::Integer(i64::MAX).as_i64(), Ok(i64::MAX));
    assert_eq!(ColumnValue::Null.as_i64(), Err(Error::NotAnInteger));
    assert_eq!(ColumnValue::Real.as_i64(), Err(Error::NotAnInteger));
    assert_eq!(ColumnValue::Text.as_i64(), Err(Error::NotAnInteger));
    assert_eq!(ColumnValue::Blob.as_i64(), Err(Error::NotAnInteger));
}

#[test]
fn errors_have_names() {
    assert_eq!(Error::Overflow.to_string(), "Overflow");
    assert_eq!(Error::OutOfRange(5).to_string(), "OutOfRange");
    assert_eq!(Error::NotAnInteger.to_string(), "NotAnInteger");
}
