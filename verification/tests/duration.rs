use rusqlite::types::ValueRef;
use rusqlite::Connection;
use rusqlite::Row;
use sqlite_types::date_time::duration::DurationMicros;
use sqlite_types::date_time::duration::DurationMillis;
use sqlite_types::date_time::duration::DurationNanos;
use sqlite_types::date_time::duration::DurationSeconds;
use sqlite_types::date_time::signed_duration::SignedDuration;
use sqlite_types::ColumnValue;

fn column(row: &Row<'_>, name: &str) -> rusqlite::Result<ColumnValue> {
    Ok(match row.get_ref(name)? {
        ValueRef::Null => ColumnValue::Null,
        ValueRef::Integer(i) => ColumnValue::Integer(i),
        ValueRef::Real(_) => ColumnValue::Real,
        ValueRef::Text(_) => ColumnValue::Text,
        ValueRef::Blob(_) => ColumnValue::Blob,
    })
}

fn from_std(v: std::time::Duration) -> SignedDuration {
    SignedDuration::from_std(v.as_secs(), v.subsec_nanos()).unwrap()
}

#[test]
fn insert_duration_s_and_retrieve() {
    let db = Connection::open_in_memory().expect("Failed to open connection");

    db.execute("create table foo( a integer ) strict", ())
        .expect("failed to create table");
    let stored_duration = from_std(std::time::Duration::from_secs(5));
    let res = db.query_row(
        "insert into foo(a) values(?) returning *",
        (DurationSeconds::from(stored_duration).to_sql().unwrap(),),
        |row| Ok(DurationSeconds::column_result(column(row, "a")?)),
    );
    assert!(
        matches!(res, Ok(Ok(_))),
        "Failed to retrieve timestamp from database: {:?}",
        res
    );
    let retrieved_duration = res.unwrap().unwrap().unwrap();
    assert_eq!(
        stored_duration.num_seconds(),
        retrieved_duration.num_seconds(),
        "Stored duration does not equal retrieved duration"
    );
    assert_eq!(retrieved_duration.num_seconds(), 5);
}

#[test]
fn insert_duration_ms_and_retrieve() {
    let db = Connection::open_in_memory().expect("Failed to open connection");

    db.execute("create table foo( a integer ) strict", ())
        .expect("failed to create table");
    let stored_duration = from_std(std::time::Duration::from_millis(5));
    let res = db.query_row(
        "insert into foo(a) values(?) returning *",
        (DurationMillis::from(stored_duration).to_sql().unwrap(),),
        |row| Ok(DurationMillis::column_result(column(row, "a")?)),
    );
    assert!(
        matches!(res, Ok(Ok(_))),
        "Failed to retrieve timestamp from database: {:?}",
        res
    );
    let retrieved_duration = res.unwrap().unwrap().unwrap();
    assert_eq!(
        stored_duration.num_milliseconds(),
        retrieved_duration.num_milliseconds(),
        "Stored duration does not equal retrieved duration"
    );
    assert_eq!(retrieved_duration.num_milliseconds(), 5);
}

#[test]
fn insert_duration_us_and_retrieve() {
    let db = Connection::open_in_memory().expect("Failed to open connection");

    db.execute("create table foo( a integer ) strict", ())
        .expect("failed to create table");
    let stored_duration = from_std(std::time::Duration::from_micros(5));
    let res = db.query_row(
        "insert into foo(a) values(?) returning *",
        (DurationMicros::from(stored_duration).to_sql().unwrap(),),
        |row| Ok(DurationMicros::column_result(column(row, "a")?)),
    );
    assert!(
        matches!(res, Ok(Ok(_))),
        "Failed to retrieve timestamp from database: {:?}",
        res
    );
    let retrieved_duration = res.unwrap().unwrap().unwrap();
    assert_eq!(
        stored_duration.num_microseconds().unwrap(),
        retrieved_duration.num_microseconds().unwrap(),
        "Stored duration does not equal retrieved duration"
    );
    assert_eq!(retrieved_duration.num_microseconds(), Some(5));
}

#[test]
fn insert_duration_ns_and_retrieve() {
    let db = Connection::open_in_memory().expect("Failed to open connection");

    db.execute("create table foo( a integer ) strict", ())
        .expect("failed to create table");
    let stored_duration = from_std(std::time::Duration::from_nanos(5));
    let res = db.query_row(
        "insert into foo(a) values(?) returning *",
        (DurationNanos::from(stored_duration).to_sql().unwrap(),),
        |row| Ok(DurationNanos::column_result(column(row, "a")?)),
    );
    assert!(
        matches!(res, Ok(Ok(_))),
        "Failed to retrieve timestamp from database: {:?}",
        res
    );
    let retrieved_duration = res.unwrap().unwrap().unwrap();
    assert_eq!(
        stored_duration.num_nanoseconds().unwrap(),
        retrieved_duration.num_nanoseconds().unwrap(),
        "Stored duration does not equal retrieved duration"
    );
    assert_eq!(retrieved_duration.num_nanoseconds(), Some(5));
}

#[test]
fn insert_negative_duration_and_retrieve() {
    let db = Connection::open_in_memory().expect("Failed to open connection");

    db.execute("create table foo( a integer ) strict", ())
        .expect("failed to create table");
    let stored_duration = from_std(std::time::Duration::from_millis(2_750)).neg();
    let res = db.query_row(
        "insert into foo(a) values(?) returning *",
        (DurationMillis::from(stored_duration).to_sql().unwrap(),),
        |row| Ok(DurationMillis::column_result(column(row, "a")?)),
    );
    let retrieved_duration = res.unwrap().unwrap().unwrap();
    assert_eq!(retrieved_duration, stored_duration);
    assert_eq!(retrieved_duration.num_milliseconds(), -2_750);
}

#[test]
fn read_duration_from_a_column_without_an_integer() {
    let db = Connection::open_in_memory().expect("Failed to open connection");

    db.execute("create table foo( a integer, b text ) strict", ())
        .expect("failed to create table");
    let res = db.query_row(
        "insert into foo(a, b) values(null, 'five') returning *",
        (),
        |row| {
            Ok((
                DurationSeconds::column_result(column(row, "a")?),
                DurationSeconds::column_result(column(row, "b")?),
            ))
        },
    );
    let (of_null, of_text) = res.unwrap();
    assert_eq!(of_null, Err(sqlite_types::Error::NotAnInteger));
    assert_eq!(of_text, Err(sqlite_types::Error::NotAnInteger));
}
