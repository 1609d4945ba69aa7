use chrono::DateTime;
use chrono::Utc;
use rusqlite::types::ValueRef;
use rusqlite::Connection;
use rusqlite::Row;
use sqlite_types::date_time::instant::Instant;
use sqlite_types::date_time::timestamp::TimestampMillis;
use sqlite_types::date_time::timestamp::TimestampNanos;
use sqlite_types::date_time::timestamp::UnixEpoch;
use sqlite_types::ColumnValue;

fn column(row: &Row<'_>, name: &str) -> rusqlite::Result<ColumnValue> {
    Ok(match row.get_ref(name)? {
        ValueRef::Null => ColumnValue::Null,
        ValueRef::Integer(i) => ColumnValue::Integer(i),
        ValueRef::Real(_) => ColumnValue::Real,
        ValueRef::Text(_) => ColumnValue::Text,
        ValueRef::Blob(_) => ColumnValue::Blob,
    })
}

fn utc(at: Instant) -> DateTime<Utc> {
    DateTime::from_timestamp(at.timestamp(), at.timestamp_subsec_nanos()).expect("an instant")
}

#[test]
fn date_time_retrieve_unixepoch_from_default() {
    let db = Connection::open_in_memory().expect("Failed to open connection");

    db.execute("create table foo( a integer default (unixepoch()) )", ())
        .expect("failed to create table");
    let res = db.query_row("insert into foo default values returning *", (), |row| {
        Ok(UnixEpoch::column_result(column(row, "a")?))
    });
    let rust_time = chrono::Utc::now();
    assert!(
        matches!(res, Ok(Ok(_))),
        "Failed to retrieve timestamp from database: {:?}",
        res
    );
    let db_time: DateTime<Utc> = utc(res.unwrap().unwrap().into());
    let delta = db_time - rust_time;
    assert!(
        delta.num_milliseconds().abs() < 1_000,
        "Timestamps are improbably far apart (DB: {:?} - Rust: {:?}).",
        db_time,
        rust_time
    );
}

#[test]
fn date_time_retrieve_timestamp_ms_from_default() {
    let db = Connection::open_in_memory().expect("Failed to open connection");

    db.execute(
        "create table foo( a integer default (unixepoch() * 1000) )",
        (),
    )
    .expect("failed to create table");
    let res = db.query_row("insert into foo default values returning *", (), |row| {
        Ok(TimestampMillis::column_result(column(row, "a")?))
    });
    let rust_time = chrono::Utc::now();
    assert!(
        matches!(res, Ok(Ok(_))),
        "Failed to retrieve timestamp from database: {:?}",
        res
    );
    let db_time: DateTime<Utc> = utc(res.unwrap().unwrap().into());
    let delta = db_time - rust_time;
    assert!(
        delta.num_milliseconds().abs() < 1_000,
        "Timestamps are improbably far apart (DB: {:?} - Rust: {:?}).",
        db_time,
        rust_time
    );
}

#[test]
fn date_time_retrieve_timestamp_ns_from_default() {
    let db = Connection::open_in_memory().expect("Failed to open connection");

    db.execute(
        "create table foo( a integer default (unixepoch() * 1000000000) )",
        (),
    )
    .expect("failed to create table");
    let res = db.query_row("insert into foo default values returning *", (), |row| {
        Ok(TimestampNanos::column_result(column(row, "a")?))
    });
    let rust_time = chrono::Utc::now();
    assert!(
        matches!(res, Ok(Ok(_))),
        "Failed to retrieve timestamp from database: {:?}",
        res
    );
    let db_time: DateTime<Utc> = utc(res.unwrap().unwrap().into());
    let delta = db_time - rust_time;
    assert!(
        delta.num_milliseconds().abs() < 1_000,
        "Timestamps are improbably far apart (DB: {:?} - Rust: {:?}).",
        db_time,
        rust_time
    );
}

#[test]
fn date_time_insert_unixepoch_and_retrieve() {
    let db = Connection::open_in_memory().expect("Failed to open connection");

    db.execute("create table foo( a integer )", ())
        .expect("failed to create table");
    let stored_time = UnixEpoch::now();
    let res = db.query_row(
        "insert into foo(a) values(?) returning *",
        (stored_time.to_sql().expect("seconds always fit"),),
        |row| Ok(UnixEpoch::column_result(column(row, "a")?)),
    );
    assert!(
        matches!(res, Ok(Ok(_))),
        "Failed to retrieve timestamp from database: {:?}",
        res
    );
    let retrieved_time = res.unwrap().unwrap();
    let st_dt: DateTime<Utc> = utc(stored_time.into());
    let rt_dt: DateTime<Utc> = utc(retrieved_time.into());
    assert_eq!(st_dt.timestamp(), rt_dt.timestamp());
}

#[test]
fn date_time_insert_timestamp_ms_and_retrieve() {
    let db = Connection::open_in_memory().expect("Failed to open connection");

    db.execute("create table foo( a integer )", ())
        .expect("failed to create table");
    let stored_time = TimestampMillis::now();
    let res = db.query_row(
        "insert into foo(a) values(?) returning *",
        (stored_time.to_sql().expect("milliseconds always fit"),),
        |row| Ok(TimestampMillis::column_result(column(row, "a")?)),
    );
    assert!(
        matches!(res, Ok(Ok(_))),
        "Failed to retrieve timestamp from database: {:?}",
        res
    );
    let retrieved_time = res.unwrap().unwrap();
    let st_dt: DateTime<Utc> = utc(stored_time.into());
    let rt_dt: DateTime<Utc> = utc(retrieved_time.into());
    assert_eq!(st_dt.timestamp_millis(), rt_dt.timestamp_millis());
}

#[test]
fn date_time_insert_timestamp_ns_and_retrieve() {
    let db = Connection::open_in_memory().expect("Failed to open connection");

    db.execute("create table foo( a integer )", ())
        .expect("failed to create table");
    let stored_time = TimestampNanos::now();
    let res = db.query_row(
        "insert into foo(a) values(?) returning *",
        (stored_time.to_sql().expect("the present fits"),),
        |row| Ok(TimestampNanos::column_result(column(row, "a")?)),
    );
    assert!(
        matches!(res, Ok(Ok(_))),
        "Failed to retrieve timestamp from database: {:?}",
        res
    );
    let retrieved_time = res.unwrap().unwrap();
    let st_dt: DateTime<Utc> = utc(stored_time.into());
    let rt_dt: DateTime<Utc> = utc(retrieved_time.into());
    assert_eq!(st_dt.timestamp_nanos_opt(), rt_dt.timestamp_nanos_opt());
}
