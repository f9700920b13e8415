use sql_builder::db_specific::mysql;
use sql_builder::db_specific::postgres;
use sql_builder::db_specific::sqlite;
use sql_builder::outside::UtcDateTime;
use sql_builder::Error;
use sql_builder::Insert;
use sql_builder::InsertData;
use sql_builder::InsertImpl;
use sql_builder::OnConflict;
use sql_builder::Value;

#[test]
fn sqlite_fmt_doubles_quotes() {
    assert_eq!(sqlite::fmt("red"), "'red'");
    assert_eq!(sqlite::fmt("it's"), "'it''s'");
    assert_eq!(sqlite::fmt(""), "''");
    assert_eq!(sqlite::fmt("''"), "''''''");
}

#[test]
fn postgres_fmt_doubles_quotes() {
    assert_eq!(postgres::fmt("red"), "'red'");
    assert_eq!(postgres::fmt("it's"), "'it''s'");
    assert_eq!(postgres::fmt(""), "''");
}

#[test]
fn mysql_fmt_backslash_escapes_quotes() {
    assert_eq!(mysql::fmt("red"), "'red'");
    assert_eq!(mysql::fmt("it's"), "'it\\'s'");
    assert_eq!(mysql::fmt(""), "''");
}

#[test]
fn error_description_carries_message() {
    let e = Error::SQLBuildError("bad table".to_string());
    assert_eq!(e.description(), "sql build error: bad table");
}

#[test]
fn on_conflict_defaults_to_abort() {
    assert_eq!(OnConflict::default(), OnConflict::ABORT);
}

#[test]
fn outside_payloads_are_carried_through() {
    let date = chrono::NaiveDate::from_ymd_opt(2020, 5, 17).unwrap();
    let dt = UtcDateTime(chrono::DateTime::from_timestamp(0, 0).unwrap());
    let id = uuid::Uuid::nil();
    let json = serde_json::Value::Bool(true);
    let net: ip_network::IpNetwork = "10.0.0.0/8".parse().unwrap();
    let t = time::Time::from_hms(12, 30, 0).unwrap();
    let bits = bit_vec::BitVec::from_elem(3, true);
    let d = InsertData {
        into_clause: "t".to_string(),
        columns: (0..8).map(|i| format!("c{i}")).collect(),
        row_values: vec![vec![
            Value::ChronoNaiveDate(date),
            Value::ChronoDateTime(dt),
            Value::Uuid(id),
            Value::JsonValue(json),
            Value::IpNetwork(net),
            Value::TimeTime(t),
            Value::BitVec(bits),
            Value::MacAddress([0, 1, 2, 3, 4, 5]),
        ]],
        lookup: vec![],
        on_conflict: OnConflict::ABORT,
        returning_clause: None,
    };
    let (text, params) = InsertImpl::Postgres(d).build();
    assert_eq!(
        text,
        "INSERT INTO \"t\" (\"c0\", \"c1\", \"c2\", \"c3\", \"c4\", \"c5\", \"c6\", \"c7\") \
         VALUES ($1, $2, $3, $4, $5, $6, $7, $8);"
    );
    assert_eq!(params.len(), 8);
    assert_eq!(params[0], Value::ChronoNaiveDate(date));
    assert_eq!(params[2], Value::Uuid(uuid::Uuid::nil()));
    assert_eq!(params[3], Value::JsonValue(serde_json::Value::Bool(true)));
    assert_eq!(params[7], Value::MacAddress([0, 1, 2, 3, 4, 5]));
}

#[test]
fn float_values_round_trip_through_bits() {
    let d = InsertData {
        into_clause: "t".to_string(),
        columns: vec!["a".to_string(), "b".to_string()],
        row_values: vec![vec![
            Value::F64(2.5f64.to_bits()),
            Value::F32(1.25f32.to_bits()),
        ]],
        lookup: vec![],
        on_conflict: OnConflict::ABORT,
        returning_clause: None,
    };
    let (_, params) = InsertImpl::SQLite(d).build();
    match params[0] {
        Value::F64(bits) => assert_eq!(f64::from_bits(bits), 2.5),
        _ => panic!("expected an f64 value"),
    }
    match params[1] {
        Value::F32(bits) => assert_eq!(f32::from_bits(bits), 1.25),
        _ => panic!("expected an f32 value"),
    }
}
