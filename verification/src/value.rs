use vstd::prelude::*;

verus! {

/// This enum represents a [Null](Value::Null)'s type
#[derive(Copy, Clone, Debug, PartialEq, Eq)]
pub enum NullType {
    /// String representation
    String,
    /// Choice representation
    Choice,
    /// i64 representation
    I64,
    /// i32 representation
    I32,
    /// i16 representation
    I16,
    /// Bool representation
    Bool,
    /// f64 representation
    F64,
    /// f32 representation
    F32,
    /// binary representation
    Binary,
    /// Naive Time representation
    ChronoNaiveTime,
    /// Naive Date representation
    ChronoNaiveDate,
    /// Naive DateTime representation
    ChronoNaiveDateTime,
    /// Chrono timezone aware date time representation
    ChronoDateTime,
    /// time's date representation
    TimeDate,
    /// time's time representation
    TimeTime,
    /// time's offset datetime representation
    TimeOffsetDateTime,
    /// time's primitive datetime representation
    TimePrimitiveDateTime,
    /// Uuid representation
    Uuid,
    /// Uuid in hyphenated representation
    UuidHyphenated,
    /// Uuid in simple text representation
    UuidSimple,
    /// serde_json's Value representation
    JsonValue,
    /// Mac address representation
    MacAddress,
    /// IP network presentation
    IpNetwork,
    /// Bit vec representation
    BitVec,
}

/**
This enum represents a value
 */
#[derive(Debug, PartialEq)]
pub enum Value {
    /// null representation
    Null(NullType),
    /// Representation of an identifier, e.g. a column.
    /// This variant will not be escaped, so do not
    /// pass unchecked data to it.
    Ident(String),
    /// Representation of a column name with
    /// an optional table name
    Column {
        /// Name of the table
        table_name: Option<String>,
        /// Name of the column
        column_name: String,
    },
    /// Representation of choices
    Choice(String),
    /// String representation
    String(String),
    /// i64 representation
    I64(i64),
    /// i32 representation
    I32(i32),
    /// i16 representation
    I16(i16),
    /// Bool representation
    Bool(bool),
    /// f64 representation, stored as its IEEE 754 bit pattern
    /// (convert with `f64::to_bits` / `f64::from_bits`)
    F64(u64),
    /// f32 representation, stored as its IEEE 754 bit pattern
    /// (convert with `f32::to_bits` / `f32::from_bits`)
    F32(u32),
    /// binary representation
    Binary(Vec<u8>),
    /// chrono's Naive Time representation
    ChronoNaiveTime(chrono::NaiveTime),
    /// chrono's Naive Date representation
    ChronoNaiveDate(chrono::NaiveDate),
    /// chrono's Naive DateTime representation
    ChronoNaiveDateTime(chrono::NaiveDateTime),
    /// chrono's Timezone aware datetime
    ChronoDateTime(crate::outside::UtcDateTime),
    /// time's date representation
    TimeDate(time::Date),
    /// time's time representation
    TimeTime(time::Time),
    /// time's offset datetime representation
    TimeOffsetDateTime(time::OffsetDateTime),
    /// time's primitive datetime representation
    TimePrimitiveDateTime(time::PrimitiveDateTime),
    /// Uuid representation
    Uuid(uuid::Uuid),
    /// Uuid in hyphenated representation
    UuidHyphenated(uuid::Uuid),
    /// Uuid in simple text representation
    UuidSimple(uuid::Uuid),
    /// serde_json's Value representation
    JsonValue(serde_json::Value),
    /// Mac address representation
    MacAddress([u8; 6]),
    /// IP network presentation
    IpNetwork(ip_network::IpNetwork),
    /// Bit vec representation
    BitVec(bit_vec::BitVec),
}

/// A cell is rendered as inline text (no bind parameter) exactly when it is
/// an identifier, a choice, or a null of choice type; every other value is
/// pushed onto the parameter list and stands for a placeholder token.
pub open spec fn is_bound(v: Value) -> bool {
    !(v is Ident || v is Choice || v == Value::Null(NullType::Choice))
}

} // verus!
