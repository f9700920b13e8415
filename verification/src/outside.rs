use vstd::prelude::*;
use serde_json::Value as SerdeJsonValue;

verus! {

// The temporal, UUID, JSON and network payloads of `crate::value::Value`
// come from outside crates. The renderer only carries such values through
// to the parameter list, so the types are declared opaquely here and no
// method of theirs is given a contract; the renderer never looks inside
// them.

#[verifier::external_type_specification]
#[verifier::external_body]
pub struct ExNaiveTime(chrono::NaiveTime);

#[verifier::external_type_specification]
#[verifier::external_body]
pub struct ExNaiveDate(chrono::NaiveDate);

#[verifier::external_type_specification]
#[verifier::external_body]
pub struct ExNaiveDateTime(chrono::NaiveDateTime);

/// chrono's timezone-aware datetime is generic over chrono's `TimeZone`
/// trait, which cannot be declared here, so the `DateTime<Utc>` payload is
/// held behind this opaque wrapper; its field is public so that callers can
/// wrap and unwrap it freely.
#[verifier::external_body]
#[derive(Debug, PartialEq)]
pub struct UtcDateTime(pub chrono::DateTime<chrono::Utc>);

#[verifier::external_type_specification]
#[verifier::external_body]
pub struct ExTimeDate(time::Date);

#[verifier::external_type_specification]
#[verifier::external_body]
pub struct ExTimeTime(time::Time);

#[verifier::external_type_specification]
#[verifier::external_body]
pub struct ExOffsetDateTime(time::OffsetDateTime);

#[verifier::external_type_specification]
#[verifier::external_body]
pub struct ExPrimitiveDateTime(time::PrimitiveDateTime);

#[verifier::external_type_specification]
#[verifier::external_body]
pub struct ExUuid(uuid::Uuid);

#[verifier::external_type_specification]
#[verifier::external_body]
pub struct ExJsonValue(SerdeJsonValue);

#[verifier::external_type_specification]
#[verifier::external_body]
pub struct ExIpNetwork(ip_network::IpNetwork);

#[verifier::external_type_specification]
#[verifier::external_body]
#[verifier::reject_recursive_types(B)]
pub struct ExBitVec<B>(bit_vec::BitVec<B>);

} // verus!
