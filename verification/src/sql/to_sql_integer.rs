//! Storing Discord identifiers in Sqlite `INTEGER` columns.
use vstd::prelude::*;

use crate::ids::{ChannelId, GuildId, MessageId, UserId};

verus! {

/// The signed integer with the same 64 bits as `x` (two's complement).
pub open spec fn bits_as_i64_spec(x: u64) -> int {
    if x <= i64::MAX {
        x as int
    } else {
        x - 0x1_0000_0000_0000_0000int
    }
}

/// The signed integer with the same 64 bits as `x`.
pub fn bits_as_i64(x: u64) -> (r: i64)
    ensures
        r as int == bits_as_i64_spec(x),
{
    if x <= i64::MAX as u64 {
        x as i64
    } else {
        let d: u64 = x - 0x8000_0000_0000_0000u64;
        (d as i64) + i64::MIN
    }
}

/// Law: reinterpreting the bits loses nothing; distinct identifiers stay distinct.
pub proof fn lemma_bits_as_i64_injective(a: u64, b: u64)
    ensures
        bits_as_i64_spec(a) == bits_as_i64_spec(b) ==> a == b,
{
}

/// Identifiers that Sqlite can store as `INTEGER`s.
pub trait ToSqlInteger: Sized {
    /// The identifier as an unsigned integer.
    spec fn spec_u64(self) -> u64;

    /// Transform `self` into a `u64`.
    fn to_u64(self) -> (r: u64)
        ensures
            r == self.spec_u64(),
    ;

    /// Transform `self` into a `i64` which sqlite can handle: a pure binary transform.
    fn to_sql(self) -> (r: i64)
        ensures
            r as int == bits_as_i64_spec(self.spec_u64()),
    {
        bits_as_i64(self.to_u64())
    }
}

impl ToSqlInteger for ChannelId {
    open spec fn spec_u64(self) -> u64 {
        self.0
    }

    fn to_u64(self) -> (r: u64) {
        self.0
    }
}

impl ToSqlInteger for GuildId {
    open spec fn spec_u64(self) -> u64 {
        self.0
    }

    fn to_u64(self) -> (r: u64) {
        self.0
    }
}

impl ToSqlInteger for UserId {
    open spec fn spec_u64(self) -> u64 {
        self.0
    }

    fn to_u64(self) -> (r: u64) {
        self.0
    }
}

impl ToSqlInteger for MessageId {
    open spec fn spec_u64(self) -> u64 {
        self.0
    }

    fn to_u64(self) -> (r: u64) {
        self.0
    }
}

} // verus!
