//! The cache workload: one temperature per device.

use crate::entropy::uniform_between;
use crate::payload::{ReadPayload, WritePayload};
use crate::sampler::Sampler;
use vstd::prelude::*;

verus! {

pub const DDL_CACHE: &'static str = r#"
    CREATE KEYSPACE IF NOT EXISTS skylar WITH replication =
    {'class': 'NetworkTopologyStrategy', 'replication_factor': <RF>};

    USE skylar;
    CREATE TABLE IF NOT EXISTS skylar.cache
    (
        device_id   uuid PRIMARY KEY,
        temperature int
    )
"#;

pub const INSERT_KEY_VALUE: &'static str = "
    INSERT INTO skylar.cache
    (
        device_id,
        temperature
    )
    VALUES (?, ?)
";

pub const SELECT_KEY_VALUE: &'static str = "
    SELECT
        device_id,
        temperature
    FROM skylar.cache
    WHERE device_id = ?
";

/// Picks the identifier of a device.
pub fn device_id(devices: &Sampler) -> (id: u128)
    ensures
        devices.may_pick(id),
        devices.keys().contains(id),
{
    devices.sample()
}

/// A row of the cache.
#[derive(Debug, Clone)]
pub struct Cache {
    pub device_id: u128,
    pub temperature: i64,
}

/// The key that a row of the cache is read by.
#[derive(Debug, Clone)]
pub struct CacheValues {
    pub device_id: u128,
}

impl WritePayload for Cache {
    type Keys = Sampler;

    open spec fn insert_text() -> Seq<char> {
        INSERT_KEY_VALUE@
    }

    /// The device is a candidate that the sampler can pick and the
    /// temperature is from 0 up to, not including, 100.
    open spec fn generated(devices: &Sampler, row: &Cache) -> bool {
        &&& devices.may_pick(row.device_id)
        &&& 0 <= row.temperature < 100
    }

    fn insert_query() -> (query: &'static str) {
        INSERT_KEY_VALUE
    }

    fn insert_values(devices: &Sampler) -> (row: Cache) {
        Cache { device_id: device_id(devices), temperature: uniform_between(0, 100) }
    }
}

impl ReadPayload for CacheValues {
    type Keys = Sampler;

    open spec fn select_text() -> Seq<char> {
        SELECT_KEY_VALUE@
    }

    /// A read asks for a candidate that the sampler can pick.
    open spec fn generated(devices: &Sampler, values: &CacheValues) -> bool {
        devices.may_pick(values.device_id)
    }

    fn select_query() -> (query: &'static str) {
        SELECT_KEY_VALUE
    }

    fn select_values(devices: &Sampler) -> (values: CacheValues) {
        CacheValues { device_id: device_id(devices) }
    }
}

} // verus!
