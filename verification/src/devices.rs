//! The device workload over two pools of identifiers, each picked from
//! uniformly.

use crate::clock::now;
use crate::entropy::{alphanumeric_string, uniform_between, uniform_index};
use crate::payload::{ReadPayload, WritePayload};
use crate::timeseries::{is_tag, read_from, spec_read_from, tagged, TAG_LENGTH};
use vstd::prelude::*;

verus! {

pub const DDL_DEVICES: &'static str = r#"
    CREATE KEYSPACE IF NOT EXISTS skylar WITH replication =
    {'class': 'NetworkTopologyStrategy', 'replication_factor': <RF>}
    AND tablets = {'enabled': <TABLETS_ENABLED>, 'initial': <TABLETS>};

    USE skylar;
    CREATE TABLE IF NOT EXISTS skylar.devices
    (
        kind             text,
        link_name        text,
        rack_id          uuid,
        sled_id          uuid,
        sled_model       text,
        sled_revision    int,
        sled_serial      text,
        zone_name        text,
        bytes_sent       int,
        bytes_received   int,
        packets_sent     int,
        packets_received int,
        time             timestamp,
        PRIMARY KEY ((rack_id, sled_id), time)
    )
"#;

pub const INSERT_DEVICE: &'static str = "
    INSERT INTO skylar.devices
    (
        kind,
        link_name,
        rack_id,
        sled_id,
        sled_model,
        sled_revision,
        sled_serial,
        zone_name,
        bytes_sent,
        bytes_received,
        packets_sent,
        packets_received,
        time
    )
    VALUES (?, ?, ?, ?, ?, ?, ?, ?, ?, ?, ?, ?, ?)
";

pub const SELECT_DEVICE: &'static str = "
    SELECT
        kind,
        link_name,
        rack_id,
        sled_id,
        sled_model,
        sled_revision,
        sled_serial,
        zone_name,
        bytes_sent,
        bytes_received,
        packets_sent,
        packets_received,
        time
    FROM skylar.devices
    WHERE rack_id = ? AND sled_id = ? AND time > ?
";

/// The identifiers of the racks and of the sleds; neither pool is empty.
pub struct Pools {
    racks: Vec<u128>,
    sleds: Vec<u128>,
}

impl Pools {
    #[verifier::type_invariant]
    spec fn well_formed(&self) -> bool {
        self.racks@.len() > 0 && self.sleds@.len() > 0
    }

    /// The identifiers of the racks.
    pub closed spec fn racks(&self) -> Seq<u128> {
        self.racks@
    }

    /// The identifiers of the sleds.
    pub closed spec fn sleds(&self) -> Seq<u128> {
        self.sleds@
    }

    /// Makes the pools, unless one of them would be empty.
    pub fn new(racks: Vec<u128>, sleds: Vec<u128>) -> (pools: Option<Pools>)
        ensures
            pools is Some <==> racks@.len() > 0 && sleds@.len() > 0,
            pools matches Some(p) ==> p.racks() == racks@ && p.sleds() == sleds@,
    {
        if racks.len() == 0 || sleds.len() == 0 {
            None
        } else {
            Some(Pools { racks, sleds })
        }
    }
}

/// Picks the identifier of a rack, each with the same chance.
pub fn random_rack_id(pools: &Pools) -> (id: u128)
    ensures
        pools.racks().contains(id),
{
    proof {
        use_type_invariant(pools);
    }
    pools.racks[uniform_index(pools.racks.len())]
}

/// Picks the identifier of a sled, each with the same chance.
pub fn random_sled_id(pools: &Pools) -> (id: u128)
    ensures
        pools.sleds().contains(id),
{
    proof {
        use_type_invariant(pools);
    }
    pools.sleds[uniform_index(pools.sleds.len())]
}

/// One measurement of a network link.
#[derive(Debug, Clone)]
pub struct Device {
    pub kind: String,
    pub link_name: String,
    pub rack_id: u128,
    pub sled_id: u128,
    pub sled_model: String,
    pub sled_revision: i32,
    pub sled_serial: String,
    pub zone_name: String,
    pub bytes_sent: i32,
    pub bytes_received: i32,
    pub packets_sent: i32,
    pub packets_received: i32,
    /// Milliseconds since the start of 1970.
    pub time: i64,
}

/// The values that measurements are read by: a rack, a sled and the time
/// from which on to read.
#[derive(Debug, Clone)]
pub struct DeviceValues {
    pub rack_id: u128,
    pub sled_id: u128,
    /// Milliseconds since the start of 1970.
    pub time: i64,
}

impl Device {
    /// Whether the row's names are the four prefixes, each followed by `tag`.
    pub open spec fn named_by(&self, tag: Seq<char>) -> bool {
        &&& self.link_name@ == "l-"@ + tag
        &&& self.sled_model@ == "m-"@ + tag
        &&& self.sled_serial@ == "s-"@ + tag
        &&& self.zone_name@ == "z-"@ + tag
    }

    /// Whether the row's counters are in the ranges that rows are generated
    /// in.
    pub open spec fn counters_in_range(&self) -> bool {
        &&& 0 <= self.sled_revision < 10
        &&& 0 <= self.bytes_sent < 1000
        &&& 0 <= self.bytes_received < 1000
        &&& 1000 <= self.packets_sent < 1000000
        &&& 1000 <= self.packets_received < 1000000
    }

    /// Generates a measurement taken at `time`.
    pub fn at(pools: &Pools, time: i64) -> (row: Device)
        ensures
            <Device as WritePayload>::generated(pools, &row),
            row.time == time,
    {
        let tag: String = alphanumeric_string(TAG_LENGTH);
        let row = Device {
            kind: String::from_str("vnic"),
            link_name: tagged("l-", tag.as_str()),
            rack_id: random_rack_id(pools),
            sled_id: random_sled_id(pools),
            sled_model: tagged("m-", tag.as_str()),
            sled_revision: uniform_between(0, 10) as i32,
            sled_serial: tagged("s-", tag.as_str()),
            zone_name: tagged("z-", tag.as_str()),
            bytes_sent: uniform_between(0, 1000) as i32,
            bytes_received: uniform_between(0, 1000) as i32,
            packets_sent: uniform_between(1000, 1000000) as i32,
            packets_received: uniform_between(1000, 1000000) as i32,
            time,
        };
        assert(is_tag(tag@) && row.named_by(tag@));
        row
    }
}

impl DeviceValues {
    /// Generates the values of a read that is made at `now`.
    pub fn at(pools: &Pools, now: i64) -> (values: DeviceValues)
        ensures
            <DeviceValues as ReadPayload>::generated(pools, &values),
            values.time == spec_read_from(now),
    {
        DeviceValues {
            rack_id: random_rack_id(pools),
            sled_id: random_sled_id(pools),
            time: read_from(now),
        }
    }
}

impl WritePayload for Device {
    type Keys = Pools;

    open spec fn insert_text() -> Seq<char> {
        INSERT_DEVICE@
    }

    /// The row is of kind `vnic`, its rack and sled are from the pools, its
    /// names share one tag and its counters are in range.
    open spec fn generated(pools: &Pools, row: &Device) -> bool {
        &&& row.kind@ == "vnic"@
        &&& pools.racks().contains(row.rack_id)
        &&& pools.sleds().contains(row.sled_id)
        &&& exists|tag: Seq<char>| is_tag(tag) && #[trigger] row.named_by(tag)
        &&& row.counters_in_range()
    }

    fn insert_query() -> (query: &'static str) {
        INSERT_DEVICE
    }

    fn insert_values(pools: &Pools) -> (row: Device) {
        Device::at(pools, now().millis)
    }
}

impl ReadPayload for DeviceValues {
    type Keys = Pools;

    open spec fn select_text() -> Seq<char> {
        SELECT_DEVICE@
    }

    /// The rack and the sled are from the pools.
    open spec fn generated(pools: &Pools, values: &DeviceValues) -> bool {
        &&& pools.racks().contains(values.rack_id)
        &&& pools.sleds().contains(values.sled_id)
    }

    fn select_query() -> (query: &'static str) {
        SELECT_DEVICE
    }

    fn select_values(pools: &Pools) -> (values: DeviceValues) {
        DeviceValues::at(pools, now().millis)
    }
}

} // verus!
