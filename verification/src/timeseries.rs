//! The time-series workload: traffic counters of network links, by rack and
//! sled.

use crate::clock::now;
use crate::entropy::{alphanumeric_string, is_alphanumeric, uniform_between};
use crate::payload::{ReadPayload, WritePayload};
use crate::sampler::{
    construction_error, histogram, DistributionKind, Sampler, SamplerError,
};
use vstd::prelude::*;

verus! {

pub const DDL_TIMESERIES: &'static str = r#"
    CREATE KEYSPACE IF NOT EXISTS skylar WITH replication =
    {'class': 'NetworkTopologyStrategy', 'replication_factor': <RF>}
    AND tablets = {'enabled': <TABLETS_ENABLED>, 'initial': <TABLETS>};

    USE skylar;
    CREATE TABLE IF NOT EXISTS skylar.devices
    (
        kind             text,
        link_name        text,
        rack_id          uuid,
        sled_id          uuid,
        sled_model       text,
        sled_revision    int,
        sled_serial      text,
        zone_name        text,
        bytes_sent       int,
        bytes_received   int,
        packets_sent     int,
        packets_received int,
        time             timestamp,
        PRIMARY KEY ((rack_id, sled_id), time)
    )
"#;

pub const INSERT_DEVICE: &'static str = "
    INSERT INTO skylar.devices
    (
        kind,
        link_name,
        rack_id,
        sled_id,
        sled_model,
        sled_revision,
        sled_serial,
        zone_name,
        bytes_sent,
        bytes_received,
        packets_sent,
        packets_received,
        time
    )
    VALUES (?, ?, ?, ?, ?, ?, ?, ?, ?, ?, ?, ?, ?)
";

pub const SELECT_DEVICE: &'static str = "
    SELECT
        kind,
        link_name,
        rack_id,
        sled_id,
        sled_model,
        sled_revision,
        sled_serial,
        zone_name,
        bytes_sent,
        bytes_received,
        packets_sent,
        packets_received,
        time
    FROM skylar.devices
    WHERE rack_id = ? AND sled_id = ? AND time > ?
";

/// Number of racks.
pub const RACK_COUNT: usize = 3;

/// Number of characters in the tag that the names of one row share.
pub const TAG_LENGTH: usize = 4;

/// How far back a read looks, in milliseconds.
pub const READ_WINDOW_MILLIS: i64 = 5000;

/// How racks are picked: in order where the workload is sequential,
/// uniformly under every other distribution.
pub open spec fn spec_rack_kind(kind: DistributionKind) -> DistributionKind {
    if kind == DistributionKind::Sequential {
        DistributionKind::Sequential
    } else {
        DistributionKind::Uniform
    }
}

/// How racks are picked under the workload's distribution.
pub fn rack_kind(kind: DistributionKind) -> (racks: DistributionKind)
    ensures
        racks == spec_rack_kind(kind),
        !racks.is_weighted(),
{
    match kind {
        DistributionKind::Sequential => DistributionKind::Sequential,
        _ => DistributionKind::Uniform,
    }
}

/// The key sets of the time-series workload.
pub struct DeviceKeys {
    pub racks: Sampler,
    pub sleds: Sampler,
}

impl DeviceKeys {
    /// The reason, if there is one, for which the key sets cannot be made.
    pub open spec fn construction_error(
        kind: DistributionKind,
        racks: nat,
        sleds: nat,
        draws: Seq<i64>,
    ) -> Option<SamplerError> {
        if racks == 0 {
            Some(SamplerError::EmptyKeySet)
        } else {
            construction_error(kind, sleds, draws)
        }
    }

    /// Makes the key sets: the sleds are picked by `kind`, with the weights
    /// of `draws` where the kind is weighted, the racks by `rack_kind(kind)`.
    pub fn new(
        kind: DistributionKind,
        rack_keys: Vec<u128>,
        sled_keys: Vec<u128>,
        draws: &Vec<i64>,
    ) -> (made: Result<DeviceKeys, SamplerError>)
        ensures
            made is Ok <==> DeviceKeys::construction_error(
                kind,
                rack_keys@.len(),
                sled_keys@.len(),
                draws@,
            ) is None,
            made matches Err(error) ==> DeviceKeys::construction_error(
                kind,
                rack_keys@.len(),
                sled_keys@.len(),
                draws@,
            ) == Some(error),
            made matches Ok(keys) ==> {
                &&& keys.racks.kind() == spec_rack_kind(kind)
                &&& keys.racks.keys() == rack_keys@
                &&& keys.sleds.kind() == kind
                &&& keys.sleds.keys() == sled_keys@
                &&& kind.is_weighted() ==> keys.sleds.weights() == histogram(
                    draws@,
                    sled_keys@.len(),
                )
            },
    {
        let no_draws: Vec<i64> = Vec::new();
        let racks: Sampler = match Sampler::new(rack_kind(kind), rack_keys, &no_draws) {
            Ok(racks) => racks,
            Err(error) => {
                return Err(error);
            },
        };
        match Sampler::new(kind, sled_keys, draws) {
            Ok(sleds) => Ok(DeviceKeys { racks, sleds }),
            Err(error) => Err(error),
        }
    }
}

/// Picks the identifier of a rack.
pub fn rack_id(racks: &Sampler) -> (id: u128)
    ensures
        racks.may_pick(id),
        racks.keys().contains(id),
{
    racks.sample()
}

/// Picks the identifier of a sled.
pub fn sled_id(sleds: &Sampler) -> (id: u128)
    ensures
        sleds.may_pick(id),
        sleds.keys().contains(id),
{
    sleds.sample()
}

/// A tag: `TAG_LENGTH` ASCII letters and digits.
pub open spec fn is_tag(tag: Seq<char>) -> bool {
    &&& tag.len() == TAG_LENGTH
    &&& forall|i: int| 0 <= i < tag.len() ==> is_alphanumeric(#[trigger] tag[i])
}

/// A name made of a prefix and the row's tag.
pub fn tagged(prefix: &str, tag: &str) -> (name: String)
    ensures
        name@ == prefix@ + tag@,
{
    let mut name: String = String::from_str(prefix);
    name.append(tag);
    name
}

/// The time that a read starts from: `READ_WINDOW_MILLIS` before `now`, or
/// the earliest time that can be written where that is not so far back.
pub open spec fn spec_read_from(now: i64) -> i64 {
    if now >= i64::MIN + READ_WINDOW_MILLIS {
        (now - READ_WINDOW_MILLIS) as i64
    } else {
        i64::MIN
    }
}

/// The time that a read at `now` starts from.
pub fn read_from(now: i64) -> (from: i64)
    ensures
        from == spec_read_from(now),
{
    if now >= i64::MIN + READ_WINDOW_MILLIS {
        now - READ_WINDOW_MILLIS
    } else {
        i64::MIN
    }
}

/// One measurement of a network link.
#[derive(Debug, Clone)]
pub struct Device {
    pub kind: String,
    pub link_name: String,
    pub rack_id: u128,
    pub sled_id: u128,
    pub sled_model: String,
    pub sled_revision: i32,
    pub sled_serial: String,
    pub zone_name: String,
    pub bytes_sent: i32,
    pub bytes_received: i32,
    pub packets_sent: i32,
    pub packets_received: i32,
    /// Milliseconds since the start of 1970.
    pub time: i64,
}

/// The values that measurements are read by: a rack, a sled and the time
/// from which on to read.
#[derive(Debug, Clone)]
pub struct DeviceValues {
    pub rack_id: u128,
    pub sled_id: u128,
    /// Milliseconds since the start of 1970.
    pub time: i64,
}

impl Device {
    /// Whether the row's names are the four prefixes, each followed by `tag`.
    pub open spec fn named_by(&self, tag: Seq<char>) -> bool {
        &&& self.link_name@ == "l-"@ + tag
        &&& self.sled_model@ == "m-"@ + tag
        &&& self.sled_serial@ == "s-"@ + tag
        &&& self.zone_name@ == "z-"@ + tag
    }

    /// Whether the row's counters are in the ranges that rows are generated
    /// in.
    pub open spec fn counters_in_range(&self) -> bool {
        &&& 0 <= self.sled_revision < 10
        &&& 0 <= self.bytes_sent < 1000
        &&& 0 <= self.bytes_received < 1000
        &&& 1000 <= self.packets_sent < 1000000
        &&& 1000 <= self.packets_received < 1000000
    }

    /// Generates a measurement taken at `time`.
    pub fn at(keys: &DeviceKeys, time: i64) -> (row: Device)
        ensures
            <Device as WritePayload>::generated(keys, &row),
            row.time == time,
    {
        let tag: String = alphanumeric_string(TAG_LENGTH);
        let row = Device {
            kind: String::from_str("vnic"),
            link_name: tagged("l-", tag.as_str()),
            rack_id: rack_id(&keys.racks),
            sled_id: sled_id(&keys.sleds),
            sled_model: tagged("m-", tag.as_str()),
            sled_revision: uniform_between(0, 10) as i32,
            sled_serial: tagged("s-", tag.as_str()),
            zone_name: tagged("z-", tag.as_str()),
            bytes_sent: uniform_between(0, 1000) as i32,
            bytes_received: uniform_between(0, 1000) as i32,
            packets_sent: uniform_between(1000, 1000000) as i32,
            packets_received: uniform_between(1000, 1000000) as i32,
            time,
        };
        assert(is_tag(tag@) && row.named_by(tag@));
        row
    }
}

impl DeviceValues {
    /// Generates the values of a read that is made at `now`.
    pub fn at(keys: &DeviceKeys, now: i64) -> (values: DeviceValues)
        ensures
            <DeviceValues as ReadPayload>::generated(keys, &values),
            values.time == spec_read_from(now),
    {
        DeviceValues {
            rack_id: rack_id(&keys.racks),
            sled_id: sled_id(&keys.sleds),
            time: read_from(now),
        }
    }
}

impl WritePayload for Device {
    type Keys = DeviceKeys;

    open spec fn insert_text() -> Seq<char> {
        INSERT_DEVICE@
    }

    /// The row is of kind `vnic`, its rack and sled are candidates that
    /// their samplers can pick, its names share one tag and its counters are
    /// in range.
    open spec fn generated(keys: &DeviceKeys, row: &Device) -> bool {
        &&& row.kind@ == "vnic"@
        &&& keys.racks.may_pick(row.rack_id)
        &&& keys.sleds.may_pick(row.sled_id)
        &&& exists|tag: Seq<char>| is_tag(tag) && #[trigger] row.named_by(tag)
        &&& row.counters_in_range()
    }

    fn insert_query() -> (query: &'static str) {
        INSERT_DEVICE
    }

    fn insert_values(keys: &DeviceKeys) -> (row: Device) {
        Device::at(keys, now().millis)
    }
}

impl ReadPayload for DeviceValues {
    type Keys = DeviceKeys;

    open spec fn select_text() -> Seq<char> {
        SELECT_DEVICE@
    }

    /// The rack and the sled are candidates that their samplers can pick.
    open spec fn generated(keys: &DeviceKeys, values: &DeviceValues) -> bool {
        &&& keys.racks.may_pick(values.rack_id)
        &&& keys.sleds.may_pick(values.sled_id)
    }

    fn select_query() -> (query: &'static str) {
        SELECT_DEVICE
    }

    fn select_values(keys: &DeviceKeys) -> (values: DeviceValues) {
        DeviceValues::at(keys, now().millis)
    }
}

} // verus!
