use skylar::devices::{random_rack_id, random_sled_id, Pools};
use skylar::models::generate_random_device;
use skylar::payload::{ReadPayload, WritePayload};
use skylar::users::{User, UserValues, INSERT_USER, SELECT_USER};

fn pools() -> Pools {
    Pools::new(vec![1, 2, 3], (100..200).collect()).unwrap()
}

#[test]
fn pools_must_not_be_empty() {
    assert!(Pools::new(Vec::new(), vec![1]).is_none());
    assert!(Pools::new(vec![1], Vec::new()).is_none());
    assert!(Pools::new(Vec::new(), Vec::new()).is_none());
    assert!(Pools::new(vec![1], vec![1]).is_some());
}

#[test]
fn random_ids_come_from_their_pools() {
    let pools = pools();
    let mut racks = [false; 3];
    for _ in 0..300 {
        let rack = random_rack_id(&pools);
        assert!((1..=3).contains(&rack));
        racks[(rack - 1) as usize] = true;
        assert!((100..200).contains(&random_sled_id(&pools)));
    }
    assert_eq!(racks, [true; 3]);
}

#[test]
fn pooled_device_rows_share_one_tag_and_stay_in_range() {
    let pools = pools();
    for _ in 0..100 {
        let row = skylar::devices::Device::insert_values(&pools);
        assert_eq!(row.kind, "vnic");
        let tag = &row.link_name[2..];
        assert_eq!(tag.len(), 4);
        assert!(tag.chars().all(|c| c.is_ascii_alphanumeric()));
        assert_eq!(row.link_name, format!("l-{}", tag));
        assert_eq!(row.sled_model, format!("m-{}", tag));
        assert_eq!(row.sled_serial, format!("s-{}", tag));
        assert_eq!(row.zone_name, format!("z-{}", tag));
        assert!((1..=3).contains(&row.rack_id));
        assert!((100..200).contains(&row.sled_id));
        assert!((0..10).contains(&row.sled_revision));
        assert!((0..1000).contains(&row.bytes_sent));
        assert!((0..1000).contains(&row.bytes_received));
        assert!((1000..1000000).contains(&row.packets_sent));
        assert!((1000..1000000).contains(&row.packets_received));
    }
}

#[test]
fn pooled_device_reads_look_five_seconds_back() {
    let pools = pools();
    let values = skylar::devices::DeviceValues::at(&pools, 60_000);
    assert_eq!(values.time, 55_000);
    assert!((1..=3).contains(&values.rack_id));
    assert!((100..200).contains(&values.sled_id));
    let row = skylar::devices::Device::at(&pools, 42);
    assert_eq!(row.time, 42);
    let values = skylar::devices::DeviceValues::select_values(&pools);
    assert!(values.time > 1_577_836_800_000);
}

#[test]
fn pooled_device_statements_have_one_marker_per_value() {
    let insert = <skylar::devices::Device as WritePayload>::insert_query();
    let select = <skylar::devices::DeviceValues as ReadPayload>::select_query();
    assert_eq!(insert.matches('?').count(), 13);
    assert_eq!(select.matches('?').count(), 3);
}

#[test]
fn users_have_random_names_at_example_com() {
    for _ in 0..100 {
        let user = User::insert_values(&());
        assert_eq!(user.username.len(), 8);
        assert!(user.username.chars().all(|c| c.is_ascii_alphanumeric()));
        assert_eq!(user.email.len(), 20);
        let (local, domain) = user.email.split_at(8);
        assert!(local.chars().all(|c| c.is_ascii_alphanumeric()));
        assert_eq!(domain, "@example.com");
        assert_eq!((user.user_id >> 76) & 0xf, 4);
        assert!(user.created_at > 1_577_836_800_000);
    }
    assert_eq!(User::at(77).created_at, 77);
}

#[test]
fn user_reads_ask_for_random_accounts() {
    let first = UserValues::select_values(&());
    let second = UserValues::select_values(&());
    assert_ne!(first.user_id, second.user_id);
    assert_eq!((first.user_id >> 62) & 0x3, 2);
}

#[test]
fn user_statements_have_one_marker_per_value() {
    assert_eq!(User::insert_query(), INSERT_USER);
    assert_eq!(UserValues::select_query(), SELECT_USER);
    assert_eq!(INSERT_USER.matches('?').count(), 4);
    assert_eq!(SELECT_USER.matches('?').count(), 1);
}

#[test]
fn random_devices_are_numbered_and_dated() {
    for _ in 0..100 {
        let row = generate_random_device();
        let number = row.device.strip_prefix("device").unwrap();
        assert_eq!(number.parse::<u32>().unwrap().to_string(), number);
        assert!((0..100).contains(&row.temperature));
        assert!((1..=12).contains(&row.month));
        assert!(row.year >= 2024 && row.year < 2100);
        assert!(row.time > 1_577_836_800_000);
    }
}

#[test]
fn a_device_takes_the_moment_it_is_given() {
    let moment = skylar::clock::Moment { millis: 1_700_000_000_000, year: 2023, month: 11 };
    let row = skylar::models::Device::at(moment);
    assert_eq!((row.time, row.year, row.month), (1_700_000_000_000, 2023, 11));
    assert!(row.device.starts_with("device"));
}
