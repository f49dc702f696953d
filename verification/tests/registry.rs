use channel_data::channel_map::{ChannelMap, ChannelType};
use channel_data::field::{ChannelDataField, FIELD_COUNT};

const NAMES: [&str; 21] = [
    "Cebra0Energy",
    "Cebra1Energy",
    "Cebra2Energy",
    "Cebra3Energy",
    "Cebra4Energy",
    "Cebra5Energy",
    "Cebra6Energy",
    "Cebra0Short",
    "Cebra1Short",
    "Cebra2Short",
    "Cebra3Short",
    "Cebra4Short",
    "Cebra5Short",
    "Cebra6Short",
    "Cebra0Time",
    "Cebra1Time",
    "Cebra2Time",
    "Cebra3Time",
    "Cebra4Time",
    "Cebra5Time",
    "Cebra6Time",
];

#[test]
fn field_vec_lists_every_field_in_canonical_order() {
    let fields = ChannelDataField::get_field_vec();
    assert_eq!(fields.len(), 21);
    assert_eq!(FIELD_COUNT, 21);
    assert_eq!(fields[0], ChannelDataField::Cebra0Energy);
    assert_eq!(fields[6], ChannelDataField::Cebra6Energy);
    assert_eq!(fields[7], ChannelDataField::Cebra0Short);
    assert_eq!(fields[13], ChannelDataField::Cebra6Short);
    assert_eq!(fields[14], ChannelDataField::Cebra0Time);
    assert_eq!(fields[20], ChannelDataField::Cebra6Time);
    for (i, field) in fields.iter().enumerate() {
        assert_eq!(field.index(), i);
        assert_eq!(field.name(), NAMES[i]);
    }
}

#[test]
fn field_vec_is_the_same_on_every_call() {
    assert_eq!(ChannelDataField::get_field_vec(), ChannelDataField::get_field_vec());
}

#[test]
fn canonical_order_is_the_order_of_the_fields() {
    let fields = ChannelDataField::get_field_vec();
    for pair in fields.windows(2) {
        assert!(pair[0] < pair[1]);
    }
}

#[test]
fn field_names_are_distinct() {
    let fields = ChannelDataField::get_field_vec();
    for a in fields.iter() {
        for b in fields.iter() {
            assert_eq!(a.name() == b.name(), a == b);
        }
    }
}

#[test]
fn of_channel_gives_the_three_fields_of_a_detector() {
    assert_eq!(
        ChannelDataField::of_channel(ChannelType::Cebra0),
        Some((
            ChannelDataField::Cebra0Energy,
            ChannelDataField::Cebra0Short,
            ChannelDataField::Cebra0Time
        ))
    );
    assert_eq!(
        ChannelDataField::of_channel(ChannelType::Cebra3),
        Some((
            ChannelDataField::Cebra3Energy,
            ChannelDataField::Cebra3Short,
            ChannelDataField::Cebra3Time
        ))
    );
    assert_eq!(
        ChannelDataField::of_channel(ChannelType::Cebra6),
        Some((
            ChannelDataField::Cebra6Energy,
            ChannelDataField::Cebra6Short,
            ChannelDataField::Cebra6Time
        ))
    );
}

#[test]
fn of_channel_gives_nothing_for_other_devices() {
    assert_eq!(ChannelDataField::of_channel(ChannelType::AnodeFront), None);
    assert_eq!(ChannelDataField::of_channel(ChannelType::AnodeBack), None);
    assert_eq!(ChannelDataField::of_channel(ChannelType::ScintLeft), None);
    assert_eq!(ChannelDataField::of_channel(ChannelType::ScintRight), None);
    assert_eq!(ChannelDataField::of_channel(ChannelType::Cathode), None);
}

#[test]
fn empty_map_resolves_nothing() {
    let map = ChannelMap::new();
    assert_eq!(map.get_channel_data(&0), None);
    assert_eq!(map.get_channel_data(&u32::MAX), None);
}

#[test]
fn map_resolves_what_was_inserted() {
    let mut map = ChannelMap::new();
    map.insert(17, ChannelType::Cebra2);
    map.insert(18, ChannelType::Cathode);
    assert_eq!(map.get_channel_data(&17), Some(ChannelType::Cebra2));
    assert_eq!(map.get_channel_data(&18), Some(ChannelType::Cathode));
    assert_eq!(map.get_channel_data(&19), None);
}

#[test]
fn map_insert_replaces_an_earlier_assignment() {
    let mut map = ChannelMap::new();
    map.insert(17, ChannelType::Cebra2);
    map.insert(17, ChannelType::Cebra5);
    assert_eq!(map.get_channel_data(&17), Some(ChannelType::Cebra5));
}
