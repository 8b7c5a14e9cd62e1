use weather_station::network::search_for_unused_channel;

#[test]
fn empty_air_takes_channel_one() {
    assert_eq!(search_for_unused_channel(&[]), 1);
}

#[test]
fn prefers_non_overlapping_channels() {
    assert_eq!(search_for_unused_channel(&[1]), 6);
    assert_eq!(search_for_unused_channel(&[1, 6]), 11);
    assert_eq!(search_for_unused_channel(&[6, 1, 1, 6]), 11);
    assert_eq!(search_for_unused_channel(&[2, 3, 4, 5]), 1);
}

#[test]
fn falls_back_to_lowest_free_channel() {
    assert_eq!(search_for_unused_channel(&[1, 6, 11]), 2);
    assert_eq!(search_for_unused_channel(&[1, 2, 3, 6, 11]), 4);
}

#[test]
fn all_busy_takes_channel_six() {
    let all: Vec<u8> = (1..=13).collect();
    assert_eq!(search_for_unused_channel(&all), 6);
}

#[test]
fn out_of_range_channels_are_ignored() {
    assert_eq!(search_for_unused_channel(&[0, 14, 255]), 1);
    let mut busy: Vec<u8> = (1..=13).filter(|c| *c != 13).collect();
    busy.push(0);
    busy.push(14);
    assert_eq!(search_for_unused_channel(&busy), 13);
}
