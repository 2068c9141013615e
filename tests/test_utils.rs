use visualization_test::effects::{Effect, EffectProcessor, FrequencyEffect};
use visualization_test::filters::{Filter, FilterProcessor, SimplePreEmphasisFilter};
use visualization_test::input::{buffer_info_for_rate, device_info, safe_name, MonoFramer};
use visualization_test::utils::{count_true, AudioBuffer, BufferInfo, Domain};

#[test]
fn count_true_counts_set_flags() {
    assert_eq!(count_true(&[]), 0);
    assert_eq!(count_true(&[true, false, true]), 2);
    assert_eq!(count_true(&[false, false]), 0);
}

#[test]
fn buffer_size_is_the_product() {
    let info = BufferInfo { frame_length: 480, frame_capture_size: 2 };
    assert_eq!(info.buffer_size(), 960);
}

#[test]
fn audio_buffer_starts_silent() {
    let mut buffer = AudioBuffer::new(4, 3);
    assert_eq!(buffer.buffer_size(), 12);
    assert_eq!(buffer.frame_length(), 4);
    assert_eq!(buffer.frame_capture_size(), 3);
    assert_eq!(buffer.as_slice(), &[0i16; 12][..]);
    buffer.as_mut_slice()[5] = 9;
    assert_eq!(buffer.as_slice()[5], 9);
    let info = *buffer.buffer_info();
    let other = AudioBuffer::from_info(info);
    assert_eq!(other.as_slice().len(), 12);
}

#[test]
fn domain_names() {
    assert_eq!(Domain::FrequencyDomain.name(), "Frequency Domain");
    assert_eq!(Domain::TimeDomain.name(), "Time Domain");
}

#[test]
fn buffer_shape_follows_sample_rate() {
    let info = buffer_info_for_rate(48000);
    assert_eq!(info.frame_length, 480);
    assert_eq!(info.frame_capture_size, 2);
    assert_eq!(buffer_info_for_rate(44100).frame_length, 441);
}

#[test]
fn device_marked_standard_by_name() {
    let default = Some(String::from("Mic"));
    let d = device_info(2, String::from("Mic"), 2, 48000, &default);
    assert!(d.standard);
    assert_eq!(d.position, 2);
    let e = device_info(3, String::from("Line"), 1, 44100, &default);
    assert!(!e.standard);
    assert!(!device_info(0, String::from("Mic"), 2, 48000, &None).standard);
}

#[test]
fn unknown_device_name() {
    assert_eq!(safe_name(None), "<Unknown>");
    assert_eq!(safe_name(Some(String::from("USB"))), "USB");
}

#[test]
fn mono_framer_takes_left_samples_of_two_callbacks() {
    let mut framer = MonoFramer::new(3, 0i16);
    assert!(framer.push(&[1, 10, 2, 20, 3, 30]).is_none());
    let full = framer.push(&[4, 40, 5, 50, 6, 60]).unwrap();
    assert_eq!(full, vec![1, 2, 3, 4, 5, 6]);
    assert!(framer.push(&[7, 70]).is_none());
    let next = framer.push(&[8, 80, 9, 90, 11, 110]).unwrap();
    assert_eq!(next, vec![7, 2, 3, 8, 9, 11]);
}

#[test]
fn effect_and_filter_accessors() {
    let effect = Effect::new("Wave", "/wave", Domain::TimeDomain, EffectProcessor::Frequency(FrequencyEffect));
    assert_eq!(effect.name(), "Wave");
    assert_eq!(effect.icon(), "/wave");
    assert_eq!(effect.domain(), Domain::TimeDomain);
    assert_eq!(effect.get_info().name, "Wave");
    let filter = Filter::new(
        "Pre-emphasis",
        Domain::TimeDomain,
        FilterProcessor::SimplePreEmphasis(SimplePreEmphasisFilter),
    );
    assert_eq!(filter.name(), "Pre-emphasis");
    assert_eq!(filter.domain(), Domain::TimeDomain);
    assert_eq!(filter.get_info().name, "Pre-emphasis");
    assert_eq!(filter.create(), FilterProcessor::SimplePreEmphasis(SimplePreEmphasisFilter));
}
