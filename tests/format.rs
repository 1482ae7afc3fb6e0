use simple_http_radio::format::{
    bit_depth, channels, effective_bit_depth, sample_rate, sample_size, DeviceFormat,
    SampleEncoding,
};

fn fmt(encoding: SampleEncoding) -> DeviceFormat {
    DeviceFormat { sample_rate: 44100, channels: 2, encoding }
}

#[test]
fn getters_read_the_format() {
    let f = fmt(SampleEncoding::Int16);
    assert_eq!(sample_rate(&f), 44100);
    assert_eq!(channels(&f), 2);
    assert_eq!(bit_depth(&f), 16);
}

#[test]
fn sample_sizes() {
    assert_eq!(sample_size(SampleEncoding::UInt16), 2);
    assert_eq!(sample_size(SampleEncoding::Int16), 2);
    assert_eq!(sample_size(SampleEncoding::Float32), 4);
    assert_eq!(sample_size(SampleEncoding::Other(3)), 3);
}

#[test]
fn effective_depth_is_capped_at_24() {
    assert_eq!(effective_bit_depth(&fmt(SampleEncoding::UInt16)), 16);
    assert_eq!(effective_bit_depth(&fmt(SampleEncoding::Float32)), 24);
    assert_eq!(bit_depth(&fmt(SampleEncoding::Float32)), 32);
    assert_eq!(effective_bit_depth(&fmt(SampleEncoding::Other(3))), 24);
    assert_eq!(effective_bit_depth(&fmt(SampleEncoding::Other(1))), 8);
}
