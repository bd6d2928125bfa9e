use grideye::codec::{decode, encode};
use grideye::{Scale, SignedMagnitude};

fn celsius(reading: SignedMagnitude, factor: f32) -> f32 {
    if reading.negative {
        reading.magnitude as f32 * -factor
    } else {
        reading.magnitude as f32 * factor
    }
}

fn sign_and_magnitude(celsius: f32) -> SignedMagnitude {
    let negative = celsius < 0.0;
    let magnitude = if negative { celsius.abs() } else { celsius } as u16;
    SignedMagnitude { negative, magnitude }
}

#[test]
fn positive_readings_decode_to_themselves() {
    for raw in 0u16..=2047 {
        let reading = decode(raw);
        assert_eq!(reading, SignedMagnitude { negative: false, magnitude: raw });
        assert_eq!(celsius(reading, 0.25), raw as f32 * 0.25);
        assert_eq!(celsius(reading, 0.0625), raw as f32 * 0.0625);
    }
}

#[test]
fn decode_of_a_negative_reading() {
    let reading = decode(0x8C8);
    assert_eq!(reading, SignedMagnitude { negative: true, magnitude: 0x0737 });
    assert_eq!(reading.magnitude, 1847);
    assert_eq!(celsius(reading, 0.25), -461.75);
}

#[test]
fn encode_does_not_undo_decode() {
    let degrees = celsius(decode(0x8C8), 0.25);
    let raw = encode(sign_and_magnitude(degrees));
    assert_eq!(raw, 0x9CD);
    assert_ne!(raw, 0x8C8);
}

#[test]
fn decode_does_not_undo_encode_of_a_negative_value() {
    let value = SignedMagnitude { negative: true, magnitude: 10 };
    let raw = encode(value);
    assert_eq!(raw, 0x080A);
    assert_eq!(decode(raw), SignedMagnitude { negative: true, magnitude: 0x07F5 });
    assert_ne!(decode(raw), value);
}

#[test]
fn decode_undoes_encode_of_a_small_positive_value() {
    let value = SignedMagnitude { negative: false, magnitude: 100 };
    assert_eq!(decode(encode(value)), value);
}

#[test]
fn decode_at_the_sign_boundary() {
    assert_eq!(decode(0x07FF), SignedMagnitude { negative: false, magnitude: 2047 });
    assert_eq!(decode(0x0800), SignedMagnitude { negative: true, magnitude: 2047 });
    assert_eq!(decode(0x0FFF), SignedMagnitude { negative: true, magnitude: 0 });
    assert_eq!(decode(0x0000), SignedMagnitude { negative: false, magnitude: 0 });
}

#[test]
fn decode_with_bits_above_the_sign() {
    assert_eq!(decode(0xF000), SignedMagnitude { negative: false, magnitude: 0xF000 });
    assert_eq!(decode(0xF7FF), SignedMagnitude { negative: false, magnitude: 0xF7FF });
    assert_eq!(decode(0xFFFF), SignedMagnitude { negative: true, magnitude: 0 });
    assert_eq!(decode(0xF8C8), SignedMagnitude { negative: true, magnitude: 1847 });
}

#[test]
fn decode_clears_the_five_top_bits_of_the_complement() {
    let reading = decode(0x0801);
    assert_eq!(!0x0801u16, 0xF7FE);
    assert_eq!(reading.magnitude, 0x07FE);
}

#[test]
fn encode_of_positive_values_is_the_magnitude() {
    assert_eq!(encode(SignedMagnitude { negative: false, magnitude: 10 }), 0x000A);
    assert_eq!(encode(SignedMagnitude { negative: false, magnitude: 0 }), 0);
    assert_eq!(encode(SignedMagnitude { negative: false, magnitude: 0x0800 }), 0x0800);
    assert_eq!(encode(SignedMagnitude { negative: false, magnitude: 65535 }), 65535);
}

#[test]
fn encode_of_negative_values_sets_bit_eleven() {
    assert_eq!(encode(SignedMagnitude { negative: true, magnitude: 461 }), 0x09CD);
    assert_eq!(encode(SignedMagnitude { negative: true, magnitude: 0 }), 0x0800);
    assert_eq!(encode(SignedMagnitude { negative: true, magnitude: 0x0800 }), 0x0800);
    assert_eq!(encode(SignedMagnitude { negative: true, magnitude: 0xF000 }), 0xF800);
}

#[test]
fn encode_of_ten_degrees() {
    assert_eq!(encode(sign_and_magnitude(10.0)), 0x000A);
    assert_eq!(encode(sign_and_magnitude(-10.0)), 0x080A);
    assert_eq!(encode(sign_and_magnitude(10.9)), 0x000A);
    assert_eq!(encode(sign_and_magnitude(-0.5)), 0x0800);
}

#[test]
fn thermistor_reading_in_sixteenths() {
    let reading = decode(0x0190);
    assert_eq!(celsius(reading, 0.0625), 25.0);
    let reading = decode(0x0FF0);
    assert_eq!(reading, SignedMagnitude { negative: true, magnitude: 15 });
    assert_eq!(celsius(reading, 0.0625), -0.9375);
}

#[test]
fn steps_in_a_degree() {
    assert_eq!(Scale::Quarter.steps_per_degree(), 4);
    assert_eq!(Scale::Sixteenth.steps_per_degree(), 16);
}
