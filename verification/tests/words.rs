use silly_delay::arith::{mix_samples, Arithmetic};
use silly_delay::params::{
    DEFAULT_LENGTH, DEFAULT_PRODUCT, DEFAULT_SAMPLE_RATE, FEEDBACK_FACTOR, MILLISECONDS,
    MIN_DELAY_TIME, MIN_FEEDBACK, PERCENT,
};
use silly_delay::ring::MAX_CAPACITY;
use silly_delay::sizing::frames_for;
use silly_delay::word::{raise_to, INFINITY, ONE, SIGN, ZERO};

type Op = fn(u32, u32) -> u32;

fn word(x: f32) -> u32 {
    x.to_bits()
}

fn number(w: u32) -> f32 {
    f32::from_bits(w)
}

fn add(a: u32, b: u32) -> u32 {
    word(number(a) + number(b))
}

fn sub(a: u32, b: u32) -> u32 {
    word(number(a) - number(b))
}

fn mul(a: u32, b: u32) -> u32 {
    word(number(a) * number(b))
}

fn single() -> Arithmetic<Op, Op, Op> {
    Arithmetic { add: add as Op, sub: sub as Op, mul: mul as Op }
}

fn expected_frames(product: f32) -> usize {
    let frames = (product * 2.0) as usize;
    if frames < 1 {
        1
    } else if frames > MAX_CAPACITY {
        MAX_CAPACITY
    } else {
        frames
    }
}

fn sample_words() -> Vec<u32> {
    let fractions: [u32; 9] = [
        0x00_0000, 0x00_0001, 0x12_3456, 0x3f_ffff, 0x40_0000, 0x40_0001, 0x55_5555, 0x7f_fffe,
        0x7f_ffff,
    ];
    let mut words = Vec::new();
    for exponent in 0..256u32 {
        for fraction in fractions {
            words.push((exponent << 23) | fraction);
            words.push(SIGN | (exponent << 23) | fraction);
        }
    }
    words
}

#[test]
fn the_constants_are_the_words_of_their_numbers() {
    assert_eq!(ZERO, word(0.0));
    assert_eq!(ONE, word(1.0));
    assert_eq!(INFINITY, word(f32::INFINITY));
    assert_eq!(SIGN, word(-0.0));
    assert_eq!(MIN_DELAY_TIME, word(0.001));
    assert_eq!(MIN_FEEDBACK, word(0.1));
    assert_eq!(FEEDBACK_FACTOR, word(0.1));
    assert_eq!(DEFAULT_SAMPLE_RATE, word(44100.0));
    assert_eq!(MILLISECONDS, word(2000.0));
    assert_eq!(PERCENT, word(100.0));
    assert_eq!(DEFAULT_PRODUCT, word(44100.0 * 0.001));
}

#[test]
fn raise_to_is_the_larger_number() {
    for floor in [0.001f32, 0.1, 1.0, 1.0e-40, 3.0e38] {
        for w in sample_words() {
            let expected = number(w).max(floor);
            assert_eq!(raise_to(w, word(floor)), word(expected), "word {:#x}", w);
        }
    }
}

#[test]
fn raise_to_on_named_values() {
    assert_eq!(raise_to(word(0.0), MIN_DELAY_TIME), MIN_DELAY_TIME);
    assert_eq!(raise_to(word(-0.0), MIN_DELAY_TIME), MIN_DELAY_TIME);
    assert_eq!(raise_to(word(-5.0), MIN_DELAY_TIME), MIN_DELAY_TIME);
    assert_eq!(raise_to(word(f32::NAN), MIN_DELAY_TIME), MIN_DELAY_TIME);
    assert_eq!(raise_to(word(0.0009), MIN_DELAY_TIME), MIN_DELAY_TIME);
    assert_eq!(raise_to(word(0.001), MIN_DELAY_TIME), word(0.001));
    assert_eq!(raise_to(word(0.5), MIN_DELAY_TIME), word(0.5));
    assert_eq!(raise_to(word(f32::INFINITY), MIN_DELAY_TIME), word(f32::INFINITY));
    assert_eq!(raise_to(word(0.05), MIN_FEEDBACK), word(0.1));
    assert_eq!(raise_to(word(0.75), MIN_FEEDBACK), word(0.75));
}

#[test]
fn frames_for_is_twice_the_product_rounded_down() {
    for w in sample_words() {
        assert_eq!(frames_for(w), expected_frames(number(w)), "word {:#x}", w);
    }
}

#[test]
fn frames_for_on_named_values() {
    assert_eq!(frames_for(word(44100.0 * 0.001)), 88);
    assert_eq!(frames_for(word(100.0 * 0.01)), 2);
    assert_eq!(frames_for(word(44100.0 * 1.0)), 88200);
    assert_eq!(frames_for(word(0.5)), 1);
    assert_eq!(frames_for(word(0.75)), 1);
    assert_eq!(frames_for(word(1.25)), 2);
    assert_eq!(frames_for(word(1.5)), 3);
    assert_eq!(frames_for(word(0.4)), 1);
    assert_eq!(frames_for(word(0.0)), 1);
    assert_eq!(frames_for(word(-3.0)), 1);
    assert_eq!(frames_for(word(f32::NAN)), 1);
    assert_eq!(frames_for(word(f32::INFINITY)), MAX_CAPACITY);
    assert_eq!(frames_for(word(1.0e30)), MAX_CAPACITY);
    assert_eq!(frames_for(word(33554432.0)), MAX_CAPACITY);
    assert_eq!(frames_for(word(33554430.0)), MAX_CAPACITY - 4);
    assert_eq!(frames_for(word(8388607.5)), 16777215);
}

#[test]
fn the_default_length_is_that_of_the_default_product() {
    assert_eq!(frames_for(DEFAULT_PRODUCT), DEFAULT_LENGTH);
    assert_eq!(frames_for(mul(DEFAULT_SAMPLE_RATE, MIN_DELAY_TIME)), 88);
}

#[test]
fn mix_at_the_ends_of_the_range() {
    let ops = single();
    assert_eq!(number(mix_samples(word(1.0), word(0.0), word(1.0), &ops)), 0.0);
    assert_eq!(number(mix_samples(word(1.0), word(0.0), word(0.0), &ops)), 1.0);
    assert_eq!(number(mix_samples(word(0.25), word(0.75), word(1.0), &ops)), 0.75);
    assert_eq!(number(mix_samples(word(0.25), word(0.75), word(0.0), &ops)), 0.25);
}

#[test]
fn mix_at_one_half_is_the_mean() {
    let ops = single();
    for (x, y) in [(1.0f32, 0.0f32), (0.5, 0.25), (-1.0, 1.0), (3.0, 5.0), (0.125, -0.625)] {
        let mixed = number(mix_samples(word(x), word(y), word(0.5), &ops));
        assert_eq!(mixed, (x + y) / 2.0);
    }
}

#[test]
fn mix_weighs_both_samples() {
    let ops = single();
    let mixed = number(mix_samples(word(2.0), word(4.0), word(0.25), &ops));
    assert_eq!(mixed, 2.0 * 0.75 + 4.0 * 0.25);
}

#[test]
fn arithmetic_hands_on_what_its_functions_give() {
    let ops = single();
    assert_eq!(number(ops.sum(word(1.5), word(2.25))), 3.75);
    assert_eq!(number(ops.difference(word(1.5), word(2.25))), -0.75);
    assert_eq!(number(ops.product(word(1.5), word(2.0))), 3.0);
}
