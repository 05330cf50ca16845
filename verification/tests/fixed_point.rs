use mango_v4::i80f48::{I80F48, ONE_BITS};

const ONE: i128 = 1 << 48;

fn fx(num: i128, den: i128) -> I80F48 {
    I80F48::from_bits(num * ONE / den)
}

#[test]
fn one_is_two_to_the_48() {
    assert_eq!(ONE_BITS, 281_474_976_710_656);
    assert_eq!(I80F48::one().to_bits(), ONE);
    assert_eq!(I80F48::zero().to_bits(), 0);
}

#[test]
fn from_num_scales_the_integer() {
    assert_eq!(I80F48::from_num(7).to_bits(), 7 * ONE);
    assert_eq!(I80F48::from_num(-3).to_bits(), -3 * ONE);
    assert_eq!(I80F48::from_num(0).to_bits(), 0);
    assert_eq!(I80F48::from_num(i64::MAX).to_bits(), (i64::MAX as i128) << 48);
    assert_eq!(I80F48::from_num(i64::MIN).to_bits(), (i64::MIN as i128) << 48);
}

#[test]
fn sign_tests() {
    assert!(I80F48::from_bits(-1).is_negative());
    assert!(!I80F48::from_bits(0).is_negative());
    assert!(!I80F48::from_bits(0).is_positive());
    assert!(I80F48::from_bits(1).is_positive());
}

#[test]
fn checked_add_sums_the_bits() {
    assert_eq!(fx(3, 2).checked_add(fx(9, 4)), Some(fx(15, 4)));
    assert_eq!(fx(3, 2).checked_add(fx(-9, 4)), Some(fx(-3, 4)));
    assert_eq!(I80F48::from_bits(i128::MAX).checked_add(I80F48::from_bits(1)), None);
    assert_eq!(
        I80F48::from_bits(i128::MAX - 1).checked_add(I80F48::from_bits(1)),
        Some(I80F48::from_bits(i128::MAX))
    );
}

#[test]
fn checked_sub_subtracts_the_bits() {
    assert_eq!(fx(3, 2).checked_sub(fx(9, 4)), Some(fx(-3, 4)));
    assert_eq!(I80F48::one().checked_sub(fx(1, 16)), Some(fx(15, 16)));
    assert_eq!(I80F48::from_bits(i128::MIN).checked_sub(I80F48::from_bits(1)), None);
}

#[test]
fn checked_neg_fails_only_for_the_least_value() {
    assert_eq!(fx(3, 2).checked_neg(), Some(fx(-3, 2)));
    assert_eq!(I80F48::zero().checked_neg(), Some(I80F48::zero()));
    assert_eq!(I80F48::from_bits(i128::MIN).checked_neg(), None);
    assert_eq!(
        I80F48::from_bits(i128::MIN + 1).checked_neg(),
        Some(I80F48::from_bits(i128::MAX))
    );
}

#[test]
fn checked_mul_exact_products() {
    assert_eq!(fx(3, 2).checked_mul(fx(5, 2)), Some(fx(15, 4)));
    assert_eq!(fx(-3, 2).checked_mul(fx(5, 2)), Some(fx(-15, 4)));
    assert_eq!(I80F48::from_num(25).checked_mul(fx(3, 16)), Some(fx(75, 16)));
    assert_eq!(I80F48::zero().checked_mul(I80F48::from_num(i64::MIN)), Some(I80F48::zero()));
}

#[test]
fn checked_mul_rounds_down() {
    // 2^-48 * 2^-48 is below the resolution: rounded down to zero
    assert_eq!(
        I80F48::from_bits(1).checked_mul(I80F48::from_bits(1)),
        Some(I80F48::from_bits(0))
    );
    // -2^-48 * 2^-48 is rounded down to -2^-48, not towards zero
    assert_eq!(
        I80F48::from_bits(-1).checked_mul(I80F48::from_bits(1)),
        Some(I80F48::from_bits(-1))
    );
    // 1.5 * 2^-48 = 1.5 bits -> 1 bit; -1.5 bits -> -2 bits
    assert_eq!(fx(3, 2).checked_mul(I80F48::from_bits(1)), Some(I80F48::from_bits(1)));
    assert_eq!(fx(-3, 2).checked_mul(I80F48::from_bits(1)), Some(I80F48::from_bits(-2)));
}

#[test]
fn checked_mul_overflow() {
    let big = I80F48::from_num(i64::MAX);
    assert_eq!(big.checked_mul(big), None);
    assert_eq!(big.checked_mul(I80F48::from_num(i64::MIN)), None);
    // 2^78 * 2 = 2^79 is the first value that does not fit
    let two_to_78 = I80F48::from_bits(1 << 126);
    assert_eq!(two_to_78.checked_mul(I80F48::from_num(2)), None);
    assert_eq!(
        two_to_78.checked_mul(I80F48::from_num(-2)),
        Some(I80F48::from_bits(i128::MIN))
    );
}

#[test]
fn checked_mul_agrees_with_the_floor_formula() {
    let samples: [i128; 12] = [
        0,
        1,
        -1,
        3,
        -7,
        ONE / 3,
        -ONE / 3,
        ONE,
        -ONE,
        5 * ONE / 2 + 1,
        -(5 * ONE / 2) - 1,
        (1 << 59) + 12345,
    ];
    for a in samples {
        for b in samples {
            let expected = (a * b).div_euclid(ONE);
            assert_eq!(
                I80F48::from_bits(a).checked_mul(I80F48::from_bits(b)),
                Some(I80F48::from_bits(expected)),
                "{} * {}",
                a,
                b
            );
        }
    }
}

#[test]
fn checked_div_exact_quotients() {
    assert_eq!(fx(15, 4).checked_div(fx(5, 2)), Some(fx(3, 2)));
    assert_eq!(I80F48::from_num(15).checked_div(fx(1, 2)), Some(I80F48::from_num(30)));
    // -100 / 7.8125 = -12.8, whose bits are -12.8 * 2^48 with the fraction dropped
    assert_eq!(
        I80F48::from_num(-100).checked_div(fx(125, 16)),
        Some(I80F48::from_bits(-3_602_879_701_896_396))
    );
}

#[test]
fn checked_div_rounds_towards_zero() {
    let third = 93_824_992_236_885i128; // 2^48 / 3, fraction dropped
    assert_eq!(
        I80F48::from_num(1).checked_div(I80F48::from_num(3)),
        Some(I80F48::from_bits(third))
    );
    assert_eq!(
        I80F48::from_num(-1).checked_div(I80F48::from_num(3)),
        Some(I80F48::from_bits(-third))
    );
    assert_eq!(
        I80F48::from_num(1).checked_div(I80F48::from_num(-3)),
        Some(I80F48::from_bits(-third))
    );
    assert_eq!(
        I80F48::from_num(-1).checked_div(I80F48::from_num(-3)),
        Some(I80F48::from_bits(third))
    );
}

#[test]
fn checked_div_by_zero_and_overflow() {
    assert_eq!(I80F48::from_num(1).checked_div(I80F48::zero()), None);
    assert_eq!(I80F48::zero().checked_div(I80F48::zero()), None);
    assert_eq!(I80F48::from_bits(i128::MAX).checked_div(I80F48::from_bits(1)), None);
    assert_eq!(I80F48::from_bits(i128::MIN).checked_div(I80F48::from_num(-1)), None);
    assert_eq!(
        I80F48::from_bits(i128::MAX).checked_div(I80F48::one()),
        Some(I80F48::from_bits(i128::MAX))
    );
}

#[test]
fn checked_div_agrees_with_the_truncating_formula() {
    let samples: [i128; 10] = [
        1,
        -1,
        3,
        -7,
        ONE / 3,
        -ONE / 3,
        ONE,
        -ONE,
        5 * ONE / 2 + 1,
        (1 << 70) + 12345,
    ];
    for a in samples {
        for b in samples {
            let expected = (a << 48) / b;
            assert_eq!(
                I80F48::from_bits(a).checked_div(I80F48::from_bits(b)),
                Some(I80F48::from_bits(expected)),
                "{} / {}",
                a,
                b
            );
        }
    }
}

#[test]
fn checked_ceil_rounds_up() {
    assert_eq!(fx(5, 2).checked_ceil(), Some(I80F48::from_num(3)));
    assert_eq!(fx(-5, 2).checked_ceil(), Some(I80F48::from_num(-2)));
    assert_eq!(I80F48::from_num(3).checked_ceil(), Some(I80F48::from_num(3)));
    assert_eq!(I80F48::from_bits(1).checked_ceil(), Some(I80F48::from_num(1)));
    assert_eq!(I80F48::from_bits(-1).checked_ceil(), Some(I80F48::from_num(0)));
    assert_eq!(I80F48::from_bits(i128::MAX).checked_ceil(), None);
}

#[test]
fn checked_floor_rounds_down() {
    assert_eq!(fx(5, 2).checked_floor(), Some(I80F48::from_num(2)));
    assert_eq!(fx(-5, 2).checked_floor(), Some(I80F48::from_num(-3)));
    assert_eq!(I80F48::from_num(-3).checked_floor(), Some(I80F48::from_num(-3)));
    assert_eq!(I80F48::from_bits(-1).checked_floor(), Some(I80F48::from_num(-1)));
    assert_eq!(
        I80F48::from_bits(i128::MIN).checked_floor(),
        Some(I80F48::from_bits(i128::MIN))
    );
    assert_eq!(
        I80F48::from_bits(i128::MAX).checked_floor(),
        Some(I80F48::from_bits(i128::MAX - (ONE - 1)))
    );
}

#[test]
fn checked_to_num_drops_the_fraction_downwards() {
    assert_eq!(fx(5, 2).checked_to_num(), Some(2));
    assert_eq!(fx(-5, 2).checked_to_num(), Some(-3));
    assert_eq!(I80F48::from_num(i64::MAX).checked_to_num(), Some(i64::MAX));
    assert_eq!(I80F48::from_num(i64::MIN).checked_to_num(), Some(i64::MIN));
    assert_eq!(I80F48::from_bits(1i128 << (63 + 48)).checked_to_num(), None);
    assert_eq!(I80F48::from_bits((-(1i128 << 63) << 48) - 1).checked_to_num(), None);
    assert_eq!(I80F48::from_bits(i128::MAX).checked_to_num(), None);
}

#[test]
fn agrees_with_the_fixed_crate_on_wide_values() {
    let samples: [i128; 8] = [
        i128::MAX,
        i128::MIN,
        i128::MAX / 3,
        i128::MIN / 5,
        (1 << 100) + 77,
        -(1 << 90) - 13,
        ONE + 1,
        -3,
    ];
    for a in samples {
        let fa = fixed::types::I80F48::from_bits(a);
        assert_eq!(I80F48::from_bits(a).checked_ceil().map(|x| x.to_bits()), fa.checked_ceil().map(|x| x.to_bits()));
        assert_eq!(I80F48::from_bits(a).checked_floor().map(|x| x.to_bits()), fa.checked_floor().map(|x| x.to_bits()));
        assert_eq!(I80F48::from_bits(a).checked_neg().map(|x| x.to_bits()), fa.checked_neg().map(|x| x.to_bits()));
        assert_eq!(I80F48::from_bits(a).checked_to_num(), fa.checked_to_num::<i64>());
        for b in samples {
            let fb = fixed::types::I80F48::from_bits(b);
            assert_eq!(
                I80F48::from_bits(a).checked_mul(I80F48::from_bits(b)).map(|x| x.to_bits()),
                fa.checked_mul(fb).map(|x| x.to_bits())
            );
            assert_eq!(
                I80F48::from_bits(a).checked_div(I80F48::from_bits(b)).map(|x| x.to_bits()),
                fa.checked_div(fb).map(|x| x.to_bits())
            );
            assert_eq!(
                I80F48::from_bits(a).checked_add(I80F48::from_bits(b)).map(|x| x.to_bits()),
                fa.checked_add(fb).map(|x| x.to_bits())
            );
            assert_eq!(
                I80F48::from_bits(a).checked_sub(I80F48::from_bits(b)).map(|x| x.to_bits()),
                fa.checked_sub(fb).map(|x| x.to_bits())
            );
        }
    }
}
