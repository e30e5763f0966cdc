use factorials::factorial::{fact, MAX_EXACT};

#[test]
fn fact_of_zero_is_one() {
    assert_eq!(fact(0), 1);
}

#[test]
fn fact_of_one_is_one() {
    assert_eq!(fact(1), 1);
}

#[test]
fn fact_of_one_to_nine() {
    let expected: [i32; 9] = [1, 2, 6, 24, 120, 720, 5040, 40320, 362880];
    let mut n: i32 = 1;
    for want in expected {
        assert_eq!(fact(n), want);
        n += 1;
    }
    assert_eq!(n, 10);
}

#[test]
fn fact_of_ten() {
    assert_eq!(fact(10), 3628800);
}

#[test]
fn fact_obeys_the_recurrence_while_it_fits() {
    let mut n: i32 = 2;
    while n <= MAX_EXACT {
        assert_eq!(fact(n), n * fact(n - 1));
        n += 1;
    }
}

#[test]
fn fact_of_the_largest_exact_argument() {
    assert_eq!(MAX_EXACT, 12);
    assert_eq!(fact(11), 39916800);
    assert_eq!(fact(12), 479001600);
}

#[test]
fn fact_wraps_beyond_the_largest_exact_argument() {
    assert_eq!(fact(13), 1932053504);
    assert_eq!(fact(14), 1278945280);
    assert_eq!(fact(17), -288522240);
    assert_eq!(fact(20), -2102132736);
}

#[test]
fn fact_wraps_as_the_wrapping_product_does() {
    let mut n: i32 = 1;
    while n <= 40 {
        assert_eq!(fact(n), fact(n - 1).wrapping_mul(n));
        n += 1;
    }
}

#[test]
fn fact_wraps_to_the_least_value_and_then_to_zero() {
    assert_eq!(fact(31), 738197504);
    assert_eq!(fact(32), i32::MIN);
    assert_eq!(fact(33), i32::MIN);
    assert_eq!(fact(34), 0);
    assert_eq!(fact(100), 0);
    assert_eq!(fact(100_000), 0);
}
