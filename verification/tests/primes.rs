use game_loop::primes::{is_prime, primes_below};

#[test]
fn small_numbers() {
    assert!(!is_prime(0));
    assert!(is_prime(1));
    assert!(is_prime(2));
    assert!(is_prime(3));
    assert!(!is_prime(4));
    assert!(is_prime(5));
    assert!(!is_prime(9));
    assert!(!is_prime(15));
    assert!(!is_prime(25));
    assert!(is_prime(97));
    assert!(!is_prime(91));
}

#[test]
fn squares_of_primes_are_rejected() {
    for p in [3u64, 5, 7, 11, 13, 101, 65521] {
        assert!(is_prime(p));
        assert!(!is_prime(p * p));
    }
}

#[test]
fn large_numbers_do_not_overflow() {
    assert!(!is_prime(u64::MAX));
    assert!(!is_prime(u64::MAX - 1));
    assert!(is_prime(4294967291));
    assert!(!is_prime(65521 * 65537));
}

#[test]
fn primes_below_thirty() {
    assert_eq!(primes_below(30), vec![2, 3, 5, 7, 11, 13, 17, 19, 23, 29]);
}

#[test]
fn the_bound_itself_is_left_out() {
    assert_eq!(primes_below(13), vec![2, 3, 5, 7, 11]);
    assert_eq!(primes_below(14), vec![2, 3, 5, 7, 11, 13]);
}

#[test]
fn two_always_leads_the_list() {
    assert_eq!(primes_below(0), vec![2]);
    assert_eq!(primes_below(2), vec![2]);
    assert_eq!(primes_below(3), vec![2]);
    assert_eq!(primes_below(4), vec![2, 3]);
}

#[test]
fn list_agrees_with_the_test() {
    let list = primes_below(500);
    for n in 3..500u64 {
        assert_eq!(list.contains(&n), n % 2 == 1 && is_prime(n));
    }
    for w in list.windows(2) {
        assert!(w[0] < w[1]);
    }
}
