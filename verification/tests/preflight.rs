use sol_pay_client::ids::Address;
use sol_pay_client::preflight::{
    can_meter, charge, limit_floor, required_allowance, views_remaining, will_settle, Blocked,
};
use sol_pay_client::state::{Contract, Site};

fn site(page_price: u64, threshold: u64, min_limit: u64) -> Site {
    Site {
        authority: Address::new_from_array([1u8; 32]),
        mint: Address::new_from_array([2u8; 32]),
        treasury: Address::new_from_array([3u8; 32]),
        page_price,
        collection_threshold: threshold,
        min_limit,
        bump: 255,
    }
}

fn contract(limit: u64, used: u64, paid: u64) -> Contract {
    Contract {
        site: Address::new_from_array([1u8; 32]),
        payer: Address::new_from_array([2u8; 32]),
        limit,
        used,
        paid,
        bump: 255,
    }
}

#[test]
fn can_meter_stops_exactly_where_the_program_does() {
    let s = site(10, 100, 500);
    let c = contract(1_000, 990, 0);
    assert_eq!(can_meter(&c, &s, 1), Ok(()));
    // 990 + 10 = 1000, exactly the limit, still allowed.
    let c = contract(1_000, 1_000, 0);
    assert_eq!(can_meter(&c, &s, 1), Err(Blocked::LimitReached { over: 10 }));
}

#[test]
fn can_meter_reports_how_far_over() {
    let s = site(10, 100, 500);
    let c = contract(1_000, 950, 0);
    assert_eq!(can_meter(&c, &s, 10), Err(Blocked::LimitReached { over: 50 }));
}

#[test]
fn overflow_is_blocked_not_wrapped() {
    let s = site(u64::MAX / 2, 100, 500);
    let c = contract(u64::MAX, 0, 0);
    assert_eq!(can_meter(&c, &s, 3), Err(Blocked::Overflow));
    assert_eq!(charge(&s, 3), None);
    assert!(!will_settle(&c, &s, 3));
}

#[test]
fn will_settle_only_at_the_threshold() {
    let s = site(10, 100, 500);
    assert!(!will_settle(&contract(1_000, 80, 0), &s, 1)); // 90 unpaid
    assert!(will_settle(&contract(1_000, 90, 0), &s, 1)); // 100 unpaid

    // Usage already paid for does not count toward the next settle.
    assert!(!will_settle(&contract(1_000, 150, 100), &s, 1));

    // The boundary is the unpaid amount reaching the threshold, wherever
    // `paid` happens to sit.
    assert!(will_settle(&contract(1_000, 190, 100), &s, 1));
}

#[test]
fn views_remaining_floors() {
    let s = site(30, 100, 500);
    assert_eq!(views_remaining(&contract(1_000, 0, 0), &s), 33);
    assert_eq!(views_remaining(&contract(1_000, 1_000, 0), &s), 0);
    // Past the limit is not negative views.
    assert_eq!(views_remaining(&contract(1_000, 2_000, 0), &s), 0);
}

#[test]
fn limit_floor_is_the_site_minimum_when_there_is_no_contract() {
    let s = site(10, 100, 500);
    assert_eq!(limit_floor(&s, None), 500);
}

#[test]
fn limit_floor_covers_carried_usage_when_it_exceeds_the_minimum() {
    let s = site(10, 100, 500);
    // Nothing carried: the minimum still rules.
    assert_eq!(limit_floor(&s, Some(&contract(1_000, 300, 300))), 500);
    // 700 unpaid is more than the minimum, so it becomes the floor.
    assert_eq!(limit_floor(&s, Some(&contract(1_000, 900, 200))), 700);
}

#[test]
fn required_allowance_is_the_whole_limit() {
    assert_eq!(required_allowance(12_345), 12_345);
}

#[test]
fn charge_is_price_times_views() {
    let s = site(1_000, 50_000, 200_000);
    assert_eq!(charge(&s, 0), Some(0));
    assert_eq!(charge(&s, 7), Some(7_000));
    assert_eq!(charge(&site(u64::MAX, 0, 1), 1), Some(u64::MAX));
    assert_eq!(charge(&site(u64::MAX, 0, 1), 2), None);
}

#[test]
fn adding_the_charge_to_usage_can_overflow_too() {
    let s = site(10, 100, 500);
    let c = contract(u64::MAX, u64::MAX - 5, 0);
    assert_eq!(can_meter(&c, &s, 1), Err(Blocked::Overflow));
    assert!(!will_settle(&c, &s, 1));
}

#[test]
fn a_zero_price_leaves_no_views() {
    assert_eq!(views_remaining(&contract(1_000, 0, 0), &site(0, 0, 1)), 0);
}

#[test]
fn blocked_reads_as_a_sentence() {
    assert_eq!(
        Blocked::LimitReached { over: 50 }.message(),
        "charge exceeds the authorized limit by 50"
    );
    assert_eq!(Blocked::Overflow.message(), "charge does not fit in u64");
}
