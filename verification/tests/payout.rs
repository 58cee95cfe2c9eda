use rps_staking::{ErrorCode, Payout};

#[test]
fn split_of_a_thousand() {
    assert_eq!(
        Payout::split(1_000),
        Ok(Payout { total: 2_000, winner_amount: 1_800, dev_amount: 200 })
    );
}

#[test]
fn split_of_three_truncates() {
    assert_eq!(Payout::split(3), Ok(Payout { total: 6, winner_amount: 5, dev_amount: 1 }));
}

#[test]
fn split_of_five_hundred() {
    assert_eq!(
        Payout::split(500),
        Ok(Payout { total: 1_000, winner_amount: 900, dev_amount: 100 })
    );
}

#[test]
fn split_of_nothing() {
    assert_eq!(Payout::split(0), Ok(Payout { total: 0, winner_amount: 0, dev_amount: 0 }));
}

#[test]
fn split_of_one() {
    assert_eq!(Payout::split(1), Ok(Payout { total: 2, winner_amount: 1, dev_amount: 1 }));
}

#[test]
fn split_parts_always_make_the_pot() {
    for stake in 0u64..2_000 {
        let p = Payout::split(stake).unwrap();
        assert_eq!(p.total, stake * 2);
        assert_eq!(p.winner_amount, stake * 2 * 90 / 100);
        assert_eq!(p.winner_amount + p.dev_amount, p.total);
    }
}

#[test]
fn split_refuses_a_pot_that_overflows() {
    assert_eq!(Payout::split(u64::MAX), Err(ErrorCode::MathError));
    assert_eq!(Payout::split(u64::MAX / 2 + 1), Err(ErrorCode::MathError));
}

#[test]
fn split_refuses_a_pot_that_cannot_be_scaled() {
    assert_eq!(Payout::split(u64::MAX / 2), Err(ErrorCode::MathError));
    assert_eq!(Payout::split(u64::MAX / 180 + 1), Err(ErrorCode::MathError));
    let largest = u64::MAX / 180;
    assert_eq!(
        Payout::split(largest),
        Ok(Payout {
            total: 204_963_823_041_217_240,
            winner_amount: 184_467_440_737_095_516,
            dev_amount: 20_496_382_304_121_724,
        })
    );
}
