use hmk::date::{Date, DateError, Sunsign};

#[test]
fn dates_outside_the_calendar_are_refused() {
    assert_eq!(Date::new(720, 0, 1).err(), Some(DateError::BadInput));
    assert_eq!(Date::new(720, 13, 1).err(), Some(DateError::BadInput));
    assert_eq!(Date::new(720, 1, 0).err(), Some(DateError::BadInput));
    assert_eq!(Date::new(720, 1, 31).err(), Some(DateError::BadInput));
    let d = Date::new(720, 12, 30).unwrap();
    assert_eq!((d.year(), d.month(), d.day()), (720, 12, 30));
}

#[test]
fn ordinal_days() {
    assert_eq!(Date::default().as_ordinal(), 1);
    assert_eq!((Date::default().year(), Date::default().month()), (1, 1));
    assert_eq!(Date::new(1, 2, 1).unwrap().as_ordinal(), 31);
    assert_eq!(Date::new(1, 12, 30).unwrap().as_ordinal(), 360);
}

fn sign(month: u8, day: u8) -> (Sunsign, Option<Sunsign>) {
    Sunsign::from_date(&Date::new(720, month, day).unwrap())
}

#[test]
fn sunsigns_and_cusps() {
    assert_eq!(sign(1, 1), (Sunsign::Lado, None));
    assert_eq!(sign(1, 2), (Sunsign::Lado, Some(Sunsign::Ulandus)));
    assert_eq!(sign(1, 5), (Sunsign::Lado, Some(Sunsign::Ulandus)));
    assert_eq!(sign(1, 6), (Sunsign::Ulandus, None));
    assert_eq!(sign(2, 2), (Sunsign::Ulandus, Some(Sunsign::Aralius)));
    assert_eq!(sign(2, 6), (Sunsign::Aralius, None));
    assert_eq!(sign(8, 3), (Sunsign::Hirin, Some(Sunsign::Tarael)));
    assert_eq!(sign(6, 25), (Sunsign::Nadai, None));
    assert_eq!(sign(12, 3), (Sunsign::Masara, Some(Sunsign::Lado)));
    assert_eq!(sign(12, 4), (Sunsign::Lado, None));
    assert_eq!(sign(12, 30), (Sunsign::Lado, None));
}

#[test]
fn every_cusp_joins_a_sign_to_the_next() {
    let order = [
        Sunsign::Ulandus,
        Sunsign::Aralius,
        Sunsign::Feneri,
        Sunsign::Ahnu,
        Sunsign::Angberelius,
        Sunsign::Nadai,
        Sunsign::Hirin,
        Sunsign::Tarael,
        Sunsign::Tai,
        Sunsign::Skorus,
        Sunsign::Masara,
        Sunsign::Lado,
    ];
    for month in 1..=12u8 {
        for day in 1..=30u8 {
            if let (first, Some(second)) = sign(month, day) {
                let i = order.iter().position(|s| *s == first).unwrap();
                assert_eq!(order[(i + 1) % 12], second);
            }
        }
    }
}

#[test]
fn sign_traits() {
    assert_eq!(Sunsign::Ulandus.trait_for(0), "patient");
    assert_eq!(Sunsign::Feneri.trait_for(0), "hard-working");
    assert_eq!(Sunsign::Lado.trait_for(5), "nonchalant");
    let all: Vec<&str> = (0..6).map(|n| Sunsign::Tai.trait_for(n)).collect();
    let mut seen = Vec::new();
    for _ in 0..200 {
        let t = Sunsign::Tai.gen_trait();
        assert!(all.contains(&t));
        if !seen.contains(&t) {
            seen.push(t);
        }
    }
    assert!(seen.len() > 1);
}

#[test]
fn a_refused_date_says_why() {
    assert_eq!(Date::new(720, 13, 1).err().map(|e| e.message()), Some("bad date input"));
    assert_eq!(DateError::BadInput.message(), "bad date input");
}
