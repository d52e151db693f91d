use hamurusti::{classify, fate_message, AccumulatingMean, City, Fate, Outcome, Refusal, TradeStep};

#[test]
fn new_city_has_standard_values() {
    let c = City::new();
    assert_eq!(c.acres(), 1000);
    assert_eq!(c.population(), 95);
    assert_eq!(c.store(), 2800);
    assert_eq!(c.eaten_by_rats(), 200);
    assert_eq!(c.crop_yield(), 3);
    assert_eq!(c.harvested(), 3000);
    assert_eq!(c.babies(), 5);
    assert_eq!(c.dead_total(), 0);
    assert_eq!(c.died(), 0);
    assert_eq!(c.sown(), 0);
    assert_eq!(c.land_price(), 20);
    assert_eq!(c.years_recorded(), 0);
}

#[test]
fn feeding_everyone_starves_nobody() {
    let mut c = City::new();
    assert_eq!(c.feed(1900), Ok(()));
    assert_eq!(c.died(), 0);
    assert_eq!(c.store(), 900);
}

#[test]
fn feeding_counts_whole_rations() {
    let mut c = City::new();
    assert_eq!(c.feed(1039), Ok(()));
    assert_eq!(c.died(), 44);
    assert_eq!(c.store(), 1761);
}

#[test]
fn feeding_more_than_needed_starves_nobody() {
    let mut c = City::new();
    assert_eq!(c.feed(2800), Ok(()));
    assert_eq!(c.died(), 0);
    assert_eq!(c.store(), 0);
}

#[test]
fn feeding_more_than_the_store_is_refused() {
    let mut c = City::new();
    assert_eq!(c.feed(2801), Err(Refusal::Bushels));
    assert_eq!(c.store(), 2800);
    assert_eq!(c.died(), 0);
}

#[test]
fn famine_is_above_forty_five_percent() {
    let mut c = City::new();
    c.feed(1060).unwrap();
    assert_eq!(c.died(), 42);
    assert!(!c.famine());
    let mut c = City::new();
    c.feed(1040).unwrap();
    assert_eq!(c.died(), 43);
    assert!(c.famine());
    let mut c = City::new();
    c.feed(0).unwrap();
    assert_eq!(c.died(), 95);
    assert!(c.famine());
    assert_eq!(c.famine_news(), "\nYou starved 95 people in one year!");
}

#[test]
fn buying_land_moves_grain_to_acres() {
    let mut c = City::new();
    assert_eq!(c.trade_start(), TradeStep::Buy);
    assert_eq!(c.trade(100), Ok(TradeStep::Done));
    assert_eq!(c.acres(), 1100);
    assert_eq!(c.store(), 800);
}

#[test]
fn buying_too_much_land_is_refused() {
    let mut c = City::new();
    assert_eq!(c.trade(141), Err(Refusal::Bushels));
    assert_eq!(c.acres(), 1000);
    assert_eq!(c.store(), 2800);
    assert_eq!(c.trade(140), Ok(TradeStep::Done));
    assert_eq!(c.store(), 0);
    assert_eq!(c.trade_start(), TradeStep::Sell);
}

#[test]
fn buying_nothing_moves_on_to_selling() {
    let mut c = City::new();
    assert_eq!(c.trade(0), Ok(TradeStep::Sell));
    assert_eq!(c.acres(), 1000);
    assert_eq!(c.store(), 2800);
}

#[test]
fn free_land_beyond_the_ledgers_is_refused() {
    let mut c = City::new();
    c.set_land_price(0);
    assert_eq!(c.trade(u32::MAX), Err(Refusal::Capacity));
    assert_eq!(c.acres(), 1000);
}

#[test]
fn selling_land_moves_acres_to_grain() {
    let mut c = City::new();
    c.set_land_price(17);
    assert_eq!(c.sell(100), Ok(()));
    assert_eq!(c.acres(), 900);
    assert_eq!(c.store(), 2800 + 1700);
    assert_eq!(c.sell(901), Err(Refusal::Acres));
    assert_eq!(c.acres(), 900);
    assert_eq!(c.store(), 4500);
}

#[test]
fn selling_without_land_does_nothing() {
    let mut c = City::new();
    assert_eq!(c.sell(1000), Ok(()));
    assert_eq!(c.acres(), 0);
    assert_eq!(c.store(), 22800);
    assert_eq!(c.sell(5), Ok(()));
    assert_eq!(c.acres(), 0);
    assert_eq!(c.store(), 22800);
    assert_eq!(c.trade(0), Ok(TradeStep::Done));
}

#[test]
fn selling_beyond_the_ledgers_is_refused() {
    let mut c = City::new();
    c.set_land_price(u32::MAX);
    assert_eq!(c.sell(2), Err(Refusal::Capacity));
    assert_eq!(c.acres(), 1000);
    assert_eq!(c.store(), 2800);
}

#[test]
fn sowing_checks_land_seed_and_people() {
    let mut c = City::new();
    assert_eq!(c.sow(1001), Err(Refusal::Acres));
    assert_eq!(c.sow(951), Err(Refusal::People));
    assert_eq!(c.sown(), 0);
    assert_eq!(c.store(), 2800);
    c.feed(2000).unwrap();
    assert_eq!(c.store(), 800);
    c.trade(0).unwrap();
    c.sell(0).unwrap();
    assert_eq!(c.sow(950), Ok(()));
    assert_eq!(c.sown(), 950);
    assert_eq!(c.store(), 325);
    assert_eq!(c.sow(650), Err(Refusal::Bushels));
    assert_eq!(c.sown(), 950);
    assert_eq!(c.store(), 325);
    assert_eq!(c.sow(0), Ok(()));
    assert_eq!(c.sown(), 0);
    assert_eq!(c.store(), 325);
}

#[test]
fn sowing_needs_more_seed_than_half_the_acres() {
    let mut c = City::new();
    c.feed(2300).unwrap();
    assert_eq!(c.store(), 500);
    assert_eq!(c.sow(900), Ok(()));
    assert_eq!(c.store(), 50);
    assert_eq!(c.sow(100), Err(Refusal::Bushels));
    assert_eq!(c.sow(99), Ok(()));
    assert_eq!(c.store(), 1);
}

#[test]
fn first_year_scenario() {
    let mut c = City::new();
    assert_eq!(c.feed(1900), Ok(()));
    assert_eq!(c.died(), 0);
    // Ninety-five people tend at most 950 acres.
    assert_eq!(c.sow(1000), Err(Refusal::People));
    assert_eq!(c.sow(950), Ok(()));
    assert_eq!(c.sown(), 950);
    assert_eq!(c.store(), 900 - 475);
    c.harvest_with_yield(3);
    assert_eq!(c.crop_yield(), 3);
    assert_eq!(c.harvested(), 2850);
    assert_eq!(c.store(), 425 + 2850);
}

#[test]
fn harvest_of_unsown_fields_is_nothing() {
    let mut c = City::new();
    c.harvest_with_yield(6);
    assert_eq!(c.crop_yield(), 6);
    assert_eq!(c.harvested(), 0);
    assert_eq!(c.store(), 2800);
}

#[test]
fn rats_eat_a_share_of_the_store() {
    let mut c = City::new();
    c.rats_with_share(200_000);
    assert_eq!(c.eaten_by_rats(), 560);
    assert_eq!(c.store(), 2240);
    c.rats_with_share(0);
    assert_eq!(c.eaten_by_rats(), 0);
    assert_eq!(c.store(), 2240);
}

#[test]
fn plague_halves_the_people() {
    let mut c = City::new();
    c.plague_with(false);
    assert_eq!(c.population(), 95);
    c.plague_with(true);
    assert_eq!(c.population(), 47);
}

#[test]
fn populate_adds_births_and_removes_the_dead() {
    let mut c = City::new();
    c.feed(1000).unwrap();
    assert_eq!(c.died(), 45);
    assert_eq!(c.store(), 1800);
    c.populate_with_roll(3);
    // (20 * 1000 + 1800) / 9500 = 2 per roll.
    assert_eq!(c.babies(), 7);
    assert_eq!(c.population(), 95 + 7 - 45);
    assert_eq!(c.dead_total(), 45);
    assert_eq!(c.years_recorded(), 1);
    assert_eq!(c.starved_mean(), 45 * 1_000_000 / 95);
}

#[test]
fn populate_an_empty_city() {
    let mut c = City::new();
    for _ in 0..7 {
        c.plague_with(true);
    }
    assert_eq!(c.population(), 0);
    c.feed(0).unwrap();
    assert_eq!(c.died(), 0);
    assert!(!c.famine());
    c.populate_with_roll(6);
    assert_eq!(c.babies(), 1);
    assert_eq!(c.population(), 1);
    assert_eq!(c.starved_mean(), 0);
}

fn mean_of(x: u64) -> AccumulatingMean {
    let mut m = AccumulatingMean::new();
    m.push(x);
    m
}

#[test]
fn classify_success() {
    assert_eq!(classify(false, &mean_of(0), 1200, 100), Outcome::Success);
    assert_eq!(classify(false, &AccumulatingMean::new(), 1200, 100), Outcome::Success);
}

#[test]
fn classify_impeachment() {
    assert_eq!(classify(false, &mean_of(40_000_000), 1200, 100), Outcome::Impeachment);
    assert_eq!(classify(false, &mean_of(40_000_000), 100_000, 1), Outcome::Impeachment);
    assert_eq!(classify(true, &mean_of(0), 1200, 100), Outcome::Impeachment);
    assert_eq!(classify(false, &mean_of(0), 699, 100), Outcome::Impeachment);
    assert_eq!(classify(false, &mean_of(0), 1200, 0), Outcome::Impeachment);
}

#[test]
fn classify_infamy_and_mediocrity() {
    assert_eq!(classify(false, &mean_of(5_000_000), 1100, 100), Outcome::Mediocrity);
    assert_eq!(classify(false, &mean_of(0), 999, 100), Outcome::Mediocrity);
    assert_eq!(classify(false, &mean_of(3_000_000), 1000, 100), Outcome::Success);
    assert_eq!(classify(false, &mean_of(10_000_001), 1100, 100), Outcome::Infamy);
    assert_eq!(classify(false, &mean_of(0), 700, 100), Outcome::Infamy);
    assert_eq!(classify(false, &mean_of(33_000_000), 1100, 100), Outcome::Infamy);
}

#[test]
fn city_fate_with_draw() {
    let c = City::new();
    // 1000 acres for 95 people, no starvation recorded: just over ten acres a head.
    assert_eq!(c.outcome(false), Outcome::Success);
    assert_eq!(c.fate_with_draw(false, 500_000), Fate::Success);
    assert_eq!(c.fate_with_draw(true, 500_000), Fate::Impeachment);
    let mut c = City::new();
    c.set_land_price(10);
    c.sell(60).unwrap();
    assert_eq!(c.outcome(false), Outcome::Mediocrity);
    assert_eq!(c.fate_with_draw(false, 500_000), Fate::Mediocrity(38));
    assert_eq!(c.fate_with_draw(false, 0), Fate::Mediocrity(0));
    c.sell(100).unwrap();
    assert_eq!(c.fate_with_draw(false, 500_000), Fate::Infamy);
}

#[test]
fn report_renders_the_state() {
    let c = City::new();
    let expected = "\nOur population is now 95 people.\
        \nThe city now owns 1,000 acres.\
        \nThe harvest was 3 bushels of grain per acre.\
        \nRats ate 200 bushels of grain.\
        \nYou now have 2,800 bushels of grain in store.\
        \nLand is trading at 20 bushels of grain per acre.";
    assert_eq!(c.report(), expected);
    assert_eq!(c.report(), c.report());
    let mut c = City::new();
    c.rats_with_share(0);
    c.set_land_price(1234);
    let expected = "\nOur population is now 95 people.\
        \nThe city now owns 1,000 acres.\
        \nThe harvest was 3 bushels of grain per acre.\
        \nYou now have 2,800 bushels of grain in store.\
        \nLand is trading at 1234 bushels of grain per acre.";
    assert_eq!(c.report(), expected);
}

#[test]
fn summary_renders_the_year() {
    let mut c = City::new();
    let expected = "\n\n    YEAR 1\n\nHamurusti: I beg to report to you, in year 1, 0 people \
        starved and the population grew by 5 people.";
    assert_eq!(c.summary(1), expected);
    assert_eq!(c.summary(1), c.summary(1));
    c.feed(0).unwrap();
    c.set_land_price(0);
    c.trade(2_000_000).unwrap();
    c.populate_with_roll(6);
    assert_eq!(c.died(), 95);
    assert_eq!(c.summary(12), "\n\n    YEAR 12\n\nHamurusti: I beg to report to you, in year 12, 95 people \
        starved and the population grew by 25,273 people.");
}

#[test]
fn reading_twice_changes_nothing() {
    let c = City::new();
    let first = (c.report(), c.summary(3));
    let second = (c.report(), c.summary(3));
    assert_eq!(first, second);
    assert_eq!(c.store(), 2800);
    assert_eq!(c.population(), 95);
}

#[test]
fn complaints_name_the_limit() {
    let c = City::new();
    assert_eq!(c.complaint(Refusal::Acres), "\nHamurusti: Think again. You own only 1,000 acres. Now then...");
    assert_eq!(c.complaint(Refusal::Bushels), "\nHamurusti: Think again. You have only 2,800 bushels of grain. Now then...");
    assert_eq!(
        c.complaint(Refusal::People),
        "\nBut you have only 95 people to tend the fields. Each person can sow ten acres. Now then..."
    );
    assert_eq!(
        c.food_request(),
        "\nYour people ask for 1,900 bushels of grain to feed themselves. How many bushels do you wish to feed your people?"
    );
}

#[test]
fn fate_messages() {
    assert!(fate_message(Fate::Success).starts_with("\nSuccess!"));
    assert!(fate_message(Fate::Impeachment).starts_with("\nImpeachment!"));
    assert!(fate_message(Fate::Infamy).starts_with("\nInfamy!"));
    assert_eq!(
        fate_message(Fate::Mediocrity(1234)),
        "\nMediocrity! Your performance could have been somewhat better, but really wasn't too bad at all. \
        1234 people would dearly like to see you assassinated but we all have our trivial problems."
    );
}

#[test]
fn random_phases_stay_in_range() {
    let mut rng = rand::thread_rng();
    for _ in 0..50 {
        let mut c = City::new();
        c.feed(1900).unwrap();
        c.sow(900).unwrap();
        let before = c.store();
        c.harvest(&mut rng);
        assert!((1..=6).contains(&c.crop_yield()));
        assert_eq!(c.harvested(), 900 * c.crop_yield());
        assert_eq!(c.store(), before + c.harvested());
        let before = c.store();
        let share = c.rats(&mut rng);
        let eaten = c.eaten_by_rats();
        assert!(share == 0 || (100_000..300_000).contains(&share));
        assert_eq!(eaten as u64, before as u64 * share as u64 / 1_000_000);
        assert!(eaten == 0 || (eaten >= before / 10 && eaten <= before * 3 / 10));
        assert_eq!(c.store(), before - eaten);
        let struck = c.plague(&mut rng);
        assert_eq!(c.population(), if struck { 47 } else { 95 });
        c.roll_land_price(&mut rng);
        assert!((17..=26).contains(&c.land_price()));
        let people = c.population();
        let roll = c.populate(&mut rng);
        assert!((1..=6).contains(&roll));
        assert!(c.babies() >= 1);
        assert_eq!(c.population(), people + c.babies());
        let fate = c.decide_fate(false, &mut rng);
        assert_eq!(c.outcome(false) == Outcome::Mediocrity, matches!(fate, Fate::Mediocrity(_)));
    }
}

#[test]
fn first_year_has_no_plague() {
    let mut rng = rand::thread_rng();
    for _ in 0..50 {
        let mut c = City::new();
        assert!(!c.open_year(1, &mut rng));
        assert_eq!(c.population(), 95);
        assert!((17..=26).contains(&c.land_price()));
        let struck = c.open_year(2, &mut rng);
        assert_eq!(c.population(), if struck { 47 } else { 95 });
    }
}

#[test]
fn closing_a_famine_year_counts_no_births() {
    let mut rng = rand::thread_rng();
    for _ in 0..50 {
        let mut c = City::new();
        c.feed(0).unwrap();
        assert!(c.close_year(&mut rng));
        assert_eq!(c.population(), 95);
        assert_eq!(c.babies(), 5);
        assert_eq!(c.years_recorded(), 0);
    }
}

#[test]
fn closing_a_fed_year_counts_births() {
    let mut rng = rand::thread_rng();
    for _ in 0..50 {
        let mut c = City::new();
        c.feed(1900).unwrap();
        c.sow(900).unwrap();
        assert!(!c.close_year(&mut rng));
        assert!((1..=6).contains(&c.crop_yield()));
        assert_eq!(c.harvested(), 900 * c.crop_yield());
        assert_eq!(c.years_recorded(), 1);
        assert_eq!(c.population(), 95 + c.babies());
        assert_eq!(c.dead_total(), 0);
    }
}
