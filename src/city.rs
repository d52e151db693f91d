use crate::chance::{draw_range, draw_ratio};
use crate::mean::{mean_above, AccumulatingMean};
use crate::text::{decimal, grouped, push_decimal, push_grouped};
use rand::rngs::ThreadRng;
use vstd::prelude::*;
use vstd::string::*;

verus! {

/// Parts per million that make up one whole; shares are kept in these units.
pub const PER_MILLION: u64 = 1_000_000;

/// Bushels that keep one person from starving for a year.
pub const BUSHELS_PER_PERSON: u32 = 20;

/// Acres that one person can tend.
pub const ACRES_PER_PERSON: u32 = 10;

/// `x` clamped to the range of `u32`.
pub open spec fn sat(x: int) -> u32 {
    if x > u32::MAX { u32::MAX } else if x < 0 { 0 } else { x as u32 }
}

proof fn lemma_mul_fits(a: u32, b: u32)
    ensures
        (a as int) * (b as int) <= 0xffff_fffe_0000_0001,
{
    assert((a as int) * (b as int) <= 0xffff_ffff * 0xffff_ffff) by (nonlinear_arith)
        requires a <= 0xffff_ffff, b <= 0xffff_ffff, a >= 0, b >= 0;
}

/// Why a requested action was turned down; the city is left as it was.
#[derive(PartialEq, Eq, Structural, Debug, Clone, Copy)]
pub enum Refusal {
    /// More acres than the city owns.
    Acres,
    /// More bushels than the store holds.
    Bushels,
    /// More acres than the people can tend.
    People,
    /// The resulting acres or bushels would not fit in a `u32`.
    Capacity,
}

/// What the land market asks of the player next.
#[derive(PartialEq, Eq, Structural, Debug, Clone, Copy)]
pub enum TradeStep {
    Buy,
    Sell,
    Done,
}

/// The four verdicts on a term of office, worst first.
#[derive(PartialEq, Eq, Structural, Debug, Clone, Copy)]
pub enum Outcome {
    Impeachment,
    Infamy,
    Mediocrity,
    Success,
}

/// A verdict together with what it reports; a mediocre ruler learns how many
/// people would like to see them assassinated.
#[derive(PartialEq, Eq, Structural, Debug, Clone, Copy)]
pub enum Fate {
    Impeachment,
    Infamy,
    Mediocrity(u32),
    Success,
}

/// The verdict on a term, first matching tier wins. `starved` holds each year's
/// starvation share in parts per million; a city without people is impeached.
pub open spec fn outcome_of(impeached: bool, starved: Seq<u64>, acres: int, population: int) -> Outcome {
    if impeached || population == 0 || mean_above(starved, 33 * PER_MILLION) || acres < 7 * population {
        Outcome::Impeachment
    } else if mean_above(starved, 10 * PER_MILLION) || acres < 9 * population {
        Outcome::Infamy
    } else if mean_above(starved, 3 * PER_MILLION) || acres < 10 * population {
        Outcome::Mediocrity
    } else {
        Outcome::Success
    }
}

/// Classifies a term of office from the starvation history and the acres per person.
pub fn classify(impeached: bool, starved: &AccumulatingMean, acres: u32, population: u32) -> (r: Outcome)
    requires
        starved.wf(),
    ensures
        r == outcome_of(impeached, starved@, acres as int, population as int),
{
    let acres = acres as u64;
    let population = population as u64;
    if impeached || population == 0 || starved.exceeds(33 * PER_MILLION) || acres < 7 * population {
        Outcome::Impeachment
    } else if starved.exceeds(10 * PER_MILLION) || acres < 9 * population {
        Outcome::Infamy
    } else if starved.exceeds(3 * PER_MILLION) || acres < 10 * population {
        Outcome::Mediocrity
    } else {
        Outcome::Success
    }
}

/// People who would like a mediocre ruler gone: `population * 0.8 * u`, rounded
/// down, for a uniform draw `u = draw / 1_000_000`.
pub open spec fn assassins_of(population: int, draw: int) -> int {
    population * 8 * draw / 10_000_000
}

/// The starvation share of a year in parts per million; none for an empty city.
pub open spec fn starved_share(died: int, population: int) -> int {
    if population == 0 { 0 } else { died * PER_MILLION / population }
}

/// Everything the city keeps track of.
pub struct CityView {
    pub acres: u32,
    pub babies: u32,
    pub crop_yield: u32,
    pub dead_total: u32,
    pub died: u32,
    pub eaten_by_rats: u32,
    pub harvest: u32,
    pub land_price: u32,
    pub population: u32,
    pub sown: u32,
    pub starved: Seq<u64>,
    pub store: u32,
}

/// The state of the city at the start of a term.
pub open spec fn start() -> CityView {
    CityView {
        acres: 1000,
        babies: 5,
        crop_yield: 3,
        dead_total: 0,
        died: 0,
        eaten_by_rats: 200,
        harvest: 3000,
        land_price: 20,
        population: 95,
        sown: 0,
        starved: Seq::empty(),
        store: 2800,
    }
}

/// What the market asks once buying is over or not possible.
pub open spec fn sell_step(v: CityView) -> TradeStep {
    if v.acres == 0 { TradeStep::Done } else { TradeStep::Sell }
}

/// The city after a harvest at `crop_yield` bushels per sown acre.
pub open spec fn after_harvest(v: CityView, crop_yield: u32) -> CityView {
    let harvest = sat(v.sown * crop_yield);
    CityView { crop_yield, harvest, store: sat(v.store + harvest), ..v }
}

/// The city after rats ate `share` parts per million of the store.
pub open spec fn after_rats(v: CityView, share: u32) -> CityView {
    let eaten = (v.store * share / (PER_MILLION as int)) as u32;
    CityView { eaten_by_rats: eaten, store: (v.store - eaten) as u32, ..v }
}

/// The city after a plague, if one `strikes`: half the people die.
pub open spec fn after_plague(v: CityView, strikes: bool) -> CityView {
    if strikes { CityView { population: (v.population / 2) as u32, ..v } } else { v }
}

/// Births in a year for a die roll `roll`: the roll times the city's wealth
/// per hundred people, plus one; an empty city gets one birth.
pub open spec fn births(v: CityView, roll: u32) -> u32 {
    if v.population == 0 {
        1
    } else {
        sat(roll * ((20 * v.acres + v.store) / (100 * v.population)) + 1)
    }
}

/// The city at the end of a year: births added, the starved removed and recorded.
pub open spec fn after_populate(v: CityView, roll: u32) -> CityView {
    let babies = births(v, roll);
    CityView {
        babies,
        starved: v.starved.push(starved_share(v.died as int, v.population as int) as u64),
        dead_total: sat(v.dead_total + v.died),
        population: sat(sat(v.population + babies) - v.died),
        ..v
    }
}

/// The fate that goes with a verdict; `draw` picks the share of would-be assassins.
pub open spec fn fate_of(o: Outcome, population: int, draw: int) -> Fate {
    match o {
        Outcome::Impeachment => Fate::Impeachment,
        Outcome::Infamy => Fate::Infamy,
        Outcome::Mediocrity => Fate::Mediocrity(assassins_of(population, draw) as u32),
        Outcome::Success => Fate::Success,
    }
}

/// The detailed yearly report on a city.
pub open spec fn report_text(v: CityView) -> Seq<char> {
    let rats = if v.eaten_by_rats > 0 {
        "\nRats ate "@ + grouped(v.eaten_by_rats as nat) + " bushels of grain."@
    } else {
        Seq::empty()
    };
    "\nOur population is now "@ + grouped(v.population as nat) + " people."@
        + "\nThe city now owns "@ + grouped(v.acres as nat) + " acres."@
        + "\nThe harvest was "@ + decimal(v.crop_yield as nat) + " bushels of grain per acre."@
        + rats
        + "\nYou now have "@ + grouped(v.store as nat) + " bushels of grain in store."@
        + "\nLand is trading at "@ + decimal(v.land_price as nat) + " bushels of grain per acre."@
}

/// The short report that opens a year.
pub open spec fn summary_text(v: CityView, year: u32) -> Seq<char> {
    "\n\n    YEAR "@ + decimal(year as nat)
        + "\n\nHamurusti: I beg to report to you, in year "@ + decimal(year as nat)
        + ", "@ + grouped(v.died as nat)
        + " people starved and the population grew by "@ + grouped(v.babies as nat) + " people."@
}

/// What the player hears when an action is turned down.
pub open spec fn complaint_text(v: CityView, why: Refusal) -> Seq<char> {
    match why {
        Refusal::Acres => "\nHamurusti: Think again. You own only "@ + grouped(v.acres as nat)
            + " acres. Now then..."@,
        Refusal::Bushels => "\nHamurusti: Think again. You have only "@ + grouped(v.store as nat)
            + " bushels of grain. Now then..."@,
        Refusal::People => "\nBut you have only "@ + grouped(v.population as nat)
            + " people to tend the fields. Each person can sow ten acres. Now then..."@,
        Refusal::Capacity => "\nHamurusti: Think again. The city cannot keep account of so much. Now then..."@,
    }
}

/// The people's request for food: twenty bushels a head.
pub open spec fn food_request_text(v: CityView) -> Seq<char> {
    "\nYour people ask for "@ + grouped((v.population * 20) as nat)
        + " bushels of grain to feed themselves. How many bushels do you wish to feed your people?"@
}

/// The news of a famine.
pub open spec fn famine_text(v: CityView) -> Seq<char> {
    "\nYou starved "@ + grouped(v.died as nat) + " people in one year!"@
}

/// The announcement of a fate.
pub open spec fn fate_text(f: Fate) -> Seq<char> {
    match f {
        Fate::Impeachment => "\nImpeachment! Due to extreme mismanagement you have been impeached and thrown out of office."@,
        Fate::Infamy => "\nInfamy! Your heavy-handed performance smacks of Nero and Ivan IV. The people (remaining) find you an unpleasant ruler, and frankly, hate your guts!"@,
        Fate::Mediocrity(n) => "\nMediocrity! Your performance could have been somewhat better, but really wasn't too bad at all. "@
            + decimal(n as nat)
            + " people would dearly like to see you assassinated but we all have our trivial problems."@,
        Fate::Success => "\nSuccess! A fantastic performance! Charlemagne, Disraeli and Jefferson combined could not have done better!"@,
    }
}

/// The announcement of a fate.
pub fn fate_message(f: Fate) -> (r: String)
    ensures
        r@ == fate_text(f),
{
    let mut s = String::new();
    match f {
        Fate::Impeachment => {
            s.append("\nImpeachment! Due to extreme mismanagement you have been impeached and thrown out of office.");
        },
        Fate::Infamy => {
            s.append("\nInfamy! Your heavy-handed performance smacks of Nero and Ivan IV. The people (remaining) find you an unpleasant ruler, and frankly, hate your guts!");
        },
        Fate::Mediocrity(n) => {
            s.append("\nMediocrity! Your performance could have been somewhat better, but really wasn't too bad at all. ");
            push_decimal(&mut s, n);
            s.append(" people would dearly like to see you assassinated but we all have our trivial problems.");
        },
        Fate::Success => {
            s.append("\nSuccess! A fantastic performance! Charlemagne, Disraeli and Jefferson combined could not have done better!");
        },
    }
    assert(s@ =~= fate_text(f));
    s
}

/// The city after buying `x` acres at the land price.
pub open spec fn after_buy(v: CityView, x: u32) -> CityView {
    CityView { store: (v.store - v.land_price * x) as u32, acres: (v.acres + x) as u32, ..v }
}

/// The city after selling `x` acres at the land price.
pub open spec fn after_sell(v: CityView, x: u32) -> CityView {
    CityView { acres: (v.acres - x) as u32, store: (v.store + v.land_price * x) as u32, ..v }
}

/// Whether buying `x > 0` acres goes through: the store pays for it and the
/// acres still fit the ledger.
pub open spec fn buy_allowed(v: CityView, x: u32) -> bool {
    x > 0 && v.land_price * x <= v.store && v.acres + x <= u32::MAX
}

/// Whether selling `x` acres of land that the city has goes through: the
/// payment still fits the store.
pub open spec fn sell_allowed(v: CityView, x: u32) -> bool {
    v.acres > 0 && x <= v.acres && v.store + v.land_price * x <= u32::MAX
}

/// A purchase or a sale that goes through moves exactly `land_price * x`
/// bushels between the store and the land, in opposite directions, so the
/// store plus the land at the going price is unchanged; nothing else changes.
pub proof fn trade_moves_price_times_acres(v: CityView, x: u32)
    ensures
        buy_allowed(v, x) ==> {
            let w = after_buy(v, x);
            &&& w.store == v.store - v.land_price * x
            &&& w.acres == v.acres + x
            &&& w.store + v.land_price * w.acres == v.store + v.land_price * v.acres
            &&& w == (CityView { store: w.store, acres: w.acres, ..v })
        },
        sell_allowed(v, x) ==> {
            let w = after_sell(v, x);
            &&& w.store == v.store + v.land_price * x
            &&& w.acres == v.acres - x
            &&& w.store + v.land_price * w.acres == v.store + v.land_price * v.acres
            &&& w == (CityView { store: w.store, acres: w.acres, ..v })
        },
{
    if buy_allowed(v, x) {
        assert(v.land_price * (v.acres + x) == v.land_price * v.acres + v.land_price * x) by (nonlinear_arith);
    }
    if sell_allowed(v, x) {
        assert(v.land_price * (v.acres - x) == v.land_price * v.acres - v.land_price * x) by (nonlinear_arith);
    }
}

/// More than 45% of the people starved this year.
pub open spec fn famine_of(v: CityView) -> bool {
    100 * v.died > 45 * v.population
}

/// The city after the automatic close of a year: rats eat `share` parts per
/// million, the fields yield `crop_yield`, and unless a famine ends the term,
/// births for the die roll `roll` and deaths are counted.
pub open spec fn closed_year(v: CityView, share: u32, crop_yield: u32, roll: u32) -> CityView {
    let h = after_harvest(after_rats(v, share), crop_yield);
    if famine_of(h) { h } else { after_populate(h, roll) }
}

/// A city and the yearly phases that change it.
pub struct City {
    acres: u32,
    babies: u32,
    crop_yield: u32,
    dead_total: u32,
    died: u32,
    eaten_by_rats: u32,
    harvest: u32,
    land_price: u32,
    population: u32,
    sown: u32,
    starved_avg: AccumulatingMean,
    store: u32,
}

impl View for City {
    type V = CityView;

    closed spec fn view(&self) -> CityView {
        CityView {
            acres: self.acres,
            babies: self.babies,
            crop_yield: self.crop_yield,
            dead_total: self.dead_total,
            died: self.died,
            eaten_by_rats: self.eaten_by_rats,
            harvest: self.harvest,
            land_price: self.land_price,
            population: self.population,
            sown: self.sown,
            starved: self.starved_avg@,
            store: self.store,
        }
    }
}

impl City {
    pub closed spec fn wf(&self) -> bool {
        self.starved_avg.wf()
    }

    /// Create a new City with standard default values.
    pub fn new() -> (r: City)
        ensures
            r.wf(),
            r@ == start(),
    {
        City {
            acres: 1000,
            babies: 5,
            crop_yield: 3,
            dead_total: 0,
            died: 0,
            eaten_by_rats: 200,
            harvest: 3_000,
            land_price: 20,
            population: 95,
            sown: 0,
            starved_avg: AccumulatingMean::new(),
            store: 2_800,
        }
    }

    /// Did more than 45% of the population starve?
    pub fn famine(&self) -> (r: bool)
        ensures
            r == famine_of(self@),
    {
        100 * (self.died as u64) > 45 * (self.population as u64)
    }

    /// Feed the people with `amount` bushels from the store.
    pub fn feed(&mut self, amount: u32) -> (r: Result<(), Refusal>)
        requires
            old(self).wf(),
        ensures
            final(self).wf(),
            amount > old(self)@.store ==> r == Err::<(), Refusal>(Refusal::Bushels) && final(self)@ == old(self)@,
            amount <= old(self)@.store ==> r is Ok && final(self)@ == (CityView {
                store: (old(self)@.store - amount) as u32,
                died: sat(old(self)@.population - amount / BUSHELS_PER_PERSON),
                ..old(self)@
            }),
    {
        if amount > self.store {
            return Err(Refusal::Bushels);
        }
        self.store = self.store - amount;
        let fed = amount / BUSHELS_PER_PERSON;
        self.died = if fed >= self.population { 0 } else { self.population - fed };
        Ok(())
    }

    /// Where the land market starts: buying, unless the store is empty.
    pub fn trade_start(&self) -> (r: TradeStep)
        ensures
            r == (if self@.store == 0 { sell_step(self@) } else { TradeStep::Buy }),
    {
        if self.store == 0 {
            self.sell_step()
        } else {
            TradeStep::Buy
        }
    }

    fn sell_step(&self) -> (r: TradeStep)
        ensures
            r == sell_step(self@),
    {
        if self.acres == 0 { TradeStep::Done } else { TradeStep::Sell }
    }

    /// Buy `x` acres at the land price; buying none moves on to selling.
    pub fn trade(&mut self, x: u32) -> (r: Result<TradeStep, Refusal>)
        requires
            old(self).wf(),
        ensures
            final(self).wf(),
            x == 0 ==> r == Ok::<TradeStep, Refusal>(sell_step(old(self)@)) && final(self)@ == old(self)@,
            x > 0 && old(self)@.land_price * x > old(self)@.store ==> r == Err::<TradeStep, Refusal>(Refusal::Bushels)
                && final(self)@ == old(self)@,
            x > 0 && old(self)@.land_price * x <= old(self)@.store && old(self)@.acres + x > u32::MAX
                ==> r == Err::<TradeStep, Refusal>(Refusal::Capacity) && final(self)@ == old(self)@,
            x > 0 && old(self)@.land_price * x <= old(self)@.store && old(self)@.acres + x <= u32::MAX
                ==> r == Ok::<TradeStep, Refusal>(TradeStep::Done) && final(self)@ == after_buy(old(self)@, x),
    {
        if x == 0 {
            return Ok(self.sell_step());
        }
        proof { lemma_mul_fits(self.land_price, x); }
        let cost = self.land_price as u64 * x as u64;
        if cost > self.store as u64 {
            return Err(Refusal::Bushels);
        }
        if self.acres as u64 + x as u64 > u32::MAX as u64 {
            return Err(Refusal::Capacity);
        }
        self.store = self.store - cost as u32;
        self.acres = self.acres + x;
        Ok(TradeStep::Done)
    }

    /// Sell `x` acres at the land price; with no land there is nothing to sell.
    pub fn sell(&mut self, x: u32) -> (r: Result<(), Refusal>)
        requires
            old(self).wf(),
        ensures
            final(self).wf(),
            old(self)@.acres == 0 ==> r is Ok && final(self)@ == old(self)@,
            old(self)@.acres > 0 && x > old(self)@.acres ==> r == Err::<(), Refusal>(Refusal::Acres)
                && final(self)@ == old(self)@,
            old(self)@.acres > 0 && x <= old(self)@.acres && old(self)@.store + old(self)@.land_price * x > u32::MAX
                ==> r == Err::<(), Refusal>(Refusal::Capacity) && final(self)@ == old(self)@,
            old(self)@.acres > 0 && x <= old(self)@.acres && old(self)@.store + old(self)@.land_price * x <= u32::MAX
                ==> r is Ok && final(self)@ == after_sell(old(self)@, x),
    {
        if self.acres == 0 {
            return Ok(());
        }
        if x > self.acres {
            return Err(Refusal::Acres);
        }
        proof { lemma_mul_fits(self.land_price, x); }
        let gain = self.land_price as u64 * x as u64;
        if self.store as u64 + gain > u32::MAX as u64 {
            return Err(Refusal::Capacity);
        }
        self.acres = self.acres - x;
        self.store = self.store + gain as u32;
        Ok(())
    }

    /// Sow `x` acres at two bushels of seed per acre; sowing none clears the fields.
    pub fn sow(&mut self, x: u32) -> (r: Result<(), Refusal>)
        requires
            old(self).wf(),
        ensures
            final(self).wf(),
            x == 0 ==> r is Ok && final(self)@ == (CityView { sown: 0, ..old(self)@ }),
            x > 0 && x > old(self)@.acres ==> r == Err::<(), Refusal>(Refusal::Acres) && final(self)@ == old(self)@,
            x > 0 && x <= old(self)@.acres && x / 2 >= old(self)@.store
                ==> r == Err::<(), Refusal>(Refusal::Bushels) && final(self)@ == old(self)@,
            x > 0 && x <= old(self)@.acres && x / 2 < old(self)@.store && x > ACRES_PER_PERSON * old(self)@.population
                ==> r == Err::<(), Refusal>(Refusal::People) && final(self)@ == old(self)@,
            x > 0 && x <= old(self)@.acres && x / 2 < old(self)@.store && x <= ACRES_PER_PERSON * old(self)@.population
                ==> r is Ok && final(self)@ == (CityView {
                    store: (old(self)@.store - x / 2) as u32,
                    sown: x,
                    ..old(self)@
                }),
    {
        if x == 0 {
            self.sown = 0;
            return Ok(());
        }
        if x > self.acres {
            return Err(Refusal::Acres);
        }
        if x / 2 >= self.store {
            return Err(Refusal::Bushels);
        }
        if x as u64 > ACRES_PER_PERSON as u64 * self.population as u64 {
            return Err(Refusal::People);
        }
        self.store = self.store - x / 2;
        self.sown = x;
        Ok(())
    }

    /// Harvest `crop_yield` bushels from each sown acre into the store.
    pub fn harvest_with_yield(&mut self, crop_yield: u32)
        requires
            old(self).wf(),
        ensures
            final(self).wf(),
            final(self)@ == after_harvest(old(self)@, crop_yield),
    {
        proof { lemma_mul_fits(self.sown, crop_yield); }
        let harvest = self.sown as u64 * crop_yield as u64;
        self.harvest = if harvest > u32::MAX as u64 { u32::MAX } else { harvest as u32 };
        self.crop_yield = crop_yield;
        let store = self.store as u64 + self.harvest as u64;
        self.store = if store > u32::MAX as u64 { u32::MAX } else { store as u32 };
    }

    /// Harvest grain from the fields and put it in the store; the yield is a die roll.
    pub fn harvest(&mut self, rng: &mut ThreadRng)
        requires
            old(self).wf(),
        ensures
            final(self).wf(),
            1 <= final(self)@.crop_yield <= 6,
            final(self)@ == after_harvest(old(self)@, final(self)@.crop_yield),
    {
        let y = draw_range(rng, 1, 7);
        self.harvest_with_yield(y);
    }

    /// Rats eat `share` parts per million of the store.
    pub fn rats_with_share(&mut self, share: u32)
        requires
            old(self).wf(),
            share <= PER_MILLION,
        ensures
            final(self).wf(),
            final(self)@ == after_rats(old(self)@, share),
    {
        proof {
            lemma_mul_fits(self.store, share);
            assert(self.store * share / 1_000_000 <= self.store) by (nonlinear_arith)
                requires share <= 1_000_000, self.store >= 0, share >= 0;
        }
        let eaten = (self.store as u64 * share as u64 / PER_MILLION) as u32;
        self.eaten_by_rats = eaten;
        self.store = self.store - eaten;
    }

    /// How much grain was lost to rats? With chance 3 in 20 they eat between a
    /// tenth and three tenths of the store; tells the share eaten, in parts per million.
    pub fn rats(&mut self, rng: &mut ThreadRng) -> (share: u32)
        requires
            old(self).wf(),
        ensures
            final(self).wf(),
            share == 0 || 100_000 <= share < 300_000,
            final(self)@ == after_rats(old(self)@, share),
    {
        let share = if draw_ratio(rng, 3, 20) { draw_range(rng, 100_000, 300_000) } else { 0 };
        self.rats_with_share(share);
        share
    }

    /// Half the people die if the plague `strikes`.
    pub fn plague_with(&mut self, strikes: bool)
        requires
            old(self).wf(),
        ensures
            final(self).wf(),
            final(self)@ == after_plague(old(self)@, strikes),
    {
        if strikes {
            self.population = self.population / 2;
        }
    }

    /// Roll the die on the chance of plague, 3 in 20; tells whether it struck.
    pub fn plague(&mut self, rng: &mut ThreadRng) -> (strikes: bool)
        requires
            old(self).wf(),
        ensures
            final(self).wf(),
            final(self)@ == after_plague(old(self)@, strikes),
    {
        let strikes = draw_ratio(rng, 3, 20);
        self.plague_with(strikes);
        strikes
    }

    /// Births for the die roll `roll`, the year's starvation recorded, and the dead removed.
    pub fn populate_with_roll(&mut self, roll: u32)
        requires
            old(self).wf(),
            old(self)@.starved.len() < u32::MAX,
        ensures
            final(self).wf(),
            final(self)@ == after_populate(old(self)@, roll),
    {
        let population = self.population as u64;
        let babies: u32 = if population == 0 {
            1
        } else {
            let wealth = (20 * self.acres as u64 + self.store as u64) / (100 * population);
            proof {
                assert(wealth <= 21 * 0xffff_ffff) by (nonlinear_arith)
                    requires wealth == (20 * self.acres as u64 + self.store as u64) / (100 * population),
                        population >= 1, self.acres <= 0xffff_ffff, self.store <= 0xffff_ffff;
                assert(roll * wealth <= 0xffff_ffff * (21 * 0xffff_ffff)) by (nonlinear_arith)
                    requires wealth <= 21 * 0xffff_ffff, roll <= 0xffff_ffff, roll >= 0, wealth >= 0;
            }
            let b = roll as u128 * wealth as u128 + 1;
            if b > u32::MAX as u128 { u32::MAX } else { b as u32 }
        };
        self.babies = babies;
        let share: u64 = if population == 0 { 0 } else { self.died as u64 * PER_MILLION / population };
        self.starved_avg.push(share);
        let dead = self.dead_total as u64 + self.died as u64;
        self.dead_total = if dead > u32::MAX as u64 { u32::MAX } else { dead as u32 };
        let grown = population + babies as u64;
        let grown: u32 = if grown > u32::MAX as u64 { u32::MAX } else { grown as u32 };
        self.population = if self.died >= grown { 0 } else { grown - self.died };
    }

    /// Calculate babies made, average people starved and remove the dead from
    /// the population; births scale with a die roll, which is returned.
    pub fn populate(&mut self, rng: &mut ThreadRng) -> (roll: u32)
        requires
            old(self).wf(),
            old(self)@.starved.len() < u32::MAX,
        ensures
            final(self).wf(),
            1 <= roll <= 6,
            final(self)@ == after_populate(old(self)@, roll),
    {
        let roll = draw_range(rng, 1, 7);
        self.populate_with_roll(roll);
        roll
    }

    /// Open a year: after the first, plague may strike; then land gets a new
    /// price. Tells whether plague struck.
    pub fn open_year(&mut self, year: u32, rng: &mut ThreadRng) -> (struck: bool)
        requires
            old(self).wf(),
        ensures
            final(self).wf(),
            year <= 1 ==> !struck,
            17 <= final(self)@.land_price <= 26,
            final(self)@ == (CityView { land_price: final(self)@.land_price, ..after_plague(old(self)@, struck) }),
    {
        let struck = if year > 1 { self.plague(rng) } else { false };
        self.roll_land_price(rng);
        struck
    }

    /// Close a year once the player has fed, traded and sown: rats, then the
    /// harvest, then the famine check; only without a famine are births and
    /// deaths counted. Tells whether a famine ends the term.
    pub fn close_year(&mut self, rng: &mut ThreadRng) -> (famine: bool)
        requires
            old(self).wf(),
            old(self)@.starved.len() < u32::MAX,
        ensures
            final(self).wf(),
            exists|share: u32, crop_yield: u32, roll: u32|
                (share == 0 || 100_000 <= share < 300_000) && 1 <= crop_yield <= 6 && 1 <= roll <= 6
                && famine == famine_of(after_harvest(after_rats(old(self)@, share), crop_yield))
                && final(self)@ == #[trigger] closed_year(old(self)@, share, crop_yield, roll),
    {
        let share = self.rats(rng);
        self.harvest(rng);
        let crop_yield = self.crop_yield;
        if self.famine() {
            assert(self@ == closed_year(old(self)@, share, crop_yield, 1));
            return true;
        }
        let roll = self.populate(rng);
        assert(self@ == closed_year(old(self)@, share, crop_yield, roll));
        false
    }

    /// Set the price of land, in bushels per acre.
    pub fn set_land_price(&mut self, price: u32)
        requires
            old(self).wf(),
        ensures
            final(self).wf(),
            final(self)@ == (CityView { land_price: price, ..old(self)@ }),
    {
        self.land_price = price;
    }

    /// A new price of land for the year, from 17 to 26 bushels per acre.
    pub fn roll_land_price(&mut self, rng: &mut ThreadRng)
        requires
            old(self).wf(),
        ensures
            final(self).wf(),
            17 <= final(self)@.land_price <= 26,
            final(self)@ == (CityView { land_price: final(self)@.land_price, ..old(self)@ }),
    {
        let p = draw_range(rng, 17, 27);
        self.set_land_price(p);
    }

    /// The verdict on this city's term.
    pub fn outcome(&self, impeached: bool) -> (r: Outcome)
        requires
            self.wf(),
        ensures
            r == outcome_of(impeached, self@.starved, self@.acres as int, self@.population as int),
    {
        classify(impeached, &self.starved_avg, self.acres, self.population)
    }

    /// The fate of the ruler, where `draw` in parts per million picks the share of
    /// would-be assassins of a mediocre ruler.
    pub fn fate_with_draw(&self, impeached: bool, draw: u32) -> (r: Fate)
        requires
            self.wf(),
            draw < PER_MILLION,
        ensures
            r == fate_of(
                outcome_of(impeached, self@.starved, self@.acres as int, self@.population as int),
                self@.population as int,
                draw as int,
            ),
    {
        match self.outcome(impeached) {
            Outcome::Impeachment => Fate::Impeachment,
            Outcome::Infamy => Fate::Infamy,
            Outcome::Mediocrity => {
                proof {
                    assert(self.population * 8 * draw <= 0xffff_ffff * 8 * 1_000_000) by (nonlinear_arith)
                        requires self.population <= 0xffff_ffff, draw < 1_000_000, draw >= 0, self.population >= 0;
                    assert(self.population * 8 * draw / 10_000_000 <= 0xffff_ffff) by (nonlinear_arith)
                        requires self.population <= 0xffff_ffff, draw < 1_000_000, draw >= 0, self.population >= 0;
                }
                Fate::Mediocrity((self.population as u64 * 8 * draw as u64 / 10_000_000) as u32)
            },
            Outcome::Success => Fate::Success,
        }
    }

    /// Decide the player's fate; only a mediocre ruler costs a draw.
    pub fn decide_fate(&self, impeached: bool, rng: &mut ThreadRng) -> (r: Fate)
        requires
            self.wf(),
        ensures
            exists|d: u32| d < PER_MILLION && r == fate_of(
                outcome_of(impeached, self@.starved, self@.acres as int, self@.population as int),
                self@.population as int,
                d as int,
            ),
    {
        let draw = if self.outcome(impeached) == Outcome::Mediocrity {
            draw_range(rng, 0, 1_000_000)
        } else {
            0
        };
        self.fate_with_draw(impeached, draw)
    }

    /// Mean yearly starvation share so far, in parts per million, rounded down.
    pub fn starved_mean(&self) -> (r: u64)
        requires
            self.wf(),
        ensures
            r == crate::mean::mean_of(self@.starved),
    {
        self.starved_avg.mean()
    }

    /// Years whose starvation has been recorded.
    pub fn years_recorded(&self) -> (r: u32)
        requires
            self.wf(),
        ensures
            r == self@.starved.len(),
    {
        self.starved_avg.count()
    }

    /// Report to the player in detail about the state of the city.
    pub fn report(&self) -> (r: String)
        ensures
            r@ == report_text(self@),
    {
        let mut s = String::new();
        s.append("\nOur population is now ");
        push_grouped(&mut s, self.population as u64);
        s.append(" people.");
        s.append("\nThe city now owns ");
        push_grouped(&mut s, self.acres as u64);
        s.append(" acres.");
        s.append("\nThe harvest was ");
        push_decimal(&mut s, self.crop_yield);
        s.append(" bushels of grain per acre.");
        // Only report rats if they ate something.
        if self.eaten_by_rats > 0 {
            s.append("\nRats ate ");
            push_grouped(&mut s, self.eaten_by_rats as u64);
            s.append(" bushels of grain.");
        }
        s.append("\nYou now have ");
        push_grouped(&mut s, self.store as u64);
        s.append(" bushels of grain in store.");
        s.append("\nLand is trading at ");
        push_decimal(&mut s, self.land_price);
        s.append(" bushels of grain per acre.");
        assert(s@ =~= report_text(self@));
        s
    }

    /// A yearly, high-level report to the player.
    pub fn summary(&self, year: u32) -> (r: String)
        ensures
            r@ == summary_text(self@, year),
    {
        let mut s = String::new();
        s.append("\n\n    YEAR ");
        push_decimal(&mut s, year);
        s.append("\n\nHamurusti: I beg to report to you, in year ");
        push_decimal(&mut s, year);
        s.append(", ");
        push_grouped(&mut s, self.died as u64);
        s.append(" people starved and the population grew by ");
        push_grouped(&mut s, self.babies as u64);
        s.append(" people.");
        assert(s@ =~= summary_text(self@, year));
        s
    }

    /// Complain about an action that was turned down.
    pub fn complaint(&self, why: Refusal) -> (r: String)
        ensures
            r@ == complaint_text(self@, why),
    {
        let mut s = String::new();
        match why {
            Refusal::Acres => {
                s.append("\nHamurusti: Think again. You own only ");
                push_grouped(&mut s, self.acres as u64);
                s.append(" acres. Now then...");
            },
            Refusal::Bushels => {
                s.append("\nHamurusti: Think again. You have only ");
                push_grouped(&mut s, self.store as u64);
                s.append(" bushels of grain. Now then...");
            },
            Refusal::People => {
                s.append("\nBut you have only ");
                push_grouped(&mut s, self.population as u64);
                s.append(" people to tend the fields. Each person can sow ten acres. Now then...");
            },
            Refusal::Capacity => {
                s.append("\nHamurusti: Think again. The city cannot keep account of so much. Now then...");
            },
        }
        assert(s@ =~= complaint_text(self@, why));
        s
    }

    /// The people's request for food.
    pub fn food_request(&self) -> (r: String)
        ensures
            r@ == food_request_text(self@),
    {
        let mut s = String::new();
        s.append("\nYour people ask for ");
        push_grouped(&mut s, self.population as u64 * 20);
        s.append(" bushels of grain to feed themselves. How many bushels do you wish to feed your people?");
        assert(s@ =~= food_request_text(self@));
        s
    }

    /// The news of a famine.
    pub fn famine_news(&self) -> (r: String)
        ensures
            r@ == famine_text(self@),
    {
        let mut s = String::new();
        s.append("\nYou starved ");
        push_grouped(&mut s, self.died as u64);
        s.append(" people in one year!");
        assert(s@ =~= famine_text(self@));
        s
    }

    pub fn acres(&self) -> (r: u32)
        ensures r == self@.acres,
    {
        self.acres
    }

    pub fn population(&self) -> (r: u32)
        ensures r == self@.population,
    {
        self.population
    }

    pub fn store(&self) -> (r: u32)
        ensures r == self@.store,
    {
        self.store
    }

    pub fn sown(&self) -> (r: u32)
        ensures r == self@.sown,
    {
        self.sown
    }

    pub fn died(&self) -> (r: u32)
        ensures r == self@.died,
    {
        self.died
    }

    pub fn dead_total(&self) -> (r: u32)
        ensures r == self@.dead_total,
    {
        self.dead_total
    }

    pub fn babies(&self) -> (r: u32)
        ensures r == self@.babies,
    {
        self.babies
    }

    pub fn crop_yield(&self) -> (r: u32)
        ensures r == self@.crop_yield,
    {
        self.crop_yield
    }

    /// Bushels produced by this year's harvest.
    pub fn harvested(&self) -> (r: u32)
        ensures r == self@.harvest,
    {
        self.harvest
    }

    pub fn eaten_by_rats(&self) -> (r: u32)
        ensures r == self@.eaten_by_rats,
    {
        self.eaten_by_rats
    }

    pub fn land_price(&self) -> (r: u32)
        ensures r == self@.land_price,
    {
        self.land_price
    }
}

} // verus!
