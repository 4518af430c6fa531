//! The gambler: a purse, a record of the flips so far, and the tape machine
//! that decides what is staked next.

use vstd::prelude::*;
use crate::gamble_f::{ConstructionError, GambleAction, GambleF, MachineState};
use crate::luck::coin;
use crate::names::{full_name, random_name};
use crate::nesting::balanced;

verus! {

/// The mathematical state of a gambler.
pub struct GamblerState {
    /// The gambler's name.
    pub name: Seq<char>,
    /// The money in the purse.
    pub money: usize,
    /// The stake of the last bet.
    pub bet: usize,
    /// The flips survived.
    pub flips: usize,
    /// The most money the purse has held.
    pub peak_money: usize,
    /// The flips won.
    pub successes: usize,
    /// The flips lost.
    pub failures: usize,
    /// The machine that places the bets.
    pub machine: MachineState,
}

impl GamblerState {
    /// A gambler who has not played yet.
    pub open spec fn fresh(name: Seq<char>, money: usize, code: Seq<char>) -> GamblerState {
        GamblerState {
            name,
            money,
            bet: 0,
            flips: 0,
            peak_money: money,
            successes: 0,
            failures: 0,
            machine: MachineState::initial(code),
        }
    }

    /// What every gambler keeps true: a machine in good order.
    pub open spec fn wf(self) -> bool {
        self.machine.wf()
    }

    /// Whether the stake is covered by the purse.
    pub open spec fn covered(self) -> bool {
        self.bet <= self.money
    }

    /// Whether a covered flip that comes up `won` fits the purse and the tallies.
    pub open spec fn can_settle(self, won: bool) -> bool {
        if won {
            self.money + self.bet <= usize::MAX && self.successes < usize::MAX
        } else {
            self.failures < usize::MAX
        }
    }

    /// The state after a covered flip that came up `won`: the stake is
    /// added to the purse or taken from it, and the flip is tallied.
    pub open spec fn settled(self, won: bool) -> GamblerState {
        if won {
            GamblerState {
                money: (self.money + self.bet) as usize,
                successes: (self.successes + 1) as usize,
                ..self
            }
        } else {
            GamblerState {
                money: (self.money - self.bet) as usize,
                failures: (self.failures + 1) as usize,
                ..self
            }
        }
    }

    /// Whether a flip fits the purse and the tallies however the coin falls.
    pub open spec fn can_flip(self) -> bool {
        self.covered() ==> self.can_settle(true) && self.can_settle(false)
    }

    /// Whether a flip whose coin falls `heads` is won: a stake that the
    /// purse does not cover is never won.
    pub open spec fn wins(self, heads: bool) -> bool {
        self.covered() && heads
    }

    /// The state after a flip whose coin falls `heads`: a stake that the
    /// purse does not cover costs the whole purse, whatever the coin.
    pub open spec fn flipped(self, heads: bool) -> GamblerState {
        if self.covered() {
            self.settled(heads)
        } else {
            GamblerState { money: 0, ..self }
        }
    }

    /// The state after the machine's next step alone.
    pub open spec fn ticked(self) -> GamblerState {
        GamblerState { machine: self.machine.step(), ..self }
    }

    /// The state after one round in which the coins of a bet fall `first`
    /// and `second`: the machine steps; a bet is staked and flipped twice,
    /// and whether the second flip was won is written to the machine; a
    /// request for the balance is answered with the purse.
    pub open spec fn round(self, first: bool, second: bool) -> GamblerState {
        match self.machine.action() {
            Some(GambleAction::Bet(stake)) => {
                let staked = GamblerState { bet: stake, ..self.ticked() };
                let once = staked.flipped(first);
                let twice = once.flipped(second);
                GamblerState {
                    machine: twice.machine.write(if once.wins(second) { 1usize } else { 0usize }),
                    ..twice
                }
            },
            Some(GambleAction::RequestBalance) => GamblerState {
                machine: self.machine.step().write(self.money),
                ..self
            },
            None => self.ticked(),
        }
    }

    /// Whether the next round can be played: the machine can step, and if
    /// it bets, both flips fit the purse and the tallies however they fall.
    pub open spec fn can_play(self) -> bool {
        &&& self.machine.can_step()
        &&& self.machine.action() matches Some(GambleAction::Bet(stake)) ==> {
            let staked = GamblerState { bet: stake, ..self.ticked() };
            &&& staked.can_flip()
            &&& staked.flipped(true).can_flip()
            &&& staked.flipped(false).can_flip()
        }
    }

    /// The state after the rounds whose coins fell as `flips` tells.
    pub open spec fn after(self, flips: Seq<(bool, bool)>) -> GamblerState
        decreases flips.len(),
    {
        if flips.len() == 0 {
            self
        } else {
            self.after(flips.drop_last()).round(flips.last().0, flips.last().1)
        }
    }

    /// Whether each of the rounds `flips` began with money in the purse and
    /// could be played.
    pub open spec fn played(self, flips: Seq<(bool, bool)>) -> bool
        decreases flips.len(),
    {
        flips.len() > 0 ==> {
            let before = self.after(flips.drop_last());
            &&& self.played(flips.drop_last())
            &&& before.money > 0
            &&& before.can_play()
        }
    }
}

/// A gambler.
#[derive(Debug)]
pub struct Gambler {
    name: String,
    money: usize,
    bet: usize,
    flips: usize,
    peak_money: usize,
    successes: usize,
    failures: usize,
    gamble_f: GambleF,
}

impl View for Gambler {
    type V = GamblerState;

    closed spec fn view(&self) -> GamblerState {
        GamblerState {
            name: self.name@,
            money: self.money,
            bet: self.bet,
            flips: self.flips,
            peak_money: self.peak_money,
            successes: self.successes,
            failures: self.failures,
            machine: self.gamble_f@,
        }
    }
}

impl Gambler {
    /// A gambler called `name` with `money` in the purse and a machine for
    /// `code`. A program whose brackets are not balanced is turned down.
    pub fn with_name(name: String, money: usize, code: &str) -> (made: Result<
        Gambler,
        ConstructionError,
    >)
        ensures
            made is Ok <==> balanced(code@),
            made matches Ok(gambler) ==> gambler@ == GamblerState::fresh(name@, money, code@)
                && gambler@.wf(),
            made matches Err(e) ==> e == ConstructionError::UnbalancedBrackets,
    {
        match GambleF::new(code) {
            Ok(gamble_f) => Ok(
                Gambler {
                    name,
                    money,
                    bet: 0,
                    flips: 0,
                    peak_money: money,
                    successes: 0,
                    failures: 0,
                    gamble_f,
                },
            ),
            Err(e) => Err(e),
        }
    }

    /// A gambler with a name drawn at random, `money` in the purse and a
    /// machine for `code`. A program whose brackets are not balanced is
    /// turned down.
    pub fn new(money: usize, code: &str) -> (made: Result<Gambler, ConstructionError>)
        ensures
            made is Ok <==> balanced(code@),
            made matches Ok(gambler) ==> gambler@.wf() && exists|first: Seq<char>, last: Seq<char>|
                gambler@ == GamblerState::fresh(full_name(first, last), money, code@),
            made matches Err(e) ==> e == ConstructionError::UnbalancedBrackets,
    {
        let name = random_name();
        Gambler::with_name(name, money, code)
    }

    /// Settles a covered flip that came up `success`: a win adds the stake
    /// to the purse, a loss takes it, and the flip is tallied.
    pub fn settle(&mut self, success: bool) -> (won: bool)
        requires
            old(self)@.covered(),
            old(self)@.can_settle(success),
        ensures
            won == success,
            final(self)@ == old(self)@.settled(success),
    {
        if success {
            self.money += self.bet;
            self.successes += 1;
        } else {
            self.money -= self.bet;
            self.failures += 1;
        }
        success
    }

    /// Whether a flip fits the purse and the tallies however the coin falls.
    pub fn can_flip(&self) -> (able: bool)
        ensures
            able == self@.can_flip(),
    {
        self.bet > self.money || (self.bet <= usize::MAX - self.money && self.successes
            < usize::MAX && self.failures < usize::MAX)
    }

    /// Flips a coin for the stake. A stake that the purse does not cover
    /// costs the whole purse, and no coin is tossed for it.
    pub fn flip(&mut self) -> (won: bool)
        requires
            old(self)@.can_flip(),
        ensures
            won == old(self)@.wins(won),
            final(self)@ == old(self)@.flipped(won),
    {
        if self.bet > self.money {
            self.money = 0;
            return false;
        }
        let success: bool = coin();
        self.settle(success)
    }

    /// Steps the machine once.
    pub fn tick(&mut self) -> (action: Option<GambleAction>)
        requires
            old(self)@.wf(),
            old(self)@.machine.can_step(),
        ensures
            final(self)@ == old(self)@.ticked(),
            action == old(self)@.machine.action(),
            final(self)@.wf(),
    {
        self.gamble_f.tick()
    }

    /// Whether two flips for `stake` fit the purse and the tallies however
    /// the coins fall.
    fn fits(&self, stake: usize) -> (able: bool)
        ensures
            able == ({
                let staked = GamblerState { bet: stake, ..self@ };
                &&& staked.can_flip()
                &&& staked.flipped(true).can_flip()
                &&& staked.flipped(false).can_flip()
            }),
    {
        let purse: usize = self.money;
        if stake > purse {
            return true;
        }
        if stake > usize::MAX - purse || self.successes == usize::MAX || self.failures
            == usize::MAX {
            return false;
        }
        let up: usize = purse + stake;
        if stake > usize::MAX - up || self.successes + 1 == usize::MAX {
            return false;
        }
        let down: usize = purse - stake;
        !(stake <= down && self.failures + 1 == usize::MAX)
    }

    /// Whether the next round can be played. Where it cannot, the machine
    /// cannot step, or a bet is due whose flips might not fit the purse or
    /// the tallies.
    pub fn can_play(&self) -> (able: bool)
        requires
            self@.wf(),
        ensures
            able == self@.can_play(),
    {
        if !self.gamble_f.can_tick() {
            return false;
        }
        match self.gamble_f.next_action() {
            Some(GambleAction::Bet(stake)) => self.fits(stake),
            _ => true,
        }
    }

    /// Plays round after round until the purse is empty, the next round
    /// cannot be played, or `max_ticks` rounds have been played, and hands
    /// back the program. In each round the machine steps once; a bet is
    /// staked and flipped twice, and the machine is told whether the second
    /// flip was won; a request for the balance is answered with the purse.
    pub fn gamble(&mut self, max_ticks: usize) -> (code: String)
        requires
            old(self)@.wf(),
        ensures
            final(self)@.wf(),
            code@ == old(self)@.machine.code,
            exists|flips: Seq<(bool, bool)>|
                {
                    &&& #[trigger] old(self)@.played(flips)
                    &&& flips.len() <= max_ticks
                    &&& final(self)@ == old(self)@.after(flips)
                    &&& (final(self)@.money == 0 || !final(self)@.can_play() || flips.len()
                        == max_ticks)
                },
    {
        let mut ticks: usize = 0;
        let ghost mut flips: Seq<(bool, bool)> = Seq::empty();
        while self.money > 0 && ticks < max_ticks && self.can_play()
            invariant
                self@.wf(),
                self@.machine.code == old(self)@.machine.code,
                ticks == flips.len(),
                ticks <= max_ticks,
                old(self)@.played(flips),
                self@ == old(self)@.after(flips),
            decreases max_ticks - ticks,
        {
            let ghost before = self@;
            let ghost earlier = flips;
            let ghost mut first = false;
            let ghost mut second = false;
            match self.tick() {
                Some(GambleAction::Bet(b)) => {
                    self.bet = b;
                    let once = self.flip();
                    let result = self.flip();
                    self.gamble_f.gamble_result(result);
                    proof {
                        first = once;
                        second = result;
                    }
                },
                Some(GambleAction::RequestBalance) => self.gamble_f.balance(self.money),
                None => (),
            }
            ticks += 1;
            proof {
                flips = earlier.push((first, second));
                assert(flips.drop_last() =~= earlier);
                assert(self@ == before.round(first, second));
            }
        }
        self.gamble_f.code_string()
    }

    /// The gambler's name.
    pub fn name(&self) -> (name: &String)
        ensures
            name@ == self@.name,
    {
        &self.name
    }

    /// The money in the purse.
    pub fn money(&self) -> (money: usize)
        ensures
            money == self@.money,
    {
        self.money
    }

    /// The stake of the last bet.
    pub fn bet(&self) -> (bet: usize)
        ensures
            bet == self@.bet,
    {
        self.bet
    }

    /// The flips survived.
    pub fn flips(&self) -> (flips: usize)
        ensures
            flips == self@.flips,
    {
        self.flips
    }

    /// The most money the purse has held.
    pub fn peak_money(&self) -> (peak: usize)
        ensures
            peak == self@.peak_money,
    {
        self.peak_money
    }

    /// The flips won.
    pub fn successes(&self) -> (successes: usize)
        ensures
            successes == self@.successes,
    {
        self.successes
    }

    /// The flips lost.
    pub fn failures(&self) -> (failures: usize)
        ensures
            failures == self@.failures,
    {
        self.failures
    }

    /// The machine that places the bets.
    pub fn gamble_f(&self) -> (machine: &GambleF)
        ensures
            machine@ == self@.machine,
    {
        &self.gamble_f
    }
}

} // verus!
