//! The round state machine: deposit ledger, lifecycle flags, and weighted
//! winner selection.

use vstd::prelude::*;

use crate::config::Config;
use crate::errors::ContractError;
use crate::randomness::RandomnessState;
use crate::randomness::current_state;
use crate::randomness::u64_le_bytes;

verus! {

/// One participant's cumulative contribution within a round.
#[derive(Clone, Copy, Debug, PartialEq, Eq, Structural)]
pub struct DepositInfo {
    /// Identity of the contributing participant.
    pub user: u64,
    /// Cumulative amount this participant has deposited.
    pub amount: u64,
}

/// The sum of all ledger entry amounts.
pub open spec fn sum_of(s: Seq<DepositInfo>) -> int
    decreases s.len(),
{
    if s.len() == 0 {
        0
    } else {
        s[0].amount + sum_of(s.drop_first())
    }
}

/// No two ledger entries belong to the same participant.
pub open spec fn users_unique(s: Seq<DepositInfo>) -> bool {
    forall|i: int, j: int| 0 <= i < j < s.len() ==> s[i].user != s[j].user
}

/// Whether some ledger entry belongs to `user`.
pub open spec fn has_user(s: Seq<DepositInfo>, user: u64) -> bool {
    exists|i: int| 0 <= i < s.len() && s[i].user == user
}

/// Every ledger entry records a strictly positive contribution.
pub open spec fn amounts_positive(s: Seq<DepositInfo>) -> bool {
    forall|i: int| 0 <= i < s.len() ==> s[i].amount > 0
}

/// The index of `user`'s ledger entry; meaningful only under
/// [`has_user`] and unique under [`users_unique`].
pub open spec fn user_index(s: Seq<DepositInfo>, user: u64) -> int {
    choose|i: int| 0 <= i < s.len() && s[i].user == user
}

/// Weighted proportional selection: walk the ledger in order, and the first
/// entry whose amount exceeds what remains of the residue wins.
pub open spec fn select_winner(s: Seq<DepositInfo>, remaining: int) -> u64
    decreases s.len(),
{
    if s.len() == 0 {
        0
    } else if remaining < s[0].amount {
        s[0].user
    } else {
        select_winner(s.drop_first(), remaining - s[0].amount)
    }
}

/// State of a single lottery round.
#[derive(Clone, Debug)]
pub struct GameGround {
    /// Identity of the round's creator.
    pub creator: u64,
    /// Round number, unique and monotonically increasing across rounds.
    pub game_round: u64,
    /// Timestamp of round creation.
    pub create_date: i64,
    /// Timestamp set once, when the second participant joins.
    pub start_date: i64,
    /// `start_date + round_time`, set together with `start_date`.
    pub end_date: i64,
    /// Configured duration of the round.
    pub round_time: i64,
    /// Running total of all deposits in this round.
    pub total_deposit: u64,
    /// The external random value consumed at finalization.
    pub rand: u64,
    /// Identity of the recorded winner, meaningful once `is_completed`.
    pub winner: u64,
    /// Number of distinct participants in the ledger.
    pub user_count: u64,
    /// Minimum deposit amount for this round.
    pub min_deposit_amount: u64,
    /// Maximum number of distinct participants allowed.
    pub max_joiner_count: u64,
    /// Seed under which the external random value is requested.
    pub force: [u8; 32],
    /// Whether a winner has been recorded.
    pub is_completed: bool,
    /// Whether the winner has settled the pool.
    pub is_claimed: bool,
    /// The deposit ledger, one entry per distinct participant, in order of
    /// first contribution.
    pub deposit_list: Vec<DepositInfo>,
}

/// Bytes of one persisted ledger entry: a 32-byte participant key and a
/// 64-bit amount.
pub const DEPOSIT_INFO_SPACE: usize = 32 + 8;

/// Bytes of the fixed part of a persisted round record: creator key, round
/// number, four timestamps, total deposit, random value, winner key,
/// participant count, minimum deposit, capacity, 32-byte seed, two flags,
/// and the ledger's length prefix.
pub const GAME_GROUND_INIT_SPACE: usize = 32 + 8 + 8 + 8 + 8 + 8 + 8 + 8 + 32 + 8 + 8 + 8 + 32 + 1
    + 1 + (24 + 40);

impl GameGround {
    /// Bytes a persisted round record with `len` ledger entries occupies,
    /// including the record's 8-byte discriminator.
    pub fn space(len: usize) -> (r: usize)
        requires
            8 + GAME_GROUND_INIT_SPACE + len * DEPOSIT_INFO_SPACE <= usize::MAX,
        ensures
            r == 8 + GAME_GROUND_INIT_SPACE + len * DEPOSIT_INFO_SPACE,
    {
        8 + GAME_GROUND_INIT_SPACE + len * DEPOSIT_INFO_SPACE
    }

    /// The round's internal invariant, established at creation and
    /// preserved by every mutation.
    pub open spec fn well_formed(self) -> bool {
        &&& sum_of(self.deposit_list@) == self.total_deposit as int
        &&& users_unique(self.deposit_list@)
        &&& amounts_positive(self.deposit_list@)
        &&& self.user_count as int == self.deposit_list@.len()
        &&& self.deposit_list@.len() <= self.max_joiner_count as int
        &&& self.min_deposit_amount >= 1
        &&& self.round_time >= 1
        &&& (self.is_completed ==> has_user(self.deposit_list@, self.winner))
        &&& (self.is_claimed ==> self.is_completed)
    }
}

/// Opens a new round with the requested parameters, validated against the
/// global configuration: the duration and the minimum deposit must be
/// positive, and the participant capacity must be positive and at most the
/// configured ceiling. On success the round takes the configuration's
/// current round number and the counter advances by one.
pub fn create_game(
    config: &mut Config,
    creator: u64,
    force: [u8; 32],
    round_time: i64,
    min_deposit_amount: u64,
    max_joiner_count: u64,
    now: i64,
) -> (r: Result<GameGround, ContractError>)
    requires
        old(config).game_round < u64::MAX,
    ensures
        round_time <= 0 ==> r == Err::<GameGround, ContractError>(ContractError::RoundTimeError)
            && *final(config) == *old(config),
        round_time > 0 && min_deposit_amount == 0 ==> r == Err::<GameGround, ContractError>(
            ContractError::MinDepositAmountError,
        ) && *final(config) == *old(config),
        round_time > 0 && min_deposit_amount > 0 && (max_joiner_count == 0 || max_joiner_count
            > old(config).max_joiner_count) ==> r == Err::<GameGround, ContractError>(
            ContractError::MaxJoinerCountError,
        ) && *final(config) == *old(config),
        round_time > 0 && min_deposit_amount > 0 && 0 < max_joiner_count <= old(
            config,
        ).max_joiner_count ==> {
            &&& *final(config) == (Config {
                game_round: (old(config).game_round + 1) as u64,
                ..*old(config)
            })
            &&& r is Ok
            &&& r->Ok_0 == (GameGround {
                creator,
                game_round: old(config).game_round,
                create_date: now,
                start_date: 0,
                end_date: 0,
                round_time,
                total_deposit: 0,
                rand: 0,
                winner: 0,
                user_count: 0,
                min_deposit_amount,
                max_joiner_count,
                force,
                is_completed: false,
                is_claimed: false,
                deposit_list: r->Ok_0.deposit_list,
            })
            &&& r->Ok_0.deposit_list@ == Seq::<DepositInfo>::empty()
            &&& r->Ok_0.well_formed()
        },
{
    if round_time <= 0 {
        return Err(ContractError::RoundTimeError);
    }
    if min_deposit_amount == 0 {
        return Err(ContractError::MinDepositAmountError);
    }
    if max_joiner_count == 0 || max_joiner_count > config.max_joiner_count {
        return Err(ContractError::MaxJoinerCountError);
    }
    let round_number = config.game_round;
    config.game_round = round_number + 1;
    Ok(
        GameGround {
            creator,
            game_round: round_number,
            create_date: now,
            start_date: 0,
            end_date: 0,
            round_time,
            total_deposit: 0,
            rand: 0,
            winner: 0,
            user_count: 0,
            min_deposit_amount,
            max_joiner_count,
            force,
            is_completed: false,
            is_claimed: false,
            deposit_list: Vec::new(),
        },
    )
}

proof fn lemma_sum_nonneg(s: Seq<DepositInfo>)
    ensures
        sum_of(s) >= 0,
    decreases s.len(),
{
    if s.len() > 0 {
        lemma_sum_nonneg(s.drop_first());
    }
}

proof fn lemma_entry_le_sum(s: Seq<DepositInfo>, i: int)
    requires
        0 <= i < s.len(),
    ensures
        s[i].amount <= sum_of(s),
    decreases s.len(),
{
    if i == 0 {
        lemma_sum_nonneg(s.drop_first());
    } else {
        lemma_entry_le_sum(s.drop_first(), i - 1);
    }
}

proof fn lemma_sum_update(s: Seq<DepositInfo>, i: int, e: DepositInfo)
    requires
        0 <= i < s.len(),
    ensures
        sum_of(s.update(i, e)) == sum_of(s) - s[i].amount + e.amount,
    decreases s.len(),
{
    if i == 0 {
        assert(s.update(0, e).drop_first() =~= s.drop_first());
    } else {
        lemma_sum_update(s.drop_first(), i - 1, e);
        assert(s.update(i, e).drop_first() =~= s.drop_first().update(i - 1, e));
    }
}

proof fn lemma_sum_push(s: Seq<DepositInfo>, e: DepositInfo)
    ensures
        sum_of(s.push(e)) == sum_of(s) + e.amount,
    decreases s.len(),
{
    if s.len() == 0 {
        assert(s.push(e)[0] == e);
        assert(s.push(e).drop_first() =~= Seq::<DepositInfo>::empty());
        assert(sum_of(s.push(e)) == s.push(e)[0].amount + sum_of(s.push(e).drop_first()));
    } else {
        lemma_sum_push(s.drop_first(), e);
        assert(s.push(e)[0] == s[0]);
        assert(s.push(e).drop_first() =~= s.drop_first().push(e));
        assert(sum_of(s.push(e)) == s.push(e)[0].amount + sum_of(s.push(e).drop_first()));
    }
}

proof fn lemma_suffix_step(s: Seq<DepositInfo>, i: int)
    requires
        0 <= i < s.len(),
    ensures
        sum_of(s.subrange(i, s.len() as int)) == s[i].amount + sum_of(
            s.subrange(i + 1, s.len() as int),
        ),
        forall|rem: int|
            s[i].amount <= rem ==> select_winner(s.subrange(i, s.len() as int), rem)
                == select_winner(s.subrange(i + 1, s.len() as int), rem - s[i].amount),
        forall|rem: int|
            rem < s[i].amount ==> select_winner(s.subrange(i, s.len() as int), rem) == s[i].user,
{
    let t = s.subrange(i, s.len() as int);
    assert(t.len() > 0);
    assert(t[0] == s[i]);
    assert(t.drop_first() =~= s.subrange(i + 1, s.len() as int));
}

/// The selected winner always owns a ledger entry: weighted selection over a
/// residue below the ledger sum never falls off the end of the ledger.
pub proof fn lemma_select_winner_in_ledger(s: Seq<DepositInfo>, remaining: int)
    requires
        0 <= remaining < sum_of(s),
    ensures
        has_user(s, select_winner(s, remaining)),
    decreases s.len(),
{
    if remaining < s[0].amount {
        assert(s[0].user == select_winner(s, remaining));
    } else {
        lemma_select_winner_in_ledger(s.drop_first(), remaining - s[0].amount);
        let w = select_winner(s.drop_first(), remaining - s[0].amount);
        let i = choose|i: int| 0 <= i < s.drop_first().len() && s.drop_first()[i].user == w;
        assert(s[i + 1].user == w);
    }
}

/// Finds the index of `user`'s ledger entry, if any.
fn find_user_index(list: &Vec<DepositInfo>, user: u64) -> (r: Option<usize>)
    ensures
        match r {
            Some(i) => i < list@.len() && list@[i as int].user == user,
            None => !has_user(list@, user),
        },
{
    let n = list.len();
    let mut i: usize = 0;
    while i < n
        invariant
            n == list@.len(),
            i <= n,
            forall|k: int| 0 <= k < i ==> list@[k].user != user,
        decreases n - i,
    {
        if list[i].user == user {
            return Some(i);
        }
        i = i + 1;
    }
    None
}

/// What [`GameGround::join`] refuses, and why; `None` when the deposit is
/// accepted.
pub open spec fn join_err(g: GameGround, user: u64, amount: u64) -> Option<ContractError> {
    if g.is_completed {
        Some(ContractError::GameAlreadyCompleted)
    } else if amount < g.min_deposit_amount {
        Some(ContractError::DepositAmountError)
    } else if !has_user(g.deposit_list@, user) && g.user_count >= g.max_joiner_count {
        Some(ContractError::UserCountOverError)
    } else if g.total_deposit + amount > u64::MAX {
        Some(ContractError::OverflowOrUnderflowOccurred)
    } else {
        None
    }
}

/// The ledger after an accepted deposit: a repeat contributor's entry grows
/// in place, a new contributor is appended.
pub open spec fn joined_ledger(s: Seq<DepositInfo>, user: u64, amount: u64) -> Seq<DepositInfo> {
    if has_user(s, user) {
        let i = user_index(s, user);
        s.update(i, DepositInfo { user, amount: (s[i].amount + amount) as u64 })
    } else {
        s.push(DepositInfo { user, amount })
    }
}

/// Whether this deposit is the transition from one to two participants,
/// which starts the round's clock.
pub open spec fn starts_round(g: GameGround, user: u64) -> bool {
    g.user_count == 1 && !has_user(g.deposit_list@, user)
}

/// What [`GameGround::set_winner`] refuses, and why; `None` when selection
/// may run.
pub open spec fn set_winner_err(g: GameGround) -> Option<ContractError> {
    if g.is_completed {
        Some(ContractError::GameAlreadyCompleted)
    } else if g.total_deposit == 0 {
        Some(ContractError::InvalidAmount)
    } else {
        None
    }
}

/// The winner that a given external random value selects on a round's
/// ledger: weighted proportional selection over the residue of the random
/// value modulo the pool total.
pub open spec fn winner_for(g: GameGround, random_num: u64) -> u64 {
    select_winner(g.deposit_list@, (random_num as int) % (g.total_deposit as int))
}

/// What [`GameGround::claim`] refuses, and why; `None` when settlement is
/// authorized.
pub open spec fn claim_err(g: GameGround, caller: u64, payer: u64, payer_wallet: u64) -> Option<
    ContractError,
> {
    if g.is_claimed {
        Some(ContractError::WinnerClaimed)
    } else if !g.is_completed {
        Some(ContractError::GameNotCompleted)
    } else if caller != g.winner {
        Some(ContractError::IncorrectAuthority)
    } else if payer != payer_wallet {
        Some(ContractError::IncorrectPayerAuthority)
    } else {
        None
    }
}

impl GameGround {
    /// Deposits `amount` for `user` at time `now`.
    ///
    /// Rejected, leaving the round unchanged, when the round is completed,
    /// when the amount is below the round's minimum, when a new participant
    /// would exceed the capacity, or when the pool total would overflow.
    /// Otherwise the ledger grows by exactly this amount under `user`'s
    /// entry, and on the transition from one to two participants the
    /// start/end dates are set, once and for all.
    pub fn join(&mut self, user: u64, amount: u64, now: i64) -> (r: Result<(), ContractError>)
        requires
            old(self).well_formed(),
            now + old(self).round_time <= i64::MAX,
        ensures
            match join_err(*old(self), user, amount) {
                Some(e) => r == Err::<(), ContractError>(e) && *final(self) == *old(self),
                None => {
                    &&& r == Ok::<(), ContractError>(())
                    &&& final(self).deposit_list@ == joined_ledger(
                        old(self).deposit_list@,
                        user,
                        amount,
                    )
                    &&& *final(self) == (GameGround {
                        total_deposit: (old(self).total_deposit + amount) as u64,
                        user_count: if has_user(old(self).deposit_list@, user) {
                            old(self).user_count
                        } else {
                            (old(self).user_count + 1) as u64
                        },
                        start_date: if starts_round(*old(self), user) {
                            now
                        } else {
                            old(self).start_date
                        },
                        end_date: if starts_round(*old(self), user) {
                            (now + old(self).round_time) as i64
                        } else {
                            old(self).end_date
                        },
                        deposit_list: final(self).deposit_list,
                        ..*old(self)
                    })
                    &&& final(self).well_formed()
                },
            },
    {
        if self.is_completed {
            return Err(ContractError::GameAlreadyCompleted);
        }
        if amount < self.min_deposit_amount {
            return Err(ContractError::DepositAmountError);
        }
        let idx = find_user_index(&self.deposit_list, user);
        if idx.is_none() && self.user_count >= self.max_joiner_count {
            return Err(ContractError::UserCountOverError);
        }
        let new_total = match self.total_deposit.checked_add(amount) {
            Some(t) => t,
            None => {
                return Err(ContractError::OverflowOrUnderflowOccurred);
            },
        };
        let started = idx.is_none() && self.user_count == 1;
        match idx {
            Some(j) => {
                proof {
                    lemma_entry_le_sum(self.deposit_list@, j as int);
                    assert(has_user(self.deposit_list@, user));
                    let i0 = user_index(self.deposit_list@, user);
                    assert(0 <= i0 < self.deposit_list@.len() && self.deposit_list@[i0].user
                        == user);
                    assert(i0 == j as int);
                    lemma_sum_update(
                        self.deposit_list@,
                        j as int,
                        DepositInfo {
                            user,
                            amount: (self.deposit_list@[j as int].amount + amount) as u64,
                        },
                    );
                }
                let cur = self.deposit_list[j].amount;
                self.deposit_list[j] = DepositInfo { user, amount: cur + amount };
            },
            None => {
                proof {
                    lemma_sum_push(self.deposit_list@, DepositInfo { user, amount });
                }
                self.deposit_list.push(DepositInfo { user, amount });
                self.user_count = self.user_count + 1;
            },
        }
        self.total_deposit = new_total;
        if started {
            self.start_date = now;
            self.end_date = now + self.round_time;
        }
        Ok(())
    }

    /// Consumes the external random value and records the winner, completing
    /// the round.
    ///
    /// Rejected, leaving the round unchanged, when the round is already
    /// completed or when the pool is empty (selection over an empty pool is
    /// undefined and is defensively refused). Otherwise the stored random
    /// value, the winner and the completion flag are set, and nothing else
    /// changes; the winner is exactly [`winner_for`] of the prior state.
    pub fn set_winner(&mut self, random_num: u64) -> (r: Result<(), ContractError>)
        requires
            old(self).well_formed(),
        ensures
            match set_winner_err(*old(self)) {
                Some(e) => r == Err::<(), ContractError>(e) && *final(self) == *old(self),
                None => {
                    &&& r == Ok::<(), ContractError>(())
                    &&& *final(self) == (GameGround {
                        rand: random_num,
                        winner: winner_for(*old(self), random_num),
                        is_completed: true,
                        ..*old(self)
                    })
                    &&& final(self).well_formed()
                },
            },
    {
        if self.is_completed {
            return Err(ContractError::GameAlreadyCompleted);
        }
        if self.total_deposit == 0 {
            return Err(ContractError::InvalidAmount);
        }
        self.rand = random_num;
        let mut remaining: u64 = random_num % self.total_deposit;
        let n = self.deposit_list.len();
        let mut i: usize = 0;
        proof {
            assert(self.deposit_list@.subrange(0, n as int) =~= self.deposit_list@);
        }
        while i < n && remaining >= self.deposit_list[i].amount
            invariant
                n == self.deposit_list@.len(),
                i <= n,
                *self == (GameGround { rand: random_num, ..*old(self) }),
                remaining < sum_of(self.deposit_list@.subrange(i as int, n as int)),
                select_winner(self.deposit_list@.subrange(i as int, n as int), remaining as int)
                    == winner_for(*old(self), random_num),
            decreases n - i,
        {
            proof {
                lemma_suffix_step(self.deposit_list@, i as int);
            }
            remaining = remaining - self.deposit_list[i].amount;
            i = i + 1;
        }
        proof {
            if i == n {
                assert(self.deposit_list@.subrange(i as int, n as int)
                    =~= Seq::<DepositInfo>::empty());
                assert(false);
            }
            lemma_suffix_step(self.deposit_list@, i as int);
            assert(select_winner(self.deposit_list@.subrange(i as int, n as int), remaining as int)
                == self.deposit_list@[i as int].user);
        }
        self.winner = self.deposit_list[i].user;
        self.is_completed = true;
        proof {
            assert(has_user(self.deposit_list@, self.winner));
        }
        Ok(())
    }

    /// Finalizes the round against one observation of the randomness
    /// oracle: an already completed round is refused, still-pending
    /// randomness is the retryable [`ContractError::StillProcessing`], and
    /// a fulfilled value runs [`GameGround::set_winner`] on it.
    pub fn finalize(&mut self, randomness: &RandomnessState) -> (r: Result<(), ContractError>)
        requires
            old(self).well_formed(),
            randomness.well_formed(),
        ensures
            old(self).is_completed ==> r == Err::<(), ContractError>(
                ContractError::GameAlreadyCompleted,
            ) && *final(self) == *old(self),
            !old(self).is_completed ==> match randomness.fulfilled_randomness {
                None => r == Err::<(), ContractError>(ContractError::StillProcessing)
                    && *final(self) == *old(self),
                Some(bytes) => match set_winner_err(*old(self)) {
                    Some(e) => r == Err::<(), ContractError>(e) && *final(self) == *old(self),
                    None => {
                        &&& r == Ok::<(), ContractError>(())
                        &&& *final(self) == (GameGround {
                            rand: u64_le_bytes(bytes@) as u64,
                            winner: winner_for(*old(self), u64_le_bytes(bytes@) as u64),
                            is_completed: true,
                            ..*old(self)
                        })
                        &&& final(self).well_formed()
                    },
                },
            },
    {
        if self.is_completed {
            return Err(ContractError::GameAlreadyCompleted);
        }
        if randomness.fulfilled_randomness.is_none() {
            return Err(ContractError::StillProcessing);
        }
        let random_num = current_state(randomness);
        self.set_winner(random_num)
    }

    /// Settles the pool to the winner: exactly once, only after completion,
    /// only for the recorded winner, and only with the configured payer
    /// wallet co-authorizing. On success the returned amount is the whole
    /// pool total and the round is marked claimed; every rejection leaves
    /// the round unchanged.
    pub fn claim(&mut self, caller: u64, payer: u64, payer_wallet: u64) -> (r: Result<
        u64,
        ContractError,
    >)
        requires
            old(self).well_formed(),
        ensures
            match claim_err(*old(self), caller, payer, payer_wallet) {
                Some(e) => r == Err::<u64, ContractError>(e) && *final(self) == *old(self),
                None => {
                    &&& r == Ok::<u64, ContractError>(old(self).total_deposit)
                    &&& *final(self) == (GameGround { is_claimed: true, ..*old(self) })
                    &&& final(self).well_formed()
                },
            },
    {
        if self.is_claimed {
            return Err(ContractError::WinnerClaimed);
        }
        if !self.is_completed {
            return Err(ContractError::GameNotCompleted);
        }
        if caller != self.winner {
            return Err(ContractError::IncorrectAuthority);
        }
        if payer != payer_wallet {
            return Err(ContractError::IncorrectPayerAuthority);
        }
        self.is_claimed = true;
        Ok(self.total_deposit)
    }
}

/// Settles a round against the global configuration: the round number must
/// already have been assigned (it is below the configuration's counter),
/// and the pool goes to the recorded winner exactly once, co-authorized by
/// the configured payer wallet.
pub fn claim_reward(config: &Config, round: &mut GameGround, caller: u64, payer: u64) -> (r: Result<
    u64,
    ContractError,
>)
    requires
        old(round).well_formed(),
    ensures
        old(round).game_round >= config.game_round ==> r == Err::<u64, ContractError>(
            ContractError::RoundNumberError,
        ) && *final(round) == *old(round),
        old(round).game_round < config.game_round ==> match claim_err(
            *old(round),
            caller,
            payer,
            config.payer_wallet,
        ) {
            Some(e) => r == Err::<u64, ContractError>(e) && *final(round) == *old(round),
            None => {
                &&& r == Ok::<u64, ContractError>(old(round).total_deposit)
                &&& *final(round) == (GameGround { is_claimed: true, ..*old(round) })
                &&& final(round).well_formed()
            },
        },
{
    if round.game_round >= config.game_round {
        return Err(ContractError::RoundNumberError);
    }
    round.claim(caller, payer, config.payer_wallet)
}

/// Accounting: an accepted deposit grows the ledger sum by exactly the
/// deposited amount, keeps the entries unique per participant, and leaves
/// the depositor with an entry.
pub proof fn lemma_joined_ledger_accounting(s: Seq<DepositInfo>, user: u64, amount: u64)
    requires
        users_unique(s),
        sum_of(s) + amount <= u64::MAX,
    ensures
        sum_of(joined_ledger(s, user, amount)) == sum_of(s) + amount,
        users_unique(joined_ledger(s, user, amount)),
        has_user(joined_ledger(s, user, amount), user),
{
    let t = joined_ledger(s, user, amount);
    if has_user(s, user) {
        let i = user_index(s, user);
        assert(0 <= i < s.len() && s[i].user == user);
        lemma_entry_le_sum(s, i);
        lemma_sum_nonneg(s);
        let e = DepositInfo { user, amount: (s[i].amount + amount) as u64 };
        lemma_sum_update(s, i, e);
        assert(forall|k: int| 0 <= k < s.len() ==> t[k].user == s[k].user);
        assert(t[i].user == user);
    } else {
        lemma_sum_push(s, DepositInfo { user, amount });
        assert(t[s.len() as int].user == user);
    }
}

/// Winner selection is deterministic: two rounds holding the same ledger
/// and the same pool total select the same winner from the same external
/// random value.
pub proof fn lemma_select_winner_deterministic(g1: GameGround, g2: GameGround, random_num: u64)
    requires
        g1.deposit_list@ == g2.deposit_list@,
        g1.total_deposit == g2.total_deposit,
    ensures
        winner_for(g1, random_num) == winner_for(g2, random_num),
{
}

/// Weighted fairness on a two-entry ledger: residues inside the first
/// entry's interval select the first participant, all later residues select
/// the second.
pub proof fn lemma_two_entry_intervals(a: DepositInfo, b: DepositInfo, remaining: int)
    requires
        0 <= remaining < a.amount + b.amount,
    ensures
        remaining < a.amount ==> select_winner(seq![a, b], remaining) == a.user,
        remaining >= a.amount ==> select_winner(seq![a, b], remaining) == b.user,
{
    let s = seq![a, b];
    assert(s[0] == a);
    assert(s.drop_first() =~= seq![b]);
    assert(s.drop_first()[0] == b);
    if remaining >= a.amount {
        assert(select_winner(seq![b], remaining - a.amount) == b.user);
        assert(select_winner(s, remaining) == select_winner(seq![b], remaining - a.amount));
    }
}

} // verus!
