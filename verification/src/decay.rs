use vstd::prelude::*;

verus! {

/// Fullness lost per block by the feeding score.
pub const HUNGER_PER_BLOCK: u64 = 1;

/// Fullness lost per block by the entertainment score.
pub const BOREDOM_PER_BLOCK: u64 = 2;

/// Fullness lost per block by the rest score.
pub const ENERGY_PER_BLOCK: u64 = 2;

/// Fullness gained by one feeding.
pub const FILL_PER_FEED: u64 = 1000;

/// Fullness gained by one entertainment.
pub const FILL_PER_ENTERTAINMENT: u64 = 1000;

/// Fullness gained by one sleep.
pub const FILL_PER_SLEEP: u64 = 1000;

/// Blocks that passed from `last` to `now`; none where the clock did not advance.
pub open spec fn elapsed_blocks(last: u64, now: u64) -> nat {
    if now >= last {
        (now - last) as nat
    } else {
        0
    }
}

/// What is left of `level` after `elapsed` blocks that each take `rate` away:
/// the difference, or zero where the decay exceeds the level.
pub open spec fn decayed_level(level: nat, elapsed: nat, rate: nat) -> nat {
    if level >= elapsed * rate {
        (level - elapsed * rate) as nat
    } else {
        0
    }
}

/// `level` raised by `amount`, held at the largest value a score can take.
pub open spec fn topped_up(level: nat, amount: nat) -> nat {
    if level + amount <= u64::MAX {
        level + amount
    } else {
        u64::MAX as nat
    }
}

/// One decaying well-being score of the pet.
///
/// `level` is the fullness as it stood at block `last_update_block`. Whoever
/// reads or changes the level brings it up to the current block first.
#[derive(Clone, Copy, Debug, PartialEq, Eq, Structural)]
pub struct NurtureAttribute {
    pub level: u64,
    pub last_update_block: u64,
}

impl NurtureAttribute {
    /// The score brought up to `current_block` at `rate` per block.
    pub open spec fn normalized(self, current_block: u64, rate: u64) -> NurtureAttribute {
        NurtureAttribute {
            level: decayed_level(
                self.level as nat,
                elapsed_blocks(self.last_update_block, current_block),
                rate as nat,
            ) as u64,
            last_update_block: current_block,
        }
    }

    /// The score brought up to `current_block` and then raised by `amount`.
    pub open spec fn replenished(self, current_block: u64, rate: u64, amount: u64) -> NurtureAttribute {
        NurtureAttribute {
            level: topped_up(self.normalized(current_block, rate).level as nat, amount as nat) as u64,
            last_update_block: current_block,
        }
    }

    /// A score of `level` taken at block `block`.
    pub fn new(level: u64, block: u64) -> (r: NurtureAttribute)
        ensures
            r == (NurtureAttribute { level, last_update_block: block }),
    {
        NurtureAttribute { level, last_update_block: block }
    }

    /// Applies the decay of the blocks since the last update and moves the
    /// update block to `current_block`.
    pub fn normalize(&mut self, current_block: u64, rate: u64)
        ensures
            *final(self) == old(self).normalized(current_block, rate),
            final(self).level <= old(self).level,
    {
        let elapsed: u64 = if current_block >= self.last_update_block {
            current_block - self.last_update_block
        } else {
            0
        };
        let level: u64 = match elapsed.checked_mul(rate) {
            Some(decay) => self.level.saturating_sub(decay),
            None => {
                assert(self.level < elapsed * rate);
                0
            },
        };
        self.level = level;
        self.last_update_block = current_block;
    }

    /// Normalizes the score, then raises it by `amount`. A sum beyond the
    /// largest value a score can take stays at that value.
    pub fn replenish(&mut self, current_block: u64, rate: u64, amount: u64)
        ensures
            *final(self) == old(self).replenished(current_block, rate, amount),
    {
        self.normalize(current_block, rate);
        self.level = self.level.saturating_add(amount);
    }
}

} // verus!
