//! The numeric profile of a combatant, and the level rule.

use vstd::prelude::*;

verus! {

/// The highest level a player can reach.
pub const MAX_LEVEL: i32 = 5;

/// `x` held between `lo` and `hi`: raised to `lo` first, then cut at `hi`.
pub open spec fn clamp_between(x: int, lo: int, hi: int) -> int {
    let raised = if x < lo { lo } else { x };
    if raised > hi { hi } else { raised }
}

/// The experience needed to leave `level`. At the highest level nothing
/// more can be earned and the entry is 1.
pub open spec fn xp_threshold(level: int) -> int {
    if level == 1 {
        1000
    } else if level == 2 {
        8000
    } else if level == 3 {
        27000
    } else if level == 4 {
        64000
    } else {
        1
    }
}

/// The numbers that describe a combatant, player or enemy.
#[derive(Clone, Copy, Debug, PartialEq, Eq, Structural)]
pub struct Stats {
    pub hp_max: i32,
    pub mp_max: i32,
    pub hp: i32,
    pub mp: i32,
    pub strength: i32,
    pub wisdom: i32,
    pub defense: i32,
    pub level: i32,
    pub experience: i32,
    pub gold: i32,
}

impl Stats {
    /// Hit points and magic points lie between zero and their maxima.
    pub open spec fn wf(&self) -> bool {
        &&& 0 <= self.hp <= self.hp_max
        &&& 0 <= self.mp <= self.mp_max
    }

    /// The stats a new player starts with.
    pub open spec fn starting() -> Stats {
        Stats {
            hp_max: 100,
            mp_max: 100,
            hp: 100,
            mp: 100,
            strength: 12,
            wisdom: 12,
            defense: 5,
            level: 1,
            experience: 0,
            gold: 0,
        }
    }

    /// The stats a new player starts with.
    pub fn new() -> (r: Stats)
        ensures
            r == Stats::starting(),
            r.wf(),
    {
        Stats {
            hp_max: 100,
            mp_max: 100,
            hp: 100,
            mp: 100,
            strength: 12,
            wisdom: 12,
            defense: 5,
            level: 1,
            experience: 0,
            gold: 0,
        }
    }

    /// Tells whether hit points and magic points are within their bounds.
    pub fn is_well_formed(&self) -> (r: bool)
        ensures
            r == self.wf(),
    {
        0 <= self.hp && self.hp <= self.hp_max && 0 <= self.mp && self.mp <= self.mp_max
    }

    /// These stats with `hp` replaced.
    pub open spec fn with_hp(self, hp: int) -> Stats {
        Stats { hp: hp as i32, ..self }
    }

    /// These stats with `mp` replaced.
    pub open spec fn with_mp(self, mp: int) -> Stats {
        Stats { mp: mp as i32, ..self }
    }

    /// The stats after `damage` has been taken; a negative `damage` heals.
    pub open spec fn after_damage(self, damage: int) -> Stats {
        self.with_hp(clamp_between(self.hp - damage, 0, self.hp_max as int))
    }

    /// The stats after `amount` hit points have been restored. An amount
    /// that is not positive restores nothing.
    pub open spec fn after_hp_restored(self, amount: int) -> Stats {
        if amount > 0 && self.hp + amount > self.hp_max {
            self.with_hp(self.hp_max as int)
        } else if amount > 0 {
            self.with_hp(self.hp + amount)
        } else {
            self
        }
    }

    /// The stats after `amount` magic points have been restored. An amount
    /// that is not positive restores nothing.
    pub open spec fn after_mp_restored(self, amount: int) -> Stats {
        if amount > 0 && self.mp + amount > self.mp_max {
            self.with_mp(self.mp_max as int)
        } else if amount > 0 {
            self.with_mp(self.mp + amount)
        } else {
            self
        }
    }

    /// The stats after `cost` magic points have been spent.
    pub open spec fn after_mp_spent(self, cost: int) -> Stats {
        self.with_mp(clamp_between(self.mp - cost, 0, self.mp_max as int))
    }

    /// Takes `damage` off the hit points and holds them between zero and
    /// the maximum. A negative `damage` heals.
    pub fn take_damage(&mut self, damage: i32)
        ensures
            *final(self) == old(self).after_damage(damage as int),
            old(self).hp_max >= 0 ==> 0 <= final(self).hp <= final(self).hp_max,
            old(self).wf() ==> final(self).wf(),
    {
        let raw: i64 = self.hp as i64 - damage as i64;
        let raised: i64 = if raw < 0 { 0 } else { raw };
        let held: i64 = if raised > self.hp_max as i64 { self.hp_max as i64 } else { raised };
        self.hp = held as i32;
    }

    /// Restores `amount` hit points, up to the maximum.
    pub fn restore_hp(&mut self, amount: i32)
        ensures
            *final(self) == old(self).after_hp_restored(amount as int),
            old(self).wf() ==> final(self).wf(),
    {
        if amount > 0 {
            let raised: i64 = self.hp as i64 + amount as i64;
            if raised > self.hp_max as i64 {
                self.hp = self.hp_max;
            } else {
                self.hp = raised as i32;
            }
        }
    }

    /// Restores `amount` magic points, up to the maximum.
    pub fn restore_mp(&mut self, amount: i32)
        ensures
            *final(self) == old(self).after_mp_restored(amount as int),
            old(self).wf() ==> final(self).wf(),
    {
        if amount > 0 {
            let raised: i64 = self.mp as i64 + amount as i64;
            if raised > self.mp_max as i64 {
                self.mp = self.mp_max;
            } else {
                self.mp = raised as i32;
            }
        }
    }

    /// Spends `cost` magic points and holds the rest between zero and the
    /// maximum.
    pub fn spend_mp(&mut self, cost: i32)
        ensures
            *final(self) == old(self).after_mp_spent(cost as int),
            old(self).mp_max >= 0 ==> 0 <= final(self).mp <= final(self).mp_max,
            old(self).wf() ==> final(self).wf(),
    {
        let raw: i64 = self.mp as i64 - cost as i64;
        let raised: i64 = if raw < 0 { 0 } else { raw };
        let held: i64 = if raised > self.mp_max as i64 { self.mp_max as i64 } else { raised };
        self.mp = held as i32;
    }

    /// How much of its maximum a stat has, counted in parts of `scale`,
    /// rounded down. Without a maximum, and below zero, the share counts
    /// as nothing.
    pub open spec fn share(part: int, whole: int, scale: int) -> int {
        if whole <= 0 || part <= 0 {
            0
        } else {
            part * scale / whole
        }
    }

    /// The hit points as parts of `scale` of their maximum: with a scale
    /// of 100, in percent.
    pub fn hp_share(&self, scale: u32) -> (r: i64)
        ensures
            r == Stats::share(self.hp as int, self.hp_max as int, scale as int),
            self.wf() ==> 0 <= r <= scale,
    {
        if self.hp_max <= 0 || self.hp <= 0 {
            return 0;
        }
        let part: i64 = self.hp as i64;
        let whole: i64 = self.hp_max as i64;
        let parts: i64 = scale as i64;
        assert(0 <= part * parts <= 0x7fff_ffff_ffff_ffff) by (nonlinear_arith)
            requires
                0 <= part <= 0x7fff_ffff,
                0 <= parts <= 0xffff_ffff,
        ;
        proof {
            Stats::lemma_share_bounds(part as int, whole as int, parts as int);
        }
        (part * parts) / whole
    }

    /// The magic points as parts of `scale` of their maximum: with a scale
    /// of 100, in percent.
    pub fn mp_share(&self, scale: u32) -> (r: i64)
        ensures
            r == Stats::share(self.mp as int, self.mp_max as int, scale as int),
            self.wf() ==> 0 <= r <= scale,
    {
        if self.mp_max <= 0 || self.mp <= 0 {
            return 0;
        }
        let part: i64 = self.mp as i64;
        let whole: i64 = self.mp_max as i64;
        let parts: i64 = scale as i64;
        assert(0 <= part * parts <= 0x7fff_ffff_ffff_ffff) by (nonlinear_arith)
            requires
                0 <= part <= 0x7fff_ffff,
                0 <= parts <= 0xffff_ffff,
        ;
        proof {
            Stats::lemma_share_bounds(part as int, whole as int, parts as int);
        }
        (part * parts) / whole
    }

    /// A part of a whole is a share between nothing and the full scale.
    pub proof fn lemma_share_bounds(part: int, whole: int, scale: int)
        requires
            0 <= part,
            0 < whole,
            0 <= scale,
        ensures
            0 <= part * scale / whole,
            part <= whole ==> part * scale / whole <= scale,
    {
        assert(0 <= part * scale) by (nonlinear_arith)
            requires
                0 <= part,
                0 <= scale,
        ;
        assert(0 <= part * scale / whole) by (nonlinear_arith)
            requires
                0 <= part * scale,
                0 < whole,
        ;
        if part <= whole {
            assert(part * scale <= whole * scale) by (nonlinear_arith)
                requires
                    part <= whole,
                    0 <= scale,
            ;
            assert(part * scale / whole <= scale) by (nonlinear_arith)
                requires
                    part * scale <= whole * scale,
                    0 < whole,
            ;
        }
    }

    /// Whether `reward` more experience carries these stats over the
    /// threshold of their level.
    pub open spec fn levels_up(self, reward: int) -> bool {
        self.level < MAX_LEVEL && self.experience + reward >= xp_threshold(self.level as int)
    }

    /// The stats one level higher: the level goes up by one, hit points,
    /// strength and wisdom grow with the new level, magic points grow with
    /// the new wisdom, hit points and magic points are filled up, and the
    /// experience beyond the threshold is carried over.
    pub open spec fn grown(self, reward: int) -> Stats {
        let level = self.level + 1;
        let hp_max = self.hp_max + level * 50;
        let wisdom = self.wisdom + level * 5;
        let mp_max = self.mp_max + 40 + wisdom * 5;
        Stats {
            hp_max: hp_max as i32,
            mp_max: mp_max as i32,
            hp: hp_max as i32,
            mp: mp_max as i32,
            strength: (self.strength + level * 5) as i32,
            wisdom: wisdom as i32,
            defense: self.defense,
            level: level as i32,
            experience: ((self.experience + reward) % xp_threshold(self.level as int)) as i32,
            gold: self.gold,
        }
    }

    /// The stats after `reward` experience has been earned. At most one
    /// level is gained at a time. At the highest level the experience is
    /// pinned at 1.
    pub open spec fn after_experience(self, reward: int) -> Stats {
        if self.levels_up(reward) {
            self.grown(reward)
        } else if self.level == MAX_LEVEL {
            Stats { experience: 1, ..self }
        } else {
            Stats { experience: (self.experience + reward) as i32, ..self }
        }
    }

    /// Whether `reward` can be earned within the limits of the machine's
    /// integers: the level is at least 1, and neither the experience nor
    /// any stat that grows leaves the range of `i32`.
    pub open spec fn can_gain(self, reward: int) -> bool {
        &&& self.level >= 1
        &&& i32::MIN <= self.experience + reward <= i32::MAX
        &&& self.levels_up(reward) ==> {
            &&& self.hp_max + (self.level + 1) * 50 <= i32::MAX
            &&& self.strength + (self.level + 1) * 5 <= i32::MAX
            &&& self.wisdom + (self.level + 1) * 5 <= i32::MAX
            &&& i32::MIN <= self.mp_max + 40 + (self.wisdom + (self.level + 1) * 5) * 5
                <= i32::MAX
        }
    }

    /// The experience needed to leave `level`.
    pub fn threshold(level: i32) -> (r: i32)
        ensures
            r == xp_threshold(level as int),
            r >= 1,
    {
        if level == 1 {
            1000
        } else if level == 2 {
            8000
        } else if level == 3 {
            27000
        } else if level == 4 {
            64000
        } else {
            1
        }
    }

    /// Tells whether `reward` can be earned within the machine's limits.
    pub fn can_gain_experience(&self, reward: i32) -> (r: bool)
        ensures
            r == self.can_gain(reward as int),
    {
        let xp: i64 = self.experience as i64 + reward as i64;
        if self.level < 1 || xp < i32::MIN as i64 || xp > i32::MAX as i64 {
            return false;
        }
        if self.level < MAX_LEVEL && xp >= Stats::threshold(self.level) as i64 {
            let level: i64 = self.level as i64 + 1;
            let wisdom: i64 = self.wisdom as i64 + level * 5;
            let mp_max: i64 = self.mp_max as i64 + 40 + wisdom * 5;
            self.hp_max as i64 + level * 50 <= i32::MAX as i64 && self.strength as i64 + level * 5
                <= i32::MAX as i64 && wisdom <= i32::MAX as i64 && i32::MIN as i64 <= mp_max
                && mp_max <= i32::MAX as i64
        } else {
            true
        }
    }

    /// Tells whether `reward` more experience gains a level.
    pub fn will_level_up(&self, reward: i32) -> (r: bool)
        ensures
            r == self.levels_up(reward as int),
    {
        self.level < MAX_LEVEL && self.experience as i64 + reward as i64 >= Stats::threshold(
            self.level,
        ) as i64
    }

    /// Earns `reward` experience and tells whether a level was gained.
    pub fn gain_experience(&mut self, reward: i32) -> (leveled: bool)
        requires
            old(self).can_gain(reward as int),
        ensures
            *final(self) == old(self).after_experience(reward as int),
            leveled == old(self).levels_up(reward as int),
            leveled ==> final(self).level == old(self).level + 1 && 0 <= final(self).experience
                < xp_threshold(old(self).level as int),
            old(self).wf() && final(self).mp_max >= 0 ==> final(self).wf(),
    {
        let xp: i32 = self.experience + reward;
        if self.level < MAX_LEVEL && xp >= Stats::threshold(self.level) {
            self.experience = xp % Stats::threshold(self.level);
            self.level = self.level + 1;
            self.hp_max = self.hp_max + self.level * 50;
            self.hp = self.hp_max;
            self.strength = self.strength + self.level * 5;
            self.wisdom = self.wisdom + self.level * 5;
            let mp_max: i64 = self.mp_max as i64 + 40 + self.wisdom as i64 * 5;
            self.mp_max = mp_max as i32;
            self.mp = self.mp_max;
            true
        } else if self.level == MAX_LEVEL {
            self.experience = 1;
            false
        } else {
            self.experience = xp;
            false
        }
    }
}

/// One change to the hit points or magic points of a combatant.
pub enum StatChange {
    /// Damage taken; a negative amount heals.
    Damage(int),
    /// Hit points restored.
    RestoreHp(int),
    /// Magic points restored.
    RestoreMp(int),
    /// Magic points spent.
    SpendMp(int),
}

impl Stats {
    /// The stats after `change`.
    pub open spec fn changed(self, change: StatChange) -> Stats {
        match change {
            StatChange::Damage(amount) => self.after_damage(amount),
            StatChange::RestoreHp(amount) => self.after_hp_restored(amount),
            StatChange::RestoreMp(amount) => self.after_mp_restored(amount),
            StatChange::SpendMp(amount) => self.after_mp_spent(amount),
        }
    }

    /// The stats after all of `changes`, the first of them first.
    pub open spec fn changed_by_all(self, changes: Seq<StatChange>) -> Stats
        decreases changes.len(),
    {
        if changes.len() == 0 {
            self
        } else {
            self.changed_by_all(changes.drop_last()).changed(changes.last())
        }
    }
}

/// One change leaves hit points and magic points within their bounds, and
/// the bounds themselves alone.
pub proof fn lemma_change_keeps_bounds(stats: Stats, change: StatChange)
    requires
        stats.wf(),
    ensures
        stats.changed(change).wf(),
        stats.changed(change).hp_max == stats.hp_max,
        stats.changed(change).mp_max == stats.mp_max,
{
}

/// Whatever damage is taken, whatever is healed, restored and spent, and in
/// whatever order: after every single change the hit points lie between
/// zero and their maximum, and so do the magic points.
pub proof fn lemma_changes_keep_bounds(stats: Stats, changes: Seq<StatChange>)
    requires
        stats.wf(),
    ensures
        forall|k: int|
            0 <= k <= changes.len() ==> (#[trigger] stats.changed_by_all(changes.take(k))).wf(),
    decreases changes.len(),
{
    assert forall|k: int| 0 <= k <= changes.len() implies (#[trigger] stats.changed_by_all(
        changes.take(k),
    )).wf() by {
        if k == 0 {
            assert(changes.take(0).len() == 0);
        } else if k < changes.len() {
            lemma_changes_keep_bounds(stats, changes.drop_last());
            assert(changes.drop_last().take(k) =~= changes.take(k));
        } else {
            lemma_changes_keep_bounds(stats, changes.drop_last());
            assert(changes.take(k) =~= changes);
            assert(changes.drop_last().take(k - 1) =~= changes.drop_last());
            lemma_change_keeps_bounds(stats.changed_by_all(changes.drop_last()), changes.last());
        }
    }
}

} // verus!
