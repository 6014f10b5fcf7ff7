use vstd::prelude::*;

verus! {

/// Price of one flashlight or torch upgrade.
pub const UPGRADE_PRICE: u64 = 45;

/// Price of the torch.
pub const TORCH_PRICE: u64 = 100;

/// Half-angle from which the flashlight can no longer be widened, in
/// milliradians: a cone 97 degrees wide.
pub const FLASHLIGHT_ANGLE_CAP: i64 = 847;

/// Range from which the flashlight can no longer be extended.
pub const FLASHLIGHT_RANGE_CAP: i64 = 10_000;

/// Range from which the torch can no longer be extended.
pub const TORCH_RANGE_CAP: i64 = 10_000;

/// Pause at or under which the torch's pause can no longer be shortened,
/// in milliseconds.
pub const TORCH_OFF_FLOOR: i64 = 300;

/// Largest value an upgraded setting may reach before upgrades stop being
/// sold, guarding the arithmetic.
pub const SETTING_LIMIT: i64 = 1_000_000_000;

/// The player's flashlight: its half-angle in milliradians and its reach
/// in thousandths of a unit.
#[derive(Clone, Copy, Debug, PartialEq, Eq, Structural)]
pub struct Flashlight {
    pub angle: i64,
    pub range: i64,
}

/// The torch bought in the shop: its reach in thousandths of a unit, and
/// how long it burns and pauses in turn, in milliseconds.
#[derive(Clone, Copy, Debug, PartialEq, Eq, Structural)]
pub struct TorchUpgrade {
    pub range: i64,
    pub on_ms: i64,
    pub off_ms: i64,
}

/// The state of a game session: the night being played, the kills of this
/// night and of all nights, the currency spent, the time survived this
/// night in milliseconds, and the upgrades bought.
#[derive(Clone, Copy, Debug, PartialEq, Eq, Structural)]
pub struct GameState {
    pub night_number: u64,
    pub kills_this_night: u64,
    pub total_kills: u64,
    pub spent: u64,
    pub survived_ms: u64,
    pub flashlight: Flashlight,
    pub torch: Option<TorchUpgrade>,
}

pub open spec fn setting_ok(v: i64) -> bool {
    0 <= v <= SETTING_LIMIT
}

impl GameState {
    /// Currency spent never exceeds the kills that earned it, and every
    /// setting stays in range.
    pub open spec fn wf(self) -> bool {
        &&& self.spent <= self.total_kills
        &&& self.kills_this_night <= self.total_kills
        &&& setting_ok(self.flashlight.angle)
        &&& setting_ok(self.flashlight.range)
        &&& (self.torch matches Some(t) ==> setting_ok(t.range) && setting_ok(t.on_ms) && setting_ok(t.off_ms))
    }

    pub open spec fn currency_spec(self) -> int {
        self.total_kills - self.spent
    }

    /// A new session on its first night, with nothing earned or bought.
    pub fn new() -> (r: GameState)
        ensures
            r.wf(),
            r.night_number == 1,
            r.kills_this_night == 0 && r.total_kills == 0 && r.spent == 0 && r.survived_ms == 0,
            r.flashlight.angle == 200 && r.flashlight.range == 6000,
            r.torch is None,
    {
        GameState {
            night_number: 1,
            kills_this_night: 0,
            total_kills: 0,
            spent: 0,
            survived_ms: 0,
            flashlight: Flashlight { angle: 200, range: 6000 },
            torch: None,
        }
    }

    /// The time survived this night as whole minutes (within the hour) and
    /// seconds (within the minute).
    pub fn survived_clock(&self) -> (r: (u64, u64))
        ensures
            r.0 == (self.survived_ms / 1000) % 3600 / 60,
            r.1 == (self.survived_ms / 1000) % 60,
    {
        let secs = self.survived_ms / 1000;
        (secs % 3600 / 60, secs % 60)
    }

    /// Kills not yet spent.
    pub fn currency(&self) -> (r: u64)
        requires
            self.wf(),
        ensures
            r == self.currency_spec(),
    {
        self.total_kills - self.spent
    }

    /// Moves on to the next night: its kills and its clock start at zero.
    pub fn next_night(&mut self)
        requires
            old(self).night_number < u64::MAX,
        ensures
            *final(self) == (GameState {
                night_number: (old(self).night_number + 1) as u64,
                kills_this_night: 0,
                survived_ms: 0,
                ..*old(self)
            }),
    {
        self.night_number = self.night_number + 1;
        self.kills_this_night = 0;
        self.survived_ms = 0;
    }

    /// Advances the clock of this night by `dt` milliseconds.
    pub fn tick_clock(&mut self, dt: u64)
        requires
            old(self).survived_ms + dt <= u64::MAX,
        ensures
            *final(self) == (GameState { survived_ms: (old(self).survived_ms + dt) as u64, ..*old(self) }),
    {
        self.survived_ms = self.survived_ms + dt;
    }

    /// Counts one kill, for this night and for the session.
    pub fn record_kill(&mut self)
        requires
            old(self).wf(),
            old(self).total_kills < u64::MAX,
        ensures
            final(self).wf(),
            *final(self) == (GameState {
                kills_this_night: (old(self).kills_this_night + 1) as u64,
                total_kills: (old(self).total_kills + 1) as u64,
                ..*old(self)
            }),
    {
        self.kills_this_night = self.kills_this_night + 1;
        self.total_kills = self.total_kills + 1;
    }

    pub open spec fn max_flashlight_angle_spec(self) -> bool {
        self.flashlight.angle >= FLASHLIGHT_ANGLE_CAP || self.flashlight.angle > SETTING_LIMIT - 100
    }

    pub open spec fn max_flashlight_range_spec(self) -> bool {
        self.flashlight.range >= FLASHLIGHT_RANGE_CAP || self.flashlight.range > SETTING_LIMIT - 1000
    }

    pub open spec fn max_torch_range_spec(self) -> bool {
        self.torch matches Some(t) && (t.range >= TORCH_RANGE_CAP || t.range > SETTING_LIMIT - 1000)
    }

    pub open spec fn max_torch_on_spec(self) -> bool {
        self.torch matches Some(t) && t.on_ms > SETTING_LIMIT - 1000
    }

    pub open spec fn max_torch_off_spec(self) -> bool {
        self.torch matches Some(t) && t.off_ms <= TORCH_OFF_FLOOR
    }

    /// The flashlight is as wide as it gets.
    pub fn max_flashlight_angle(&self) -> (r: bool)
        ensures
            r == self.max_flashlight_angle_spec(),
    {
        self.flashlight.angle >= FLASHLIGHT_ANGLE_CAP || self.flashlight.angle > SETTING_LIMIT - 100
    }

    /// The flashlight reaches as far as it gets.
    pub fn max_flashlight_range(&self) -> (r: bool)
        ensures
            r == self.max_flashlight_range_spec(),
    {
        self.flashlight.range >= FLASHLIGHT_RANGE_CAP || self.flashlight.range > SETTING_LIMIT - 1000
    }

    /// The torch reaches as far as it gets.
    pub fn max_torch_range(&self) -> (r: bool)
        ensures
            r == self.max_torch_range_spec(),
    {
        match self.torch {
            Some(t) => t.range >= TORCH_RANGE_CAP || t.range > SETTING_LIMIT - 1000,
            None => false,
        }
    }

    /// The torch's pause is as short as it gets.
    pub fn max_torch_off_seconds(&self) -> (r: bool)
        ensures
            r == self.max_torch_off_spec(),
    {
        match self.torch {
            Some(t) => t.off_ms <= TORCH_OFF_FLOOR,
            None => false,
        }
    }

    pub fn can_buy_flashlight_angle(&self) -> (r: bool)
        requires
            self.wf(),
        ensures
            r == (!self.max_flashlight_angle_spec() && self.currency_spec() >= UPGRADE_PRICE),
    {
        !self.max_flashlight_angle() && self.currency() >= UPGRADE_PRICE
    }

    pub fn can_buy_flashlight_range(&self) -> (r: bool)
        requires
            self.wf(),
        ensures
            r == (!self.max_flashlight_range_spec() && self.currency_spec() >= UPGRADE_PRICE),
    {
        !self.max_flashlight_range() && self.currency() >= UPGRADE_PRICE
    }

    pub fn can_buy_torch(&self) -> (r: bool)
        requires
            self.wf(),
        ensures
            r == (self.torch is None && self.currency_spec() >= TORCH_PRICE),
    {
        self.torch.is_none() && self.currency() >= TORCH_PRICE
    }

    pub fn can_buy_torch_range(&self) -> (r: bool)
        requires
            self.wf(),
        ensures
            r == (self.torch is Some && self.currency_spec() >= UPGRADE_PRICE && !self.max_torch_range_spec()),
    {
        self.torch.is_some() && self.currency() >= UPGRADE_PRICE && !self.max_torch_range()
    }

    pub fn can_buy_torch_on_seconds(&self) -> (r: bool)
        requires
            self.wf(),
        ensures
            r == (self.torch is Some && self.currency_spec() >= UPGRADE_PRICE && !self.max_torch_on_spec()),
    {
        let capped = match self.torch {
            Some(t) => t.on_ms > SETTING_LIMIT - 1000,
            None => false,
        };
        self.torch.is_some() && self.currency() >= UPGRADE_PRICE && !capped
    }

    pub fn can_buy_torch_off_seconds(&self) -> (r: bool)
        requires
            self.wf(),
        ensures
            r == (self.torch is Some && self.currency_spec() >= UPGRADE_PRICE && !self.max_torch_off_spec()),
    {
        self.torch.is_some() && self.currency() >= UPGRADE_PRICE && !self.max_torch_off_seconds()
    }

    /// Widens the flashlight by 100 milliradians for 45, when that can be
    /// bought; otherwise changes nothing. Returns whether it was bought.
    pub fn increase_flashlight_angle(&mut self) -> (r: bool)
        requires
            old(self).wf(),
        ensures
            final(self).wf(),
            r == (!old(self).max_flashlight_angle_spec() && old(self).currency_spec() >= UPGRADE_PRICE),
            r ==> *final(self) == (GameState {
                spent: (old(self).spent + UPGRADE_PRICE) as u64,
                flashlight: Flashlight { angle: (old(self).flashlight.angle + 100) as i64, ..old(self).flashlight },
                ..*old(self)
            }),
            !r ==> *final(self) == *old(self),
    {
        if !self.can_buy_flashlight_angle() {
            return false;
        }
        self.flashlight.angle = self.flashlight.angle + 100;
        self.spent = self.spent + UPGRADE_PRICE;
        true
    }

    /// Extends the flashlight by one unit for 45, when that can be bought;
    /// otherwise changes nothing. Returns whether it was bought.
    pub fn increase_flashlight_range(&mut self) -> (r: bool)
        requires
            old(self).wf(),
        ensures
            final(self).wf(),
            r == (!old(self).max_flashlight_range_spec() && old(self).currency_spec() >= UPGRADE_PRICE),
            r ==> *final(self) == (GameState {
                spent: (old(self).spent + UPGRADE_PRICE) as u64,
                flashlight: Flashlight { range: (old(self).flashlight.range + 1000) as i64, ..old(self).flashlight },
                ..*old(self)
            }),
            !r ==> *final(self) == *old(self),
    {
        if !self.can_buy_flashlight_range() {
            return false;
        }
        self.flashlight.range = self.flashlight.range + 1000;
        self.spent = self.spent + UPGRADE_PRICE;
        true
    }

    /// Buys the torch for 100 (reach 5 units, burning 2 s and pausing 2 s),
    /// when there is none yet and it can be paid; otherwise changes nothing.
    pub fn buy_torch(&mut self) -> (r: bool)
        requires
            old(self).wf(),
        ensures
            final(self).wf(),
            r == (old(self).torch is None && old(self).currency_spec() >= TORCH_PRICE),
            r ==> *final(self) == (GameState {
                spent: (old(self).spent + TORCH_PRICE) as u64,
                torch: Some(TorchUpgrade { range: 5000, on_ms: 2000, off_ms: 2000 }),
                ..*old(self)
            }),
            !r ==> *final(self) == *old(self),
    {
        if !self.can_buy_torch() {
            return false;
        }
        self.torch = Some(TorchUpgrade { range: 5000, on_ms: 2000, off_ms: 2000 });
        self.spent = self.spent + TORCH_PRICE;
        true
    }

    /// Extends the torch by one unit for 45, when that can be bought.
    pub fn increase_torch_range(&mut self) -> (r: bool)
        requires
            old(self).wf(),
        ensures
            final(self).wf(),
            r == (old(self).torch is Some && old(self).currency_spec() >= UPGRADE_PRICE && !old(self).max_torch_range_spec()),
            r ==> *final(self) == (GameState {
                spent: (old(self).spent + UPGRADE_PRICE) as u64,
                torch: Some(TorchUpgrade { range: (old(self).torch->0.range + 1000) as i64, ..old(self).torch->0 }),
                ..*old(self)
            }),
            !r ==> *final(self) == *old(self),
    {
        if !self.can_buy_torch_range() {
            return false;
        }
        let t = self.torch.unwrap();
        self.torch = Some(TorchUpgrade { range: t.range + 1000, ..t });
        self.spent = self.spent + UPGRADE_PRICE;
        true
    }

    /// Makes the torch burn one second longer for 45, when that can be
    /// bought.
    pub fn increase_torch_on_seconds(&mut self) -> (r: bool)
        requires
            old(self).wf(),
        ensures
            final(self).wf(),
            r == (old(self).torch is Some && old(self).currency_spec() >= UPGRADE_PRICE && !old(self).max_torch_on_spec()),
            r ==> *final(self) == (GameState {
                spent: (old(self).spent + UPGRADE_PRICE) as u64,
                torch: Some(TorchUpgrade { on_ms: (old(self).torch->0.on_ms + 1000) as i64, ..old(self).torch->0 }),
                ..*old(self)
            }),
            !r ==> *final(self) == *old(self),
    {
        if !self.can_buy_torch_on_seconds() {
            return false;
        }
        let t = self.torch.unwrap();
        self.torch = Some(TorchUpgrade { on_ms: t.on_ms + 1000, ..t });
        self.spent = self.spent + UPGRADE_PRICE;
        true
    }

    /// Shortens the torch's pause by 100 milliseconds for 45, when that can
    /// be bought.
    pub fn decrease_torch_off_seconds(&mut self) -> (r: bool)
        requires
            old(self).wf(),
        ensures
            final(self).wf(),
            r == (old(self).torch is Some && old(self).currency_spec() >= UPGRADE_PRICE && !old(self).max_torch_off_spec()),
            r ==> *final(self) == (GameState {
                spent: (old(self).spent + UPGRADE_PRICE) as u64,
                torch: Some(TorchUpgrade { off_ms: (old(self).torch->0.off_ms - 100) as i64, ..old(self).torch->0 }),
                ..*old(self)
            }),
            !r ==> *final(self) == *old(self),
    {
        if !self.can_buy_torch_off_seconds() {
            return false;
        }
        let t = self.torch.unwrap();
        self.torch = Some(TorchUpgrade { off_ms: t.off_ms - 100, ..t });
        self.spent = self.spent + UPGRADE_PRICE;
        true
    }
}

} // verus!
