//! Power supplies, as the kernel lists them under `/sys/class/power_supply`.

use vstd::prelude::*;

use crate::text::{parse_i32, parsed_i32, str_equal, strip_line_ends, without_line_ends};

verus! {

/// What the files `type` and `online` of one power supply held, line end
/// included; `None` where the file could not be read.
#[derive(Debug, Clone, PartialEq, Eq)]
pub struct PowerSupply {
    pub kind: Option<String>,
    pub online: Option<String>,
}

/// `supply` is a mains adapter that is plugged in.
pub open spec fn is_mains_online(supply: PowerSupply) -> bool {
    &&& supply.kind matches Some(kind) && kind@ == "Mains\n"@
    &&& supply.online matches Some(online) && online@ == "1\n"@
}

fn mains_online(supply: &PowerSupply) -> (r: bool)
    ensures
        r == is_mains_online(*supply),
{
    let is_mains = match &supply.kind {
        Some(kind) => str_equal(kind.as_str(), "Mains\n"),
        None => false,
    };
    if !is_mains {
        return false;
    }
    match &supply.online {
        Some(online) => str_equal(online.as_str(), "1\n"),
        None => false,
    }
}

/// Whether the machine runs on mains power: whether some power supply is a
/// mains adapter that is plugged in. Batteries, and supplies whose files could
/// not be read, do not count.
pub fn is_on_ac(supplies: &[PowerSupply]) -> (r: bool)
    ensures
        r == exists|i: int| 0 <= i < supplies@.len() && is_mains_online(#[trigger] supplies@[i]),
{
    let mut i: usize = 0;
    while i < supplies.len()
        invariant
            i <= supplies@.len(),
            forall|j: int| 0 <= j < i ==> !is_mains_online(#[trigger] supplies@[j]),
        decreases supplies@.len() - i,
    {
        if mains_online(&supplies[i]) {
            return true;
        }
        i += 1;
    }
    false
}

/// What the files of one power supply held, line ends included: its `type`,
/// its `capacity` and its `status`; `None` where a file could not be read.
#[derive(Debug, Clone, PartialEq, Eq)]
pub struct BatteryReading {
    /// The name of the supply's directory.
    pub name: String,
    pub kind: Option<String>,
    pub capacity: Option<String>,
    pub status: Option<String>,
}

/// The charge of one battery: its capacity in percent and its status.
#[derive(Debug, Clone, PartialEq, Eq)]
pub struct BatteryLevel {
    pub name: String,
    pub capacity: i32,
    pub status: String,
}

/// The mathematical value of a [`BatteryLevel`].
pub struct BatteryLevelView {
    pub name: Seq<char>,
    pub capacity: i32,
    pub status: Seq<char>,
}

impl View for BatteryLevel {
    type V = BatteryLevelView;

    open spec fn view(&self) -> BatteryLevelView {
        BatteryLevelView { name: self.name@, capacity: self.capacity, status: self.status@ }
    }
}

/// Why the batteries could not be told.
#[derive(Debug, Clone, Copy, PartialEq, Eq)]
pub enum BatteryError {
    /// The capacity of a battery could not be read.
    UnreadableCapacity,
    /// The capacity of a battery is no 32-bit number in decimal.
    InvalidCapacity,
    /// The status of a battery could not be read.
    UnreadableStatus,
    /// The capacities do not add up within 32 bits.
    TotalOverflow,
}

/// `reading` is that of a battery.
pub open spec fn is_battery(reading: BatteryReading) -> bool {
    reading.kind matches Some(kind) && kind@ == "Battery\n"@
}

/// The level that the files of a battery tell: the capacity is the number
/// that its file writes before the line end, the status is the file's text
/// without the line end.
pub open spec fn level_of(reading: BatteryReading) -> Result<BatteryLevelView, BatteryError> {
    match reading.capacity {
        None => Err(BatteryError::UnreadableCapacity),
        Some(text) => match parsed_i32(without_line_ends(text@)) {
            None => Err(BatteryError::InvalidCapacity),
            Some(capacity) => match reading.status {
                None => Err(BatteryError::UnreadableStatus),
                Some(status) => Ok(
                    BatteryLevelView {
                        name: reading.name@,
                        capacity,
                        status: without_line_ends(status@),
                    },
                ),
            },
        },
    }
}

/// The levels of the batteries among `readings`, in order, and the sum of
/// their capacities; the first fault met, going through the readings in
/// order, where there is one. What is no battery is passed over.
pub open spec fn levels_of(readings: Seq<BatteryReading>) -> Result<
    (Seq<BatteryLevelView>, int),
    BatteryError,
>
    decreases readings.len(),
{
    if readings.len() == 0 {
        Ok((Seq::empty(), 0))
    } else {
        match levels_of(readings.drop_last()) {
            Err(e) => Err(e),
            Ok((levels, total)) => if !is_battery(readings.last()) {
                Ok((levels, total))
            } else {
                match level_of(readings.last()) {
                    Err(e) => Err(e),
                    Ok(level) => if i32::MIN <= total + level.capacity <= i32::MAX {
                        Ok((levels.push(level), total + level.capacity))
                    } else {
                        Err(BatteryError::TotalOverflow)
                    },
                }
            },
        }
    }
}

/// The mathematical values of a sequence of levels.
pub open spec fn level_views(levels: Seq<BatteryLevel>) -> Seq<BatteryLevelView> {
    Seq::new(levels.len(), |i: int| levels[i]@)
}

/// A fault among the first readings is the fault of them all.
pub proof fn lemma_first_fault_stays(readings: Seq<BatteryReading>, k: int)
    requires
        0 <= k <= readings.len(),
        levels_of(readings.take(k)) is Err,
    ensures
        levels_of(readings) == levels_of(readings.take(k)),
    decreases readings.len() - k,
{
    if k == readings.len() {
        assert(readings.take(k) =~= readings);
    } else {
        let longer = readings.take(k + 1);
        assert(longer.drop_last() =~= readings.take(k));
        lemma_first_fault_stays(readings, k + 1);
    }
}

fn reading_is_battery(reading: &BatteryReading) -> (r: bool)
    ensures
        r == is_battery(*reading),
{
    match &reading.kind {
        Some(kind) => str_equal(kind.as_str(), "Battery\n"),
        None => false,
    }
}

/// Reads the level of one battery out of what its files held.
pub fn battery_level(reading: &BatteryReading) -> (r: Result<BatteryLevel, BatteryError>)
    ensures
        match r {
            Ok(level) => level_of(*reading) == Ok::<BatteryLevelView, BatteryError>(level@),
            Err(e) => level_of(*reading) == Err::<BatteryLevelView, BatteryError>(e),
        },
{
    let text = match &reading.capacity {
        Some(text) => text,
        None => {
            return Err(BatteryError::UnreadableCapacity);
        },
    };
    let capacity = match parse_i32(strip_line_ends(text.as_str())) {
        Some(capacity) => capacity,
        None => {
            return Err(BatteryError::InvalidCapacity);
        },
    };
    let status = match &reading.status {
        Some(status) => strip_line_ends(status.as_str()).to_owned(),
        None => {
            return Err(BatteryError::UnreadableStatus);
        },
    };
    Ok(BatteryLevel { name: reading.name.clone(), capacity, status })
}

/// Reads the levels of the batteries among `readings`, and adds their
/// capacities up.
pub fn battery_levels(readings: &[BatteryReading]) -> (r: Result<
    (Vec<BatteryLevel>, i32),
    BatteryError,
>)
    ensures
        match r {
            Ok((levels, total)) => levels_of(readings@) == Ok::<
                (Seq<BatteryLevelView>, int),
                BatteryError,
            >((level_views(levels@), total as int)),
            Err(e) => levels_of(readings@) == Err::<(Seq<BatteryLevelView>, int), BatteryError>(e),
        },
{
    let mut levels: Vec<BatteryLevel> = Vec::new();
    let mut total: i32 = 0;
    let mut i: usize = 0;
    assert(level_views(levels@) =~= Seq::<BatteryLevelView>::empty());
    while i < readings.len()
        invariant
            i <= readings@.len(),
            levels_of(readings@.take(i as int)) == Ok::<
                (Seq<BatteryLevelView>, int),
                BatteryError,
            >((level_views(levels@), total as int)),
        decreases readings@.len() - i,
    {
        let ghost longer = readings@.take(i + 1);
        proof {
            assert(longer.drop_last() =~= readings@.take(i as int));
            assert(longer.last() == readings@[i as int]);
        }
        if reading_is_battery(&readings[i]) {
            let level = match battery_level(&readings[i]) {
                Ok(level) => level,
                Err(e) => {
                    proof {
                        lemma_first_fault_stays(readings@, i + 1);
                    }
                    return Err(e);
                },
            };
            total = match total.checked_add(level.capacity) {
                Some(sum) => sum,
                None => {
                    proof {
                        lemma_first_fault_stays(readings@, i + 1);
                    }
                    return Err(BatteryError::TotalOverflow);
                },
            };
            proof {
                assert(level_views(levels@.push(level)) =~= level_views(levels@).push(level@));
            }
            levels.push(level);
        }
        i += 1;
    }
    proof {
        assert(readings@.take(i as int) =~= readings@);
    }
    Ok((levels, total))
}

} // verus!
