//! The shared positional fix and its process-wide store.
//!
//! A fix is an operator-supplied location reading: six 64-bit floating
//! point readings, a description and a timestamp. The library never
//! computes on the readings, it only stores and reproduces them, so each
//! one is modelled exactly by its 64-bit IEEE-754 bit pattern; the boundary
//! converts with `f64::to_bits` / `f64::from_bits`.

use vstd::prelude::*;

verus! {

/// Mathematical image of a positional fix.
#[verifier::ext_equal]
pub struct FixView {
    pub latitude_bits: u64,
    pub longitude_bits: u64,
    pub accuracy_bits: u64,
    pub altitude_bits: u64,
    pub speed_bits: u64,
    pub heading_bits: u64,
    pub description: Seq<char>,
    pub timestamp: u64,
}

/// The all-default fix: every reading zero, the description empty.
pub open spec fn empty_fix_view() -> FixView {
    FixView {
        latitude_bits: 0,
        longitude_bits: 0,
        accuracy_bits: 0,
        altitude_bits: 0,
        speed_bits: 0,
        heading_bits: 0,
        description: Seq::<char>::empty(),
        timestamp: 0,
    }
}

/// One positional fix. The numeric readings are bit patterns of the 64-bit
/// floating point values they stand for; `timestamp` is a seconds count.
pub struct PositionFix {
    pub latitude_bits: u64,
    pub longitude_bits: u64,
    pub accuracy_bits: u64,
    pub altitude_bits: u64,
    pub speed_bits: u64,
    pub heading_bits: u64,
    pub description: String,
    pub timestamp: u64,
}

impl View for PositionFix {
    type V = FixView;

    open spec fn view(&self) -> FixView {
        FixView {
            latitude_bits: self.latitude_bits,
            longitude_bits: self.longitude_bits,
            accuracy_bits: self.accuracy_bits,
            altitude_bits: self.altitude_bits,
            speed_bits: self.speed_bits,
            heading_bits: self.heading_bits,
            description: self.description@,
            timestamp: self.timestamp,
        }
    }
}

impl PositionFix {
    /// The fix used when no configuration was supplied.
    pub fn empty() -> (r: PositionFix)
        ensures
            r@ == empty_fix_view(),
    {
        let r = PositionFix {
            latitude_bits: 0,
            longitude_bits: 0,
            accuracy_bits: 0,
            altitude_bits: 0,
            speed_bits: 0,
            heading_bits: 0,
            description: String::new(),
            timestamp: 0,
        };
        proof {
            assert(r@ =~= empty_fix_view());
        }
        r
    }

    /// A field-for-field copy of the fix.
    pub fn duplicate(&self) -> (r: PositionFix)
        ensures
            r@ == self@,
    {
        PositionFix {
            latitude_bits: self.latitude_bits,
            longitude_bits: self.longitude_bits,
            accuracy_bits: self.accuracy_bits,
            altitude_bits: self.altitude_bits,
            speed_bits: self.speed_bits,
            heading_bits: self.heading_bits,
            description: self.description.clone(),
            timestamp: self.timestamp,
        }
    }
}

/// Holder of the one process-wide fix: written once at startup by the
/// configuration loader, read by every location object thereafter.
pub struct LocationStore {
    fix: PositionFix,
}

impl View for LocationStore {
    type V = FixView;

    closed spec fn view(&self) -> FixView {
        self.fix@
    }
}

impl LocationStore {
    /// A store holding `fix`.
    pub fn new(fix: PositionFix) -> (s: LocationStore)
        ensures
            s@ == fix@,
    {
        LocationStore { fix }
    }

    /// A consistent read of the whole fix: never a mix of two loads.
    pub fn snapshot(&self) -> (r: PositionFix)
        ensures
            r@ == self@,
    {
        self.fix.duplicate()
    }

    /// Replaces the held fix; only the startup loader calls this.
    pub fn replace(&mut self, fix: PositionFix)
        ensures
            final(self)@ == fix@,
    {
        self.fix = fix;
    }
}

} // verus!
