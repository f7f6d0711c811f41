//! What the travel is anchored on. A counted gear with measured motor turns is
//! preferred; otherwise the angles the operator gives stand, and the gear comes
//! from whichever of the two is there.

use vstd::prelude::*;

verus! {

#[derive(Copy, Clone, Debug, PartialEq, Eq, Structural)]
pub enum Anchor {
    /// The travel follows from the counted gear and the motor's turns.
    Gear,
    /// The travel is the angles given, with the gear from this source.
    Travel(GearSource),
    /// Nothing to go by: everything stays unset.
    Unset,
}

#[derive(Copy, Clone, Debug, PartialEq, Eq, Structural)]
pub enum GearSource {
    /// The counted gear is stored as it is.
    Entered,
    /// The gear follows from the motor's turns and the angles.
    Measured,
    Unset,
}

/// The anchor, by whether a positive gear, the motor's turns over the travel and
/// both angles are known.
pub open spec fn anchor_of(gear: bool, revs: bool, angles: bool) -> Anchor {
    if gear && revs {
        Anchor::Gear
    } else if !angles {
        Anchor::Unset
    } else if gear {
        Anchor::Travel(GearSource::Entered)
    } else if revs {
        Anchor::Travel(GearSource::Measured)
    } else {
        Anchor::Travel(GearSource::Unset)
    }
}

pub fn anchor(gear: bool, revs: bool, angles: bool) -> (r: Anchor)
    ensures
        r == anchor_of(gear, revs, angles),
{
    if gear && revs {
        Anchor::Gear
    } else if !angles {
        Anchor::Unset
    } else if gear {
        Anchor::Travel(GearSource::Entered)
    } else if revs {
        Anchor::Travel(GearSource::Measured)
    } else {
        Anchor::Travel(GearSource::Unset)
    }
}

/// A counted gear is never replaced by a measured one: where one was given and
/// anything is stored, it is the counted one.
pub proof fn law_counted_gear_wins(revs: bool, angles: bool)
    ensures
        anchor_of(true, revs, angles) == Anchor::Gear || anchor_of(true, revs, angles)
            == Anchor::Travel(GearSource::Entered) || anchor_of(true, revs, angles)
            == Anchor::Unset,
        anchor_of(true, true, angles) == Anchor::Gear,
        angles ==> anchor_of(true, revs, angles) != Anchor::Unset,
{
}

/// What decides the anchor: gear and turns together anchor on the gear; short
/// of that, the angles are needed, and the gear is the counted one, else the
/// one the turns give, else unset.
pub proof fn law_anchor(gear: bool, revs: bool, angles: bool)
    ensures
        anchor_of(gear, revs, angles) == Anchor::Gear <==> gear && revs,
        anchor_of(gear, revs, angles) == Anchor::Unset <==> !angles && !(gear && revs),
        anchor_of(gear, revs, angles) == Anchor::Travel(GearSource::Entered) <==> angles && gear
            && !revs,
        anchor_of(gear, revs, angles) == Anchor::Travel(GearSource::Measured) <==> angles && revs
            && !gear,
        anchor_of(gear, revs, angles) == Anchor::Travel(GearSource::Unset) <==> angles && !gear
            && !revs,
{
}

} // verus!
