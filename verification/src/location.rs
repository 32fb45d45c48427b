use vstd::prelude::*;

verus! {

/// The rooms the service knows, plus a catch-all for everything else.
#[derive(Clone, Copy, Debug, PartialEq, Eq, Structural)]
pub enum Location {
    LivingRoom,
    Bedroom,
    Kitchen,
    Unknown,
}

/// What `str::to_lowercase` returns for a given sequence of characters.
pub uninterp spec fn lower_of(s: Seq<char>) -> Seq<char>;

/// Relies on `str::to_lowercase`: the result depends on the characters of
/// the input alone.
#[verifier::external_body]
fn lowercase(s: &str) -> (r: String)
    ensures
        r@ == lower_of(s@),
{
    s.to_lowercase()
}

/// Relies on `<str as PartialEq>::eq`: two string slices compare equal
/// exactly when their characters do.
#[verifier::external_body]
pub(crate) fn str_eq(a: &str, b: &str) -> (r: bool)
    ensures
        r == (a@ == b@),
{
    a == b
}

/// The fixed synonym set that names the living room.
pub open spec fn is_living_room_synonym(t: Seq<char>) -> bool {
    ||| t == "living room"@
    ||| t == "livingroom"@
    ||| t == "living"@
    ||| t == "living_room"@
    ||| t == "living rum"@
}

/// The fixed synonym set that names the bedroom.
pub open spec fn is_bedroom_synonym(t: Seq<char>) -> bool {
    ||| t == "bedroom"@
    ||| t == "bed"@
    ||| t == "bed_room"@
    ||| t == "bedrum"@
}

/// The fixed synonym set that names the kitchen.
pub open spec fn is_kitchen_synonym(t: Seq<char>) -> bool {
    t == "kitchen"@
}

/// Which room an already-lowercased text names; anything outside the fixed
/// synonym sets is `Unknown`.
pub open spec fn canon_of_lowered(t: Seq<char>) -> Location {
    if is_living_room_synonym(t) {
        Location::LivingRoom
    } else if is_bedroom_synonym(t) {
        Location::Bedroom
    } else if is_kitchen_synonym(t) {
        Location::Kitchen
    } else {
        Location::Unknown
    }
}

/// Which room a free-form text names: lowercase it, then match the synonym
/// sets.
pub open spec fn spec_from_str(s: Seq<char>) -> Location {
    canon_of_lowered(lower_of(s))
}

impl Location {
    /// The canonical display name of this room.
    pub open spec fn spec_name(self) -> Seq<char> {
        match self {
            Location::LivingRoom => "Living Room"@,
            Location::Bedroom => "Bedroom"@,
            Location::Kitchen => "Kitchen"@,
            Location::Unknown => "Unknown"@,
        }
    }

    /// The sensor identifier assumed for this room when none is given.
    pub open spec fn spec_default_sensor_id(self) -> Seq<char> {
        match self {
            Location::LivingRoom => "1"@,
            Location::Bedroom => "2"@,
            Location::Kitchen => "3"@,
            Location::Unknown => "0"@,
        }
    }

    /// Normalize free-form location text against the fixed synonym sets,
    /// case-insensitively; unmatched text yields `Unknown`, never an error.
    pub fn from_str(s: &str) -> (l: Location)
        ensures
            l == spec_from_str(s@),
    {
        let lowered = lowercase(s);
        let t = lowered.as_str();
        if str_eq(t, "living room") || str_eq(t, "livingroom") || str_eq(t, "living") || str_eq(
            t,
            "living_room",
        ) || str_eq(t, "living rum") {
            Location::LivingRoom
        } else if str_eq(t, "bedroom") || str_eq(t, "bed") || str_eq(t, "bed_room") || str_eq(
            t,
            "bedrum",
        ) {
            Location::Bedroom
        } else if str_eq(t, "kitchen") {
            Location::Kitchen
        } else {
            Location::Unknown
        }
    }

    /// The canonical display name, as an owned string.
    pub fn to_string(&self) -> (s: String)
        ensures
            s@ == self.spec_name(),
    {
        match self {
            Location::LivingRoom => "Living Room".to_owned(),
            Location::Bedroom => "Bedroom".to_owned(),
            Location::Kitchen => "Kitchen".to_owned(),
            Location::Unknown => "Unknown".to_owned(),
        }
    }

    /// The default sensor identifier of this room.
    pub fn default_sensor_id(&self) -> (s: &'static str)
        ensures
            s@ == self.spec_default_sensor_id(),
    {
        match self {
            Location::LivingRoom => "1",
            Location::Bedroom => "2",
            Location::Kitchen => "3",
            Location::Unknown => "0",
        }
    }
}

} // verus!
