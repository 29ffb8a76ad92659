//! The seven hexagonal screens that every animation is addressed to.
use vstd::prelude::*;

verus! {

/// Number of hexagonal screens in the installation.
pub const HEXAGON_COUNT: usize = 7;

/// One of the seven hexagonal screens: the large centre piece and the three
/// small ones on either side of it.
#[derive(Copy, Clone, Debug, PartialEq, Eq, Structural, Hash)]
pub enum HexagonDefinition {
    Main,
    A1,
    A2,
    A3,
    B1,
    B2,
    B3,
}

impl HexagonDefinition {
    /// Position of the screen in the fixed order `Main, A1, A2, A3, B1, B2, B3`.
    pub open spec fn ordinal(self) -> nat {
        match self {
            HexagonDefinition::Main => 0,
            HexagonDefinition::A1 => 1,
            HexagonDefinition::A2 => 2,
            HexagonDefinition::A3 => 3,
            HexagonDefinition::B1 => 4,
            HexagonDefinition::B2 => 5,
            HexagonDefinition::B3 => 6,
        }
    }

    /// The screen at a position of the fixed order; `Main` beyond its end.
    pub open spec fn of_ordinal(n: nat) -> HexagonDefinition {
        if n == 1 {
            HexagonDefinition::A1
        } else if n == 2 {
            HexagonDefinition::A2
        } else if n == 3 {
            HexagonDefinition::A3
        } else if n == 4 {
            HexagonDefinition::B1
        } else if n == 5 {
            HexagonDefinition::B2
        } else if n == 6 {
            HexagonDefinition::B3
        } else {
            HexagonDefinition::Main
        }
    }

    /// Centre of the screen on the 1920 x 1080 canvas, in whole pixels.
    pub open spec fn spec_center(self) -> (int, int) {
        match self {
            HexagonDefinition::Main => (960, 540),
            HexagonDefinition::A3 => (479, 373),
            HexagonDefinition::A2 => (194, 540),
            HexagonDefinition::A1 => (479, 706),
            HexagonDefinition::B3 => (1440, 373),
            HexagonDefinition::B2 => (1725, 540),
            HexagonDefinition::B1 => (1440, 706),
        }
    }

    /// Width and height of the screen's bounding box, in whole pixels.
    pub open spec fn spec_size(self) -> (int, int) {
        if self == HexagonDefinition::Main {
            (730, 632)
        } else {
            (346, 299)
        }
    }

    /// Index into tables that hold one entry per screen.
    pub fn slot(&self) -> (r: usize)
        ensures
            r == self.ordinal(),
            r < HEXAGON_COUNT,
    {
        match self {
            HexagonDefinition::Main => 0,
            HexagonDefinition::A1 => 1,
            HexagonDefinition::A2 => 2,
            HexagonDefinition::A3 => 3,
            HexagonDefinition::B1 => 4,
            HexagonDefinition::B2 => 5,
            HexagonDefinition::B3 => 6,
        }
    }

    /// The screen that `slot` stands for, if there is one.
    pub fn from_slot(slot: usize) -> (r: Option<HexagonDefinition>)
        ensures
            slot < HEXAGON_COUNT ==> r == Some(Self::of_ordinal(slot as nat)),
            slot >= HEXAGON_COUNT ==> r is None,
            r matches Some(hex) ==> hex.ordinal() == slot,
    {
        match slot {
            0 => Some(HexagonDefinition::Main),
            1 => Some(HexagonDefinition::A1),
            2 => Some(HexagonDefinition::A2),
            3 => Some(HexagonDefinition::A3),
            4 => Some(HexagonDefinition::B1),
            5 => Some(HexagonDefinition::B2),
            6 => Some(HexagonDefinition::B3),
            _ => None,
        }
    }

    /// Centre of the screen as `(x, y)` in pixels.
    pub fn center(&self) -> (r: (u32, u32))
        ensures
            (r.0 as int, r.1 as int) == self.spec_center(),
    {
        match self {
            HexagonDefinition::Main => (960, 540),
            HexagonDefinition::A3 => (479, 373),
            HexagonDefinition::A2 => (194, 540),
            HexagonDefinition::A1 => (479, 706),
            HexagonDefinition::B3 => (1440, 373),
            HexagonDefinition::B2 => (1725, 540),
            HexagonDefinition::B1 => (1440, 706),
        }
    }

    /// Size of the screen as `(width, height)` in pixels.
    pub fn size(&self) -> (r: (u32, u32))
        ensures
            (r.0 as int, r.1 as int) == self.spec_size(),
    {
        match self {
            HexagonDefinition::Main => (730, 632),
            _ => (346, 299),
        }
    }

    /// Number of the render layer that shows this screen alone: layers 10 to
    /// 16, in the fixed order of the screens.
    pub fn get_render_layers(&self) -> (r: u8)
        ensures
            r == 10 + self.ordinal(),
    {
        match self {
            HexagonDefinition::Main => 10,
            HexagonDefinition::A1 => 11,
            HexagonDefinition::A2 => 12,
            HexagonDefinition::A3 => 13,
            HexagonDefinition::B1 => 14,
            HexagonDefinition::B2 => 15,
            HexagonDefinition::B3 => 16,
        }
    }
}

/// Every screen has its own position in the fixed order, and the order names
/// no other screen.
pub proof fn lemma_ordinal_round_trip(hex: HexagonDefinition)
    ensures
        hex.ordinal() < HEXAGON_COUNT,
        HexagonDefinition::of_ordinal(hex.ordinal()) == hex,
{
}

/// Marks an entity of the host world as belonging to one screen.
#[derive(Copy, Clone, PartialEq, Eq, Structural)]
pub struct HexagonComponent {
    hexagon_definition: HexagonDefinition,
}

impl View for HexagonComponent {
    type V = HexagonDefinition;

    closed spec fn view(&self) -> HexagonDefinition {
        self.hexagon_definition
    }
}

impl From<HexagonDefinition> for HexagonComponent {
    /// Tags an entity with `value`.
    fn from(value: HexagonDefinition) -> (r: HexagonComponent) {
        HexagonComponent { hexagon_definition: value }
    }
}

impl vstd::std_specs::convert::FromSpecImpl<HexagonDefinition> for HexagonComponent {
    open spec fn obeys_from_spec() -> bool {
        true
    }

    closed spec fn from_spec(value: HexagonDefinition) -> HexagonComponent {
        HexagonComponent { hexagon_definition: value }
    }
}

/// A tag made from a screen belongs to that screen.
pub proof fn lemma_component_from(value: HexagonDefinition)
    ensures
        <HexagonComponent as vstd::std_specs::convert::FromSpec<HexagonDefinition>>::from_spec(value)@
            == value,
{
}

impl HexagonComponent {
    pub fn get_hexagon_definition(&self) -> (r: HexagonDefinition)
        ensures
            r == self@,
    {
        self.hexagon_definition
    }

    /// Whether the entity belongs to `other`.
    pub fn is_on(&self, other: &HexagonDefinition) -> (r: bool)
        ensures
            r == (self@ == *other),
    {
        self.hexagon_definition == *other
    }
}

/// Whether `hex` occurs in `list`.
pub fn contains_hex(list: &Vec<HexagonDefinition>, hex: &HexagonDefinition) -> (r: bool)
    ensures
        r == list@.contains(*hex),
{
    let mut i: usize = 0;
    while i < list.len()
        invariant
            i <= list.len(),
            forall|k: int| 0 <= k < i ==> list@[k] != *hex,
        decreases list.len() - i,
    {
        if list[i] == *hex {
            return true;
        }
        i += 1;
    }
    false
}

/// A list with `hexagon` at its end unless it was in it.
pub open spec fn with_screen(list: Seq<HexagonDefinition>, hexagon: HexagonDefinition) -> Seq<
    HexagonDefinition,
> {
    if list.contains(hexagon) {
        list
    } else {
        list.push(hexagon)
    }
}

/// Whether a screen is another one than `hexagon`, as a function of the
/// screen.
pub open spec fn other_than(hexagon: HexagonDefinition) -> spec_fn(HexagonDefinition) -> bool {
    |h: HexagonDefinition| h != hexagon
}

/// A list without `hexagon`: what is left of it in the same order.
pub open spec fn without_screen(list: Seq<HexagonDefinition>, hexagon: HexagonDefinition) -> Seq<
    HexagonDefinition,
> {
    list.filter(other_than(hexagon))
}

/// Adds `hex` at the end of `vec` unless it is already there.
pub fn insert_hex_to_vec(vec: &mut Vec<HexagonDefinition>, hex: &HexagonDefinition)
    ensures
        final(vec)@ == with_screen(old(vec)@, *hex),
{
    if !contains_hex(vec, hex) {
        vec.push(*hex);
    }
}

/// Removes every occurrence of `hex` from `vec` and keeps the rest in order.
pub fn remove_hex_from_vec(vec: &mut Vec<HexagonDefinition>, hex: &HexagonDefinition)
    ensures
        final(vec)@ == without_screen(old(vec)@, *hex),
{
    let mut kept: Vec<HexagonDefinition> = Vec::new();
    let mut i: usize = 0;
    while i < vec.len()
        invariant
            i <= vec.len(),
            vec@ == old(vec)@,
            kept@ == without_screen(vec@.take(i as int), *hex),
        decreases vec.len() - i,
    {
        proof {
            reveal(Seq::filter);
            let next = vec@.take(i as int + 1);
            assert(next.drop_last() == vec@.take(i as int));
            assert(next.last() == vec@[i as int]);
        }
        if vec[i] != *hex {
            kept.push(vec[i]);
        }
        i += 1;
    }
    proof {
        assert(vec@.take(vec.len() as int) == vec@);
    }
    *vec = kept;
}

} // verus!
