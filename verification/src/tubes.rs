//! The tubes of light between the screens, their lights, and how the
//! lights inside the large screen are fed from them.
use vstd::prelude::*;

verus! {

/// Number of lights in a tube.
pub const LEDS_COUNT: isize = 16;

/// Number of tubes.
pub const TUBE_COUNT: usize = 22;

/// Number of lights along one edge of the large screen.
pub const EDGE_LED_COUNT: i32 = 32;

/// Number of lights of a tube that feed one light of an edge.
pub const EDGE_LED_DIVISOR: i32 = 4;

/// Number of lights along one edge that are shown.
pub const ACTUAL_EDGE_LED_COUNT: i32 = 8;

/// Number of shown lights that one tube feeds.
pub const LIGHTS_PER_TUBE: i32 = 4;

/// One of the 22 tubes, numbered from the left of the installation to its
/// right.
#[derive(Copy, Clone, Debug, PartialEq, Eq, Structural)]
pub enum TubeIndex {
    One,
    Two,
    Three,
    Four,
    Five,
    Six,
    Seven,
    Eight,
    Nine,
    Ten,
    Eleven,
    Twelve,
    Thirteen,
    Fourteen,
    Fifteen,
    Sixteen,
    Seventeen,
    Eighteen,
    Nineteen,
    Twenty,
    Twentyone,
    Twentytwo,
}

impl TubeIndex {
    /// The number of the tube, from 1 to 22.
    pub open spec fn number(self) -> nat {
        match self {
            TubeIndex::One => 1,
            TubeIndex::Two => 2,
            TubeIndex::Three => 3,
            TubeIndex::Four => 4,
            TubeIndex::Five => 5,
            TubeIndex::Six => 6,
            TubeIndex::Seven => 7,
            TubeIndex::Eight => 8,
            TubeIndex::Nine => 9,
            TubeIndex::Ten => 10,
            TubeIndex::Eleven => 11,
            TubeIndex::Twelve => 12,
            TubeIndex::Thirteen => 13,
            TubeIndex::Fourteen => 14,
            TubeIndex::Fifteen => 15,
            TubeIndex::Sixteen => 16,
            TubeIndex::Seventeen => 17,
            TubeIndex::Eighteen => 18,
            TubeIndex::Nineteen => 19,
            TubeIndex::Twenty => 20,
            TubeIndex::Twentyone => 21,
            TubeIndex::Twentytwo => 22,
        }
    }

    /// The number of the tube, from 1 to 22.
    pub fn get_number(&self) -> (n: usize)
        ensures
            n == self.number(),
            1 <= n <= TUBE_COUNT,
    {
        match self {
            TubeIndex::One => 1,
            TubeIndex::Two => 2,
            TubeIndex::Three => 3,
            TubeIndex::Four => 4,
            TubeIndex::Five => 5,
            TubeIndex::Six => 6,
            TubeIndex::Seven => 7,
            TubeIndex::Eight => 8,
            TubeIndex::Nine => 9,
            TubeIndex::Ten => 10,
            TubeIndex::Eleven => 11,
            TubeIndex::Twelve => 12,
            TubeIndex::Thirteen => 13,
            TubeIndex::Fourteen => 14,
            TubeIndex::Fifteen => 15,
            TubeIndex::Sixteen => 16,
            TubeIndex::Seventeen => 17,
            TubeIndex::Eighteen => 18,
            TubeIndex::Nineteen => 19,
            TubeIndex::Twenty => 20,
            TubeIndex::Twentyone => 21,
            TubeIndex::Twentytwo => 22,
        }
    }

    /// The tube with the number `n`, if `n` is from 1 to 22.
    pub fn from_number(n: usize) -> (r: Option<TubeIndex>)
        ensures
            1 <= n <= TUBE_COUNT <==> r is Some,
            r matches Some(tube) ==> tube.number() == n,
    {
        match n {
            1 => Some(TubeIndex::One),
            2 => Some(TubeIndex::Two),
            3 => Some(TubeIndex::Three),
            4 => Some(TubeIndex::Four),
            5 => Some(TubeIndex::Five),
            6 => Some(TubeIndex::Six),
            7 => Some(TubeIndex::Seven),
            8 => Some(TubeIndex::Eight),
            9 => Some(TubeIndex::Nine),
            10 => Some(TubeIndex::Ten),
            11 => Some(TubeIndex::Eleven),
            12 => Some(TubeIndex::Twelve),
            13 => Some(TubeIndex::Thirteen),
            14 => Some(TubeIndex::Fourteen),
            15 => Some(TubeIndex::Fifteen),
            16 => Some(TubeIndex::Sixteen),
            17 => Some(TubeIndex::Seventeen),
            18 => Some(TubeIndex::Eighteen),
            19 => Some(TubeIndex::Nineteen),
            20 => Some(TubeIndex::Twenty),
            21 => Some(TubeIndex::Twentyone),
            22 => Some(TubeIndex::Twentytwo),
            _ => None,
        }
    }

    /// All tubes in the order of their numbers.
    pub fn all() -> (tubes: Vec<TubeIndex>)
        ensures
            tubes@.len() == TUBE_COUNT,
            forall|i: int| 0 <= i < TUBE_COUNT ==> (#[trigger] tubes@[i]).number() == i + 1,
    {
        let mut tubes: Vec<TubeIndex> = Vec::new();
        let mut n: usize = 1;
        while n <= TUBE_COUNT
            invariant
                1 <= n <= TUBE_COUNT + 1,
                tubes@.len() == n - 1,
                forall|i: int| 0 <= i < n - 1 ==> (#[trigger] tubes@[i]).number() == i + 1,
            decreases TUBE_COUNT + 1 - n,
        {
            match TubeIndex::from_number(n) {
                Some(tube) => {
                    tubes.push(tube);
                },
                None => {},
            }
            n += 1;
        }
        tubes
    }
}

/// Where the tubes are on the 1920 x 1080 canvas, by their numbers: the
/// middle of each as `(x, y)` in quarters of a pixel.
pub open spec fn tube_positions() -> Seq<(int, int)> {
    seq![
        (776, 2826),
        (776, 1494),
        (1346, 2492),
        (1346, 1828),
        (1916, 2160),
        (2486, 2492),
        (2486, 1828),
        (2880, 3160),
        (2880, 1160),
        (3475, 3492),
        (3475, 828),
        (4205, 3492),
        (4205, 828),
        (4800, 3160),
        (4800, 1160),
        (5196, 2492),
        (5196, 1828),
        (5760, 2160),
        (6330, 2492),
        (6330, 1828),
        (6900, 2826),
        (6900, 1494),
    ]
}

/// How the tubes are turned, by their numbers: the direction of each in
/// thirds of a half turn.
pub open spec fn tube_rotations() -> Seq<int> {
    seq![0, 3, -1, 4, 0, 1, 2, 1, 2, 0, 3, 0, 3, -1, 4, -1, 4, 0, 1, 2, 0, 3]
}

impl TubeIndex {
    /// The middle of the tube as `(x, y)` in millionths of a pixel.
    pub fn get_position(&self) -> (r: (i64, i64))
        ensures
            r.0 == tube_positions()[self.number() - 1].0 * 250_000,
            r.1 == tube_positions()[self.number() - 1].1 * 250_000,
    {
        match self {
            TubeIndex::One => (194_000_000, 706_500_000),
            TubeIndex::Two => (194_000_000, 373_500_000),
            TubeIndex::Three => (336_500_000, 623_000_000),
            TubeIndex::Four => (336_500_000, 457_000_000),
            TubeIndex::Five => (479_000_000, 540_000_000),
            TubeIndex::Six => (621_500_000, 623_000_000),
            TubeIndex::Seven => (621_500_000, 457_000_000),
            TubeIndex::Eight => (720_000_000, 790_000_000),
            TubeIndex::Nine => (720_000_000, 290_000_000),
            TubeIndex::Ten => (868_750_000, 873_000_000),
            TubeIndex::Eleven => (868_750_000, 207_000_000),
            TubeIndex::Twelve => (1_051_250_000, 873_000_000),
            TubeIndex::Thirteen => (1_051_250_000, 207_000_000),
            TubeIndex::Fourteen => (1_200_000_000, 790_000_000),
            TubeIndex::Fifteen => (1_200_000_000, 290_000_000),
            TubeIndex::Sixteen => (1_299_000_000, 623_000_000),
            TubeIndex::Seventeen => (1_299_000_000, 457_000_000),
            TubeIndex::Eighteen => (1_440_000_000, 540_000_000),
            TubeIndex::Nineteen => (1_582_500_000, 623_000_000),
            TubeIndex::Twenty => (1_582_500_000, 457_000_000),
            TubeIndex::Twentyone => (1_725_000_000, 706_500_000),
            TubeIndex::Twentytwo => (1_725_000_000, 373_500_000),
        }
    }

    /// The direction of the tube in thirds of a half turn.
    pub fn get_rotation(&self) -> (thirds: i8)
        ensures
            thirds == tube_rotations()[self.number() - 1],
    {
        match self {
            TubeIndex::One => 0,
            TubeIndex::Two => 3,
            TubeIndex::Three => -1,
            TubeIndex::Four => 4,
            TubeIndex::Five => 0,
            TubeIndex::Six => 1,
            TubeIndex::Seven => 2,
            TubeIndex::Eight => 1,
            TubeIndex::Nine => 2,
            TubeIndex::Ten => 0,
            TubeIndex::Eleven => 3,
            TubeIndex::Twelve => 0,
            TubeIndex::Thirteen => 3,
            TubeIndex::Fourteen => -1,
            TubeIndex::Fifteen => 4,
            TubeIndex::Sixteen => -1,
            TubeIndex::Seventeen => 4,
            TubeIndex::Eighteen => 0,
            TubeIndex::Nineteen => 1,
            TubeIndex::Twenty => 2,
            TubeIndex::Twentyone => 0,
            TubeIndex::Twentytwo => 3,
        }
    }
}

/// Two tubes with the same number are the same tube.
pub proof fn lemma_tube_number_is_unique(a: TubeIndex, b: TubeIndex)
    requires
        a.number() == b.number(),
    ensures
        a == b,
{
}

/// The tube with the number `n`, for `n` from 1 to 22.
pub open spec fn tube_numbered(n: nat) -> TubeIndex {
    choose|tube: TubeIndex| tube.number() == n
}

/// Every tube is the tube with its number.
pub proof fn lemma_tube_numbered(tube: TubeIndex)
    ensures
        tube_numbered(tube.number()) == tube,
{
    lemma_tube_number_is_unique(tube_numbered(tube.number()), tube);
}

/// One tube.
#[derive(Copy, Clone, Debug, PartialEq, Eq, Structural)]
pub struct LedTube {
    index: TubeIndex,
}

impl View for LedTube {
    type V = TubeIndex;

    closed spec fn view(&self) -> TubeIndex {
        self.index
    }
}

impl LedTube {
    /// The tube `index`.
    pub fn new(index: TubeIndex) -> (tube: LedTube)
        ensures
            tube@ == index,
    {
        LedTube { index }
    }

    pub fn get_tube_index(&self) -> (r: TubeIndex)
        ensures
            r == self@,
    {
        self.index
    }
}

/// One light of a tube, by its position along the tube.
#[derive(Copy, Clone, Debug, PartialEq, Eq, Structural)]
pub struct LedTubeLed {
    index: isize,
}

impl View for LedTubeLed {
    type V = isize;

    closed spec fn view(&self) -> isize {
        self.index
    }
}

impl LedTubeLed {
    /// The light at the position `index`.
    pub fn new(index: isize) -> (led: LedTubeLed)
        ensures
            led@ == index,
    {
        LedTubeLed { index }
    }

    pub fn get_index(&self) -> (r: isize)
        ensures
            r == self@,
    {
        self.index
    }
}

/// The lights of one tube, from position 0 to position `LEDS_COUNT - 1`.
pub fn spawn_tube(tube_index: TubeIndex) -> (r: (LedTube, Vec<LedTubeLed>))
    ensures
        r.0@ == tube_index,
        r.1@.len() == LEDS_COUNT,
        forall|i: int| 0 <= i < LEDS_COUNT ==> (#[trigger] r.1@[i])@ == i,
{
    let mut leds: Vec<LedTubeLed> = Vec::new();
    let mut i: isize = 0;
    while i < LEDS_COUNT
        invariant
            0 <= i <= LEDS_COUNT,
            leds@.len() == i,
            forall|k: int| 0 <= k < i ==> (#[trigger] leds@[k])@ == k,
        decreases LEDS_COUNT - i,
    {
        leds.push(LedTubeLed::new(i));
        i += 1;
    }
    (LedTube::new(tube_index), leds)
}

/// Every tube with its lights, in the order of the tubes' numbers.
pub fn spawn_led_tubes() -> (tubes: Vec<(LedTube, Vec<LedTubeLed>)>)
    ensures
        tubes@.len() == TUBE_COUNT,
        forall|t: int|
            0 <= t < TUBE_COUNT ==> (#[trigger] tubes@[t]).0@.number() == t + 1 && tubes@[t].1@.len()
                == LEDS_COUNT,
        forall|t: int, i: int|
            0 <= t < TUBE_COUNT && 0 <= i < LEDS_COUNT ==> (#[trigger] tubes@[t].1@[i])@ == i,
{
    let indices = TubeIndex::all();
    let mut tubes: Vec<(LedTube, Vec<LedTubeLed>)> = Vec::new();
    let mut t: usize = 0;
    while t < indices.len()
        invariant
            t <= indices.len(),
            indices@.len() == TUBE_COUNT,
            forall|i: int| 0 <= i < TUBE_COUNT ==> (#[trigger] indices@[i]).number() == i + 1,
            tubes@.len() == t,
            forall|k: int|
                0 <= k < t ==> (#[trigger] tubes@[k]).0@.number() == k + 1 && tubes@[k].1@.len()
                    == LEDS_COUNT,
            forall|k: int, i: int|
                0 <= k < t && 0 <= i < LEDS_COUNT ==> (#[trigger] tubes@[k].1@[i])@ == i,
        decreases indices.len() - t,
    {
        tubes.push(spawn_tube(indices[t]));
        t += 1;
    }
    tubes
}

/// One of the six edges of the large screen, named by its corners, counted
/// clockwise from the leftmost corner.
#[derive(Copy, Clone, Debug, PartialEq, Eq, Structural)]
pub enum PhysicalTubeIndex {
    AB,
    BC,
    CD,
    DE,
    EF,
    FA,
}

impl PhysicalTubeIndex {
    /// The edge that a number stands for: 0 to 5 for the six edges in their
    /// order, and the first edge for any other number.
    pub open spec fn of(value: int) -> PhysicalTubeIndex {
        if value == 1 {
            PhysicalTubeIndex::BC
        } else if value == 2 {
            PhysicalTubeIndex::CD
        } else if value == 3 {
            PhysicalTubeIndex::DE
        } else if value == 4 {
            PhysicalTubeIndex::EF
        } else if value == 5 {
            PhysicalTubeIndex::FA
        } else {
            PhysicalTubeIndex::AB
        }
    }

    /// The direction of the edge in thirds of a half turn: one for the first
    /// edge, and one less for each edge after it.
    pub fn get_angle(&self) -> (thirds: i8)
        ensures
            Self::of(1 - thirds) == *self,
            -4 <= thirds <= 1,
    {
        match self {
            PhysicalTubeIndex::AB => 1,
            PhysicalTubeIndex::BC => 0,
            PhysicalTubeIndex::CD => -1,
            PhysicalTubeIndex::DE => -2,
            PhysicalTubeIndex::EF => -3,
            PhysicalTubeIndex::FA => -4,
        }
    }
}

impl From<i32> for PhysicalTubeIndex {
    /// The edge that `value` stands for.
    fn from(value: i32) -> (r: PhysicalTubeIndex) {
        match value {
            0 => PhysicalTubeIndex::AB,
            1 => PhysicalTubeIndex::BC,
            2 => PhysicalTubeIndex::CD,
            3 => PhysicalTubeIndex::DE,
            4 => PhysicalTubeIndex::EF,
            5 => PhysicalTubeIndex::FA,
            _ => PhysicalTubeIndex::AB,
        }
    }
}

impl vstd::std_specs::convert::FromSpecImpl<i32> for PhysicalTubeIndex {
    open spec fn obeys_from_spec() -> bool {
        true
    }

    open spec fn from_spec(value: i32) -> PhysicalTubeIndex {
        PhysicalTubeIndex::of(value as int)
    }
}

/// The lights along one edge of the large screen.
#[derive(Copy, Clone, Debug, PartialEq, Eq, Structural)]
pub struct PhysicalLedTube {
    pub index: PhysicalTubeIndex,
}

/// Marks the root of all lights of a screen.
#[derive(Copy, Clone, Debug, PartialEq, Eq, Structural)]
pub struct HexagonLights;

/// The tube that feeds the shown light `index` of the large screen: the
/// twelve tubes round the screen feed `LIGHTS_PER_TUBE` lights each.
pub open spec fn feeding_tube(index: int) -> Option<TubeIndex> {
    if index < 0 || index >= 48 {
        None
    } else if index < 4 {
        Some(TubeIndex::Six)
    } else if index < 8 {
        Some(TubeIndex::Eight)
    } else if index < 12 {
        Some(TubeIndex::Ten)
    } else if index < 16 {
        Some(TubeIndex::Twelve)
    } else if index < 20 {
        Some(TubeIndex::Fourteen)
    } else if index < 24 {
        Some(TubeIndex::Sixteen)
    } else if index < 28 {
        Some(TubeIndex::Seventeen)
    } else if index < 32 {
        Some(TubeIndex::Fifteen)
    } else if index < 36 {
        Some(TubeIndex::Thirteen)
    } else if index < 40 {
        Some(TubeIndex::Eleven)
    } else if index < 44 {
        Some(TubeIndex::Nine)
    } else {
        Some(TubeIndex::Seven)
    }
}

/// The tube that feeds the shown light `index`, and whether there is one.
/// Where there is none, the tube is `TubeIndex::Six` and the caller has a
/// mistake to report.
pub fn map_index_to_tube_index(index: i32) -> (r: (TubeIndex, bool))
    ensures
        r.1 == (feeding_tube(index as int) is Some),
        r.1 ==> Some(r.0) == feeding_tube(index as int),
        !r.1 ==> r.0 == TubeIndex::Six,
{
    if index < 0 || index >= 12 * LIGHTS_PER_TUBE {
        return (TubeIndex::Six, false);
    }
    let tube = match index / LIGHTS_PER_TUBE {
        0 => TubeIndex::Six,
        1 => TubeIndex::Eight,
        2 => TubeIndex::Ten,
        3 => TubeIndex::Twelve,
        4 => TubeIndex::Fourteen,
        5 => TubeIndex::Sixteen,
        6 => TubeIndex::Seventeen,
        7 => TubeIndex::Fifteen,
        8 => TubeIndex::Thirteen,
        9 => TubeIndex::Eleven,
        10 => TubeIndex::Nine,
        _ => TubeIndex::Seven,
    };
    (tube, true)
}

/// The number of the `light`-th shown light of the `edge`-th edge: the
/// lights are numbered edge by edge.
pub fn physical_led_index(edge: i32, light: i32) -> (index: i64)
    ensures
        index == edge * ACTUAL_EDGE_LED_COUNT + light,
{
    edge as i64 * ACTUAL_EDGE_LED_COUNT as i64 + light as i64
}

/// The first position in its tube of the lights that feed the shown light
/// `index`: the place of the light among those of its tube, times the number
/// of lights that feed one. Before the first light the places mirror those
/// after it, with the opposite sign.
pub open spec fn span_start(index: int) -> int {
    if index >= 0 {
        (index % (LIGHTS_PER_TUBE as int)) * (LIGHTS_PER_TUBE as int)
    } else {
        -(((-index) % (LIGHTS_PER_TUBE as int)) * (LIGHTS_PER_TUBE as int))
    }
}

/// The positions in its tube of the lights that feed the shown light
/// `index`: `EDGE_LED_DIVISOR` of them in a row, from the first returned to
/// just before the second.
pub fn led_span(index: i32) -> (span: (i32, i32))
    ensures
        span.0 == span_start(index as int),
        span.1 == span.0 + EDGE_LED_DIVISOR,
        -12 <= span.0 <= 12,
{
    let start: i32 = if index >= 0 {
        (index % LIGHTS_PER_TUBE) * LIGHTS_PER_TUBE
    } else {
        let mirrored: i64 = -(index as i64);
        -(((mirrored % 4) * 4) as i32)
    };
    (start, start + EDGE_LED_DIVISOR)
}

/// Where in `leds`, the lights of a tube in any order, those stand that
/// feed the shown light `index`. The second result says whether they are
/// `EDGE_LED_DIVISOR`, as they are for a whole tube; if not, the caller has a
/// mistake to report.
pub fn get_led_tube_led_entities(index: i32, leds: &Vec<LedTubeLed>) -> (r: (Vec<usize>, bool))
    ensures
        forall|k: int| 0 <= k < r.0@.len() ==> (#[trigger] r.0@[k]) < leds@.len(),
        forall|k: int, l: int| 0 <= k < l < r.0@.len() ==> r.0@[k] < r.0@[l],
        forall|at: usize|
            #[trigger] r.0@.contains(at) <==> at < leds@.len() && span_start(index as int)
                <= leds@[at as int]@ < span_start(index as int) + EDGE_LED_DIVISOR,
        r.1 == (r.0@.len() == EDGE_LED_DIVISOR),
{
    let (start, end) = led_span(index);
    let mut matched: Vec<usize> = Vec::new();
    let mut at: usize = 0;
    while at < leds.len()
        invariant
            at <= leds.len(),
            start == span_start(index as int),
            end == start + EDGE_LED_DIVISOR,
            -12 <= start <= 12,
            forall|k: int| 0 <= k < matched@.len() ==> (#[trigger] matched@[k]) < at,
            forall|k: int, l: int| 0 <= k < l < matched@.len() ==> matched@[k] < matched@[l],
            forall|p: usize|
                #[trigger] matched@.contains(p) <==> p < at && start <= leds@[p as int]@ < end,
        decreases leds.len() - at,
    {
        let ghost before = matched@;
        let position = leds[at].get_index();
        let inside = start as isize <= position && position < end as isize;
        if inside {
            matched.push(at);
        }
        proof {
            assert forall|p: usize| #[trigger] matched@.contains(p) <==> p <= at && start
                <= leds@[p as int]@ < end by {
                if before.contains(p) {
                    let k = choose|k: int| 0 <= k < before.len() && before[k] == p;
                    assert(matched@[k] == p);
                }
                if matched@.contains(p) {
                    let k = choose|k: int| 0 <= k < matched@.len() && matched@[k] == p;
                    if k < before.len() {
                        assert(before[k] == p);
                    }
                }
                if inside && p == at {
                    assert(matched@[before.len() as int] == p);
                }
            }
        }
        at += 1;
    }
    let whole = matched.len() == EDGE_LED_DIVISOR as usize;
    (matched, whole)
}

} // verus!
