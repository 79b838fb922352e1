use vstd::prelude::*;

use crate::text::{eq_text, owned};

verus! {

/// The school of astrology a chart is drawn for.
#[derive(Debug, Clone, Copy, PartialEq, Eq, Structural)]
pub enum System {
    Vedic,
    KP,
}

/// How the twelve houses are laid out.
#[derive(Debug, Clone, Copy, PartialEq, Eq, Structural)]
pub enum HouseSystem {
    Placidus,
    WholeSign,
    SriPati,
}

impl Default for HouseSystem {
    /// Whole sign houses.
    fn default() -> (r: Self)
        ensures
            r == HouseSystem::WholeSign,
    {
        HouseSystem::WholeSign
    }
}

/// One millionth of a degree: the unit of every angle in a chart.
pub const MICRODEGREES_PER_DEGREE: i64 = 1_000_000;

/// When and where a person was born. Angles are in millionths of a degree, the
/// offset from UTC in seconds.
#[derive(Debug, Clone)]
pub struct BirthDetails {
    pub date: String,
    pub time: String,
    pub latitude_micro: i64,
    pub longitude_micro: i64,
    pub utc_offset_secs: i32,
    pub system: System,
    pub house_system: HouseSystem,
}

/// A planet's place and speed along the zodiac, in millionths of a degree (per
/// day for the speed).
#[derive(Debug, Clone)]
pub struct PlanetData {
    pub name: String,
    pub longitude_micro: i64,
    pub speed_micro: i64,
}

/// A computed chart.
#[derive(Debug, Clone)]
pub struct AstroData {
    pub system: System,
    pub planets: Vec<PlanetData>,
    pub house_cusps_micro: Vec<i64>,
    pub ascendant_micro: i64,
}

/// The nine grahas, in the order a chart lists them.
pub open spec fn planet_names() -> Seq<Seq<char>> {
    seq![
        "Sun"@,
        "Moon"@,
        "Mars"@,
        "Mercury"@,
        "Jupiter"@,
        "Venus"@,
        "Saturn"@,
        "Rahu"@,
        "Ketu"@,
    ]
}

/// The chart for `details`: the nine grahas in order, each at 0° with no
/// speed; twelve house cusps 30° apart from 0°; the ascendant at 0°.
pub fn calculate_astrology(details: BirthDetails) -> (r: Result<AstroData, String>)
    ensures
        r matches Ok(a) && {
            &&& a.system == System::Vedic
            &&& a.planets@.len() == 9
            &&& forall|i: int|
                0 <= i < 9 ==> {
                    &&& (#[trigger] a.planets@[i]).name@ == planet_names()[i]
                    &&& a.planets@[i].longitude_micro == 0
                    &&& a.planets@[i].speed_micro == 0
                }
            &&& a.house_cusps_micro@.len() == 12
            &&& forall|i: int|
                0 <= i < 12 ==> #[trigger] a.house_cusps_micro@[i] == i * 30 * MICRODEGREES_PER_DEGREE
            &&& a.ascendant_micro == 0
        },
{
    let names: Vec<&'static str> = vec![
        "Sun",
        "Moon",
        "Mars",
        "Mercury",
        "Jupiter",
        "Venus",
        "Saturn",
        "Rahu",
        "Ketu",
    ];
    assert(names@.len() == 9);
    let mut planets: Vec<PlanetData> = Vec::new();
    let mut i: usize = 0;
    while i < names.len()
        invariant
            names@.len() == 9,
            forall|j: int| 0 <= j < 9 ==> (#[trigger] names@[j])@ == planet_names()[j],
            i <= 9,
            planets@.len() == i,
            forall|j: int|
                0 <= j < i ==> {
                    &&& (#[trigger] planets@[j]).name@ == planet_names()[j]
                    &&& planets@[j].longitude_micro == 0
                    &&& planets@[j].speed_micro == 0
                },
        decreases 9 - i,
    {
        planets.push(PlanetData { name: owned(names[i]), longitude_micro: 0, speed_micro: 0 });
        i = i + 1;
    }
    let mut house_cusps_micro: Vec<i64> = Vec::new();
    let mut h: i64 = 0;
    while h < 12
        invariant
            0 <= h <= 12,
            house_cusps_micro@.len() == h,
            forall|j: int|
                0 <= j < h ==> #[trigger] house_cusps_micro@[j] == j * 30 * MICRODEGREES_PER_DEGREE,
        decreases 12 - h,
    {
        house_cusps_micro.push(h * 30 * MICRODEGREES_PER_DEGREE);
        h = h + 1;
    }
    Ok(AstroData { system: System::Vedic, planets, house_cusps_micro, ascendant_micro: 0 })
}

/// Mutual sign exchanges between planets, as a text to add to a prompt: none
/// are reported, so the text is empty.
pub fn detect_parivartan_yogas(planets: &[PlanetData]) -> (r: String)
    ensures
        r@ == Seq::<char>::empty(),
{
    String::new()
}

/// The index of the first planet named `name`, if any.
pub open spec fn first_named(planets: Seq<PlanetData>, name: Seq<char>) -> Option<int>
    decreases planets.len(),
{
    if planets.len() == 0 {
        None
    } else if planets[0].name@ == name {
        Some(0)
    } else {
        match first_named(planets.drop_first(), name) {
            Some(i) => Some(i + 1),
            None => None,
        }
    }
}

/// The Moon's longitude: that of the first planet named "Moon", or 0 when
/// there is none.
pub fn moon_longitude(planets: &[PlanetData]) -> (r: i64)
    ensures
        r == (match first_named(planets@, "Moon"@) {
            Some(i) => planets@[i].longitude_micro,
            None => 0,
        }),
{
    let mut i: usize = 0;
    assert(planets@.skip(0) == planets@);
    while i < planets.len()
        invariant
            i <= planets@.len(),
            first_named(planets@, "Moon"@) == (match first_named(planets@.skip(i as int), "Moon"@) {
                Some(k) => Some(k + i),
                None => None,
            }),
        decreases planets.len() - i,
    {
        assert(planets@.skip(i as int)[0] == planets@[i as int]);
        if eq_text(planets[i].name.as_str(), "Moon") {
            return planets[i].longitude_micro;
        }
        assert(planets@.skip(i as int).drop_first() == planets@.skip(i + 1));
        i = i + 1;
    }
    0
}

} // verus!
