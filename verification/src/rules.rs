use vstd::prelude::*;

use crate::math::AstroData;
use crate::text::owned;

verus! {

/// Whether, and how, a debilitated planet's weakness is cancelled.
#[derive(Debug, Clone, Copy, PartialEq, Eq, Structural)]
pub enum NeechaBhangaType {
    /// No cancellation.
    Absent,
    Standard,
    RajYoga,
}

/// A planet as the rules engine reads it.
#[derive(Debug)]
pub struct ProcessedPlanet {
    pub name: String,
    pub sign: &'static str,
    pub house: usize,
    pub is_retrograde: bool,
    pub is_combust: bool,
    pub dignity: Option<&'static str>,
    pub neecha_bhanga: NeechaBhangaType,
    pub conjunct_with: Vec<String>,
}

/// The sign on a house's cusp and the planet that rules it.
#[derive(Debug)]
pub struct HouseLordship {
    pub house: usize,
    pub sign: &'static str,
    pub lord: &'static str,
}

/// What the rules engine makes of a chart.
#[derive(Debug)]
pub struct ExpertData {
    pub planets: Vec<ProcessedPlanet>,
    pub house_lordships: Vec<HouseLordship>,
}

/// The rules engine's reading of a chart: no planets and no lordships are
/// derived.
pub fn process(astro_data: &AstroData) -> (r: ExpertData)
    ensures
        r.planets@.len() == 0,
        r.house_lordships@.len() == 0,
{
    ExpertData { planets: Vec::new(), house_lordships: Vec::new() }
}

/// The text of the chart summary that goes into the prompt.
pub open spec fn summary_text() -> Seq<char> {
    "[CHART SUMMARY REDACTED — Proprietary rules engine]"@
}

/// The chart summary for the prompt: a fixed text.
pub fn format_summary(data: &ExpertData) -> (r: String)
    ensures
        r@ == summary_text(),
{
    owned("[CHART SUMMARY REDACTED — Proprietary rules engine]")
}

} // verus!
