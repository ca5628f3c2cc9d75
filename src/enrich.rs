//! The icon hint derived from the temperature.
use crate::measure::Measure;
use crate::model::{Weather, WeatherResponse};
use vstd::prelude::*;

verus! {

/// The icon hint for a temperature in degrees Celsius: below 0 `snow`, from 0
/// to 10 inclusive `mist`, above 10 and below 20 `rain`, from 20 and below 25
/// `cloud`, from 25 on `clear`.
pub open spec fn icon_for(t: Measure) -> Seq<char> {
    if t.below(0) {
        "snow"@
    } else if t.at_most(10) {
        "mist"@
    } else if t.below(20) {
        "rain"@
    } else if t.below(25) {
        "cloud"@
    } else {
        "clear"@
    }
}

/// The icon hint for the temperature `temp`; defined for every temperature.
pub fn derive_icon_hint(temp: Measure) -> (r: String)
    ensures
        r@ == icon_for(temp),
{
    if temp.compare_with(0) < 0 {
        String::from_str("snow")
    } else if temp.compare_with(10) <= 0 {
        String::from_str("mist")
    } else if temp.compare_with(20) < 0 {
        String::from_str("rain")
    } else if temp.compare_with(25) < 0 {
        String::from_str("cloud")
    } else {
        String::from_str("clear")
    }
}

/// `r` is `w` with the first condition's icon replaced by the hint for the
/// temperature; everything else is as in `w`.
pub open spec fn is_enriched_from(r: WeatherResponse, w: WeatherResponse) -> bool {
    &&& r.main == w.main
    &&& r.wind == w.wind
    &&& r.name@ == w.name@
    &&& r.weather@.len() == w.weather@.len()
    &&& r.weather@[0].icon@ == icon_for(w.main.temp)
    &&& r.weather@[0].description@ == w.weather@[0].description@
    &&& forall|i: int|
        1 <= i < r.weather@.len() ==> (#[trigger] r.weather@[i]).description@
            == w.weather@[i].description@ && r.weather@[i].icon@ == w.weather@[i].icon@
}

/// Overwrites the first condition's icon with the hint for the temperature.
pub fn enrich(response: &mut WeatherResponse)
    requires
        old(response).weather@.len() > 0,
    ensures
        is_enriched_from(*final(response), *old(response)),
{
    let hint = derive_icon_hint(response.main.temp);
    let first = response.weather.remove(0);
    let updated = Weather { description: first.description, icon: hint };
    response.weather.insert(0, updated);
    assert forall|i: int| 1 <= i < response.weather@.len() implies (#[trigger] response.weather@[
        i]).description@ == old(response).weather@[i].description@
        && response.weather@[i].icon@ == old(response).weather@[i].icon@ by {
        assert(response.weather@[i] == old(response).weather@[i]);
    }
}

} // verus!
