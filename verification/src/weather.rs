//! The weather lookup: the request's address and the answer to a place it cannot find.
use vstd::prelude::*;
use vstd::string::*;

verus! {

/// Where a forecast is for.
#[derive(Debug, Clone)]
pub struct Location {
    pub name: String,
    pub region: String,
}

/// The lookup found no place by the name asked for.
#[derive(Debug, Clone)]
pub struct CouldNotFindLocation {
    place: String,
}

/// The endpoint of the current-weather service.
pub open spec fn weather_endpoint() -> Seq<char> {
    "https://api.weatherapi.com/v1/current.json"@
}

/// The address that asks for the current weather at a place.
pub open spec fn forecast_url_text(place: Seq<char>, api_key: Seq<char>) -> Seq<char> {
    weather_endpoint() + "?key="@ + api_key + "&q="@ + place
}

impl CouldNotFindLocation {
    /// The place that was asked for.
    pub closed spec fn place_text(self) -> Seq<char> {
        self.place@
    }

    /// The failure to find `place`.
    pub fn new(place: &str) -> (e: CouldNotFindLocation)
        ensures
            e.place_text() == place@,
    {
        CouldNotFindLocation { place: String::from_str(place) }
    }

    /// The place that was asked for.
    pub fn place(&self) -> (p: &str)
        ensures
            p@ == self.place_text(),
    {
        self.place.as_str()
    }

    /// The text of the failure: `Could not find location '<place>'`.
    pub fn message(&self) -> (m: String)
        ensures
            m@ == "Could not find location '"@ + self.place_text() + "'"@,
    {
        let mut m = String::from_str("Could not find location '");
        m.append(self.place.as_str());
        m.append("'");
        m
    }
}

/// The address that asks for the current weather at `place` with the given key.
pub fn forecast_url(place: &str, api_key: &str) -> (u: String)
    ensures
        u@ == forecast_url_text(place@, api_key@),
{
    let mut u = String::from_str("https://api.weatherapi.com/v1/current.json");
    u.append("?key=");
    u.append(api_key);
    u.append("&q=");
    u.append(place);
    u
}

/// The verdict on the service's answer: a status other than success means the place was
/// not found.
pub fn check_status(success: bool, place: &str) -> (r: Result<(), CouldNotFindLocation>)
    ensures
        success <==> r is Ok,
        r matches Err(e) ==> e.place_text() == place@,
{
    if success {
        Ok(())
    } else {
        Err(CouldNotFindLocation::new(place))
    }
}

} // verus!
