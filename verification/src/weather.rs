//! Weather lookups: the geocoding and forecast queries and the report handed to the model.
use crate::gmail::{array_at, array_at_exec, str_at_or};
use crate::json::{at, str_or, Json, JsonV};
use crate::registry::Args;
use crate::text::{cat, owned, push_str, str_eq};
use vstd::prelude::*;

verus! {

/// The geocoding query of a city.
pub open spec fn geocoding_url_text(city: Seq<char>) -> Seq<char> {
    "https://geocoding-api.open-meteo.com/v1/search?name="@ + city + "&count=10&language=fr&format=json"@
}

/// The forecast query at a place: the daily forecast of `date`, or the current weather.
pub open spec fn forecast_url_text(lat: Seq<char>, lon: Seq<char>, date: Option<Seq<char>>) -> Seq<char> {
    match date {
        Some(d) => "https://api.open-meteo.com/v1/forecast?latitude="@ + lat + "&longitude="@ + lon
            + "&daily=temperature_2m_max,temperature_2m_min,weather_code,relative_humidity_2m_max,wind_speed_10m_max,apparent_temperature_max&start_date="@
            + d + "&end_date="@ + d + "&timezone=auto"@,
        None => "https://api.open-meteo.com/v1/forecast?latitude="@ + lat + "&longitude="@ + lon
            + "&current=temperature_2m,weather_code,relative_humidity_2m,wind_speed_10m,apparent_temperature"@,
    }
}

/// The number text of a coordinate: the value's text where it is a number, else `0`.
pub open spec fn coordinate_of(v: JsonV) -> Seq<char> {
    match v {
        JsonV::Number(t) => t,
        _ => "0"@,
    }
}

/// The place that a geocoding answer gives first.
pub struct Place {
    pub name: String,
    pub country: String,
    /// The latitude's number text (`0` where it is no number).
    pub latitude: String,
    /// The longitude's number text (`0` where it is no number).
    pub longitude: String,
}

/// The weather service.
pub struct WeatherService;

fn coordinate_at(j: &Json, key: &str) -> (r: String)
    ensures
        r@ == coordinate_of(at(j@, key@)),
{
    match j.get(key) {
        Some(Json::Number(t)) => owned(t.as_str()),
        _ => owned("0"),
    }
}

impl WeatherService {
    /// The geocoding query of a city.
    pub fn geocoding_url(city: &str) -> (r: String)
        ensures
            r@ == geocoding_url_text(city@),
    {
        let mut r = owned("https://geocoding-api.open-meteo.com/v1/search?name=");
        push_str(&mut r, city);
        push_str(&mut r, "&count=10&language=fr&format=json");
        r
    }

    /// The forecast query at a place (coordinates as written in the query).
    pub fn forecast_url(lat: &str, lon: &str, date: Option<&str>) -> (r: String)
        ensures
            r@ == forecast_url_text(lat@, lon@, match date { Some(d) => Some(d@), None => None }),
    {
        let mut r = owned("https://api.open-meteo.com/v1/forecast?latitude=");
        push_str(&mut r, lat);
        push_str(&mut r, "&longitude=");
        push_str(&mut r, lon);
        match date {
            Some(d) => {
                push_str(&mut r, "&daily=temperature_2m_max,temperature_2m_min,weather_code,relative_humidity_2m_max,wind_speed_10m_max,apparent_temperature_max&start_date=");
                push_str(&mut r, d);
                push_str(&mut r, "&end_date=");
                push_str(&mut r, d);
                push_str(&mut r, "&timezone=auto");
            },
            None => {
                push_str(&mut r, "&current=temperature_2m,weather_code,relative_humidity_2m,wind_speed_10m,apparent_temperature");
            },
        }
        r
    }

    /// The first place of a geocoding answer: its name (the city asked for when absent), its
    /// country (`?` when absent) and its coordinates (`0` where one is no number);
    /// `City '<city>' not found` when there is no result.
    pub fn first_place(geo: &Json, city: &str) -> (r: Result<Place, String>)
        ensures
            array_at(geo@, "results"@).len() == 0 ==> r is Err && r->Err_0@ == "City '"@ + city@ + "' not found"@,
            array_at(geo@, "results"@).len() > 0 ==> r is Ok && ({
                let first = array_at(geo@, "results"@)[0];
                let p = r->Ok_0;
                &&& p.name@ == str_or(at(first, "name"@), city@)
                &&& p.country@ == str_or(at(first, "country"@), "?"@)
                &&& p.latitude@ == coordinate_of(at(first, "latitude"@))
                &&& p.longitude@ == coordinate_of(at(first, "longitude"@))
            }),
    {
        match array_at_exec(geo, "results") {
            Some(results) => {
                if results.len() > 0 {
                    let first = &results[0];
                    return Ok(Place {
                        name: str_at_or(first, "name", city),
                        country: str_at_or(first, "country", "?"),
                        latitude: coordinate_at(first, "latitude"),
                        longitude: coordinate_at(first, "longitude"),
                    });
                }
            },
            None => {},
        }
        let mut e = owned("City '");
        push_str(&mut e, city);
        push_str(&mut e, "' not found");
        Err(e)
    }

    /// The report handed to the model: the place found, the forecast answer and the date
    /// (`?` for the current weather).
    pub fn report(name: &str, country: &str, weather_body: &str, date: Option<&str>) -> (r: String)
        ensures
            r@ == "City found : "@ + name@ + ", "@ + country@ + "\n"@ + weather_body@ + ", "@
                + match date { Some(d) => d@, None => "?"@ },
    {
        let mut r = owned("City found : ");
        push_str(&mut r, name);
        push_str(&mut r, ", ");
        push_str(&mut r, country);
        push_str(&mut r, "\n");
        push_str(&mut r, weather_body);
        push_str(&mut r, ", ");
        match date {
            Some(d) => push_str(&mut r, d),
            None => push_str(&mut r, "?"),
        }
        r
    }

    /// The city and date of a `weather` call: the city is required; a missing date or `now`
    /// asks for the current weather.
    pub fn weather_args(args: &Args) -> (r: Result<(String, Option<String>), String>)
        ensures
            args.arg("city"@) is None ==> r is Err && r->Err_0@ == "Missing argument: "@ + "city"@,
            args.arg("city"@) matches Some(c) ==> r is Ok && r->Ok_0.0@ == c && match args.arg("date"@) {
                Some(d) => if d == "now"@ { r->Ok_0.1 is None } else { r->Ok_0.1 matches Some(x) && x@ == d },
                None => r->Ok_0.1 is None,
            },
    {
        let date_arg: Option<String> = match args.get("date") {
            Some(d) => if str_eq(d.as_str(), "now") { None } else { Some(owned(d.as_str())) },
            None => None,
        };
        let city = match args.get("city") {
            Some(c) => owned(c.as_str()),
            None => { return Err(cat("Missing argument: ", "city")); },
        };
        Ok((city, date_arg))
    }
}

} // verus!
