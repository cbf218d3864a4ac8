use alfred::json::Json;
use alfred::registry::Args;
use alfred::weather::WeatherService;

fn s(x: &str) -> Json {
    Json::Str(x.to_string())
}

fn obj(m: Vec<(&str, Json)>) -> Json {
    Json::Object(m.into_iter().map(|(k, v)| (k.to_string(), v)).collect())
}

#[test]
fn weather_urls() {
    assert_eq!(
        WeatherService::geocoding_url("Paris"),
        "https://geocoding-api.open-meteo.com/v1/search?name=Paris&count=10&language=fr&format=json"
    );
    assert_eq!(
        WeatherService::forecast_url("48.85", "2.35", None),
        "https://api.open-meteo.com/v1/forecast?latitude=48.85&longitude=2.35&current=temperature_2m,weather_code,relative_humidity_2m,wind_speed_10m,apparent_temperature"
    );
    assert_eq!(
        WeatherService::forecast_url("1", "2", Some("2026-08-15")),
        "https://api.open-meteo.com/v1/forecast?latitude=1&longitude=2&daily=temperature_2m_max,temperature_2m_min,weather_code,relative_humidity_2m_max,wind_speed_10m_max,apparent_temperature_max&start_date=2026-08-15&end_date=2026-08-15&timezone=auto"
    );
}

#[test]
fn first_place_of_a_geocoding_answer() {
    let geo = obj(vec![("results", Json::Array(vec![
        obj(vec![("name", s("Paris")), ("country", s("France")), ("latitude", Json::Number("48.85".to_string())), ("longitude", Json::Number("2.35".to_string()))]),
        obj(vec![("name", s("Paris")), ("country", s("United States"))]),
    ]))]);
    let p = WeatherService::first_place(&geo, "paris").unwrap();
    assert_eq!((p.name.as_str(), p.country.as_str()), ("Paris", "France"));
    assert_eq!((p.latitude.as_str(), p.longitude.as_str()), ("48.85", "2.35"));
    let bare = obj(vec![("results", Json::Array(vec![obj(vec![])]))]);
    let q = WeatherService::first_place(&bare, "Nowhere").unwrap();
    assert_eq!((q.name.as_str(), q.country.as_str(), q.latitude.as_str(), q.longitude.as_str()), ("Nowhere", "?", "0", "0"));
    assert_eq!(WeatherService::first_place(&obj(vec![]), "Atlantis").err(), Some("City 'Atlantis' not found".to_string()));
    assert_eq!(
        WeatherService::first_place(&obj(vec![("results", Json::Array(vec![]))]), "X").err(),
        Some("City 'X' not found".to_string())
    );
}

#[test]
fn weather_report_text() {
    assert_eq!(WeatherService::report("Paris", "France", "{\"t\":1}", None), "City found : Paris, France\n{\"t\":1}, ?");
    assert_eq!(WeatherService::report("Lyon", "France", "{}", Some("2026-01-01")), "City found : Lyon, France\n{}, 2026-01-01");
}

#[test]
fn weather_arguments() {
    let a = |v: Vec<(&str, &str)>| Args { entries: v.into_iter().map(|(k, x)| (k.to_string(), x.to_string())).collect() };
    assert_eq!(WeatherService::weather_args(&a(vec![("city", "Paris"), ("date", "now")])), Ok(("Paris".to_string(), None)));
    assert_eq!(
        WeatherService::weather_args(&a(vec![("city", "Paris"), ("date", "2026-02-02")])),
        Ok(("Paris".to_string(), Some("2026-02-02".to_string())))
    );
    assert_eq!(WeatherService::weather_args(&a(vec![("city", "Nice")])), Ok(("Nice".to_string(), None)));
    assert_eq!(WeatherService::weather_args(&a(vec![])), Err("Missing argument: city".to_string()));
}
