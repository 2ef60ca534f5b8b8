use tws::service::{forecast_url, geocoding_url, pick_result};

#[test]
fn geocoding_address_encodes_the_name() {
    assert_eq!(
        geocoding_url("New York"),
        "https://geocoding-api.open-meteo.com/v1/search?name=New%20York&count=1"
    );
    assert_eq!(
        geocoding_url("São Paulo"),
        format!(
            "https://geocoding-api.open-meteo.com/v1/search?name={}&count=1",
            urlencoding::encode("São Paulo")
        )
    );
    assert_eq!(
        geocoding_url("a&b ~x-y_z.ü"),
        "https://geocoding-api.open-meteo.com/v1/search?name=a%26b%20~x-y_z.%C3%BC&count=1"
    );
}

#[test]
fn forecast_address_carries_the_query() {
    let base = "https://api.open-meteo.com/v1/forecast";
    let params = [
        ("latitude", "59.91".to_string()),
        ("longitude", "10.75".to_string()),
        (
            "current",
            "temperature_2m,relative_humidity_2m,apparent_temperature,precipitation,rain,snowfall,weather_code,cloud_cover,wind_speed_10m,wind_direction_10m,wind_gusts_10m"
                .to_string(),
        ),
        ("timezone", "auto".to_string()),
    ];
    let expected = format!("{}?{}", base, serde_qs::to_string(&params).unwrap());
    assert_eq!(forecast_url(base, "59.91", "10.75"), expected);
    let other = forecast_url(base, "-33.87", "151.21");
    assert!(other.starts_with("https://api.open-meteo.com/v1/forecast?"));
    assert!(other.contains("-33.87"));
    assert!(other.contains("151.21"));
}

#[test]
fn last_place_found_is_chosen() {
    assert_eq!(pick_result(Some(vec![1, 2, 3]), "Oslo"), Ok(3));
    assert_eq!(pick_result(Some(vec![7]), "Oslo"), Ok(7));
}

#[test]
fn no_place_found_is_an_error() {
    assert_eq!(
        pick_result::<u8>(Some(vec![]), "Atlantis"),
        Err("Location not found: Atlantis".to_string())
    );
    assert_eq!(pick_result::<u8>(None, "Nowhere"), Err("Location not found: Nowhere".to_string()));
}
