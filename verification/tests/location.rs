use weathd::api::Location;

#[test]
fn renders_station_codes() {
    assert_eq!(Location::Metar(String::from("KJFK")).render(), "metar:KJFK");
    assert_eq!(Location::Iata(String::from("DXB")).render(), "iata:DXB");
}

#[test]
fn renders_saved_search() {
    assert_eq!(Location::SearchID(42).render(), "id:42");
    assert_eq!(Location::SearchID(0).render(), "id:0");
}

#[test]
fn renders_auto() {
    assert_eq!(Location::Auto.render(), "auto:ip");
}

#[test]
fn renders_plain_values() {
    assert_eq!(Location::City(String::from("Paris")).render(), "Paris");
    assert_eq!(Location::Post(String::from("SW1")).render(), "SW1");
    assert_eq!(Location::IP(String::from("100.0.0.1")).render(), "100.0.0.1");
    assert_eq!(Location::USZip(10001).render(), "10001");
}

#[test]
fn renders_coordinates() {
    let lat = format!("{}", 48.8567f64);
    let lon = format!("{}", 2.3508f64);
    assert_eq!(Location::Coordinate(lat, lon).render(), "48.8567,2.3508");
}

#[test]
fn default_location_is_auto() {
    assert_eq!(Location::default(), Location::Auto);
}
