use osrm::algorithm::Algorithm;
use osrm::errors::OsrmError;
use osrm::osrm_engine::{
    derive_simple_route, has_table_shape, initialization_outcome, prepare_route,
    prepare_simple_route, prepare_table, prepare_trip, validate_path,
};
use osrm::point::Point;
use osrm::route::{Leg, Route, RouteRequest, RouteResponse};
use osrm::tables::{TableRequest, TableResponse};
use osrm::trip::TripRequest;

fn paris() -> Point {
    Point { latitude: 48_856_600, longitude: 2_352_200 }
}

fn marseille() -> Point {
    Point { latitude: 43_296_500, longitude: 5_369_800 }
}

fn lyon() -> Point {
    Point { latitude: 45_764_000, longitude: 4_835_700 }
}

#[test]
fn table_plan_concatenates_and_partitions() {
    let request = TableRequest {
        sources: vec![paris()],
        destinations: vec![marseille(), lyon()],
    };
    let plan = prepare_table(&request).expect("well-formed request must produce a plan");
    assert_eq!(
        plan.coordinates,
        vec![2_352_200, 48_856_600, 5_369_800, 43_296_500, 4_835_700, 45_764_000]
    );
    assert_eq!(plan.source_indices, vec![0]);
    assert_eq!(plan.destination_indices, vec![1, 2]);
}

#[test]
fn table_plan_round_trips_to_the_original_roles() {
    let sources = vec![paris(), lyon()];
    let destinations = vec![marseille()];
    let request = TableRequest { sources: sources.clone(), destinations: destinations.clone() };
    let plan = prepare_table(&request).expect("well-formed request must produce a plan");
    let points = osrm::marshal::unflatten_coordinates(&plan.coordinates);
    let recovered_sources: Vec<Point> =
        plan.source_indices.iter().map(|&i| points[i]).collect();
    let recovered_destinations: Vec<Point> =
        plan.destination_indices.iter().map(|&i| points[i]).collect();
    assert_eq!(recovered_sources, sources);
    assert_eq!(recovered_destinations, destinations);
}

#[test]
fn table_with_empty_sources_is_rejected() {
    let request = TableRequest { sources: vec![], destinations: vec![marseille()] };
    let r = prepare_table(&request);
    assert!(matches!(r, Err(OsrmError::InvalidTableArgument)));
}

#[test]
fn table_with_empty_destinations_is_rejected() {
    let request = TableRequest { sources: vec![paris()], destinations: vec![] };
    let r = prepare_table(&request);
    assert!(matches!(r, Err(OsrmError::InvalidTableArgument)));
}

#[test]
fn route_with_empty_points_is_rejected() {
    let request = RouteRequest { points: vec![] };
    let r = prepare_route(&request);
    assert!(matches!(r, Err(OsrmError::InvalidTableArgument)));
}

#[test]
fn trip_with_empty_points_is_rejected() {
    let request = TripRequest { points: vec![] };
    let r = prepare_trip(&request);
    assert!(matches!(r, Err(OsrmError::InvalidTableArgument)));
}

#[test]
fn route_points_are_flattened_in_order() {
    let request = RouteRequest { points: vec![paris(), marseille()] };
    let coords = prepare_route(&request).expect("non-empty request must flatten");
    assert_eq!(coords, vec![2_352_200, 48_856_600, 5_369_800, 43_296_500]);
}

#[test]
fn simple_route_pair_is_a_two_point_route() {
    let coords = prepare_simple_route(paris(), marseille());
    let request = RouteRequest { points: vec![paris(), marseille()] };
    assert_eq!(coords, prepare_route(&request).unwrap());
}

fn one_route_response() -> RouteResponse {
    RouteResponse {
        code: "Ok".to_string(),
        routes: vec![Route {
            legs: vec![Leg {
                steps: vec![],
                weight: 27_871_400,
                summary: String::new(),
                duration: 27_871_400,
                distance: 773_512_300,
            }],
            weight_name: "routability".to_string(),
            geometry: String::new(),
            weight: 27_871_400,
            duration: 27_871_400,
        }],
        waypoints: vec![],
    }
}

#[test]
fn simple_route_takes_first_leg_of_first_route() {
    let response = one_route_response();
    let simple = derive_simple_route(response).expect("a returned route must project");
    assert_eq!(simple.code, "Ok");
    assert_eq!(simple.distance, 773_512_300);
    assert_eq!(simple.durations, 27_871_400);
}

#[test]
fn simple_route_with_zero_routes_is_api_error() {
    let response = RouteResponse { code: "Ok".to_string(), routes: vec![], waypoints: vec![] };
    let r = derive_simple_route(response);
    match r {
        Err(OsrmError::ApiError(message)) => {
            assert_eq!(message, "No route were returned between those 2 points");
        },
        _ => panic!("zero routes must fail with ApiError"),
    }
}

#[test]
fn table_shape_matches_request_dimensions() {
    let response = TableResponse {
        code: "Ok".to_string(),
        destinations: vec![],
        durations: vec![vec![Some(17_082_000), Some(23_251_000)]],
        sources: vec![],
    };
    assert!(has_table_shape(&response, 1, 2));
    assert!(!has_table_shape(&response, 2, 1));
    assert!(!has_table_shape(&response, 1, 1));
}

#[test]
fn null_handle_is_initialization_error() {
    let r = initialization_outcome(false);
    assert!(matches!(r, Err(OsrmError::Initialization)));
    assert!(initialization_outcome(true).is_ok());
}

#[test]
fn path_with_embedded_nul_is_invalid() {
    let r = validate_path("/data/fran\0ce.osrm");
    match r {
        Err(OsrmError::InvalidPath(path)) => assert_eq!(path, "/data/fran\0ce.osrm"),
        _ => panic!("embedded NUL must be rejected"),
    }
    assert!(validate_path("/data/france.osrm").is_ok());
    assert!(validate_path("").is_ok());
}

#[test]
fn algorithm_tokens_match_native_names() {
    assert_eq!(Algorithm::MLD.as_str(), "MLD");
    assert_eq!(Algorithm::CH.as_str(), "CH");
}
