//! A plain-text description of every request route and its parameters,
//! served at the help endpoint.
use vstd::prelude::*;

use std::collections::HashMap;

verus! {

/// Collect label/description pairs into a map.
fn info_map(pairs: Vec<(&str, &str)>) -> HashMap<String, String> {
    let mut info: HashMap<String, String> = HashMap::new();
    let n = pairs.len();
    let mut i: usize = 0;
    while i < n
        decreases n - i,
    {
        if i < pairs.len() {
            let pair = pairs[i];
            info.insert(pair.0.to_owned(), pair.1.to_owned());
        }
        i = i + 1;
    }
    info
}

/// The route descriptions of the request surface, keyed by route.
pub fn endpoint_help() -> HashMap<String, HashMap<String, String>> {
    let mut help: HashMap<String, HashMap<String, String>> = HashMap::new();
    let mut jd: Vec<(&str, &str)> = Vec::new();
    jd.push(("description", "Julian day, unix time stamp and UTC date-time string"));
    jd.push((":dateref", "either ISO date string with optional time or julian day"));
    help.insert("/jd/:datetef".to_owned(), info_map(jd));
    let mut positions: Vec<(&str, &str)> = Vec::new();
    positions.push(("description", "Longitudes of referenced celestial bodies and the ascendant"));
    positions.push(("dt", "Date"));
    positions.push(("loc", "lat,lng(,alt) coordinates"));
    positions.push(("bodies", "comma-separated list of required bodies, all or core"));
    positions.push(("topo", "0 = geocentric, 1 topocentric"));
    positions.push(("eq", "0 = ecliptic, 1 equatorial"));
    help.insert("/positions".to_owned(), info_map(positions));
    let mut progress: Vec<(&str, &str)> = Vec::new();
    progress.push(("description", "Progress of celestial body positions"));
    progress.push(("dt", "start date"));
    progress.push((
        "loc",
        "lat,lng(,alt) coordinates, required for topocentric, e.g. &loc=45.336,13.278,50 or just &loc=45.336,13.278",
    ));
    progress.push(("bodies", "comma-separated list of required bodies, all or core"));
    progress.push((
        "days",
        "number of days worth of transitions, default 28, e.g. 366 will return a whole year",
    ));
    progress.push(("pd", "number of samples per day, default 2, i.e. every 12 hours"));
    progress.push((
        "dspan",
        "number of days per sample, overrides pd above for longer spans, max 1000 samples",
    ));
    progress.push(("topo", "0 = geocentric, 1 topocentric"));
    progress.push(("eq", "0 = ecliptic only, 1 equatorial only"));
    help.insert("/progress".to_owned(), info_map(progress));
    let mut chart_data: Vec<(&str, &str)> = Vec::new();
    chart_data.push(("dt", "Date"));
    chart_data.push((
        "loc",
        "lat,lng(,alt) coordinates, e.g. &loc=45.336,13.278,50 or just &loc=45.336,13.278",
    ));
    chart_data.push(("bodies", "comma-separated list of required bodies, all or core"));
    chart_data.push(("topo", "0 = geocentric, 1 topocentric"));
    chart_data.push(("eq", "0 = ecliptic only, 1 equatorial only"));
    chart_data.push(("ct", "include transits for the referenced bodies"));
    chart_data.push((
        "hsys",
        "Comma-separated list of house system letters or `all` for all systems, default W (whole house system)",
    ));
    chart_data.push((
        "aya",
        "comma-separated list of available ayanamshas (see below). These are added as separate data-set and should be applied in a post processing stage via simple subtraction from the lng, ascendant or rectAscension values, which are always tropical (they may automatically applied in /positions)",
    ));
    chart_data.push((
        "p2",
        "include progress longitudes based on 1 day = 1 year from referenced time. The progress day is mapped to years",
    ));
    chart_data.push(("p2yrs", "Number of years to capture for P2 data"));
    chart_data.push(("p2ago", "Number of years ago for P2 start year"));
    chart_data.push(("p2start", "Explcit start year for p2 data (alternative to above"));
    chart_data.push(("p2py", "Number of p2 sample per year, default 2."));
    chart_data.push((
        "p2bodies",
        "Bodies to captured for P2. These never include Uranus, Neptune, Pluto or asteroid. Narrow range to limit the payload",
    ));
    help.insert("/chart-data".to_owned(), info_map(chart_data));
    let mut transitions: Vec<(&str, &str)> = Vec::new();
    transitions.push(("dt", "current date-time"));
    transitions.push(("loc", "current lat,lng(,alt) coordinates"));
    transitions.push(("bodies", "comma-separated list of required bodies, all or core"));
    help.insert("/transitions".to_owned(), info_map(transitions));
    let mut sun_transitions: Vec<(&str, &str)> = Vec::new();
    sun_transitions.push(("dateref", "current date-time"));
    sun_transitions.push(("loc", "current lat,lng(,alt) coordinates"));
    sun_transitions.push((
        "days",
        "number of days worth of transitions, default 28, e.g. 366 will return a whole year",
    ));
    sun_transitions.push(("iso", "0 = show julian days (default), 1 = show ISO datetime UTC"));
    help.insert("/sun-transitions".to_owned(), info_map(sun_transitions));
    let mut transposed: Vec<(&str, &str)> = Vec::new();
    transposed.push(("dt", "current date-time"));
    transposed.push(("loc", "current lat,lng(,alt) coordinates"));
    transposed.push(("bodies", "comma-separated list of required bodies, all or core"));
    transposed.push(("dt2", "date of source chart"));
    transposed.push(("loc2", "coordinates of source chart"));
    transposed.push(("iso", "0 = show julian days (default), 1 = show ISO datetime UTC"));
    help.insert("/transposed-transitions".to_owned(), info_map(transposed));
    let mut pheno: Vec<(&str, &str)> = Vec::new();
    pheno.push(("dt", "current date-time"));
    pheno.push(("loc", "current lat,lng(,alt) coordinates"));
    pheno.push(("bodies", "comma-separated list of required bodies, all or core"));
    help.insert("/pheno".to_owned(), info_map(pheno));
    help
}

} // verus!
