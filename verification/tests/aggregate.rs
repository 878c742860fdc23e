use busmonitor::aggregator::ArrivalAggregator;
use busmonitor::emtmadrid::{ArrivalTime, FetchError};

fn arrival(stop: &str, line: &str, secs: u64) -> ArrivalTime {
    ArrivalTime {
        stop_id: stop.to_string(),
        line: line.to_string(),
        destination: format!("DEST-{}", line),
        seconds_until_arrival: secs,
    }
}

#[test]
fn two_stops_merge_ascending() {
    let results = vec![
        Ok(vec![arrival("874", "31", 120)]),
        Ok(vec![arrival("1455", "138", 90)]),
    ];
    let merged = ArrivalAggregator::merge(results);
    assert_eq!(merged.len(), 2);
    assert_eq!(merged[0].line, "138");
    assert_eq!(merged[0].seconds_until_arrival, 90);
    assert_eq!(merged[1].line, "31");
    assert_eq!(merged[1].seconds_until_arrival, 120);
}

#[test]
fn one_failed_stop_contributes_nothing() {
    let results = vec![
        Err(FetchError::Network),
        Ok(vec![arrival("1455", "138", 300), arrival("1455", "65", 60)]),
    ];
    let merged = ArrivalAggregator::merge(results);
    assert_eq!(merged.len(), 2);
    assert_eq!(merged[0].line, "65");
    assert_eq!(merged[1].line, "138");
}

#[test]
fn all_stops_failed_yields_empty_without_error() {
    let results: Vec<Result<Vec<ArrivalTime>, FetchError>> =
        vec![Err(FetchError::Parse), Err(FetchError::Network)];
    let merged = ArrivalAggregator::merge(results);
    assert!(merged.is_empty());
}

#[test]
fn merging_a_merge_output_again_keeps_the_order() {
    let results = vec![
        Ok(vec![arrival("874", "31", 500), arrival("874", "33", 10)]),
        Ok(vec![arrival("1455", "138", 90)]),
        Err(FetchError::Missing),
    ];
    let once = ArrivalAggregator::merge(results);
    let again = ArrivalAggregator::merge(vec![Ok(once.clone())]);
    assert_eq!(once.len(), again.len());
    for (a, b) in once.iter().zip(again.iter()) {
        assert_eq!(a.stop_id, b.stop_id);
        assert_eq!(a.line, b.line);
        assert_eq!(a.destination, b.destination);
        assert_eq!(a.seconds_until_arrival, b.seconds_until_arrival);
    }
}

#[test]
fn ties_keep_stop_fetch_order() {
    let results = vec![
        Ok(vec![arrival("874", "31", 100)]),
        Ok(vec![arrival("1455", "138", 100)]),
    ];
    let merged = ArrivalAggregator::merge(results);
    assert_eq!(merged[0].stop_id, "874");
    assert_eq!(merged[1].stop_id, "1455");
}

#[test]
fn empty_input_yields_empty() {
    let merged = ArrivalAggregator::merge(Vec::new());
    assert!(merged.is_empty());
}
