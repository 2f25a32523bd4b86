use battlement_flatbuffers::geometry::{
    current_value, finite_values, result, validate_batch, GeometryObservationBatchTable,
    GeometryObservationValueTable, GeometryResultTable, GeometryValueTable,
    PresentationWorkGeometryTable, RectTable, WorldPointGeometryTable, WorldRestBoundsGeometryTable,
};
use battlement_flatbuffers::{GeometryObservationBatchView, GeometryObservationResultView, GeometryValueView};

fn bits(x: f64) -> u64 {
    x.to_bits()
}

fn work(queued: u32) -> GeometryResultTable {
    GeometryResultTable::Current(Some(GeometryValueTable::PresentationWork(Some(
        PresentationWorkGeometryTable { queued_batches: queued, blocking_operations: 1, paused_scopes: 0 },
    ))))
}

fn entry(id: u8, result: GeometryResultTable) -> GeometryObservationValueTable {
    GeometryObservationValueTable { observation_id: [id; 16], result }
}

fn batch_error(changed: Vec<GeometryObservationValueTable>) -> String {
    let t = GeometryObservationBatchTable { generation: 1, changed };
    validate_batch(&t).unwrap_err().message().to_string()
}

#[test]
fn reads_a_batch_of_distinct_observations() {
    let t = GeometryObservationBatchTable {
        generation: 5,
        changed: vec![entry(1, work(3)), entry(2, GeometryResultTable::Unavailable(Some(2)))],
    };
    let view = GeometryObservationBatchView::new(t).unwrap();
    assert_eq!(view.generation(), 5);
    assert_eq!(view.changed_count(), 2);
    let first = view.changed(0).unwrap();
    assert_eq!(first.observation_id(), [1; 16]);
    match first.result() {
        GeometryObservationResultView::Current(GeometryValueView::PresentationWork(w)) => {
            assert_eq!(w.queued_batches(), 3);
            assert_eq!(w.blocking_operations(), 1);
            assert_eq!(w.paused_scopes(), 0);
        }
        _ => panic!("unexpected result"),
    }
    match view.changed(1).unwrap().result() {
        GeometryObservationResultView::Unavailable(reason) => assert_eq!(reason, 2),
        _ => panic!("unexpected result"),
    }
    assert!(view.changed(2).is_none());
    assert_eq!(view.changed_values().len(), 2);
}

#[test]
fn refuses_zero_generation() {
    let t = GeometryObservationBatchTable { generation: 0, changed: vec![] };
    assert_eq!(validate_batch(&t).unwrap_err().message(), "geometry generation must be nonzero");
}

#[test]
fn refuses_repeated_and_nil_observations() {
    assert_eq!(
        batch_error(vec![entry(1, work(0)), entry(1, work(0))]),
        "geometry observation UUIDs must be nonzero and unique"
    );
    assert_eq!(
        batch_error(vec![entry(0, work(0))]),
        "geometry observation UUIDs must be nonzero and unique"
    );
}

#[test]
fn refuses_malformed_results() {
    assert_eq!(batch_error(vec![entry(1, GeometryResultTable::Unknown)]), "unknown geometry result union tag");
    assert_eq!(
        batch_error(vec![entry(1, GeometryResultTable::Unavailable(Some(9)))]),
        "unknown geometry-unavailable reason"
    );
    assert_eq!(
        batch_error(vec![entry(1, GeometryResultTable::Current(None))]),
        "current geometry payload is missing"
    );
    assert_eq!(
        batch_error(vec![entry(1, GeometryResultTable::Current(Some(GeometryValueTable::Unknown)))]),
        "unknown geometry value union tag"
    );
}

#[test]
fn checks_world_geometry_numbers() {
    let point = WorldPointGeometryTable {
        x: bits(1.0),
        y: bits(f64::NAN),
        display_id: 0,
        depth: bits(2.0),
        is_inside_viewport: true,
    };
    let value = GeometryValueTable::WorldPoint(Some(point));
    assert_eq!(current_value(&value).err().unwrap().message(), "invalid world-point geometry");
    let point = WorldPointGeometryTable { y: bits(-3.5), ..point };
    let value = GeometryValueTable::WorldPoint(Some(point));
    match current_value(&value).ok().unwrap() {
        GeometryValueView::WorldPoint(p) => assert!(p.is_inside_viewport()),
        _ => panic!("unexpected view"),
    }
    let rest = WorldRestBoundsGeometryTable {
        bound: RectTable { x: bits(0.0), y: bits(0.0), width: bits(-0.0), height: bits(1.0) },
    };
    let value = GeometryValueTable::WorldRestBounds(Some(rest));
    assert_eq!(current_value(&value).err().unwrap().message(), "invalid world-rest-bounds geometry");
    assert!(result(&GeometryResultTable::Unavailable(Some(8))).is_ok());
}

#[test]
fn finite_values_refuses_infinity() {
    assert!(finite_values(&[bits(0.0), bits(-1e300)]).is_ok());
    assert_eq!(
        finite_values(&[bits(1.0), bits(f64::INFINITY)]).unwrap_err().message(),
        "geometry numbers must be finite"
    );
}
