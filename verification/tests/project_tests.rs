use classification_bench::error::BenchError;
use classification_bench::project::{project, validate};
use classification_bench::record::Record;

fn record(values: [f32; 4], species: &str) -> Record {
    Record {
        sepal_length: values[0].to_bits(),
        sepal_width: values[1].to_bits(),
        petal_length: values[2].to_bits(),
        petal_width: values[3].to_bits(),
        species: species.to_string(),
    }
}

fn sample() -> Vec<Record> {
    vec![
        record([5.1, 3.5, 1.4, 0.2], "setosa"),
        record([6.3, 3.3, 6.0, 2.5], "virginica"),
        record([7.0, 3.2, 4.7, 1.4], "versicolor"),
    ]
}

#[test]
fn project_is_row_major_and_aligned() {
    let p = project(&sample()).unwrap();
    assert_eq!(p.features.rows, 3);
    let values: Vec<f32> = p.features.data.iter().map(|b| f32::from_bits(*b)).collect();
    assert_eq!(values, vec![5.1, 3.5, 1.4, 0.2, 6.3, 3.3, 6.0, 2.5, 7.0, 3.2, 4.7, 1.4]);
    assert_eq!(p.labels, vec![0, 2, 1]);
}

#[test]
fn matrix_cells_are_found_by_row_and_column() {
    let records = sample();
    let p = project(&records).unwrap();
    for (i, r) in records.iter().enumerate() {
        let row = r.into_feature_vector();
        for j in 0..4 {
            assert_eq!(p.features.get(i, j), row[j]);
        }
        assert_eq!(Some(p.labels[i]), r.into_labels());
    }
    assert_eq!(f32::from_bits(p.features.get(1, 2)), 6.0);
}

#[test]
fn project_of_no_records_is_a_zero_row_matrix() {
    let p = project(&Vec::new()).unwrap();
    assert_eq!(p.features.rows, 0);
    assert!(p.features.data.is_empty());
    assert!(p.labels.is_empty());
}

#[test]
fn project_names_the_first_unknown_label() {
    let mut records = sample();
    records.push(record([1.0, 1.0, 1.0, 1.0], "chimera"));
    records.push(record([1.0, 1.0, 1.0, 1.0], "hydra"));
    assert_eq!(
        project(&records),
        Err(BenchError::UnknownLabel { row: 3, label: "chimera".to_string() })
    );
}

#[test]
fn validate_accepts_known_labels() {
    assert_eq!(validate(&sample()), Ok(()));
    assert_eq!(validate(&Vec::new()), Ok(()));
}

#[test]
fn validate_refuses_an_unknown_label() {
    let records = vec![record([5.1, 3.5, 1.4, 0.2], "chimera"), record([1.0, 2.0, 3.0, 4.0], "setosa")];
    assert_eq!(
        validate(&records),
        Err(BenchError::UnknownLabel { row: 0, label: "chimera".to_string() })
    );
}
