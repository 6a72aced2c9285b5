use opqueue::operation::{Direction, Operation};
use opqueue::paths::{handle_file_opening, OpenedFile, PathKind};
use opqueue::registry::Registry;

fn file(path: &str) -> OpenedFile {
    handle_file_opening(path, false, PathKind::Missing).expect("a path that ends in .bmp")
}

#[test]
fn a_registry_begins_empty() {
    let registry = Registry::new();
    assert!(registry.files().is_empty());
    assert!(registry.operations().is_empty());
}

#[test]
fn opening_records_the_file_and_an_open_of_it() {
    let mut registry = Registry::new();
    registry.record_open(file("a.bmp"));
    registry.record_open(file("b.bmp"));
    assert_eq!(registry.files().len(), 2);
    assert_eq!(registry.files()[0].path(), "a.bmp");
    assert_eq!(registry.files()[1].path(), "b.bmp");
    assert_eq!(registry.operations(), &vec![Operation::Open(0), Operation::Open(1)]);
}

#[test]
fn saving_records_the_file_and_a_save_of_the_first_operation() {
    let mut registry = Registry::new();
    registry.record_open(file("a.bmp"));
    registry.record_open(file("b.bmp"));
    registry.record_save(file("out.bmp"));
    assert_eq!(registry.files().len(), 3);
    assert_eq!(
        registry.operations(),
        &vec![Operation::Open(0), Operation::Open(1), Operation::Save(0, 2)]
    );
}

#[test]
fn saving_into_an_empty_log_names_the_save_itself() {
    let mut registry = Registry::new();
    registry.record_save(file("out.bmp"));
    assert_eq!(registry.operations(), &vec![Operation::Save(0, 0)]);
}

#[test]
fn an_operation_is_recorded_only_if_it_fits() {
    let mut registry = Registry::new();
    assert!(!registry.record(Operation::Merge(0, 0, Direction::Horizontal)));
    assert!(!registry.record(Operation::Crop(0, 1, 2, 3, 4)));
    assert!(!registry.record(Operation::Open(0)));
    assert!(registry.operations().is_empty());
    registry.record_open(file("a.bmp"));
    assert!(registry.record(Operation::Crop(0, 1, 2, 3, 4)));
    assert!(registry.record(Operation::Merge(0, 1, Direction::Vertical)));
    assert!(!registry.record(Operation::Merge(0, 3, Direction::Vertical)));
    assert!(!registry.record(Operation::Open(1)));
    assert_eq!(
        registry.operations(),
        &vec![
            Operation::Open(0),
            Operation::Crop(0, 1, 2, 3, 4),
            Operation::Merge(0, 1, Direction::Vertical)
        ]
    );
    assert_eq!(registry.files().len(), 1);
}
