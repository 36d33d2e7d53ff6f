use mediator::toggle::{Accumulator, LoadedToggle, ToggleApp};
use mediator::Mediate;

#[test]
fn base_mediate() {
    assert!(Accumulator::new().mediate(123).mediate(1).total == 124)
}

#[test]
fn option_some_equals_direct() {
    let direct = Accumulator::new().mediate(5);
    let lifted = Accumulator::new().mediate(Some(5));

    assert_eq!(direct.total, lifted.total);
}

#[test]
fn option_none_is_no_op() {
    let app = Accumulator::new().mediate(7).mediate(None::<i32>);

    assert_eq!(app.total, 7);
}

#[test]
fn sequence_folds_in_order() {
    let folded = ToggleApp::new().mediate(vec![
        LoadedToggle { enabled: true },
        LoadedToggle { enabled: false },
    ]);
    let chained = ToggleApp::new()
        .mediate(LoadedToggle { enabled: true })
        .mediate(LoadedToggle { enabled: false });

    assert!(!folded.inited);
    assert_eq!(folded.inited, chained.inited);
}

#[test]
fn sequence_sums_all_modules() {
    let app = Accumulator::new().mediate(vec![1, 2, 3]);

    assert_eq!(app.total, 6);
}

#[test]
fn empty_sequence_is_no_op() {
    let app = Accumulator::new().mediate(9).mediate(Vec::<i32>::new());

    assert_eq!(app.total, 9);
}
