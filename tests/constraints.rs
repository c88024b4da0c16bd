use schtest::constraints::{ConstraintError, Constraints, Topology};

fn machine() -> Topology {
    Topology { logical_cpus: 8, complexes: 2, nodes: 1 }
}

#[test]
fn empty_constraints_pass() {
    assert_eq!(Constraints::new().check(&machine(), &None), Ok(()));
}

#[test]
fn cpu_bounds() {
    let t = machine();
    assert_eq!(Constraints::new().with_min_cpus(16).check(&t, &None), Err(ConstraintError::InsufficientCpus));
    assert_eq!(Constraints::new().with_max_cpus(4).check(&t, &None), Err(ConstraintError::TooManyCpus));
    assert_eq!(Constraints::new().with_min_cpus(8).with_max_cpus(8).check(&t, &None), Ok(()));
}

#[test]
fn complex_bounds() {
    let t = machine();
    assert_eq!(
        Constraints::new().with_min_complexes(3).check(&t, &None),
        Err(ConstraintError::InsufficientComplexes)
    );
    assert_eq!(
        Constraints::new().with_max_complexes(1).check(&t, &None),
        Err(ConstraintError::TooManyComplexes)
    );
}

#[test]
fn node_bounds() {
    let t = machine();
    assert_eq!(Constraints::new().with_min_nodes(2).check(&t, &None), Err(ConstraintError::InsufficientNodes));
    assert_eq!(Constraints::new().with_max_nodes(0).check(&t, &None), Err(ConstraintError::TooManyNodes));
}

#[test]
fn first_failing_bound_decides() {
    let c = Constraints::new().with_max_nodes(0).with_min_cpus(100);
    assert_eq!(c.check(&machine(), &None), Err(ConstraintError::InsufficientCpus));
}

#[test]
fn excluded_scheduler() {
    let c = Constraints::new().with_excluded_schedulers(vec!["scx_a".to_string(), "scx_b".to_string()]);
    assert_eq!(c.check(&machine(), &Some("scx_b".to_string())), Err(ConstraintError::SchedulerExcluded));
    assert_eq!(c.check(&machine(), &Some("scx_c".to_string())), Ok(()));
    assert_eq!(c.check(&machine(), &None), Ok(()));
}

#[test]
fn required_scheduler() {
    let c = Constraints::new().with_required_schedulers(vec!["scx_a".to_string()]);
    assert_eq!(c.check(&machine(), &Some("scx_a".to_string())), Ok(()));
    assert_eq!(c.check(&machine(), &None), Err(ConstraintError::SchedulerNotFound));
    assert_eq!(ConstraintError::SchedulerNotFound.message(), "required scheduler not found");
}

#[test]
fn empty_name_stands_for_no_scheduler() {
    let c = Constraints::new().with_required_schedulers(vec!["".to_string()]);
    assert_eq!(c.check(&machine(), &None), Ok(()));
}

#[test]
fn excluded_is_checked_before_required() {
    let c = Constraints::new()
        .with_required_schedulers(vec!["scx_a".to_string()])
        .with_excluded_schedulers(vec!["scx_a".to_string()]);
    assert_eq!(c.check(&machine(), &Some("scx_a".to_string())), Err(ConstraintError::SchedulerExcluded));
}
