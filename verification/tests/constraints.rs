use zcad::constraint_system::{Constraint, ConstraintSystem, ConstraintTarget, Variable};
use zcad::entity::EntityId;
use zcad::constraints::{angle, coincident, distance, equal, horizontal, parallel, perpendicular, vertical};
use zcad::parametric::{ConstraintId, ConstraintType, VariableId};

fn ids(cs: &[&Constraint<f64>]) -> Vec<u64> {
    cs.iter().map(|c| c.id.0).collect()
}

#[test]
fn variable_builders() {
    let mut var = Variable::with_id(VariableId::new(1), "length".to_string(), 10.0);
    assert_eq!(var.value, 10.0);
    assert!(!var.locked);
    var.set_range(Some(0.0), Some(100.0));
    assert_eq!(var.min_value, Some(0.0));
    assert_eq!(var.max_value, Some(100.0));
    var.set_locked(true);
    assert!(var.locked);
}

#[test]
fn constraint_builders() {
    let c = distance(ConstraintId::new(1), ConstraintTarget::Variable(VariableId::new(3)), ConstraintTarget::Constant(10.0), 10.0, 1.0);
    assert_eq!(c.constraint_type, ConstraintType::Distance);
    assert_eq!(c.value, Some(10.0));
    assert_eq!(c.name, "Distance");
    assert!(c.enabled);
    assert!(c.is_valid());
    let h = horizontal(ConstraintId::new(2), ConstraintTarget::<f64>::Line(EntityId(4)), 1.0);
    assert_eq!(h.name, "Horizontal");
    assert!(h.is_valid());
    assert_eq!(h.value, None);
    let a = angle(ConstraintId::new(3), ConstraintTarget::Line(EntityId(1)), ConstraintTarget::Line(EntityId(2)), 45.0, 2.0);
    assert_eq!(a.name, "Angle");
    assert_eq!(a.weight, 2.0);
    assert_eq!(vertical(ConstraintId::new(4), ConstraintTarget::<f64>::Line(EntityId(1)), 1.0).name, "Vertical");
    assert_eq!(parallel(ConstraintId::new(5), ConstraintTarget::<f64>::Line(EntityId(1)), ConstraintTarget::Line(EntityId(2)), 1.0).name, "Parallel");
    assert_eq!(perpendicular(ConstraintId::new(6), ConstraintTarget::<f64>::Line(EntityId(1)), ConstraintTarget::Line(EntityId(2)), 1.0).name, "Perpendicular");
    assert_eq!(equal(ConstraintId::new(7), ConstraintTarget::<f64>::Line(EntityId(1)), ConstraintTarget::Line(EntityId(2)), 1.0).name, "Equal");
    let co = coincident(ConstraintId::new(8), ConstraintTarget::<f64>::Point(EntityId(1)), ConstraintTarget::Point(EntityId(2)), 1.0);
    assert_eq!(co.name, "Coincident");
    assert_eq!(co.targets.len(), 2);
    // a distance without a value is not valid, nor one with a single target
    let bare = Constraint::with_id(ConstraintId::new(9), ConstraintType::Distance, vec![ConstraintTarget::<f64>::Constant(1.0), ConstraintTarget::Constant(2.0)], 1.0);
    assert!(!bare.is_valid());
    assert!(bare.with_value(3.0).is_valid());
    let one = Constraint::with_id(ConstraintId::new(10), ConstraintType::Distance, vec![ConstraintTarget::<f64>::Constant(1.0)], 1.0).with_value(1.0);
    assert!(!one.is_valid());
}

#[test]
fn system_records_and_forgets_constraints() {
    let mut system: ConstraintSystem<f64> = ConstraintSystem::new();
    let width = Variable::with_id(VariableId::new(1), "width".to_string(), 5.0);
    system.add_variable(width);
    assert_eq!(system.get_variable(&VariableId::new(1)).unwrap().name, "width");
    assert!(system.get_variable(&VariableId::new(2)).is_none());

    let c1 = distance(ConstraintId::new(10), ConstraintTarget::Variable(VariableId::new(1)), ConstraintTarget::Constant(10.0), 10.0, 1.0);
    let c2 = coincident(ConstraintId::new(11), ConstraintTarget::Point(EntityId(7)), ConstraintTarget::Variable(VariableId::new(1)), 1.0);
    system.add_constraint(c1);
    system.add_constraint(c2);
    assert_eq!(ids(&system.get_variable_constraints(&VariableId::new(1))), vec![10, 11]);
    assert_eq!(ids(&system.get_entity_constraints(&EntityId(7))), vec![11]);
    assert!(system.get_entity_constraints(&EntityId(8)).is_empty());
    assert_eq!(system.get_constraint(&ConstraintId::new(10)).unwrap().name, "Distance");

    let removed = system.remove_constraint(&ConstraintId::new(10)).unwrap();
    assert_eq!(removed.id, ConstraintId::new(10));
    assert!(system.get_constraint(&ConstraintId::new(10)).is_none());
    assert_eq!(ids(&system.get_variable_constraints(&VariableId::new(1))), vec![11]);
    assert!(system.remove_constraint(&ConstraintId::new(10)).is_none());
}

#[test]
fn removing_a_variable_drops_its_targets() {
    let mut system: ConstraintSystem<f64> = ConstraintSystem::default();
    system.add_variable(Variable::with_id(VariableId::new(1), "a".to_string(), 1.0));
    system.add_variable(Variable::with_id(VariableId::new(2), "b".to_string(), 2.0));
    system.add_constraint(equal(ConstraintId::new(5), ConstraintTarget::Variable(VariableId::new(1)), ConstraintTarget::Variable(VariableId::new(2)), 1.0));
    let removed = system.remove_variable(&VariableId::new(1)).unwrap();
    assert_eq!(removed.name, "a");
    assert!(system.get_variable(&VariableId::new(1)).is_none());
    let c = system.get_constraint(&ConstraintId::new(5)).unwrap();
    assert_eq!(c.targets.len(), 1);
    assert!(matches!(c.targets[0], ConstraintTarget::Variable(VariableId(2))));
    assert!(system.get_variable_constraints(&VariableId::new(1)).is_empty());
    assert_eq!(ids(&system.get_variable_constraints(&VariableId::new(2))), vec![5]);
    assert!(system.remove_variable(&VariableId::new(1)).is_none());
}

#[test]
fn add_then_remove_restores_lists() {
    let mut system: ConstraintSystem<f64> = ConstraintSystem::new();
    system.add_constraint(horizontal(ConstraintId::new(1), ConstraintTarget::Line(EntityId(3)), 1.0));
    let before = ids(&system.get_entity_constraints(&EntityId(3)));
    system.add_constraint(parallel(ConstraintId::new(2), ConstraintTarget::Line(EntityId(3)), ConstraintTarget::Line(EntityId(4)), 1.0));
    assert_eq!(ids(&system.get_entity_constraints(&EntityId(3))), vec![1, 2]);
    system.remove_constraint(&ConstraintId::new(2));
    assert_eq!(ids(&system.get_entity_constraints(&EntityId(3))), before);
    assert!(system.get_entity_constraints(&EntityId(4)).is_empty());
}

#[test]
fn test_constraint_system() {
    let mut system: ConstraintSystem<f64> = ConstraintSystem::new();

    let var = Variable::with_id(VariableId::new(1), "width".to_string(), 5.0);
    let var_id = var.id;
    system.add_variable(var.clone());

    let constraint = distance(ConstraintId::new(1), ConstraintTarget::Variable(var_id), ConstraintTarget::Constant(10.0), 10.0, 1.0);
    system.add_constraint(constraint);

    assert_eq!(system.variables().len(), 1);
    assert_eq!(system.constraints().len(), 1);
}

#[test]
fn listings_hold_every_item_once() {
    let mut system: ConstraintSystem<f64> = ConstraintSystem::new();
    for i in 1..=4u64 {
        system.add_variable(Variable::with_id(VariableId::new(i), format!("v{}", i), i as f64));
    }
    system.add_variable(Variable::with_id(VariableId::new(2), "again".to_string(), 0.0));
    let mut ids: Vec<u64> = system.variables().iter().map(|v| v.id.0).collect();
    ids.sort();
    assert_eq!(ids, vec![1, 2, 3, 4]);
    assert_eq!(system.get_variable(&VariableId::new(2)).unwrap().name, "again");
    assert!(system.constraints().is_empty());
}
