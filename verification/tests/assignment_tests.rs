use motor_control::assignment::AssignmentProblem;

#[test]
fn test_assignment_problem() {
    let costs = vec![vec![1, 0, 0], vec![0, 1, 0], vec![0, 0, 1]];
    let problem = AssignmentProblem::from_costs(costs);

    let solution = problem.solve();
    assert_eq!(solution, vec![Some(0), Some(1), Some(2)]);
}

#[test]
fn test_unbalanced_1() {
    let costs = vec![vec![1, 0, 0], vec![0, 1, 0]];
    let problem = AssignmentProblem::from_costs(costs);

    let solution = problem.solve();
    assert_eq!(solution, vec![Some(0), Some(1)]);
}

#[test]
fn test_unbalanced_2() {
    let costs = vec![vec![1, 0], vec![0, 1], vec![0, 2]];
    let problem = AssignmentProblem::from_costs(costs);

    let solution = problem.solve();
    assert_eq!(solution, vec![Some(0), None, Some(1)]);
}

#[test]
fn empty_problem_has_empty_solution() {
    let problem = AssignmentProblem::from_costs(Vec::new());
    assert_eq!(problem.solve(), Vec::new());
}

#[test]
fn negative_costs_are_avoided() {
    // The matching maximizes total weight, so the heavily negative diagonal
    // is dodged entirely.
    let costs = vec![vec![-100, 1], vec![1, -100]];
    let problem = AssignmentProblem::from_costs(costs);
    assert_eq!(problem.solve(), vec![Some(1), Some(0)]);
}
