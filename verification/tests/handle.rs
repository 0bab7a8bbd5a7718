use z3_optimize::engine::{decode, Call, CheckResult, Context, Decl, Term, L_FALSE, L_TRUE, L_UNDEF};
use z3_optimize::optimize::Optimize;
use z3_optimize::state::Phase;
use z3_optimize::text::FormatError;

fn fresh() -> Optimize {
    let ctx = Context { id: 1 };
    let (opt, _) = Optimize::new(&ctx);
    opt
}

#[test]
fn result_codes_are_read_one_to_one() {
    assert_eq!(L_TRUE, 1);
    assert_eq!(L_FALSE, -1);
    assert_eq!(L_UNDEF, 0);
    assert_eq!(decode(1), Some(CheckResult::Satisfiable));
    assert_eq!(decode(-1), Some(CheckResult::Unsatisfiable));
    assert_eq!(decode(0), Some(CheckResult::Unknown));
    assert_eq!(decode(2), None);
    assert_eq!(decode(-2), None);
    assert_eq!(decode(i32::MAX), None);
    assert_eq!(decode(i32::MIN), None);
}

#[test]
fn only_unsatisfiable_has_no_model() {
    assert!(CheckResult::Satisfiable.has_model());
    assert!(CheckResult::Unknown.has_model());
    assert!(!CheckResult::Unsatisfiable.has_model());
}

#[test]
fn new_acquires_once_and_starts_empty() {
    let ctx = Context { id: 42 };
    let (opt, call) = Optimize::new(&ctx);
    assert_eq!(call, Call::Acquire);
    assert_eq!(opt.context(), ctx);
    assert_eq!(opt.depth(), 0);
    assert_eq!(opt.phase(), Phase::Building);
    assert_eq!(opt.timeout(), None);
    assert!(opt.declarations().is_empty());
    assert!(!opt.model_available());
}

#[test]
fn release_gives_the_reference_back() {
    let mut opt = fresh();
    opt.assert_hard(&Term { id: 3 });
    opt.push();
    assert_eq!(opt.release(), Call::Release);
}

#[test]
fn set_timeout_writes_the_named_parameter() {
    let mut opt = fresh();
    let call = opt.set_timeout(2500);
    assert_eq!(call, Call::SetParam { name: String::from("timeout"), value: 2500 });
    assert_eq!(opt.timeout(), Some(2500));
    let call = opt.set_timeout(0);
    assert_eq!(call, Call::SetParam { name: String::from("timeout"), value: 0 });
    assert_eq!(opt.timeout(), Some(0));
}

#[test]
fn set_timeout_keeps_the_check_result() {
    let mut opt = fresh();
    assert!(opt.check(L_TRUE));
    opt.set_timeout(10);
    assert_eq!(opt.phase(), Phase::Checked(CheckResult::Satisfiable));
    assert!(opt.model_available());
}

#[test]
fn declarations_are_recorded_in_order() {
    let mut opt = fresh();
    let x = Term { id: 10 };
    let y = Term { id: 11 };
    assert_eq!(opt.assert_hard(&x), Call::Assert(x));
    assert_eq!(opt.maximize(&y), Call::Maximize(y));
    assert_eq!(opt.minimize(&x), Call::Minimize(x));
    assert_eq!(opt.assert_hard(&x), Call::Assert(x));
    assert_eq!(
        opt.declarations().clone(),
        vec![Decl::Hard(x), Decl::Maximize(y), Decl::Minimize(x), Decl::Hard(x)]
    );
    assert_eq!(opt.depth(), 0);
}

#[test]
fn add_soft_sends_the_weight_as_decimal_text() {
    let mut opt = fresh();
    let x = Term { id: 5 };
    assert_eq!(
        opt.add_soft(&x, 10),
        Call::AssertSoft { term: x, weight: b"10".to_vec(), group: None }
    );
    assert_eq!(
        opt.add_soft(&x, 0),
        Call::AssertSoft { term: x, weight: b"0".to_vec(), group: None }
    );
    assert_eq!(
        opt.add_soft(&x, -3),
        Call::AssertSoft { term: x, weight: b"-3".to_vec(), group: None }
    );
    assert_eq!(
        opt.add_soft(&x, i64::MIN),
        Call::AssertSoft { term: x, weight: b"-9223372036854775808".to_vec(), group: None }
    );
    assert_eq!(
        opt.declarations().clone(),
        vec![Decl::Soft(x, 10), Decl::Soft(x, 0), Decl::Soft(x, -3), Decl::Soft(x, i64::MIN)]
    );
}

#[test]
fn push_and_pop_name_their_requests() {
    let mut opt = fresh();
    assert_eq!(opt.push(), Call::Push);
    assert_eq!(opt.depth(), 1);
    assert_eq!(opt.pop(), Call::Pop);
    assert_eq!(opt.depth(), 0);
}

#[test]
fn balanced_backtracking_is_always_permitted() {
    for n in 0..6usize {
        for m in 0..=n {
            let mut opt = fresh();
            for _ in 0..n {
                opt.push();
            }
            assert_eq!(opt.depth(), n);
            for done in 0..m {
                assert!(opt.depth() > 0);
                opt.pop();
                assert_eq!(opt.depth(), n - done - 1);
            }
            assert_eq!(opt.depth(), n - m);
        }
    }
}

#[test]
fn one_pop_too_many_finds_no_point() {
    for n in 0..4usize {
        let mut opt = fresh();
        for _ in 0..n {
            opt.push();
        }
        for _ in 0..n {
            opt.pop();
        }
        assert_eq!(opt.depth(), 0);
    }
}

#[test]
fn pop_discards_what_was_declared_since_the_point() {
    let mut opt = fresh();
    let a = Term { id: 1 };
    let b = Term { id: 2 };
    let c = Term { id: 3 };
    opt.assert_hard(&a);
    opt.push();
    opt.assert_hard(&b);
    opt.add_soft(&c, 4);
    opt.push();
    opt.maximize(&c);
    assert_eq!(opt.declarations().len(), 4);
    opt.pop();
    assert_eq!(opt.declarations().clone(), vec![Decl::Hard(a), Decl::Hard(b), Decl::Soft(c, 4)]);
    assert_eq!(opt.depth(), 1);
    opt.pop();
    assert_eq!(opt.declarations().clone(), vec![Decl::Hard(a)]);
    assert_eq!(opt.depth(), 0);
}

#[test]
fn pop_right_after_push_changes_nothing_declared() {
    let mut opt = fresh();
    let a = Term { id: 1 };
    opt.assert_hard(&a);
    opt.set_timeout(7);
    opt.push();
    opt.pop();
    assert_eq!(opt.declarations().clone(), vec![Decl::Hard(a)]);
    assert_eq!(opt.timeout(), Some(7));
    assert_eq!(opt.depth(), 0);
}

#[test]
fn check_is_true_for_satisfiable_only() {
    let mut opt = fresh();
    assert!(opt.check(1));
    assert_eq!(opt.phase(), Phase::Checked(CheckResult::Satisfiable));
    assert!(!opt.check(-1));
    assert_eq!(opt.phase(), Phase::Checked(CheckResult::Unsatisfiable));
    assert!(!opt.check(0));
    assert_eq!(opt.phase(), Phase::Checked(CheckResult::Unknown));
}

#[test]
fn check_with_a_strange_code_leaves_no_result() {
    let mut opt = fresh();
    assert!(opt.check(1));
    assert!(!opt.check(5));
    assert_eq!(opt.phase(), Phase::Building);
    assert!(!opt.model_available());
}

#[test]
fn check_get_model_gives_the_three_outcomes() {
    let mut opt = fresh();
    assert_eq!(opt.check_get_model(1), CheckResult::Satisfiable);
    assert!(opt.model_available());
    assert_eq!(opt.get_model(), Call::GetModel);
    assert_eq!(opt.check_get_model(-1), CheckResult::Unsatisfiable);
    assert!(!opt.model_available());
    assert_eq!(opt.check_get_model(0), CheckResult::Unknown);
    assert!(opt.model_available());
    assert_eq!(opt.get_model(), Call::GetModel);
}

#[test]
fn no_model_before_any_check() {
    let mut opt = fresh();
    assert!(!opt.model_available());
    opt.assert_hard(&Term { id: 1 });
    opt.push();
    assert!(!opt.model_available());
}

#[test]
fn every_declaration_makes_the_result_stale() {
    let x = Term { id: 1 };
    let mut opt = fresh();
    opt.check(1);
    opt.assert_hard(&x);
    assert_eq!(opt.phase(), Phase::Building);
    opt.check(1);
    opt.add_soft(&x, 1);
    assert_eq!(opt.phase(), Phase::Building);
    opt.check(1);
    opt.maximize(&x);
    assert_eq!(opt.phase(), Phase::Building);
    opt.check(1);
    opt.minimize(&x);
    assert_eq!(opt.phase(), Phase::Building);
    opt.check(1);
    opt.push();
    assert_eq!(opt.phase(), Phase::Building);
    opt.check(1);
    opt.pop();
    assert_eq!(opt.phase(), Phase::Building);
    assert!(!opt.model_available());
}

#[test]
fn check_changes_nothing_declared() {
    let x = Term { id: 9 };
    let mut opt = fresh();
    opt.push();
    opt.assert_hard(&x);
    opt.set_timeout(3);
    opt.check(0);
    assert_eq!(opt.declarations().clone(), vec![Decl::Hard(x)]);
    assert_eq!(opt.depth(), 1);
    assert_eq!(opt.timeout(), Some(3));
}

#[test]
fn render_without_text_fails() {
    assert_eq!(fresh().render(None), Err(FormatError::NoText));
}

#[test]
fn render_of_bytes_that_are_no_text_fails() {
    assert_eq!(fresh().render(Some(vec![0xff, 0xfe])), Err(FormatError::NotText));
    assert_eq!(fresh().render(Some(vec![b'a', 0xc3])), Err(FormatError::NotText));
    assert_eq!(fresh().render(Some(vec![0x80])), Err(FormatError::NotText));
}

#[test]
fn render_of_text_gives_the_text() {
    assert_eq!(fresh().render(Some(b"(check-sat)\n".to_vec())), Ok(String::from("(check-sat)\n")));
    assert_eq!(fresh().render(Some(Vec::new())), Ok(String::new()));
    assert_eq!(fresh().render(Some(vec![0xc3, 0xa9])), Ok(String::from("\u{e9}")));
    assert_eq!(
        fresh().render(Some(b"(assert (> x 0))".to_vec())),
        Ok(String::from("(assert (> x 0))"))
    );
}

#[test]
fn soft_constraint_and_objective_scenario() {
    let x_positive = Term { id: 100 };
    let x_below_five = Term { id: 101 };
    let x = Term { id: 102 };
    let mut opt = fresh();
    assert_eq!(opt.assert_hard(&x_positive), Call::Assert(x_positive));
    assert_eq!(
        opt.add_soft(&x_below_five, 10),
        Call::AssertSoft { term: x_below_five, weight: b"10".to_vec(), group: None }
    );
    assert_eq!(opt.maximize(&x), Call::Maximize(x));
    assert_eq!(opt.check_get_model(L_TRUE), CheckResult::Satisfiable);
    assert!(opt.model_available());
    assert_eq!(opt.get_model(), Call::GetModel);
    assert_eq!(
        opt.declarations().clone(),
        vec![Decl::Hard(x_positive), Decl::Soft(x_below_five, 10), Decl::Maximize(x)]
    );
}

#[test]
fn contradiction_in_a_scope_scenario() {
    let above_ten = Term { id: 1 };
    let below_five = Term { id: 2 };
    let mut opt = fresh();
    assert!(opt.check(L_TRUE));
    let before: Vec<Decl> = opt.declarations().clone();
    assert_eq!(opt.push(), Call::Push);
    opt.assert_hard(&above_ten);
    opt.assert_hard(&below_five);
    assert_eq!(opt.check_get_model(L_FALSE), CheckResult::Unsatisfiable);
    assert!(!opt.model_available());
    assert_eq!(opt.pop(), Call::Pop);
    assert_eq!(opt.declarations().clone(), before);
    assert_eq!(opt.depth(), 0);
    assert!(opt.check(L_TRUE));
    assert!(opt.model_available());
}

#[test]
fn negated_constraint_scenario() {
    let claim = Term { id: 7 };
    let negation = Term { id: 8 };
    let mut opt = fresh();
    opt.assert_hard(&claim);
    opt.assert_hard(&negation);
    assert!(!opt.check(L_FALSE));
    assert_eq!(opt.phase(), Phase::Checked(CheckResult::Unsatisfiable));
    assert_eq!(opt.check_get_model(L_FALSE), CheckResult::Unsatisfiable);
    assert!(!opt.model_available());
}

#[test]
fn timeout_scenario_reads_unknown() {
    let mut opt = fresh();
    opt.assert_hard(&Term { id: 1 });
    opt.set_timeout(1);
    let r = opt.check_get_model(L_UNDEF);
    assert_eq!(r, CheckResult::Unknown);
    assert_ne!(r, CheckResult::Unsatisfiable);
    assert!(opt.model_available());
    assert!(!opt.check(L_UNDEF));
}

#[test]
fn soft_constraint_of_weight_zero_is_declared_like_any_other() {
    let x = Term { id: 3 };
    let mut opt = fresh();
    opt.check(L_TRUE);
    assert_eq!(
        opt.add_soft(&x, 0),
        Call::AssertSoft { term: x, weight: b"0".to_vec(), group: None }
    );
    assert_eq!(opt.declarations().clone(), vec![Decl::Soft(x, 0)]);
    assert_eq!(opt.depth(), 0);
}
