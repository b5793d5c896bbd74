use b2native::api::{ApiResponse, ApiResult};
use std::convert::Infallible;
use std::ops::ControlFlow;

type Outcome = ApiResult<u32, &'static str, bool>;

fn success(n: u32) -> Outcome {
    ApiResult::Response(ApiResponse::Success(n))
}

fn refused(why: &'static str) -> Outcome {
    ApiResult::Response(ApiResponse::Error(why))
}

fn failed(flag: bool) -> Outcome {
    ApiResult::Failure(flag)
}

#[test]
fn branch_goes_on_with_an_answer_and_breaks_off_with_a_failure() {
    assert_eq!(success(7).branch(), ControlFlow::Continue(ApiResponse::Success(7)));
    assert_eq!(refused("no").branch(), ControlFlow::Continue(ApiResponse::Error("no")));
    assert_eq!(failed(true).branch(), ControlFlow::Break(Err(true)));
}

#[test]
fn from_output_wraps_an_answer() {
    assert_eq!(Outcome::from_output(ApiResponse::Success(7)), success(7));
    assert_eq!(Outcome::from_output(ApiResponse::Error("no")), refused("no"));
}

#[test]
fn from_residual_wraps_a_failure() {
    let residual: Result<Infallible, bool> = Err(false);
    assert_eq!(Outcome::from_residual(residual), failed(false));
}

#[test]
fn branch_and_back_is_the_identity() {
    for outcome in [success(1), refused("no"), failed(true)] {
        let expected = match &outcome {
            ApiResult::Response(ApiResponse::Success(n)) => success(*n),
            ApiResult::Response(ApiResponse::Error(e)) => refused(e),
            ApiResult::Failure(f) => failed(*f),
        };
        let back = match outcome.branch() {
            ControlFlow::Continue(output) => Outcome::from_output(output),
            ControlFlow::Break(residual) => Outcome::from_residual(residual),
        };
        assert_eq!(back, expected);
    }
}

#[test]
fn and_then_runs_the_next_step_on_a_success() {
    let outcome = success(20).and_then(|n| -> ApiResult<String, &'static str, bool> {
        ApiResult::Response(ApiResponse::Success(format!("{}", n + 1)))
    });
    assert_eq!(outcome, ApiResult::Response(ApiResponse::Success("21".to_string())));
}

#[test]
fn and_then_hands_on_what_the_next_step_ends_in() {
    let outcome = success(20)
        .and_then(|_| -> ApiResult<String, &'static str, bool> { ApiResult::Failure(true) });
    assert_eq!(outcome, ApiResult::Failure(true));
    let outcome = success(20).and_then(|_| -> ApiResult<String, &'static str, bool> {
        ApiResult::Response(ApiResponse::Error("later"))
    });
    assert_eq!(outcome, ApiResult::Response(ApiResponse::Error("later")));
}

#[test]
fn and_then_stops_at_an_error_and_at_a_failure() {
    let mut ran = false;
    let outcome = refused("no").and_then(|n| -> ApiResult<u32, &'static str, bool> {
        ran = true;
        ApiResult::Response(ApiResponse::Success(n))
    });
    assert_eq!(outcome, ApiResult::Response(ApiResponse::Error("no")));
    let outcome = failed(false).and_then(|n| -> ApiResult<u32, &'static str, bool> {
        ran = true;
        ApiResult::Response(ApiResponse::Success(n))
    });
    assert_eq!(outcome, ApiResult::Failure(false));
    assert!(!ran);
}

#[test]
fn a_chain_stops_at_its_first_step_that_is_no_success() {
    let mut steps = 0;
    let outcome = success(1)
        .and_then(|n| {
            steps += 1;
            success(n + 1)
        })
        .and_then(|_| {
            steps += 1;
            refused("second step")
        })
        .and_then(|n| {
            steps += 1;
            success(n + 1)
        });
    assert_eq!(outcome, refused("second step"));
    assert_eq!(steps, 2);
}
