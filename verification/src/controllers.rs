//! How the address endpoints answer.
//!
//! An endpoint asks the wallet service and answers with what came of it. What the
//! service gave is turned into the answer's data by `data`. The answer is made by
//! `response`, of the data or of the service's error alike: an endpoint has no
//! error of its own.

use vstd::prelude::*;

verus! {

/// That `data` and `response` can be called on what came of a request.
pub open spec fn answerable<A, D, E, R, F: FnOnce(A) -> D, G: FnOnce(Result<D, E>) -> R>(
    outcome: Result<A, E>,
    data: F,
    response: G,
) -> bool {
    match outcome {
        Ok(given) => {
            &&& data.requires((given,))
            &&& forall|made: D| #[trigger]
                data.ensures((given,), made) ==> response.requires((Ok::<D, E>(made),))
        },
        Err(error) => response.requires((Err::<D, E>(error),)),
    }
}

/// That `answer` is the answer to what came of a request: the response made of
/// the data, where the service gave something, and of its error where it failed.
pub open spec fn answers<A, D, E, R, F: FnOnce(A) -> D, G: FnOnce(Result<D, E>) -> R>(
    outcome: Result<A, E>,
    data: F,
    response: G,
    answer: R,
) -> bool {
    match outcome {
        Ok(given) => exists|made: D| #[trigger]
            data.ensures((given,), made) && response.ensures((Ok::<D, E>(made),), answer),
        Err(error) => response.ensures((Err::<D, E>(error),), answer),
    }
}

fn answer_to<A, D, E, R, F: FnOnce(A) -> D, G: FnOnce(Result<D, E>) -> R>(
    outcome: Result<A, E>,
    data: F,
    response: G,
) -> (answer: R)
    requires
        answerable(outcome, data, response),
    ensures
        answers(outcome, data, response, answer),
{
    match outcome {
        Ok(given) => {
            let made = data(given);
            response(Ok(made))
        },
        Err(error) => response(Err(error)),
    }
}

/// The answer to a request to create an address.
pub fn post_address_create<A, D, E, R, F: FnOnce(A) -> D, G: FnOnce(Result<D, E>) -> R>(
    address: Result<A, E>,
    data: F,
    response: G,
) -> (answer: R)
    requires
        answerable(address, data, response),
    ensures
        answers(address, data, response, answer),
{
    answer_to(address, data, response)
}

/// The answer to a request to check an address.
pub fn post_address_check<A, D, E, R, F: FnOnce(A) -> D, G: FnOnce(Result<D, E>) -> R>(
    address: Result<A, E>,
    data: F,
    response: G,
) -> (answer: R)
    requires
        answerable(address, data, response),
    ensures
        answers(address, data, response, answer),
{
    answer_to(address, data, response)
}

/// The answer to a request for an address's balance. The service gives two
/// things, and the data is made of both.
pub fn get_address_balance<A, B, D, E, R, F: FnOnce(A, B) -> D, G: FnOnce(Result<D, E>) -> R>(
    address: Result<(A, B), E>,
    data: F,
    response: G,
) -> (answer: R)
    requires
        match address {
            Ok((address, balance)) => {
                &&& data.requires((address, balance))
                &&& forall|made: D| #[trigger]
                    data.ensures((address, balance), made) ==> response.requires(
                        (Ok::<D, E>(made),),
                    )
            },
            Err(error) => response.requires((Err::<D, E>(error),)),
        },
    ensures
        match address {
            Ok((address, balance)) => exists|made: D| #[trigger]
                data.ensures((address, balance), made) && response.ensures(
                    (Ok::<D, E>(made),),
                    answer,
                ),
            Err(error) => response.ensures((Err::<D, E>(error),), answer),
        },
{
    match address {
        Ok((address, balance)) => {
            let made = data(address, balance);
            response(Ok(made))
        },
        Err(error) => response(Err(error)),
    }
}

/// The answer to a request for what is known of an address.
pub fn get_address_info<A, D, E, R, F: FnOnce(A) -> D, G: FnOnce(Result<D, E>) -> R>(
    address: Result<A, E>,
    data: F,
    response: G,
) -> (answer: R)
    requires
        answerable(address, data, response),
    ensures
        answers(address, data, response, answer),
{
    answer_to(address, data, response)
}

/// Whatever came of a request can be answered, where `data` and `response` take
/// whatever they are given.
pub proof fn law_every_outcome_is_answerable<
    A,
    D,
    E,
    R,
    F: FnOnce(A) -> D,
    G: FnOnce(Result<D, E>) -> R,
>(outcome: Result<A, E>, data: F, response: G)
    requires
        forall|given: A| #[trigger] data.requires((given,)),
        forall|made: Result<D, E>| #[trigger] response.requires((made,)),
    ensures
        answerable(outcome, data, response),
{
}

/// An error of the service is answered by the response to that error, and what
/// the service gave by the response to the data made of it.
pub proof fn law_answer_is_the_response_to_the_outcome<
    A,
    D,
    E,
    R,
    F: FnOnce(A) -> D,
    G: FnOnce(Result<D, E>) -> R,
>(outcome: Result<A, E>, data: F, response: G, made: D, answer: R)
    requires
        answers(outcome, data, response, answer),
        outcome matches Ok(given) ==> forall|other: D| #[trigger]
            data.ensures((given,), other) ==> other == made,
    ensures
        match outcome {
            Ok(given) => {
                &&& data.ensures((given,), made)
                &&& response.ensures((Ok::<D, E>(made),), answer)
            },
            Err(error) => response.ensures((Err::<D, E>(error),), answer),
        },
{
}

} // verus!
