//! What holds of a driver over a whole run: any sequence of reported operations,
//! injected commands and closes, from any state.

use vstd::prelude::*;
use crate::driver::{tells_done, Driver, Io, Progress};

verus! {

/// One thing the owner does to a driver.
pub enum Op<C> {
    Advance(Io),
    Inject(C),
    Close,
}

/// The driver after one operation.
pub open spec fn step<D: Driver>(driver: D, op: Op<D::InEvent>) -> D {
    match op {
        Op::Advance(io) => driver.advanced(io).0,
        Op::Inject(event) => driver.injected(event).0,
        Op::Close => driver.closed(),
    }
}

/// The driver after a run of operations.
pub open spec fn after<D: Driver>(driver: D, ops: Seq<Op<D::InEvent>>) -> D
    decreases ops.len(),
{
    if ops.len() == 0 {
        driver
    } else {
        after(step(driver, ops.first()), ops.drop_first())
    }
}

/// What one operation surfaces to the owner: an event, a failure, or nothing.
pub open spec fn surfaced<D: Driver>(driver: D, op: Op<D::InEvent>) -> Seq<Result<D::OutEvent, D::Error>> {
    match op {
        Op::Advance(io) => match driver.advanced(io).1 {
            Ok(Progress::Event(event)) => seq![Ok(event)],
            Ok(Progress::Failed(error)) => seq![Err(error)],
            _ => seq![],
        },
        _ => seq![],
    }
}

/// Everything a run surfaces to the owner, in order.
pub open spec fn outputs<D: Driver>(driver: D, ops: Seq<Op<D::InEvent>>) -> Seq<Result<D::OutEvent, D::Error>>
    decreases ops.len(),
{
    if ops.len() == 0 {
        seq![]
    } else {
        surfaced(driver, ops.first()) + outputs(step(driver, ops.first()), ops.drop_first())
    }
}

/// Whether the driver gives up the substream in this operation.
pub open spec fn lets_go<D: Driver>(driver: D, op: Op<D::InEvent>) -> bool {
    driver.phase().holds_substream() && !step(driver, op).phase().holds_substream()
}

/// How often a run gives up the substream.
pub open spec fn releases<D: Driver>(driver: D, ops: Seq<Op<D::InEvent>>) -> nat
    decreases ops.len(),
{
    if ops.len() == 0 {
        0
    } else {
        (if lets_go(driver, ops.first()) {
            1nat
        } else {
            0nat
        }) + releases(step(driver, ops.first()), ops.drop_first())
    }
}

/// How many commands of a run the driver accepts.
pub open spec fn accepted<D: Driver>(driver: D, ops: Seq<Op<D::InEvent>>) -> nat
    decreases ops.len(),
{
    if ops.len() == 0 {
        0
    } else {
        (match ops.first() {
            Op::Inject(event) => if driver.injected(event).1 is Ok {
                1nat
            } else {
                0nat
            },
            _ => 0nat,
        }) + accepted(step(driver, ops.first()), ops.drop_first())
    }
}

/// No operation takes a driver back: the rank of its phase never falls.
pub proof fn step_never_goes_back<D: Driver>(driver: D, op: Op<D::InEvent>)
    ensures
        driver.phase().rank() <= step(driver, op).phase().rank(),
        driver.phase().terminal() ==> step(driver, op) == driver,
{
    match op {
        Op::Advance(io) => driver.advance_keeps_shape(io),
        Op::Inject(event) => driver.inject_keeps_shape(event),
        Op::Close => driver.close_keeps_shape(),
    }
}

/// Terminal states are absorbing: whatever the owner does to a terminal driver, it
/// stays as it is, surfaces nothing, accepts no command and releases nothing.
pub proof fn terminal_is_absorbing<D: Driver>(driver: D, ops: Seq<Op<D::InEvent>>)
    requires
        driver.phase().terminal(),
    ensures
        after(driver, ops) == driver,
        outputs(driver, ops) =~= Seq::<Result<D::OutEvent, D::Error>>::empty(),
        accepted(driver, ops) == 0,
        releases(driver, ops) == 0,
    decreases ops.len(),
{
    if ops.len() > 0 {
        let op = ops.first();
        step_never_goes_back(driver, op);
        match op {
            Op::Advance(io) => driver.advance_keeps_shape(io),
            Op::Inject(event) => driver.inject_keeps_shape(event),
            Op::Close => driver.close_keeps_shape(),
        }
        terminal_is_absorbing(driver, ops.drop_first());
    }
}

/// The phases of a run only move forward.
pub proof fn run_never_goes_back<D: Driver>(driver: D, ops: Seq<Op<D::InEvent>>)
    ensures
        driver.phase().rank() <= after(driver, ops).phase().rank(),
    decreases ops.len(),
{
    if ops.len() > 0 {
        step_never_goes_back(driver, ops.first());
        run_never_goes_back(step(driver, ops.first()), ops.drop_first());
    }
}

/// The substream is released exactly once: a run never gives it up twice, gives it
/// up once if the driver held it and ends without it, and never if the driver still
/// holds it at the end.
pub proof fn substream_released_once<D: Driver>(driver: D, ops: Seq<Op<D::InEvent>>)
    ensures
        releases(driver, ops) <= 1,
        after(driver, ops).phase().holds_substream() ==> releases(driver, ops) == 0,
        driver.phase().holds_substream() && !after(driver, ops).phase().holds_substream() ==> releases(
            driver,
            ops,
        ) == 1,
    decreases ops.len(),
{
    if ops.len() > 0 {
        let op = ops.first();
        let next = step(driver, op);
        let rest = ops.drop_first();
        step_never_goes_back(driver, op);
        run_never_goes_back(next, rest);
        substream_released_once(next, rest);
        if lets_go(driver, op) {
            terminal_is_absorbing(next, rest);
        }
    }
}

/// Closing a driver, in whatever state, leaves it terminal and without the
/// substream, and a closed driver stays closed under every further operation.
pub proof fn close_ends_the_exchange<D: Driver>(driver: D, ops: Seq<Op<D::InEvent>>)
    ensures
        driver.closed().phase().terminal(),
        !driver.closed().phase().holds_substream(),
        after(driver.closed(), ops) == driver.closed(),
        releases(driver, seq![Op::Close].add(ops)) == (if driver.phase().holds_substream() {
            1nat
        } else {
            0nat
        }),
{
    driver.close_keeps_shape();
    terminal_is_absorbing(driver.closed(), ops);
    let run = seq![Op::<D::InEvent>::Close].add(ops);
    assert(run.first() == Op::<D::InEvent>::Close);
    assert(run.drop_first() =~= ops);
}

/// A failure is reported at most once and is the last thing a driver surfaces.
pub proof fn failure_is_last<D: Driver>(driver: D, ops: Seq<Op<D::InEvent>>, i: int)
    requires
        0 <= i < outputs(driver, ops).len(),
        outputs(driver, ops)[i] is Err,
    ensures
        i == outputs(driver, ops).len() - 1,
    decreases ops.len(),
{
    if ops.len() > 0 {
        let op = ops.first();
        let next = step(driver, op);
        let rest = ops.drop_first();
        let head = surfaced(driver, op);
        if i < head.len() {
            match op {
                Op::Advance(io) => {
                    driver.advance_keeps_shape(io);
                    terminal_is_absorbing(next, rest);
                },
                _ => {},
            }
        } else {
            failure_is_last(next, rest, i - head.len());
        }
    }
}

/// Once `advance` has answered `Done`, the driver is terminal.
pub proof fn done_is_final<D: Driver>(driver: D, io: Io, ops: Seq<Op<D::InEvent>>)
    requires
        tells_done(driver.advanced(io).1),
    ensures
        after(driver.advanced(io).0, ops) == driver.advanced(io).0,
        outputs(driver.advanced(io).0, ops).len() == 0,
{
    driver.advance_keeps_shape(io);
    terminal_is_absorbing(driver.advanced(io).0, ops);
}

} // verus!
