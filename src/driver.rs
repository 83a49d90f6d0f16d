//! The driver: a handle on the sensor, a builder that fixes the shape of
//! one transaction, and the transaction itself as a state machine. The
//! state machine decides every step; its owner performs each step on the
//! bus and reports back what happened.
use vstd::prelude::*;

use crate::commands::{code_frame_array, command, command_spec, CommandCode};
use crate::error::{BusError, Sgp30Error};
use crate::params::ParamBytes;
use crate::response::ResponseBytes;

verus! {

/// The sensor on its bus, at its bus address.
pub struct Sgp30<I2C> {
    pub i2c: I2C,
    pub address: u8,
}

impl<I2C> Sgp30<I2C> {
    /// Takes ownership of the bus for the sensor at `address`.
    pub fn new(i2c: I2C, address: u8) -> (r: Self)
        ensures
            r.i2c == i2c,
            r.address == address,
    {
        Sgp30 { i2c, address }
    }
}

/// Fixes the shape of one transaction: how many parameter bytes follow the
/// command, how many response bytes come back, and whether the response's
/// checksums are to be checked.
pub struct CommandBuilder<const PARAM_SIZE: usize, const RESPONSE_SIZE: usize, const VERIFY_CRC: bool> {
    pub params: Option<ParamBytes<PARAM_SIZE>>,
    pub code: CommandCode,
}

impl<const PARAM_SIZE: usize, const RESPONSE_SIZE: usize, const VERIFY_CRC: bool> CommandBuilder<
    PARAM_SIZE,
    RESPONSE_SIZE,
    VERIFY_CRC,
> {
    /// A transaction of this shape for `code`, without parameters yet.
    pub fn new(code: CommandCode) -> (r: Self)
        ensures
            r.code == code,
            r.params is None,
    {
        CommandBuilder { params: None, code }
    }

    /// Supplies the parameters.
    pub fn params(self, params: ParamBytes<PARAM_SIZE>) -> (r: Self)
        ensures
            r.code == self.code,
            r.params == Some(params),
    {
        CommandBuilder { params: Some(params), code: self.code }
    }

    /// The same transaction, with the response's checksums checked.
    pub fn verify_response_crc(self) -> (r: CommandBuilder<PARAM_SIZE, RESPONSE_SIZE, true>)
        ensures
            r.code == self.code,
            r.params == self.params,
    {
        CommandBuilder { params: self.params, code: self.code }
    }

    /// The same transaction, with the response's checksums left unchecked.
    pub fn ignore_response_crc(self) -> (r: CommandBuilder<PARAM_SIZE, RESPONSE_SIZE, false>)
        ensures
            r.code == self.code,
            r.params == self.params,
    {
        CommandBuilder { params: self.params, code: self.code }
    }

    /// Starts the transaction. Its shape must be whole frames: this is
    /// settled before anything goes out on the bus.
    pub fn exec(self) -> (r: Transaction<PARAM_SIZE, RESPONSE_SIZE, VERIFY_CRC>)
        requires
            PARAM_SIZE % 3 == 0,
            RESPONSE_SIZE % 3 == 0,
        ensures
            r.code == self.code,
            r.params == self.params,
            r.stage is Start,
    {
        Transaction { code: self.code, params: self.params, stage: Stage::Start }
    }
}

/// Where a transaction stands.
#[derive(Debug, Clone, Copy, PartialEq, Eq, Structural)]
pub enum Stage {
    /// Nothing has been sent yet.
    Start,
    /// The command frame is on its way.
    CommandSent,
    /// The parameter frame is on its way.
    ParamsSent,
    /// The sensor is given time to process the command.
    Waiting,
    /// The response is being read.
    Reading,
    /// The transaction is over.
    Finished,
}

/// What the owner of a transaction is to do next.
#[derive(Debug)]
pub enum Step<const PARAM_SIZE: usize, const RESPONSE_SIZE: usize, const VERIFY_CRC: bool> {
    /// Write the command frame to the sensor.
    WriteCommand([u8; 3]),
    /// Write the parameter frame to the sensor.
    WriteParams([u8; PARAM_SIZE]),
    /// Wait this many cycles.
    Delay(u32),
    /// Read `RESPONSE_SIZE` bytes from the sensor.
    Read,
    /// The transaction is over, with this outcome.
    Done(Result<ResponseBytes<RESPONSE_SIZE, VERIFY_CRC>, Sgp30Error>),
}

/// What came of the last step.
#[derive(Debug)]
pub enum Event<const RESPONSE_SIZE: usize> {
    /// The transaction is to begin.
    Begin,
    /// A write finished, or failed.
    Written(Result<(), BusError>),
    /// The wait is over.
    Waited,
    /// A read finished with these bytes, or failed.
    ReadDone(Result<[u8; RESPONSE_SIZE], BusError>),
}

/// Whether a transaction at `stage` is waiting for `event`.
pub open spec fn accepts<const R: usize>(stage: Stage, event: Event<R>) -> bool {
    match event {
        Event::Begin => stage is Start,
        Event::Written(_) => stage is CommandSent || stage is ParamsSent,
        Event::Waited => stage is Waiting,
        Event::ReadDone(_) => stage is Reading,
    }
}

/// One transaction with the sensor: a command, its parameters if its shape
/// has any, and how far it has come.
pub struct Transaction<const PARAM_SIZE: usize, const RESPONSE_SIZE: usize, const VERIFY_CRC: bool> {
    pub code: CommandCode,
    pub params: Option<ParamBytes<PARAM_SIZE>>,
    pub stage: Stage,
}

/// The transaction `t` moved to `stage`.
pub open spec fn at_stage<const P: usize, const R: usize, const V: bool>(
    t: Transaction<P, R, V>,
    stage: Stage,
) -> Transaction<P, R, V> {
    Transaction { code: t.code, params: t.params, stage }
}

/// Once every frame is written: wait for the answer where one is due,
/// else finish with an empty response.
pub open spec fn after_writes<const P: usize, const R: usize, const V: bool>(
    t: Transaction<P, R, V>,
) -> (Transaction<P, R, V>, Step<P, R, V>) {
    if R > 0 {
        (at_stage(t, Stage::Waiting), Step::Delay(command_spec(t.code).duration_cycles))
    } else {
        (at_stage(t, Stage::Finished), Step::Done(Ok(ResponseBytes { data: None })))
    }
}

/// The protocol: the next state of a transaction and the step to take,
/// given what came of the last step.
pub open spec fn next<const P: usize, const R: usize, const V: bool>(
    t: Transaction<P, R, V>,
    event: Event<R>,
) -> (Transaction<P, R, V>, Step<P, R, V>) {
    match event {
        Event::Begin => (
            at_stage(t, Stage::CommandSent),
            Step::WriteCommand(code_frame_array(t.code)),
        ),
        Event::Written(Err(e)) => (at_stage(t, Stage::Finished), Step::Done(Err(Sgp30Error::I2c(e)))),
        Event::Written(Ok(())) => if t.stage is CommandSent && P > 0 {
            match t.params {
                None => (at_stage(t, Stage::Finished), Step::Done(Err(Sgp30Error::MissingData))),
                Some(p) => (at_stage(t, Stage::ParamsSent), Step::WriteParams(p.0)),
            }
        } else {
            after_writes(t)
        },
        Event::Waited => (at_stage(t, Stage::Reading), Step::Read),
        Event::ReadDone(Err(e)) => (at_stage(t, Stage::Finished), Step::Done(Err(Sgp30Error::I2c(e)))),
        Event::ReadDone(Ok(bytes)) => (
            at_stage(t, Stage::Finished),
            Step::Done(Ok(ResponseBytes { data: Some(bytes) })),
        ),
    }
}

impl<const PARAM_SIZE: usize, const RESPONSE_SIZE: usize, const VERIFY_CRC: bool> Transaction<
    PARAM_SIZE,
    RESPONSE_SIZE,
    VERIFY_CRC,
> {
    /// Whether this transaction is waiting for `event`.
    pub fn accepts(&self, event: &Event<RESPONSE_SIZE>) -> (r: bool)
        ensures
            r == accepts(self.stage, *event),
    {
        match event {
            Event::Begin => self.stage == Stage::Start,
            Event::Written(_) => self.stage == Stage::CommandSent || self.stage == Stage::ParamsSent,
            Event::Waited => self.stage == Stage::Waiting,
            Event::ReadDone(_) => self.stage == Stage::Reading,
        }
    }

    /// Takes in what came of the last step and says what to do next.
    pub fn step(&mut self, event: Event<RESPONSE_SIZE>) -> (r: Step<
        PARAM_SIZE,
        RESPONSE_SIZE,
        VERIFY_CRC,
    >)
        requires
            accepts(old(self).stage, event),
        ensures
            (*final(self), r) == next(*old(self), event),
    {
        match event {
            Event::Begin => {
                self.stage = Stage::CommandSent;
                let frame = command(self.code).with_crc();
                proof {
                    broadcast use vstd::array::group_array_axioms;

                    assert(frame =~= code_frame_array(self.code));
                }
                Step::WriteCommand(frame)
            },
            Event::Written(Err(e)) => {
                self.stage = Stage::Finished;
                Step::Done(Err(Sgp30Error::I2c(e)))
            },
            Event::Written(Ok(())) => {
                if self.stage == Stage::CommandSent && PARAM_SIZE > 0 {
                    match &self.params {
                        None => {
                            self.stage = Stage::Finished;
                            Step::Done(Err(Sgp30Error::MissingData))
                        },
                        Some(p) => {
                            let bytes = p.0;
                            self.stage = Stage::ParamsSent;
                            Step::WriteParams(bytes)
                        },
                    }
                } else if RESPONSE_SIZE > 0 {
                    self.stage = Stage::Waiting;
                    Step::Delay(command(self.code).duration_cycles)
                } else {
                    self.stage = Stage::Finished;
                    Step::Done(Ok(ResponseBytes { data: None }))
                }
            },
            Event::Waited => {
                self.stage = Stage::Reading;
                Step::Read
            },
            Event::ReadDone(Err(e)) => {
                self.stage = Stage::Finished;
                Step::Done(Err(Sgp30Error::I2c(e)))
            },
            Event::ReadDone(Ok(bytes)) => {
                self.stage = Stage::Finished;
                Step::Done(Ok(ResponseBytes { data: Some(bytes) }))
            },
        }
    }
}

/// A transaction whose shape calls for parameters, started without them
/// (as `exec` starts it from a builder that was given none), writes its
/// command frame and then fails with missing data: no parameter
/// frame is ever written, and the transaction is over.
pub proof fn lemma_missing_params_fail_before_param_write<const P: usize, const R: usize, const V: bool>(
    code: CommandCode,
)
    requires
        P > 0,
    ensures
        ({
            let t0 = Transaction::<P, R, V> { code, params: None, stage: Stage::Start };
            let (t1, s1) = next(t0, Event::Begin);
            let (t2, s2) = next(t1, Event::Written(Ok(())));
            &&& s1 == Step::<P, R, V>::WriteCommand(code_frame_array(code))
            &&& s2 == Step::<P, R, V>::Done(Err(Sgp30Error::MissingData))
            &&& t2.stage is Finished
            &&& forall|e: Event<R>| !accepts(t2.stage, e)
        }),
{
}

} // verus!
