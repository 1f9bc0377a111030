//! The benchmarks that can be asked of a sandbox, the shape of the call that
//! each one takes, and what becomes of the answer.

use crate::delay::{Delay, Delays};
use crate::wire::{server_nanos, ServiceResponse};
use vstd::prelude::*;

verus! {

/// A benchmark and its arguments.
#[derive(Clone, Copy, Debug, PartialEq, Eq, Structural)]
pub enum BenchCmd {
    /// The `chameleon` benchmark.
    Chameleon { arg1: u64, arg2: u64 },
    /// The `cnn_serving` benchmark.
    CNNServing { arg: u64 },
    /// The `helloworld` benchmark.
    HelloWorld,
    /// The `image_rotate` benchmark.
    ImageRotate { arg: u64 },
    /// The `json_serdes` benchmark.
    JSONSerdes { arg: u64 },
    /// The `lr_serving` benchmark.
    LRServing { arg: u64 },
    /// The `lr_training` benchmark.
    LRTraining { arg: u64 },
    /// The `matmul_fb` benchmark.
    MatMulFb { arg1: u64, arg2: u64 },
    /// The `matmul_fbpml` benchmark.
    MatMulFbpml,
    /// The `pyaes` benchmark.
    PyAES,
    /// The `rnn_serving` benchmark, which is not implemented.
    RNNServing { arg: u64 },
    /// The `video_processing` benchmark.
    VideoProcessing { arg: u64 },
}

/// The shape of a call to the benchmark service: how many numbers it takes.
#[derive(Clone, Copy, Debug, PartialEq, Eq, Structural)]
pub enum CallShape {
    /// A call without arguments.
    ZeroArgs,
    /// A call with one number.
    OneArg(u64),
    /// A call with two numbers.
    TwoArgs(u64, u64),
    /// No call at all: asking for it always fails.
    NotImplemented,
}

/// One call to be made: where to, and with what.
#[derive(Clone, Debug, PartialEq, Eq)]
pub struct Invocation {
    /// The address of the sandbox's service.
    pub address: String,
    /// The shape of the call; never `NotImplemented`.
    pub shape: CallShape,
}

/// How one call ended.
#[derive(Clone, Copy, Debug, PartialEq, Eq, Structural)]
pub enum Reply {
    /// The service answered; `client` is the time that the call took.
    Answered { client: Delay, response: ServiceResponse },
    /// The service could not be reached, or the handshake failed.
    Unreachable,
    /// The connection stood, and the call itself failed.
    Failed,
}

/// Why a benchmark call came to nothing.
#[derive(Clone, Copy, Debug, PartialEq, Eq, Structural)]
pub enum BenchError {
    /// The service could not be reached.
    Connection,
    /// The remote call failed.
    Rpc,
    /// The benchmark is one that is not implemented.
    NotImplemented,
}

impl BenchCmd {
    /// The shape of the call that this benchmark takes.
    pub open spec fn call_shape(self) -> CallShape {
        match self {
            BenchCmd::HelloWorld | BenchCmd::MatMulFbpml | BenchCmd::PyAES => CallShape::ZeroArgs,
            BenchCmd::CNNServing { arg }
            | BenchCmd::ImageRotate { arg }
            | BenchCmd::JSONSerdes { arg }
            | BenchCmd::LRServing { arg }
            | BenchCmd::LRTraining { arg }
            | BenchCmd::VideoProcessing { arg } => CallShape::OneArg(arg),
            BenchCmd::Chameleon { arg1, arg2 } | BenchCmd::MatMulFb { arg1, arg2 } => CallShape::TwoArgs(
                arg1,
                arg2,
            ),
            BenchCmd::RNNServing { arg } => CallShape::NotImplemented,
        }
    }

    /// The shape of the call that this benchmark takes.
    pub fn shape(&self) -> (s: CallShape)
        ensures
            s == self.call_shape(),
    {
        match self {
            BenchCmd::HelloWorld | BenchCmd::MatMulFbpml | BenchCmd::PyAES => CallShape::ZeroArgs,
            BenchCmd::CNNServing { arg }
            | BenchCmd::ImageRotate { arg }
            | BenchCmd::JSONSerdes { arg }
            | BenchCmd::LRServing { arg }
            | BenchCmd::LRTraining { arg }
            | BenchCmd::VideoProcessing { arg } => CallShape::OneArg(*arg),
            BenchCmd::Chameleon { arg1, arg2 } | BenchCmd::MatMulFb { arg1, arg2 } => CallShape::TwoArgs(
                *arg1,
                *arg2,
            ),
            BenchCmd::RNNServing { arg: _ } => CallShape::NotImplemented,
        }
    }

    /// The one call to make for this benchmark against `address_port`. A
    /// benchmark that is not implemented fails here, before anything is sent.
    pub fn issue(&self, address_port: String) -> (r: Result<Invocation, BenchError>)
        ensures
            self.call_shape() is NotImplemented <==> r is Err,
            r matches Err(e) ==> e == BenchError::NotImplemented,
            r matches Ok(call) ==> call.address == address_port && call.shape == self.call_shape(),
    {
        match self.shape() {
            CallShape::NotImplemented => Err(BenchError::NotImplemented),
            shape => Ok(Invocation { address: address_port, shape }),
        }
    }
}

/// The delays that a reply stands for.
pub open spec fn reply_delays(client: Delay, response: ServiceResponse) -> Delays {
    Delays { client, server: Delay { nanos: server_nanos(response) as u128 } }
}

impl Reply {
    /// The delays of an answered call, or the error of one that was not
    /// answered. The server's delay is zero where the answer carries none.
    pub fn delays(self) -> (r: Result<Delays, BenchError>)
        ensures
            match self {
                Reply::Answered { client, response } => r == Ok::<Delays, BenchError>(
                    reply_delays(client, response),
                ),
                Reply::Unreachable => r == Err::<Delays, BenchError>(BenchError::Connection),
                Reply::Failed => r == Err::<Delays, BenchError>(BenchError::Rpc),
            },
    {
        match self {
            Reply::Answered { client, response } => Ok(Delays::from((client, response))),
            Reply::Unreachable => Err(BenchError::Connection),
            Reply::Failed => Err(BenchError::Rpc),
        }
    }
}

} // verus!
