//! Ahead-of-time compiled application code.
use vstd::prelude::*;

use crate::error::{Error, FlutterEngineResult};

verus! {

/// Where the engine can find AOT data.
#[derive(Debug, PartialEq, Eq)]
pub enum AOTDataSource {
    /// Absolute path to an ELF library file.
    ElfPath(String),
}

/// AOT data that the engine created. It is shared by the engines that run
/// with it, and must stay alive while any of them might read it.
pub struct AOTData {
    data: usize,
}

impl AOTData {
    pub closed spec fn handle(&self) -> usize {
        self.data
    }

    /// Takes the AOT data that the engine's create call returned, if that
    /// call succeeded.
    pub fn new(status: FlutterEngineResult, data: usize) -> (r: Result<AOTData, Error>)
        requires
            status.is_known(),
        ensures
            r is Ok <==> status.result() is Ok,
            r matches Err(e) ==> status.result() == Err::<(), Error>(e),
            r matches Ok(aot) ==> aot.handle() == data,
    {
        match status.to_result() {
            Ok(()) => Ok(AOTData { data }),
            Err(e) => Err(e),
        }
    }

    /// The engine's handle of the data.
    pub fn data(&self) -> (r: usize)
        ensures
            r == self.handle(),
    {
        self.data
    }
}

} // verus!
