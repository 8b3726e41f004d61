//! Status codes of the engine and the error taxonomy they map to.
use vstd::prelude::*;

use crate::native_enum::NativeEnum;

verus! {

/// The closed set of failures that engine operations report.
#[derive(Debug, Clone, Copy, PartialEq, Eq, Hash, Structural)]
pub enum Error {
    /// The engine library and this layer disagree on the interface version.
    InvalidLibraryVersion,
    /// The caller broke a precondition of the operation.
    InvalidArguments,
    /// The engine reached a state it considers impossible.
    InternalInconsistency,
}

impl Error {
    /// The sentence that describes each failure.
    pub open spec fn message_text(self) -> Seq<char> {
        match self {
            Error::InvalidLibraryVersion => "There has been a serious breakage in the embedder API. The version of the engine that this library was compiled against is fundamentally incompatible with the version of the engine that is present on the current system."@,
            Error::InvalidArguments => "Invalid arguments were passed to a function. You should check the documentation for the function you are calling to see what you might have done wrong."@,
            Error::InternalInconsistency => "Internal inconsistency; this is likely a bug in the engine"@,
        }
    }

    /// A sentence that describes the failure.
    pub fn message(&self) -> (r: &'static str)
        ensures
            r@ == self.message_text(),
    {
        match self {
            Error::InvalidLibraryVersion => {
                proof {
                    reveal_strlit("There has been a serious breakage in the embedder API. The version of the engine that this library was compiled against is fundamentally incompatible with the version of the engine that is present on the current system.");
                }
                "There has been a serious breakage in the embedder API. The version of the engine that this library was compiled against is fundamentally incompatible with the version of the engine that is present on the current system."
            },
            Error::InvalidArguments => {
                proof {
                    reveal_strlit("Invalid arguments were passed to a function. You should check the documentation for the function you are calling to see what you might have done wrong.");
                }
                "Invalid arguments were passed to a function. You should check the documentation for the function you are calling to see what you might have done wrong."
            },
            Error::InternalInconsistency => {
                proof {
                    reveal_strlit("Internal inconsistency; this is likely a bug in the engine");
                }
                "Internal inconsistency; this is likely a bug in the engine"
            },
        }
    }
}

/// The outcome of an engine call, as the engine reports it.
#[derive(Debug, Clone, Copy, PartialEq, Eq, Hash, Structural)]
pub enum EngineResult {
    Success,
    InvalidLibraryVersion,
    InvalidArguments,
    InternalInconsistency,
}

impl EngineResult {
    /// The outcome as a `Result` of the error taxonomy.
    pub open spec fn as_result(self) -> Result<(), Error> {
        match self {
            EngineResult::Success => Ok(()),
            EngineResult::InvalidLibraryVersion => Err(Error::InvalidLibraryVersion),
            EngineResult::InvalidArguments => Err(Error::InvalidArguments),
            EngineResult::InternalInconsistency => Err(Error::InternalInconsistency),
        }
    }

    pub fn into_result(self) -> (r: Result<(), Error>)
        ensures
            r == self.as_result(),
    {
        match self {
            EngineResult::Success => Ok(()),
            EngineResult::InvalidLibraryVersion => Err(Error::InvalidLibraryVersion),
            EngineResult::InvalidArguments => Err(Error::InvalidArguments),
            EngineResult::InternalInconsistency => Err(Error::InternalInconsistency),
        }
    }
}

impl NativeEnum for EngineResult {
    open spec fn code(self) -> u32 {
        match self {
            EngineResult::Success => 0,
            EngineResult::InvalidLibraryVersion => 1,
            EngineResult::InvalidArguments => 2,
            EngineResult::InternalInconsistency => 3,
        }
    }

    open spec fn of_code(raw: u32) -> Option<Self> {
        if raw == 0 {
            Some(EngineResult::Success)
        } else if raw == 1 {
            Some(EngineResult::InvalidLibraryVersion)
        } else if raw == 2 {
            Some(EngineResult::InvalidArguments)
        } else if raw == 3 {
            Some(EngineResult::InternalInconsistency)
        } else {
            None
        }
    }

    fn to_raw(self) -> (r: u32) {
        match self {
            EngineResult::Success => 0,
            EngineResult::InvalidLibraryVersion => 1,
            EngineResult::InvalidArguments => 2,
            EngineResult::InternalInconsistency => 3,
        }
    }

    fn from_raw(raw: u32) -> (r: Result<Self, u32>) {
        if raw == 0 {
            Ok(EngineResult::Success)
        } else if raw == 1 {
            Ok(EngineResult::InvalidLibraryVersion)
        } else if raw == 2 {
            Ok(EngineResult::InvalidArguments)
        } else if raw == 3 {
            Ok(EngineResult::InternalInconsistency)
        } else {
            Err(raw)
        }
    }

    proof fn lemma_round_trip(self) {
    }

    proof fn lemma_code_of_decoded(raw: u32) {
    }
}

/// A status code exactly as an engine entry point returns it.
#[derive(Debug, Clone, Copy, PartialEq, Eq, Hash, Structural)]
pub struct FlutterEngineResult(pub u32);

impl FlutterEngineResult {
    /// The engine documents its status codes as exhaustive: a code outside
    /// them means that the library and this layer disagree.
    pub open spec fn is_known(self) -> bool {
        EngineResult::of_code(self.0) is Some
    }

    /// What the status code means in the error taxonomy.
    pub open spec fn result(self) -> Result<(), Error>
        recommends
            self.is_known(),
    {
        EngineResult::of_code(self.0).unwrap().as_result()
    }

    /// Maps the status code to the error taxonomy.
    pub fn to_result(self) -> (r: Result<(), Error>)
        requires
            self.is_known(),
        ensures
            r == self.result(),
    {
        match EngineResult::from_raw(self.0) {
            Ok(result) => result.into_result(),
            Err(_) => Ok(()),
        }
    }
}

} // verus!
