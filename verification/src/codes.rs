//! The integer codes that the engine expects for each closed set of options,
//! and the way back from a code to the option it stands for.

use std::cmp::Ordering;
use vstd::prelude::*;

verus! {

/// Threshold below which the engine drops log messages.
///
/// The severities are ordered from the most to the least talkative:
/// `Debug < Info < Warning < Error < Off`, as their codes are.
#[derive(Clone, Copy, Debug, PartialEq, Eq, Ord, Structural)]
pub enum LogSeverity {
    Debug,
    Info,
    Warning,
    Error,
    /// Nothing is logged.
    Off,
}

impl LogSeverity {
    /// The code of each severity.
    pub open spec fn spec_code(self) -> i32 {
        match self {
            LogSeverity::Debug => 0,
            LogSeverity::Info => 1,
            LogSeverity::Warning => 2,
            LogSeverity::Error => 3,
            LogSeverity::Off => 4,
        }
    }

    /// The severity that a code stands for, if any.
    pub open spec fn spec_from_code(code: i32) -> Option<LogSeverity> {
        if code == 0 {
            Some(LogSeverity::Debug)
        } else if code == 1 {
            Some(LogSeverity::Info)
        } else if code == 2 {
            Some(LogSeverity::Warning)
        } else if code == 3 {
            Some(LogSeverity::Error)
        } else if code == 4 {
            Some(LogSeverity::Off)
        } else {
            None
        }
    }

    /// The code handed to the engine for this severity.
    #[verifier::when_used_as_spec(spec_code)]
    pub fn code(self) -> (c: i32)
        ensures
            c == self.spec_code(),
            0 <= c <= 4,
    {
        match self {
            LogSeverity::Debug => 0,
            LogSeverity::Info => 1,
            LogSeverity::Warning => 2,
            LogSeverity::Error => 3,
            LogSeverity::Off => 4,
        }
    }

    /// The severity whose code is `code`; `None` when no severity has it.
    pub fn from_code(code: i32) -> (r: Option<LogSeverity>)
        ensures
            r == Self::spec_from_code(code),
            match r {
                Some(level) => level.spec_code() == code,
                None => forall|level: LogSeverity| level.spec_code() != code,
            },
    {
        match code {
            0 => Some(LogSeverity::Debug),
            1 => Some(LogSeverity::Info),
            2 => Some(LogSeverity::Warning),
            3 => Some(LogSeverity::Error),
            4 => Some(LogSeverity::Off),
            _ => None,
        }
    }

    /// Every severity comes back from its own code.
    pub proof fn lemma_code_round_trip(self)
        ensures
            Self::spec_from_code(self.spec_code()) == Some(self),
    {
    }
}

impl PartialOrd for LogSeverity {
    /// Severities compare as their codes do.
    fn partial_cmp(&self, other: &LogSeverity) -> (r: Option<Ordering>) {
        let a: i32 = self.code();
        let b: i32 = other.code();
        if a < b {
            Some(Ordering::Less)
        } else if a == b {
            Some(Ordering::Equal)
        } else {
            Some(Ordering::Greater)
        }
    }
}

impl vstd::std_specs::cmp::PartialOrdSpecImpl for LogSeverity {
    open spec fn obeys_partial_cmp_spec() -> bool {
        true
    }

    open spec fn partial_cmp_spec(&self, other: &LogSeverity) -> Option<Ordering> {
        if self.spec_code() < other.spec_code() {
            Some(Ordering::Less)
        } else if self.spec_code() == other.spec_code() {
            Some(Ordering::Equal)
        } else {
            Some(Ordering::Greater)
        }
    }
}

/// Whether a store is shared between processes.
#[derive(Clone, Copy, Debug, PartialEq, Eq, Structural)]
pub enum ProcessSharing {
    /// One process has the store to itself.
    Single,
    /// Several processes may open the store; the engine locks between them.
    Multi,
}

/// Bit of the mode code that stands for [`ProcessSharing::Single`].
pub const SINGLE_PROCESS: u32 = 1;

/// Bit of the mode code that stands for [`ProcessSharing::Multi`].
pub const MULTI_PROCESS: u32 = 2;

/// Bit of the mode code that opens a store for reading only.
pub const READ_ONLY: u32 = 32;

/// How a store is opened: exactly one way of sharing it, with or without
/// the right to write.
#[derive(Clone, Copy, Debug, PartialEq, Eq, Structural)]
pub struct ModeFlags {
    pub sharing: ProcessSharing,
    pub read_only: bool,
}

impl ModeFlags {
    /// The mode code: the sharing bit, together with [`READ_ONLY`] where the
    /// store is opened for reading only.
    pub open spec fn spec_code(self) -> u32 {
        match (self.sharing, self.read_only) {
            (ProcessSharing::Single, false) => 1,
            (ProcessSharing::Multi, false) => 2,
            (ProcessSharing::Single, true) => 33,
            (ProcessSharing::Multi, true) => 34,
        }
    }

    /// The mode that a code stands for. A code stands for a mode when it
    /// holds one of the two sharing bits, not both, and no bit besides
    /// these and [`READ_ONLY`].
    pub open spec fn spec_from_code(code: u32) -> Option<ModeFlags> {
        if code == 1 {
            Some(ModeFlags { sharing: ProcessSharing::Single, read_only: false })
        } else if code == 2 {
            Some(ModeFlags { sharing: ProcessSharing::Multi, read_only: false })
        } else if code == 33 {
            Some(ModeFlags { sharing: ProcessSharing::Single, read_only: true })
        } else if code == 34 {
            Some(ModeFlags { sharing: ProcessSharing::Multi, read_only: true })
        } else {
            None
        }
    }

    /// A store for this process alone, open for writing.
    pub fn single_process() -> (m: ModeFlags)
        ensures
            m == (ModeFlags { sharing: ProcessSharing::Single, read_only: false }),
    {
        ModeFlags { sharing: ProcessSharing::Single, read_only: false }
    }

    /// A store shared between processes, open for writing.
    pub fn multi_process() -> (m: ModeFlags)
        ensures
            m == (ModeFlags { sharing: ProcessSharing::Multi, read_only: false }),
    {
        ModeFlags { sharing: ProcessSharing::Multi, read_only: false }
    }

    /// The same way of sharing, open for reading only.
    pub fn with_read_only(self) -> (m: ModeFlags)
        ensures
            m == (ModeFlags { sharing: self.sharing, read_only: true }),
    {
        ModeFlags { sharing: self.sharing, read_only: true }
    }

    /// The code handed to the engine for this mode.
    #[verifier::when_used_as_spec(spec_code)]
    pub fn code(self) -> (c: u32)
        ensures
            c == self.spec_code(),
            (c & SINGLE_PROCESS != 0) == (self.sharing == ProcessSharing::Single),
            (c & MULTI_PROCESS != 0) == (self.sharing == ProcessSharing::Multi),
            (c & READ_ONLY != 0) == self.read_only,
    {
        let sharing: u32 = match self.sharing {
            ProcessSharing::Single => SINGLE_PROCESS,
            ProcessSharing::Multi => MULTI_PROCESS,
        };
        let access: u32 = if self.read_only {
            READ_ONLY
        } else {
            0
        };
        assert(1u32 | 0u32 == 1 && 2u32 | 0u32 == 2 && 1u32 | 32u32 == 33 && 2u32 | 32u32 == 34)
            by (bit_vector);
        assert(1u32 & 1u32 != 0 && 1u32 & 2u32 == 0 && 1u32 & 32u32 == 0 && 2u32 & 1u32 == 0
            && 2u32 & 2u32 != 0 && 2u32 & 32u32 == 0 && 33u32 & 1u32 != 0 && 33u32 & 2u32 == 0
            && 33u32 & 32u32 != 0 && 34u32 & 1u32 == 0 && 34u32 & 2u32 != 0 && 34u32 & 32u32 != 0)
            by (bit_vector);
        sharing | access
    }

    /// The mode whose code is `code`; `None` when the code names no sharing
    /// bit, both of them, or a bit that is no mode flag.
    pub fn from_code(code: u32) -> (r: Option<ModeFlags>)
        ensures
            r == Self::spec_from_code(code),
            match r {
                Some(mode) => mode.spec_code() == code,
                None => forall|mode: ModeFlags| mode.spec_code() != code,
            },
    {
        let known: u32 = SINGLE_PROCESS | MULTI_PROCESS | READ_ONLY;
        let single: bool = code & SINGLE_PROCESS != 0;
        let multi: bool = code & MULTI_PROCESS != 0;
        let read_only: bool = code & READ_ONLY != 0;
        assert((code & !(1u32 | 2u32 | 32u32) == 0 && (code & 1u32 != 0) && !(code & 2u32 != 0))
            ==> (code == 1 && !(code & 32u32 != 0)) || (code == 33 && (code & 32u32 != 0)))
            by (bit_vector);
        assert((code & !(1u32 | 2u32 | 32u32) == 0 && !(code & 1u32 != 0) && (code & 2u32 != 0))
            ==> (code == 2 && !(code & 32u32 != 0)) || (code == 34 && (code & 32u32 != 0)))
            by (bit_vector);
        assert((code == 1 || code == 33) ==> (code & !(1u32 | 2u32 | 32u32) == 0 && (code & 1u32
            != 0) && !(code & 2u32 != 0))) by (bit_vector);
        assert((code == 2 || code == 34) ==> (code & !(1u32 | 2u32 | 32u32) == 0 && !(code & 1u32
            != 0) && (code & 2u32 != 0))) by (bit_vector);
        if code & !known != 0 || single == multi {
            None
        } else if single {
            Some(ModeFlags { sharing: ProcessSharing::Single, read_only })
        } else {
            Some(ModeFlags { sharing: ProcessSharing::Multi, read_only })
        }
    }

    /// Every mode comes back from its own code.
    pub proof fn lemma_code_round_trip(self)
        ensures
            Self::spec_from_code(self.spec_code()) == Some(self),
    {
    }
}

/// Whether a flush to disk is waited for.
#[derive(Clone, Copy, Debug, PartialEq, Eq, Structural)]
pub enum SyncFlag {
    /// The call returns once the data is durable.
    Synchronous,
    /// The call returns once the data is buffered.
    Asynchronous,
}

impl SyncFlag {
    /// The code of each flag.
    pub open spec fn spec_code(self) -> i32 {
        match self {
            SyncFlag::Asynchronous => 0,
            SyncFlag::Synchronous => 1,
        }
    }

    /// The flag that a code stands for, if any.
    pub open spec fn spec_from_code(code: i32) -> Option<SyncFlag> {
        if code == 0 {
            Some(SyncFlag::Asynchronous)
        } else if code == 1 {
            Some(SyncFlag::Synchronous)
        } else {
            None
        }
    }

    /// The code handed to the engine for this flag.
    #[verifier::when_used_as_spec(spec_code)]
    pub fn code(self) -> (c: i32)
        ensures
            c == self.spec_code(),
    {
        match self {
            SyncFlag::Asynchronous => 0,
            SyncFlag::Synchronous => 1,
        }
    }

    /// The flag whose code is `code`; `None` when no flag has it.
    pub fn from_code(code: i32) -> (r: Option<SyncFlag>)
        ensures
            r == Self::spec_from_code(code),
            match r {
                Some(flag) => flag.spec_code() == code,
                None => forall|flag: SyncFlag| flag.spec_code() != code,
            },
    {
        match code {
            0 => Some(SyncFlag::Asynchronous),
            1 => Some(SyncFlag::Synchronous),
            _ => None,
        }
    }

    /// Every flag comes back from its own code.
    pub proof fn lemma_code_round_trip(self)
        ensures
            Self::spec_from_code(self.spec_code()) == Some(self),
    {
    }
}

/// What the engine does with a store that it finds damaged.
#[derive(Clone, Copy, Debug, PartialEq, Eq, Structural)]
pub enum RecoverStrategy {
    /// The damaged data is thrown away.
    DiscardOnError,
    /// The engine keeps what it can still read.
    RecoverOnError,
}

impl RecoverStrategy {
    /// The code of each strategy.
    pub open spec fn spec_code(self) -> i32 {
        match self {
            RecoverStrategy::DiscardOnError => 0,
            RecoverStrategy::RecoverOnError => 1,
        }
    }

    /// The strategy that a code stands for, if any.
    pub open spec fn spec_from_code(code: i32) -> Option<RecoverStrategy> {
        if code == 0 {
            Some(RecoverStrategy::DiscardOnError)
        } else if code == 1 {
            Some(RecoverStrategy::RecoverOnError)
        } else {
            None
        }
    }

    /// The code handed to the engine for this strategy.
    #[verifier::when_used_as_spec(spec_code)]
    pub fn code(self) -> (c: i32)
        ensures
            c == self.spec_code(),
    {
        match self {
            RecoverStrategy::DiscardOnError => 0,
            RecoverStrategy::RecoverOnError => 1,
        }
    }

    /// The strategy whose code is `code`; `None` when no strategy has it.
    pub fn from_code(code: i32) -> (r: Option<RecoverStrategy>)
        ensures
            r == Self::spec_from_code(code),
            match r {
                Some(strategy) => strategy.spec_code() == code,
                None => forall|strategy: RecoverStrategy| strategy.spec_code() != code,
            },
    {
        match code {
            0 => Some(RecoverStrategy::DiscardOnError),
            1 => Some(RecoverStrategy::RecoverOnError),
            _ => None,
        }
    }

    /// Every strategy comes back from its own code.
    pub proof fn lemma_code_round_trip(self)
        ensures
            Self::spec_from_code(self.spec_code()) == Some(self),
    {
    }
}

/// The kinds of damage that the engine reports.
#[derive(Clone, Copy, Debug, PartialEq, Eq, Structural)]
pub enum ErrorKind {
    /// The checksum of a store does not match its contents.
    CrcCheckFailure,
    /// The length recorded in a store does not match its file.
    FileLengthMismatch,
}

impl ErrorKind {
    /// The code of each kind, in the order of declaration.
    pub open spec fn spec_code(self) -> i32 {
        match self {
            ErrorKind::CrcCheckFailure => 0,
            ErrorKind::FileLengthMismatch => 1,
        }
    }

    /// The kind that a code stands for, if any.
    pub open spec fn spec_from_code(code: i32) -> Option<ErrorKind> {
        if code == 0 {
            Some(ErrorKind::CrcCheckFailure)
        } else if code == 1 {
            Some(ErrorKind::FileLengthMismatch)
        } else {
            None
        }
    }

    /// The code under which the engine reports this kind.
    #[verifier::when_used_as_spec(spec_code)]
    pub fn code(self) -> (c: i32)
        ensures
            c == self.spec_code(),
    {
        match self {
            ErrorKind::CrcCheckFailure => 0,
            ErrorKind::FileLengthMismatch => 1,
        }
    }

    /// The kind reported under `code`; `None` when the code is unknown.
    pub fn from_code(code: i32) -> (r: Option<ErrorKind>)
        ensures
            r == Self::spec_from_code(code),
            match r {
                Some(kind) => kind.spec_code() == code,
                None => forall|kind: ErrorKind| kind.spec_code() != code,
            },
    {
        match code {
            0 => Some(ErrorKind::CrcCheckFailure),
            1 => Some(ErrorKind::FileLengthMismatch),
            _ => None,
        }
    }

    /// Every kind comes back from its own code.
    pub proof fn lemma_code_round_trip(self)
        ensures
            Self::spec_from_code(self.spec_code()) == Some(self),
    {
    }
}

} // verus!
