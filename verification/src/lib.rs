//! Byte-pattern compiler, matcher, scanner and signature synthesizer.
//!
//! A pattern is a fixed-length sequence of tokens, each either an exact byte
//! or a one-byte wildcard.  Patterns are compiled from three textual
//! notations, matched against byte windows, slid across memory ranges to
//! collect match offsets, and synthesized from a target location so that the
//! result is unique within a bounding range.

mod sealed;

pub mod bits;
pub mod dynamic;
pub mod entries;
pub mod error;
pub mod flags;
pub mod global;
pub mod info;
pub mod lazy;
pub mod linked;
pub mod pattern;
pub mod prot;
pub mod ptr;
pub mod scan;
pub mod style;
pub mod synth;
pub mod tstr;
pub mod unicode;

pub use bits::{BitField, BitFieldMut, BitInteger};
pub use dynamic::DynPattern;
pub use entries::{MemoryRegion, ProcessEntry, ThreadEntry};
pub use error::{MfError, PatternError};
pub use flags::{AllocationType, FreeType, MemoryProtection, ProcessRights, ThreadRights};
pub use info::{ModuleInfo, ModuleInfoWithName, VmtPtr};
pub use lazy::{CellState, Function, Global, ResolveBy, StaticCell};
pub use linked::ListEntry;
pub use pattern::{single, ByteMatch, Matcher, Pattern};
pub use prot::Protection;
pub use ptr::{Flow, MutPtr, NullError, Ptr};
pub use scan::{find_pattern, RemoteScan};
pub use style::__ida_peid_count;
pub use synth::synthesize;
pub use tstr::TStr;
pub use unicode::UnicodeString;
