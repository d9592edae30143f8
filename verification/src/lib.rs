//! Verified core of a forwarding shim for the REX audio-slicing engine.
//!
//! The shim takes the place of the vendor's shared library, under that
//! library's own name. On first use it finds the real library, loads it and
//! resolves the fourteen entry points the engine exports; from then on every
//! call is handed through unchanged.
//!
//! This crate holds the decisions: which file to load, in which order the
//! entry points are resolved, when the shim is ready, when it has failed
//! for good, and which address each call is forwarded to. Touching the
//! dynamic loader and jumping to a foreign address are left to the caller,
//! who reports what happened and is told what to do next.
//!
//! * [`operation`]: the fourteen entry points and their symbols.
//! * [`locate`]: where the real library is expected.
//! * [`loader`]: lazy loading as a state machine; [`initialize`] starts it.
//! * [`table`]: the table of resolved addresses.
//! * [`forward`]: one forwarding function for each entry point.
//! * [`laws`]: what holds of every run of the loader.

pub mod forward;
pub mod laws;
pub mod loader;
pub mod locate;
pub mod operation;
pub mod table;

pub use forward::{
    REXCreate, REXDelete, REXGetCreatorInfo, REXGetInfo, REXGetInfoFromBuffer, REXGetSliceInfo,
    REXInitializeDLL, REXRenderPreviewBatch, REXRenderSlice, REXSetOutputSampleRate,
    REXSetPreviewTempo, REXStartPreview, REXStopPreview, REXUninitializeDLL,
};
pub use loader::{initialize, Action, Event, Failure, Loader, Phase};
pub use locate::{sibling_path, Strategy, LIBRARY_NAME};
pub use operation::{Operation, OPERATION_COUNT};
pub use table::SymbolTable;
